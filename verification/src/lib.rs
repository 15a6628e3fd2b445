//! Verified core of a GPU video encoding and decoding library: adapter and queue selection,
//! capability reporting, encoder parameter validation and rate control, IDR cadence and
//! reference bookkeeping, decode ordering, semaphore and image-layout bookkeeping, NV12
//! DMA-BUF layout validation and sync files, VideoToolbox session decisions, transcoder
//! planning, and Annex B bitstream framing.

pub mod adapter;
pub mod annexb;
pub mod capabilities;
pub mod decode_order;
pub mod decoder_events;
pub mod dmabuf_sync;
pub mod encoder_state;
pub mod fx_table;
pub mod layout_tracker;
pub mod nv12;
pub mod params;
pub mod sync_state;
pub mod text;
pub mod transcode_plan;
pub mod vt_backend;
pub mod vt_decoder;
pub mod vt_encoder;
pub mod vt_error;
pub mod vulkan_params;

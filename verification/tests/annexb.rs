use gpu_video::annexb::{
    h264_parameter_set_kind, h265_parameter_set_kind, write_sample_as_annex_b, AnnexBError,
    H26xStreamParameters, ParameterSetError, ParameterSetKind, StreamCodec,
};

#[test]
fn length_prefixed_sample_becomes_annex_b() {
    let sample = [0, 0, 0, 2, 0x65, 0xaa, 0, 0, 0, 1, 0x41];
    let mut out = vec![9];
    write_sample_as_annex_b(&sample, 4, &mut out).unwrap();
    assert_eq!(out, vec![9, 0, 0, 0, 1, 0x65, 0xaa, 0, 0, 0, 1, 0x41]);
}

#[test]
fn short_length_prefixes_are_read_big_endian() {
    let mut payload = vec![0u8; 0x102];
    payload[0] = 0x65;
    let mut sample = vec![0x01, 0x02];
    sample.extend_from_slice(&payload);
    let mut out = Vec::new();
    write_sample_as_annex_b(&sample, 2, &mut out).unwrap();
    let mut expected = vec![0, 0, 0, 1];
    expected.extend_from_slice(&payload);
    assert_eq!(out, expected);
}

#[test]
fn empty_sample_writes_nothing() {
    let mut out = vec![1, 2];
    write_sample_as_annex_b(&[], 4, &mut out).unwrap();
    assert_eq!(out, vec![1, 2]);
}

#[test]
fn truncated_nal_is_rejected() {
    let mut out = Vec::new();
    assert_eq!(
        write_sample_as_annex_b(&[0, 0, 0, 5, 1, 2], 4, &mut out),
        Err(AnnexBError::TruncatedSample)
    );
    assert_eq!(write_sample_as_annex_b(&[0, 0], 4, &mut out), Err(AnnexBError::TruncatedSample));
}

#[test]
fn h264_parameter_set_kinds() {
    assert_eq!(h264_parameter_set_kind(&[0x67, 1]), Some(ParameterSetKind::Sps));
    assert_eq!(h264_parameter_set_kind(&[0x68]), Some(ParameterSetKind::Pps));
    assert_eq!(h264_parameter_set_kind(&[0x65]), None);
    assert_eq!(h264_parameter_set_kind(&[]), None);
}

#[test]
fn h265_parameter_set_kinds() {
    assert_eq!(h265_parameter_set_kind(&[0x40, 0x01]), Some(ParameterSetKind::Vps));
    assert_eq!(h265_parameter_set_kind(&[0x42, 0x01]), Some(ParameterSetKind::Sps));
    assert_eq!(h265_parameter_set_kind(&[0x44, 0x01]), Some(ParameterSetKind::Pps));
    assert_eq!(h265_parameter_set_kind(&[0x26, 0x01]), None);
}

#[test]
fn stream_parameters_keep_sets_in_order() {
    let mut params = H26xStreamParameters::new(4);
    params.push_parameter_set(StreamCodec::H264, &[0x67, 1, 2]);
    params.push_parameter_set(StreamCodec::H264, &[0x06, 9]);
    params.push_parameter_set(StreamCodec::H264, &[0x68, 3]);
    params.push_parameter_set(StreamCodec::H264, &[0x67, 4]);
    assert_eq!(params.sample_nal_length_size(), 4);
    assert_eq!(
        params.keyframe_prefix(),
        &vec![0, 0, 0, 1, 0x67, 1, 2, 0, 0, 0, 1, 0x68, 3, 0, 0, 0, 1, 0x67, 4]
    );
    assert_eq!(
        params.parameter_sets_of(ParameterSetKind::Sps),
        Ok(vec![0, 0, 0, 1, 0x67, 1, 2, 0, 0, 0, 1, 0x67, 4])
    );
    assert_eq!(params.parameter_sets_of(ParameterSetKind::Pps), Ok(vec![0, 0, 0, 1, 0x68, 3]));
    assert_eq!(
        params.parameter_sets_of(ParameterSetKind::Vps),
        Err(ParameterSetError::MissingParameterSet(ParameterSetKind::Vps))
    );
}

#[test]
fn stream_parameters_from_a_format_description() {
    let nals = vec![vec![0x40, 0x01], vec![0x42, 0x01, 7], vec![0x26, 0x01], vec![0x44, 0x01], vec![]];
    let params = H26xStreamParameters::from_parameter_sets(StreamCodec::H265, 4, &nals);
    assert_eq!(
        params.keyframe_prefix(),
        &vec![0, 0, 0, 1, 0x40, 0x01, 0, 0, 0, 1, 0x42, 0x01, 7, 0, 0, 0, 1, 0x44, 0x01]
    );
    assert_eq!(params.parameter_sets_of(ParameterSetKind::Sps), Ok(vec![0, 0, 0, 1, 0x42, 0x01, 7]));
    assert_eq!(params.parameter_sets_of(ParameterSetKind::Vps), Ok(vec![0, 0, 0, 1, 0x40, 0x01]));

    // The same bytes read as H.264 hold no parameter set.
    let h264 = H26xStreamParameters::from_parameter_sets(StreamCodec::H264, 4, &nals);
    assert!(h264.keyframe_prefix().is_empty());
    assert_eq!(
        h264.parameter_sets_of(ParameterSetKind::Sps),
        Err(ParameterSetError::MissingParameterSet(ParameterSetKind::Sps))
    );
}

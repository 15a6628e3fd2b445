use vstd::prelude::*;

use crate::text::{owned, push_signed_decimal, signed_decimal};

verus! {

/// Errors reported by VideoToolbox, CoreMedia and CoreVideo as `OSStatus` codes.
#[derive(Debug, Clone, Copy, PartialEq, Eq, Structural)]
pub enum OSStatusError {
    VTPropertyNotSupported,
    VTPropertyReadOnly,
    VTParameter,
    VTInvalidSession,
    VTAllocationFailed,
    VTCouldNotFindVideoDecoder,
    VTCouldNotCreateInstance,
    VTFormatDescriptionChangeNotSupported,
    VTVideoDecoderBadData,
    VTVideoDecoderUnsupportedDataFormat,
    VTVideoDecoderMalfunction,
    VTVideoDecoderNotAvailableNow,
    VTVideoDecoderAuthorization,
    VTVideoDecoderRemoved,
    VTSessionMalfunction,
    VTVideoDecoderReferenceMissing,
    VTVideoDecoderCallbackMessaging,
    VTVideoDecoderUnknown,
    VTCouldNotFindVideoEncoder,
    VTVideoEncoderMalfunction,
    VTVideoEncoderNotAvailableNow,
    VTVideoEncoderAuthorization,
    VTVideoEncoderNeedsRosetta,
    VTVideoEncoderAutoWhiteBalanceNotLocked,
    CMBlockBufferStructureAllocationFailed,
    CMBlockBufferBlockAllocationFailed,
    CMBlockBufferBadCustomBlockSource,
    CMBlockBufferBadOffsetParameter,
    CMBlockBufferBadLengthParameter,
    CMBlockBufferBadPointerParameter,
    CMBlockBufferEmptyBBuf,
    CMBlockBufferUnallocatedBlock,
    CMBlockBufferInsufficientSpace,
    CMFormatDescriptionInvalidParameter,
    CMFormatDescriptionAllocationFailed,
    CMSampleBufferAllocationFailed,
    CMSampleBufferRequiredParameterMissing,
    CMSampleBufferAlreadyHasDataBuffer,
    CMSampleBufferBufferNotReady,
    CMSampleBufferSampleIndexOutOfRange,
    CMSampleBufferBufferHasNoSampleSizes,
    CMSampleBufferBufferHasNoSampleTimingInfo,
    CMSampleBufferArrayTooSmall,
    CMSampleBufferInvalidEntryCount,
    CMSampleBufferCannotSubdivide,
    CMSampleBufferSampleTimingInfoInvalid,
    CMSampleBufferInvalidMediaTypeForOperation,
    CMSampleBufferInvalidSampleData,
    CMSampleBufferInvalidMediaFormat,
    CMSampleBufferInvalidated,
    CMSampleBufferDataFailed,
    CMSampleBufferDataCanceled,
    CVInvalidArgument,
    CVAllocationFailed,
    CVUnsupported,
    CVInvalidPixelFormat,
    CVInvalidSize,
    CVInvalidPixelBufferAttributes,
    CVPixelBufferNotMetalCompatible,
    CVRetry,
    Unknown(i32),
}

/// The error an `OSStatus` code stands for, by the values of the VideoToolbox, CoreMedia and
/// CoreVideo headers; unknown codes are kept as they are.
pub open spec fn spec_os_status_error(code: i32) -> OSStatusError {
    if code == -12900 {
        OSStatusError::VTPropertyNotSupported
    } else if code == -12901 {
        OSStatusError::VTPropertyReadOnly
    } else if code == -12902 {
        OSStatusError::VTParameter
    } else if code == -12903 {
        OSStatusError::VTInvalidSession
    } else if code == -12904 {
        OSStatusError::VTAllocationFailed
    } else if code == -12906 {
        OSStatusError::VTCouldNotFindVideoDecoder
    } else if code == -12907 {
        OSStatusError::VTCouldNotCreateInstance
    } else if code == -12916 {
        OSStatusError::VTFormatDescriptionChangeNotSupported
    } else if code == -12909 {
        OSStatusError::VTVideoDecoderBadData
    } else if code == -12910 {
        OSStatusError::VTVideoDecoderUnsupportedDataFormat
    } else if code == -12911 {
        OSStatusError::VTVideoDecoderMalfunction
    } else if code == -12913 {
        OSStatusError::VTVideoDecoderNotAvailableNow
    } else if code == -12210 {
        OSStatusError::VTVideoDecoderAuthorization
    } else if code == -17690 {
        OSStatusError::VTVideoDecoderRemoved
    } else if code == -17691 {
        OSStatusError::VTSessionMalfunction
    } else if code == -17694 {
        OSStatusError::VTVideoDecoderReferenceMissing
    } else if code == -17695 {
        OSStatusError::VTVideoDecoderCallbackMessaging
    } else if code == -17696 {
        OSStatusError::VTVideoDecoderUnknown
    } else if code == -12908 {
        OSStatusError::VTCouldNotFindVideoEncoder
    } else if code == -12912 {
        OSStatusError::VTVideoEncoderMalfunction
    } else if code == -12915 {
        OSStatusError::VTVideoEncoderNotAvailableNow
    } else if code == -12211 {
        OSStatusError::VTVideoEncoderAuthorization
    } else if code == -17693 {
        OSStatusError::VTVideoEncoderNeedsRosetta
    } else if code == -19512 {
        OSStatusError::VTVideoEncoderAutoWhiteBalanceNotLocked
    } else if code == -12700 {
        OSStatusError::CMBlockBufferStructureAllocationFailed
    } else if code == -12701 {
        OSStatusError::CMBlockBufferBlockAllocationFailed
    } else if code == -12702 {
        OSStatusError::CMBlockBufferBadCustomBlockSource
    } else if code == -12703 {
        OSStatusError::CMBlockBufferBadOffsetParameter
    } else if code == -12704 {
        OSStatusError::CMBlockBufferBadLengthParameter
    } else if code == -12705 {
        OSStatusError::CMBlockBufferBadPointerParameter
    } else if code == -12706 {
        OSStatusError::CMBlockBufferEmptyBBuf
    } else if code == -12707 {
        OSStatusError::CMBlockBufferUnallocatedBlock
    } else if code == -12708 {
        OSStatusError::CMBlockBufferInsufficientSpace
    } else if code == -12710 {
        OSStatusError::CMFormatDescriptionInvalidParameter
    } else if code == -12711 {
        OSStatusError::CMFormatDescriptionAllocationFailed
    } else if code == -12730 {
        OSStatusError::CMSampleBufferAllocationFailed
    } else if code == -12731 {
        OSStatusError::CMSampleBufferRequiredParameterMissing
    } else if code == -12732 {
        OSStatusError::CMSampleBufferAlreadyHasDataBuffer
    } else if code == -12733 {
        OSStatusError::CMSampleBufferBufferNotReady
    } else if code == -12734 {
        OSStatusError::CMSampleBufferSampleIndexOutOfRange
    } else if code == -12735 {
        OSStatusError::CMSampleBufferBufferHasNoSampleSizes
    } else if code == -12736 {
        OSStatusError::CMSampleBufferBufferHasNoSampleTimingInfo
    } else if code == -12737 {
        OSStatusError::CMSampleBufferArrayTooSmall
    } else if code == -12738 {
        OSStatusError::CMSampleBufferInvalidEntryCount
    } else if code == -12739 {
        OSStatusError::CMSampleBufferCannotSubdivide
    } else if code == -12740 {
        OSStatusError::CMSampleBufferSampleTimingInfoInvalid
    } else if code == -12741 {
        OSStatusError::CMSampleBufferInvalidMediaTypeForOperation
    } else if code == -12742 {
        OSStatusError::CMSampleBufferInvalidSampleData
    } else if code == -12743 {
        OSStatusError::CMSampleBufferInvalidMediaFormat
    } else if code == -12744 {
        OSStatusError::CMSampleBufferInvalidated
    } else if code == -16750 {
        OSStatusError::CMSampleBufferDataFailed
    } else if code == -16751 {
        OSStatusError::CMSampleBufferDataCanceled
    } else if code == -6661 {
        OSStatusError::CVInvalidArgument
    } else if code == -6662 {
        OSStatusError::CVAllocationFailed
    } else if code == -6663 {
        OSStatusError::CVUnsupported
    } else if code == -6680 {
        OSStatusError::CVInvalidPixelFormat
    } else if code == -6681 {
        OSStatusError::CVInvalidSize
    } else if code == -6682 {
        OSStatusError::CVInvalidPixelBufferAttributes
    } else if code == -6684 {
        OSStatusError::CVPixelBufferNotMetalCompatible
    } else if code == -6692 {
        OSStatusError::CVRetry
    } else {
        OSStatusError::Unknown(code)
    }
}

/// The `OSStatus` code an error stands for; the code itself for an unknown one.
pub open spec fn spec_os_status_code(e: OSStatusError) -> i32 {
    match e {
        OSStatusError::VTPropertyNotSupported => -12900i32,
        OSStatusError::VTPropertyReadOnly => -12901i32,
        OSStatusError::VTParameter => -12902i32,
        OSStatusError::VTInvalidSession => -12903i32,
        OSStatusError::VTAllocationFailed => -12904i32,
        OSStatusError::VTCouldNotFindVideoDecoder => -12906i32,
        OSStatusError::VTCouldNotCreateInstance => -12907i32,
        OSStatusError::VTFormatDescriptionChangeNotSupported => -12916i32,
        OSStatusError::VTVideoDecoderBadData => -12909i32,
        OSStatusError::VTVideoDecoderUnsupportedDataFormat => -12910i32,
        OSStatusError::VTVideoDecoderMalfunction => -12911i32,
        OSStatusError::VTVideoDecoderNotAvailableNow => -12913i32,
        OSStatusError::VTVideoDecoderAuthorization => -12210i32,
        OSStatusError::VTVideoDecoderRemoved => -17690i32,
        OSStatusError::VTSessionMalfunction => -17691i32,
        OSStatusError::VTVideoDecoderReferenceMissing => -17694i32,
        OSStatusError::VTVideoDecoderCallbackMessaging => -17695i32,
        OSStatusError::VTVideoDecoderUnknown => -17696i32,
        OSStatusError::VTCouldNotFindVideoEncoder => -12908i32,
        OSStatusError::VTVideoEncoderMalfunction => -12912i32,
        OSStatusError::VTVideoEncoderNotAvailableNow => -12915i32,
        OSStatusError::VTVideoEncoderAuthorization => -12211i32,
        OSStatusError::VTVideoEncoderNeedsRosetta => -17693i32,
        OSStatusError::VTVideoEncoderAutoWhiteBalanceNotLocked => -19512i32,
        OSStatusError::CMBlockBufferStructureAllocationFailed => -12700i32,
        OSStatusError::CMBlockBufferBlockAllocationFailed => -12701i32,
        OSStatusError::CMBlockBufferBadCustomBlockSource => -12702i32,
        OSStatusError::CMBlockBufferBadOffsetParameter => -12703i32,
        OSStatusError::CMBlockBufferBadLengthParameter => -12704i32,
        OSStatusError::CMBlockBufferBadPointerParameter => -12705i32,
        OSStatusError::CMBlockBufferEmptyBBuf => -12706i32,
        OSStatusError::CMBlockBufferUnallocatedBlock => -12707i32,
        OSStatusError::CMBlockBufferInsufficientSpace => -12708i32,
        OSStatusError::CMFormatDescriptionInvalidParameter => -12710i32,
        OSStatusError::CMFormatDescriptionAllocationFailed => -12711i32,
        OSStatusError::CMSampleBufferAllocationFailed => -12730i32,
        OSStatusError::CMSampleBufferRequiredParameterMissing => -12731i32,
        OSStatusError::CMSampleBufferAlreadyHasDataBuffer => -12732i32,
        OSStatusError::CMSampleBufferBufferNotReady => -12733i32,
        OSStatusError::CMSampleBufferSampleIndexOutOfRange => -12734i32,
        OSStatusError::CMSampleBufferBufferHasNoSampleSizes => -12735i32,
        OSStatusError::CMSampleBufferBufferHasNoSampleTimingInfo => -12736i32,
        OSStatusError::CMSampleBufferArrayTooSmall => -12737i32,
        OSStatusError::CMSampleBufferInvalidEntryCount => -12738i32,
        OSStatusError::CMSampleBufferCannotSubdivide => -12739i32,
        OSStatusError::CMSampleBufferSampleTimingInfoInvalid => -12740i32,
        OSStatusError::CMSampleBufferInvalidMediaTypeForOperation => -12741i32,
        OSStatusError::CMSampleBufferInvalidSampleData => -12742i32,
        OSStatusError::CMSampleBufferInvalidMediaFormat => -12743i32,
        OSStatusError::CMSampleBufferInvalidated => -12744i32,
        OSStatusError::CMSampleBufferDataFailed => -16750i32,
        OSStatusError::CMSampleBufferDataCanceled => -16751i32,
        OSStatusError::CVInvalidArgument => -6661i32,
        OSStatusError::CVAllocationFailed => -6662i32,
        OSStatusError::CVUnsupported => -6663i32,
        OSStatusError::CVInvalidPixelFormat => -6680i32,
        OSStatusError::CVInvalidSize => -6681i32,
        OSStatusError::CVInvalidPixelBufferAttributes => -6682i32,
        OSStatusError::CVPixelBufferNotMetalCompatible => -6684i32,
        OSStatusError::CVRetry => -6692i32,
        OSStatusError::Unknown(c) => c,
    }
}

/// Every `OSStatus` code is read as the error that stands for exactly that code: reading a code
/// and taking the code of the error gives the code back, and a named error read from its code
/// is that error again.
pub proof fn law_os_status_codes_round_trip(code: i32, e: OSStatusError)
    ensures
        spec_os_status_code(spec_os_status_error(code)) == code,
        !(e is Unknown) ==> spec_os_status_error(spec_os_status_code(e)) == e,
{
}

impl OSStatusError {
    pub fn from_code(code: i32) -> (r: Self)
        ensures
            r == spec_os_status_error(code),
            spec_os_status_code(r) == code,
    {
        if code == -12900 {
            OSStatusError::VTPropertyNotSupported
        } else if code == -12901 {
            OSStatusError::VTPropertyReadOnly
        } else if code == -12902 {
            OSStatusError::VTParameter
        } else if code == -12903 {
            OSStatusError::VTInvalidSession
        } else if code == -12904 {
            OSStatusError::VTAllocationFailed
        } else if code == -12906 {
            OSStatusError::VTCouldNotFindVideoDecoder
        } else if code == -12907 {
            OSStatusError::VTCouldNotCreateInstance
        } else if code == -12916 {
            OSStatusError::VTFormatDescriptionChangeNotSupported
        } else if code == -12909 {
            OSStatusError::VTVideoDecoderBadData
        } else if code == -12910 {
            OSStatusError::VTVideoDecoderUnsupportedDataFormat
        } else if code == -12911 {
            OSStatusError::VTVideoDecoderMalfunction
        } else if code == -12913 {
            OSStatusError::VTVideoDecoderNotAvailableNow
        } else if code == -12210 {
            OSStatusError::VTVideoDecoderAuthorization
        } else if code == -17690 {
            OSStatusError::VTVideoDecoderRemoved
        } else if code == -17691 {
            OSStatusError::VTSessionMalfunction
        } else if code == -17694 {
            OSStatusError::VTVideoDecoderReferenceMissing
        } else if code == -17695 {
            OSStatusError::VTVideoDecoderCallbackMessaging
        } else if code == -17696 {
            OSStatusError::VTVideoDecoderUnknown
        } else if code == -12908 {
            OSStatusError::VTCouldNotFindVideoEncoder
        } else if code == -12912 {
            OSStatusError::VTVideoEncoderMalfunction
        } else if code == -12915 {
            OSStatusError::VTVideoEncoderNotAvailableNow
        } else if code == -12211 {
            OSStatusError::VTVideoEncoderAuthorization
        } else if code == -17693 {
            OSStatusError::VTVideoEncoderNeedsRosetta
        } else if code == -19512 {
            OSStatusError::VTVideoEncoderAutoWhiteBalanceNotLocked
        } else if code == -12700 {
            OSStatusError::CMBlockBufferStructureAllocationFailed
        } else if code == -12701 {
            OSStatusError::CMBlockBufferBlockAllocationFailed
        } else if code == -12702 {
            OSStatusError::CMBlockBufferBadCustomBlockSource
        } else if code == -12703 {
            OSStatusError::CMBlockBufferBadOffsetParameter
        } else if code == -12704 {
            OSStatusError::CMBlockBufferBadLengthParameter
        } else if code == -12705 {
            OSStatusError::CMBlockBufferBadPointerParameter
        } else if code == -12706 {
            OSStatusError::CMBlockBufferEmptyBBuf
        } else if code == -12707 {
            OSStatusError::CMBlockBufferUnallocatedBlock
        } else if code == -12708 {
            OSStatusError::CMBlockBufferInsufficientSpace
        } else if code == -12710 {
            OSStatusError::CMFormatDescriptionInvalidParameter
        } else if code == -12711 {
            OSStatusError::CMFormatDescriptionAllocationFailed
        } else if code == -12730 {
            OSStatusError::CMSampleBufferAllocationFailed
        } else if code == -12731 {
            OSStatusError::CMSampleBufferRequiredParameterMissing
        } else if code == -12732 {
            OSStatusError::CMSampleBufferAlreadyHasDataBuffer
        } else if code == -12733 {
            OSStatusError::CMSampleBufferBufferNotReady
        } else if code == -12734 {
            OSStatusError::CMSampleBufferSampleIndexOutOfRange
        } else if code == -12735 {
            OSStatusError::CMSampleBufferBufferHasNoSampleSizes
        } else if code == -12736 {
            OSStatusError::CMSampleBufferBufferHasNoSampleTimingInfo
        } else if code == -12737 {
            OSStatusError::CMSampleBufferArrayTooSmall
        } else if code == -12738 {
            OSStatusError::CMSampleBufferInvalidEntryCount
        } else if code == -12739 {
            OSStatusError::CMSampleBufferCannotSubdivide
        } else if code == -12740 {
            OSStatusError::CMSampleBufferSampleTimingInfoInvalid
        } else if code == -12741 {
            OSStatusError::CMSampleBufferInvalidMediaTypeForOperation
        } else if code == -12742 {
            OSStatusError::CMSampleBufferInvalidSampleData
        } else if code == -12743 {
            OSStatusError::CMSampleBufferInvalidMediaFormat
        } else if code == -12744 {
            OSStatusError::CMSampleBufferInvalidated
        } else if code == -16750 {
            OSStatusError::CMSampleBufferDataFailed
        } else if code == -16751 {
            OSStatusError::CMSampleBufferDataCanceled
        } else if code == -6661 {
            OSStatusError::CVInvalidArgument
        } else if code == -6662 {
            OSStatusError::CVAllocationFailed
        } else if code == -6663 {
            OSStatusError::CVUnsupported
        } else if code == -6680 {
            OSStatusError::CVInvalidPixelFormat
        } else if code == -6681 {
            OSStatusError::CVInvalidSize
        } else if code == -6682 {
            OSStatusError::CVInvalidPixelBufferAttributes
        } else if code == -6684 {
            OSStatusError::CVPixelBufferNotMetalCompatible
        } else if code == -6692 {
            OSStatusError::CVRetry
        } else {
            OSStatusError::Unknown(code)
        }
    }
}

/// Turns an `OSStatus` into a result: zero is success, anything else the matching error.
pub fn osstatus(status: i32) -> (r: Result<(), OSStatusError>)
    ensures
        status == 0 ==> r is Ok,
        status != 0 ==> r == Err::<(), OSStatusError>(spec_os_status_error(status)),
{
    if status == 0 {
        Ok(())
    } else {
        Err(OSStatusError::from_code(status))
    }
}

/// The message of an `OSStatusError`.
pub open spec fn spec_os_status_message(e: OSStatusError) -> Seq<char> {
    match e {
        OSStatusError::VTPropertyNotSupported => "VT: property not supported"@,
        OSStatusError::VTPropertyReadOnly => "VT: property is read-only"@,
        OSStatusError::VTParameter => "VT: invalid parameter"@,
        OSStatusError::VTInvalidSession => "VT: invalid session"@,
        OSStatusError::VTAllocationFailed => "VT: allocation failed"@,
        OSStatusError::VTCouldNotFindVideoDecoder => "VT: could not find video decoder"@,
        OSStatusError::VTCouldNotCreateInstance => "VT: could not create instance"@,
        OSStatusError::VTFormatDescriptionChangeNotSupported => "VT: format description change not supported"@,
        OSStatusError::VTVideoDecoderBadData => "VT: decoder received bad data"@,
        OSStatusError::VTVideoDecoderUnsupportedDataFormat => "VT: decoder unsupported data format"@,
        OSStatusError::VTVideoDecoderMalfunction => "VT: decoder malfunction"@,
        OSStatusError::VTVideoDecoderNotAvailableNow => "VT: decoder not available now"@,
        OSStatusError::VTVideoDecoderAuthorization => "VT: decoder authorization error"@,
        OSStatusError::VTVideoDecoderRemoved => "VT: decoder removed"@,
        OSStatusError::VTSessionMalfunction => "VT: session malfunction"@,
        OSStatusError::VTVideoDecoderReferenceMissing => "VT: decoder reference missing"@,
        OSStatusError::VTVideoDecoderCallbackMessaging => "VT: decoder callback messaging error"@,
        OSStatusError::VTVideoDecoderUnknown => "VT: decoder unknown error"@,
        OSStatusError::VTCouldNotFindVideoEncoder => "VT: could not find video encoder"@,
        OSStatusError::VTVideoEncoderMalfunction => "VT: encoder malfunction"@,
        OSStatusError::VTVideoEncoderNotAvailableNow => "VT: encoder not available now"@,
        OSStatusError::VTVideoEncoderAuthorization => "VT: encoder authorization error"@,
        OSStatusError::VTVideoEncoderNeedsRosetta => "VT: encoder needs Rosetta"@,
        OSStatusError::VTVideoEncoderAutoWhiteBalanceNotLocked => "VT: encoder auto white balance not locked"@,
        OSStatusError::CMBlockBufferStructureAllocationFailed => "CMBlockBuffer: structure allocation failed"@,
        OSStatusError::CMBlockBufferBlockAllocationFailed => "CMBlockBuffer: block allocation failed"@,
        OSStatusError::CMBlockBufferBadCustomBlockSource => "CMBlockBuffer: bad custom block source"@,
        OSStatusError::CMBlockBufferBadOffsetParameter => "CMBlockBuffer: bad offset parameter"@,
        OSStatusError::CMBlockBufferBadLengthParameter => "CMBlockBuffer: bad length parameter"@,
        OSStatusError::CMBlockBufferBadPointerParameter => "CMBlockBuffer: bad pointer parameter"@,
        OSStatusError::CMBlockBufferEmptyBBuf => "CMBlockBuffer: empty block buffer"@,
        OSStatusError::CMBlockBufferUnallocatedBlock => "CMBlockBuffer: unallocated block"@,
        OSStatusError::CMBlockBufferInsufficientSpace => "CMBlockBuffer: insufficient space"@,
        OSStatusError::CMFormatDescriptionInvalidParameter => "CMFormatDescription: invalid parameter"@,
        OSStatusError::CMFormatDescriptionAllocationFailed => "CMFormatDescription: allocation failed"@,
        OSStatusError::CMSampleBufferAllocationFailed => "CMSampleBuffer: allocation failed"@,
        OSStatusError::CMSampleBufferRequiredParameterMissing => "CMSampleBuffer: required parameter missing"@,
        OSStatusError::CMSampleBufferAlreadyHasDataBuffer => "CMSampleBuffer: already has data buffer"@,
        OSStatusError::CMSampleBufferBufferNotReady => "CMSampleBuffer: buffer not ready"@,
        OSStatusError::CMSampleBufferSampleIndexOutOfRange => "CMSampleBuffer: sample index out of range"@,
        OSStatusError::CMSampleBufferBufferHasNoSampleSizes => "CMSampleBuffer: buffer has no sample sizes"@,
        OSStatusError::CMSampleBufferBufferHasNoSampleTimingInfo => "CMSampleBuffer: buffer has no sample timing info"@,
        OSStatusError::CMSampleBufferArrayTooSmall => "CMSampleBuffer: array too small"@,
        OSStatusError::CMSampleBufferInvalidEntryCount => "CMSampleBuffer: invalid entry count"@,
        OSStatusError::CMSampleBufferCannotSubdivide => "CMSampleBuffer: cannot subdivide"@,
        OSStatusError::CMSampleBufferSampleTimingInfoInvalid => "CMSampleBuffer: sample timing info invalid"@,
        OSStatusError::CMSampleBufferInvalidMediaTypeForOperation => "CMSampleBuffer: invalid media type for operation"@,
        OSStatusError::CMSampleBufferInvalidSampleData => "CMSampleBuffer: invalid sample data"@,
        OSStatusError::CMSampleBufferInvalidMediaFormat => "CMSampleBuffer: invalid media format"@,
        OSStatusError::CMSampleBufferInvalidated => "CMSampleBuffer: invalidated"@,
        OSStatusError::CMSampleBufferDataFailed => "CMSampleBuffer: data failed"@,
        OSStatusError::CMSampleBufferDataCanceled => "CMSampleBuffer: data canceled"@,
        OSStatusError::CVInvalidArgument => "CVReturn: invalid argument"@,
        OSStatusError::CVAllocationFailed => "CVReturn: allocation failed"@,
        OSStatusError::CVUnsupported => "CVReturn: unsupported"@,
        OSStatusError::CVInvalidPixelFormat => "CVReturn: invalid pixel format"@,
        OSStatusError::CVInvalidSize => "CVReturn: invalid size"@,
        OSStatusError::CVInvalidPixelBufferAttributes => "CVReturn: invalid pixel buffer attributes"@,
        OSStatusError::CVPixelBufferNotMetalCompatible => "CVReturn: pixel buffer not Metal compatible"@,
        OSStatusError::CVRetry => "CVReturn: retry"@,
        OSStatusError::Unknown(code) => "unknown OSStatus error: "@ + signed_decimal(code as int),
    }
}

impl OSStatusError {
    /// The error's message.
    pub fn message(&self) -> (r: String)
        ensures
            r@ == spec_os_status_message(*self),
    {
        match self {
            OSStatusError::VTPropertyNotSupported => owned("VT: property not supported"),
            OSStatusError::VTPropertyReadOnly => owned("VT: property is read-only"),
            OSStatusError::VTParameter => owned("VT: invalid parameter"),
            OSStatusError::VTInvalidSession => owned("VT: invalid session"),
            OSStatusError::VTAllocationFailed => owned("VT: allocation failed"),
            OSStatusError::VTCouldNotFindVideoDecoder => owned("VT: could not find video decoder"),
            OSStatusError::VTCouldNotCreateInstance => owned("VT: could not create instance"),
            OSStatusError::VTFormatDescriptionChangeNotSupported => owned("VT: format description change not supported"),
            OSStatusError::VTVideoDecoderBadData => owned("VT: decoder received bad data"),
            OSStatusError::VTVideoDecoderUnsupportedDataFormat => owned("VT: decoder unsupported data format"),
            OSStatusError::VTVideoDecoderMalfunction => owned("VT: decoder malfunction"),
            OSStatusError::VTVideoDecoderNotAvailableNow => owned("VT: decoder not available now"),
            OSStatusError::VTVideoDecoderAuthorization => owned("VT: decoder authorization error"),
            OSStatusError::VTVideoDecoderRemoved => owned("VT: decoder removed"),
            OSStatusError::VTSessionMalfunction => owned("VT: session malfunction"),
            OSStatusError::VTVideoDecoderReferenceMissing => owned("VT: decoder reference missing"),
            OSStatusError::VTVideoDecoderCallbackMessaging => owned("VT: decoder callback messaging error"),
            OSStatusError::VTVideoDecoderUnknown => owned("VT: decoder unknown error"),
            OSStatusError::VTCouldNotFindVideoEncoder => owned("VT: could not find video encoder"),
            OSStatusError::VTVideoEncoderMalfunction => owned("VT: encoder malfunction"),
            OSStatusError::VTVideoEncoderNotAvailableNow => owned("VT: encoder not available now"),
            OSStatusError::VTVideoEncoderAuthorization => owned("VT: encoder authorization error"),
            OSStatusError::VTVideoEncoderNeedsRosetta => owned("VT: encoder needs Rosetta"),
            OSStatusError::VTVideoEncoderAutoWhiteBalanceNotLocked => owned("VT: encoder auto white balance not locked"),
            OSStatusError::CMBlockBufferStructureAllocationFailed => owned("CMBlockBuffer: structure allocation failed"),
            OSStatusError::CMBlockBufferBlockAllocationFailed => owned("CMBlockBuffer: block allocation failed"),
            OSStatusError::CMBlockBufferBadCustomBlockSource => owned("CMBlockBuffer: bad custom block source"),
            OSStatusError::CMBlockBufferBadOffsetParameter => owned("CMBlockBuffer: bad offset parameter"),
            OSStatusError::CMBlockBufferBadLengthParameter => owned("CMBlockBuffer: bad length parameter"),
            OSStatusError::CMBlockBufferBadPointerParameter => owned("CMBlockBuffer: bad pointer parameter"),
            OSStatusError::CMBlockBufferEmptyBBuf => owned("CMBlockBuffer: empty block buffer"),
            OSStatusError::CMBlockBufferUnallocatedBlock => owned("CMBlockBuffer: unallocated block"),
            OSStatusError::CMBlockBufferInsufficientSpace => owned("CMBlockBuffer: insufficient space"),
            OSStatusError::CMFormatDescriptionInvalidParameter => owned("CMFormatDescription: invalid parameter"),
            OSStatusError::CMFormatDescriptionAllocationFailed => owned("CMFormatDescription: allocation failed"),
            OSStatusError::CMSampleBufferAllocationFailed => owned("CMSampleBuffer: allocation failed"),
            OSStatusError::CMSampleBufferRequiredParameterMissing => owned("CMSampleBuffer: required parameter missing"),
            OSStatusError::CMSampleBufferAlreadyHasDataBuffer => owned("CMSampleBuffer: already has data buffer"),
            OSStatusError::CMSampleBufferBufferNotReady => owned("CMSampleBuffer: buffer not ready"),
            OSStatusError::CMSampleBufferSampleIndexOutOfRange => owned("CMSampleBuffer: sample index out of range"),
            OSStatusError::CMSampleBufferBufferHasNoSampleSizes => owned("CMSampleBuffer: buffer has no sample sizes"),
            OSStatusError::CMSampleBufferBufferHasNoSampleTimingInfo => owned("CMSampleBuffer: buffer has no sample timing info"),
            OSStatusError::CMSampleBufferArrayTooSmall => owned("CMSampleBuffer: array too small"),
            OSStatusError::CMSampleBufferInvalidEntryCount => owned("CMSampleBuffer: invalid entry count"),
            OSStatusError::CMSampleBufferCannotSubdivide => owned("CMSampleBuffer: cannot subdivide"),
            OSStatusError::CMSampleBufferSampleTimingInfoInvalid => owned("CMSampleBuffer: sample timing info invalid"),
            OSStatusError::CMSampleBufferInvalidMediaTypeForOperation => owned("CMSampleBuffer: invalid media type for operation"),
            OSStatusError::CMSampleBufferInvalidSampleData => owned("CMSampleBuffer: invalid sample data"),
            OSStatusError::CMSampleBufferInvalidMediaFormat => owned("CMSampleBuffer: invalid media format"),
            OSStatusError::CMSampleBufferInvalidated => owned("CMSampleBuffer: invalidated"),
            OSStatusError::CMSampleBufferDataFailed => owned("CMSampleBuffer: data failed"),
            OSStatusError::CMSampleBufferDataCanceled => owned("CMSampleBuffer: data canceled"),
            OSStatusError::CVInvalidArgument => owned("CVReturn: invalid argument"),
            OSStatusError::CVAllocationFailed => owned("CVReturn: allocation failed"),
            OSStatusError::CVUnsupported => owned("CVReturn: unsupported"),
            OSStatusError::CVInvalidPixelFormat => owned("CVReturn: invalid pixel format"),
            OSStatusError::CVInvalidSize => owned("CVReturn: invalid size"),
            OSStatusError::CVInvalidPixelBufferAttributes => owned("CVReturn: invalid pixel buffer attributes"),
            OSStatusError::CVPixelBufferNotMetalCompatible => owned("CVReturn: pixel buffer not Metal compatible"),
            OSStatusError::CVRetry => owned("CVReturn: retry"),
            OSStatusError::Unknown(code) => push_signed_decimal(owned("unknown OSStatus error: "), *code as i64),
        }
    }
}

} // verus!

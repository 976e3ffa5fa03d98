//! Decisions of the microphone recorder: which sample formats it can decode
//! into floating-point samples, and the errors it reports.
use vstd::prelude::*;

verus! {

/// The sample format an input device offers.
pub enum SampleFormat {
    I8,
    I16,
    I32,
    I64,
    U8,
    U16,
    U32,
    U64,
    F32,
    F64,
    /// A format this list does not name.
    Other,
}

/// How the recorder turns the device's samples into floating-point samples.
pub enum SampleDecoding {
    /// Samples are already 32-bit floats; they pass through.
    Float32,
    /// Signed 16-bit samples, scaled by `i16::MAX`.
    Signed16,
    /// Unsigned 16-bit samples, centred on the middle of their range and
    /// scaled by half of it.
    Unsigned16,
}

/// What can go wrong when recording starts.
pub enum AudioError {
    /// The host has no default input device.
    NoInputDevice,
    /// The device offers a sample format the recorder cannot decode.
    UnsupportedSampleFormat,
    /// The audio backend failed; holds its message.
    Backend(String),
}

/// The decoding for `format`, where there is one.
pub open spec fn decoding_spec(format: SampleFormat) -> Result<SampleDecoding, AudioError> {
    match format {
        SampleFormat::F32 => Ok(SampleDecoding::Float32),
        SampleFormat::I16 => Ok(SampleDecoding::Signed16),
        SampleFormat::U16 => Ok(SampleDecoding::Unsigned16),
        _ => Err(AudioError::UnsupportedSampleFormat),
    }
}

/// Chooses how to decode a device's samples: 32-bit float, signed 16-bit
/// and unsigned 16-bit formats are supported, every other one is refused.
pub fn decoding_for(format: SampleFormat) -> (res: Result<SampleDecoding, AudioError>)
    ensures
        res == decoding_spec(format),
{
    match format {
        SampleFormat::F32 => Ok(SampleDecoding::Float32),
        SampleFormat::I16 => Ok(SampleDecoding::Signed16),
        SampleFormat::U16 => Ok(SampleDecoding::Unsigned16),
        _ => Err(AudioError::UnsupportedSampleFormat),
    }
}

impl AudioError {
    /// The message reported for this error.
    pub open spec fn message_spec(&self) -> Seq<char> {
        match self {
            AudioError::NoInputDevice => "Failed to get default input device"@,
            AudioError::UnsupportedSampleFormat => "Unsupported sample format"@,
            AudioError::Backend(e) => e@,
        }
    }

    /// Renders the error as the text the worker prints.
    pub fn message(&self) -> (m: String)
        ensures
            m@ == self.message_spec(),
    {
        match self {
            AudioError::NoInputDevice => String::from_str("Failed to get default input device"),
            AudioError::UnsupportedSampleFormat => String::from_str("Unsupported sample format"),
            AudioError::Backend(e) => e.clone(),
        }
    }
}

/// Exactly three sample formats are decoded, each by its own decoding:
/// 32-bit float passes through, signed and unsigned 16-bit are scaled; every
/// other format is refused as unsupported.
pub proof fn three_formats_decoded(format: SampleFormat)
    ensures
        decoding_spec(format) is Ok <==> (format is F32 || format is I16 || format is U16),
        format is F32 ==> decoding_spec(format) == Ok::<SampleDecoding, AudioError>(SampleDecoding::Float32),
        format is I16 ==> decoding_spec(format) == Ok::<SampleDecoding, AudioError>(SampleDecoding::Signed16),
        format is U16 ==> decoding_spec(format) == Ok::<SampleDecoding, AudioError>(
            SampleDecoding::Unsigned16,
        ),
        !(format is F32 || format is I16 || format is U16) ==> decoding_spec(format) == Err::<
            SampleDecoding,
            AudioError,
        >(AudioError::UnsupportedSampleFormat),
{
}

/// A backend error reads as the backend's own message.
pub proof fn backend_message_is_its_text(e: String)
    ensures
        AudioError::Backend(e).message_spec() == e@,
        AudioError::NoInputDevice.message_spec() != AudioError::UnsupportedSampleFormat.message_spec(),
{
    reveal_strlit("Failed to get default input device");
    reveal_strlit("Unsupported sample format");
    assert(AudioError::NoInputDevice.message_spec().len() != AudioError::UnsupportedSampleFormat.message_spec().len());
}

} // verus!

//! The ways a recording session can fail.
use vstd::prelude::*;

verus! {

/// Why a session ended without a transcript. The text carried by a variant
/// is the diagnostic of the component that failed.
#[derive(Clone, Debug)]
pub enum SttError {
    /// No capture device is present, or it cannot be named.
    DeviceUnavailable,
    /// The device is present but reports no usable format.
    ConfigUnavailable,
    /// The hardware stream could not be built or started.
    StreamError(String),
    /// The captured audio could not be converted for recognition.
    ConversionError(String),
    /// The recognition engine failed on the audio.
    RecognitionError(String),
    /// A notification could not be sent.
    NotificationError(String),
}

} // verus!

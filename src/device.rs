//! The capture device, as the audio host reports it.
use vstd::prelude::*;
use crate::error::SttError;

verus! {

/// The name of the default recording device, from what the audio host
/// reported: `None` when there is no input device, else the outcome of
/// asking the device its name. A device that cannot be named is taken as
/// unavailable.
pub fn get_default_recording_device(probe: Option<Result<String, String>>) -> (r: Result<String, SttError>)
    ensures
        match probe {
            Some(Ok(name)) => r matches Ok(n) && n == name,
            _ => r matches Err(SttError::DeviceUnavailable),
        },
{
    match probe {
        Some(Ok(name)) => Ok(name),
        _ => Err(SttError::DeviceUnavailable),
    }
}

} // verus!

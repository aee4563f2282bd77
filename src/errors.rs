use vstd::prelude::*;

verus! {

/// An error raised while talking to a device: the path that was involved and
/// the operating system's description of what went wrong.
#[derive(Debug, PartialEq, Eq)]
pub struct DeviceError {
    pub filepath: String,
    pub message: String,
}

impl DeviceError {
    pub fn new(filepath: String, message: String) -> (r: DeviceError)
        ensures
            r.filepath == filepath,
            r.message == message,
    {
        DeviceError { filepath, message }
    }
}

} // verus!

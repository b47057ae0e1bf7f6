//! Why an operation of the sound device failed.

use vstd::prelude::*;
use crate::queue::QueueError;

verus! {

/// Why an operation of the sound device failed.
#[derive(Debug, Clone, Copy, PartialEq, Eq)]
pub enum VirtioDeviceError {
    /// An argument was refused before the device was asked.
    InvalidParam,
    /// The operation could not be carried out. Where the device refused it,
    /// the status that it gave is kept; where the driver did, there is none.
    IoError(Option<u32>),
    /// The response would not fit into the buffer that is there for it.
    BufferOverflow,
    /// A queue refused the submission or the completion.
    QueueError(QueueError),
    /// A request is with the device already.
    Busy,
}

impl From<QueueError> for VirtioDeviceError {
    fn from(e: QueueError) -> (r: Self) {
        VirtioDeviceError::QueueError(e)
    }
}

impl vstd::std_specs::convert::FromSpecImpl<QueueError> for VirtioDeviceError {
    open spec fn obeys_from_spec() -> bool {
        true
    }

    open spec fn from_spec(e: QueueError) -> Self {
        VirtioDeviceError::QueueError(e)
    }
}

} // verus!

//! Errors the runtime reports.

use vstd::prelude::*;

verus! {

/// What can go wrong while talking to the hardware.
#[derive(Clone, Debug, PartialEq, Eq)]
pub enum AppError {
    /// The HID library could not be initialised; carries its message.
    HidApi(String),
    /// No interface of the keyboard could be opened for reading.
    NoInterfacesAccessible,
    /// There is no display to act on.
    DisplayNotFound,
    /// A system call failed; carries a description.
    Internal(String),
}

} // verus!

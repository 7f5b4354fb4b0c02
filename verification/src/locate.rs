//! The capability locator's decision: the firmware's lookup call hands
//! back a status and fills an interface slot, and this turns that pair
//! into a typed reference or the one modeled failure.
//!
//! The lookup call itself goes through a raw firmware function pointer
//! and cannot be made here; whoever makes it passes the status and the
//! slot (`None` for a null reference) in as plain values.

use vstd::prelude::*;
use crate::abi::EfiStatus;
use crate::display::GraphicsOutput;

verus! {

/// The one modeled failure: the graphics output capability was not found,
/// which a boot stub cannot recover from.
#[derive(Clone, Copy, Debug, PartialEq, Eq, Structural)]
pub enum LocateError {
    NotFound,
}

impl LocateError {
    /// What went wrong, in words.
    pub fn message(&self) -> (r: &'static str)
        ensures
            r@ == "Failed to locate Graphics Output Protocol"@,
    {
        "Failed to locate Graphics Output Protocol"
    }
}

/// The locate decision: success exactly when the firmware reported
/// success, and then with the interface the firmware handed back.
/// Firmware guarantees the slot is non-null whenever the status is
/// success, so a caller passes `Some` with a success status.
pub fn locate_result(status: EfiStatus, interface: Option<GraphicsOutput>) -> (r: Result<
    GraphicsOutput,
    LocateError,
>)
    requires
        status.spec_is_success() ==> interface is Some,
    ensures
        r is Ok <==> status.spec_is_success(),
        status.spec_is_success() ==> r == Ok::<GraphicsOutput, LocateError>(interface->0),
        !status.spec_is_success() ==> r == Err::<GraphicsOutput, LocateError>(
            LocateError::NotFound,
        ),
{
    if status.is_success() {
        Ok(interface.unwrap())
    } else {
        Err(LocateError::NotFound)
    }
}

} // verus!

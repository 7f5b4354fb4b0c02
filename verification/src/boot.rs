//! The entry point's decision sequence, as a state machine:
//! Start, then ProtocolResolved once the lookup succeeds, then
//! FramebufferFilled once every pixel is written, then Halted; any lookup
//! failure aborts to Fatal instead, and the framebuffer is never touched.
//!
//! Halted and Fatal are terminal: on the machine both are an endless
//! loop, one parking the processor, the other spinning. The sequence here
//! returns the terminal state reached instead of looping.

use vstd::prelude::*;
use crate::abi::EfiStatus;
use crate::display::GraphicsOutput;
use crate::framebuffer::{Framebuffer, fill_bytes, FILL_COLOR};
use crate::locate::locate_result;

verus! {

/// The states the entry point passes through. Halted and Fatal are the
/// terminal ones.
#[derive(Clone, Copy, Debug, PartialEq, Eq, Structural)]
pub enum BootState {
    Start,
    ProtocolResolved,
    FramebufferFilled,
    Halted,
    Fatal,
}

/// Runs the boot sequence on the lookup call's outcome and the
/// framebuffer memory the mode descriptor points at: on a non-success
/// status the fatal state is reached and the framebuffer keeps every byte
/// it had; on success every whole pixel is set to the fill color, the
/// trailing bytes stay, and the halt state is reached.
///
/// Firmware guarantees a non-null interface on success, and the memory
/// region handed in must be the one the descriptor names, so its length
/// is the descriptor's byte length.
pub fn boot_sequence(status: EfiStatus, interface: Option<GraphicsOutput>, fb: &mut Framebuffer)
    -> (r: BootState)
    requires
        status.spec_is_success() ==> interface is Some && old(fb)@.len()
            == interface->0.mode.frame_buffer_size,
    ensures
        r == BootState::Halted <==> status.spec_is_success(),
        r == BootState::Fatal <==> !status.spec_is_success(),
        !status.spec_is_success() ==> final(fb)@ == old(fb)@,
        status.spec_is_success() ==> final(fb)@ == fill_bytes(old(fb)@, FILL_COLOR),
{
    match locate_result(status, interface) {
        Err(_) => BootState::Fatal,
        Ok(_protocol) => {
            fb.fill(FILL_COLOR);
            BootState::Halted
        },
    }
}

} // verus!

//! The exit listener's decision: which message ends the message loop.

use vstd::prelude::*;

verus! {

/// Message id that the system posts when a registered hotkey is pressed.
pub const WM_HOTKEY: u32 = 0x0312;

/// Whether `message` ends the message loop: only the exit hotkey does; any
/// other message is dispatched and the loop goes on.
pub fn ends_message_loop(message: u32) -> (r: bool)
    ensures
        r == (message == WM_HOTKEY),
{
    message == WM_HOTKEY
}

} // verus!

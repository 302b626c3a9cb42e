//! The decisions of a window message loop.
use vstd::prelude::*;

verus! {

/// The message that ends a message loop.
pub const WM_QUIT: u32 = 0x0012;

/// What to do with the result of one wait for a message.
#[derive(Clone, Copy, Debug, PartialEq, Eq)]
pub enum LoopStep {
    /// The wait failed; the caller may run the loop again.
    Failed,
    /// The quit message arrived.
    Quit,
    /// Translate and dispatch the message, then return it to the caller if
    /// it is a thread message, else wait for the next one.
    Dispatch { return_after: bool },
}

/// A window message loop.
pub struct Win32MsgLoop;

impl Win32MsgLoop {
    /// Classifies the result of waiting for a message (-1 failure, 0 the
    /// quit message, else a message) and the window the message is for (0
    /// for a thread message).
    pub fn classify(get_message_result: i32, msg_hwnd: isize) -> (r: LoopStep)
        ensures
            get_message_result == -1 ==> r == LoopStep::Failed,
            get_message_result == 0 ==> r == LoopStep::Quit,
            get_message_result != -1 && get_message_result != 0 ==> r == (LoopStep::Dispatch {
                return_after: msg_hwnd == 0,
            }),
    {
        if get_message_result == -1 {
            LoopStep::Failed
        } else if get_message_result == 0 {
            LoopStep::Quit
        } else {
            LoopStep::Dispatch { return_after: msg_hwnd == 0 }
        }
    }

    /// The loop ends on a thread message that is the quit message, with its
    /// `wparam` as exit code; any other thread message continues it.
    pub fn exit_code(message: u32, wparam: usize) -> (r: Option<usize>)
        ensures
            message == WM_QUIT ==> r == Some(wparam),
            message != WM_QUIT ==> r is None,
    {
        if message == WM_QUIT {
            Some(wparam)
        } else {
            None
        }
    }
}

} // verus!

//! Reading the command messages that a window receives from menus,
//! accelerators and controls.
use vstd::prelude::*;

verus! {

/// A command message, read from its parameters.
#[derive(Clone, Copy, Debug, PartialEq, Eq)]
pub enum CommandMsg {
    MenuItem { id: u16 },
    Accelerator { id: u16 },
    ControlMsg { msg_id: u16, control_id: u16, control_hwnd: isize },
}

/// Bits 0 to 15 of a message parameter.
pub open spec fn low_word(w: usize) -> u16 {
    (w % 0x10000) as u16
}

/// Bits 16 to 31 of a message parameter.
pub open spec fn high_word(w: usize) -> u16 {
    ((w / 0x10000) % 0x10000) as u16
}

pub fn loword(w: usize) -> (r: u16)
    ensures
        r == low_word(w),
{
    let r = w & 0xffff;
    assert(w & 0xffff == w % 0x10000) by (bit_vector);
    r as u16
}

pub fn hiword(w: usize) -> (r: u16)
    ensures
        r == high_word(w),
{
    let r = (w >> 16) & 0xffff;
    assert((w >> 16) & 0xffff == (w / 0x10000) % 0x10000) by (bit_vector);
    r as u16
}

/// The high word of `wparam` tells the source: 0 a menu, 1 an
/// accelerator, anything else a control, which sends its notification
/// code there and its window handle in `lparam`. The low word is the item
/// or control id.
pub fn translate_command_msg(wparam: usize, lparam: isize) -> (r: CommandMsg)
    ensures
        high_word(wparam) == 0 ==> r == (CommandMsg::MenuItem { id: low_word(wparam) }),
        high_word(wparam) == 1 ==> r == (CommandMsg::Accelerator { id: low_word(wparam) }),
        high_word(wparam) > 1 ==> r == (CommandMsg::ControlMsg {
            msg_id: high_word(wparam),
            control_id: low_word(wparam),
            control_hwnd: lparam,
        }),
{
    let wparam_hiword = hiword(wparam);
    let wparam_loword = loword(wparam);
    match wparam_hiword {
        0 => CommandMsg::MenuItem { id: wparam_loword },
        1 => CommandMsg::Accelerator { id: wparam_loword },
        _ => CommandMsg::ControlMsg {
            msg_id: wparam_hiword,
            control_id: wparam_loword,
            control_hwnd: lparam,
        },
    }
}

} // verus!

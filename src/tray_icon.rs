//! The input side of a tray icon: which notifications are activations or
//! context menu requests, and the tooltip text it can hold.
use vstd::prelude::*;
use crate::base_window::{high_word, hiword, low_word, loword};

verus! {

/// Notification: the icon was selected with the primary mouse button.
pub const NIN_SELECT: u32 = 0x0400;
/// Notification: the icon was selected with Space or Enter (`NIN_SELECT`
/// with the keyboard flag `NINF_KEY`, 1).
pub const NIN_KEYSELECT: u32 = 0x0401;
/// Notification: a context menu is requested, by mouse or keyboard.
pub const WM_CONTEXTMENU: u32 = 0x007B;
/// Units of the tooltip buffer, the terminating zero included.
pub const TOOLTIP_CAPACITY: usize = 128;

/// What a tray icon notification means for the host.
#[derive(Clone, Copy, Debug, PartialEq, Eq)]
pub enum TrayIconEvent {
    /// The icon was clicked or double-clicked, or Space or Enter was pressed
    /// on the keyboard-focused icon.
    Activated,
    /// With x and y virtual-screen coordinates.
    ContextMenuRequested { x: i16, y: i16 },
}

/// A 16-bit word read as a two's complement number.
pub open spec fn signed_word(w: u16) -> i16 {
    if w < 0x8000 {
        w as i16
    } else {
        (w - 0x10000) as i16
    }
}

pub fn to_signed_word(w: u16) -> (r: i16)
    ensures
        r == signed_word(w),
{
    if w < 0x8000 {
        w as i16
    } else {
        (w as i32 - 0x10000) as i16
    }
}

/// The tray icon's activation state: when it was last activated, in
/// milliseconds of a monotonic clock. Activations closer together than
/// the double-click time count once, so that a double click, and Enter,
/// which notifies twice, activate once.
pub struct TrayIcon {
    last_activation_ms: u64,
}

impl TrayIcon {
    pub closed spec fn spec_last_activation_ms(&self) -> u64 {
        self.last_activation_ms
    }

    /// Input state of an icon created at `now_ms`.
    pub fn new(now_ms: u64) -> (r: TrayIcon)
        ensures
            r.spec_last_activation_ms() == now_ms,
    {
        TrayIcon { last_activation_ms: now_ms }
    }

    /// Translates a notification: its id is the low word of `lparam`; a
    /// context menu request carries its coordinates in the two words of
    /// `wparam`. A selection activates only when more than
    /// `double_click_ms` passed since the last activation.
    pub fn translate_window_msg(
        &mut self,
        wparam: usize,
        lparam: usize,
        now_ms: u64,
        double_click_ms: u32,
    ) -> (r: Option<TrayIconEvent>)
        ensures
            ({
                let id = low_word(lparam) as u32;
                let due = now_ms >= old(self).spec_last_activation_ms() && now_ms
                    - old(self).spec_last_activation_ms() > double_click_ms;
                &&& (id == NIN_SELECT || id == NIN_KEYSELECT) ==> (if due {
                    r == Some(TrayIconEvent::Activated) && final(self).spec_last_activation_ms()
                        == now_ms
                } else {
                    r is None && *final(self) == *old(self)
                })
                &&& id == WM_CONTEXTMENU ==> r == Some(
                    TrayIconEvent::ContextMenuRequested {
                        x: signed_word(low_word(wparam)),
                        y: signed_word(high_word(wparam)),
                    },
                ) && *final(self) == *old(self)
                &&& (id != NIN_SELECT && id != NIN_KEYSELECT && id != WM_CONTEXTMENU) ==> r is None
                    && *final(self) == *old(self)
            }),
    {
        let id = loword(lparam) as u32;
        if id == NIN_SELECT || id == NIN_KEYSELECT {
            if now_ms >= self.last_activation_ms && now_ms - self.last_activation_ms
                > double_click_ms as u64 {
                self.last_activation_ms = now_ms;
                Some(TrayIconEvent::Activated)
            } else {
                None
            }
        } else if id == WM_CONTEXTMENU {
            Some(
                TrayIconEvent::ContextMenuRequested {
                    x: to_signed_word(loword(wparam)),
                    y: to_signed_word(hiword(wparam)),
                },
            )
        } else {
            None
        }
    }
}

/// The tooltip buffer contents for a text: its first units, as many as fit
/// before the terminating zero, then the zero.
pub fn tooltip_units(text: &Vec<u16>) -> (r: Vec<u16>)
    ensures
        ({
            let n = if text@.len() < TOOLTIP_CAPACITY { text@.len() } else { (TOOLTIP_CAPACITY
                - 1) as nat };
            r@ == text@.take(n as int).push(0u16)
        }),
{
    let n: usize = if text.len() < TOOLTIP_CAPACITY {
        text.len()
    } else {
        TOOLTIP_CAPACITY - 1
    };
    let mut r: Vec<u16> = Vec::new();
    let mut i: usize = 0;
    while i < n
        invariant
            0 <= i <= n <= text@.len(),
            r@ == text@.take(i as int),
        decreases n - i,
    {
        r.push(text[i]);
        proof {
            assert(text@.take(i + 1) == text@.take(i as int).push(text@[i as int]));
        }
        i = i + 1;
    }
    r.push(0);
    r
}

} // verus!

//! Sizing of the icons shown in the tray.
use vstd::prelude::*;

verus! {

/// The dpi assumed where the tray monitor's dpi cannot be read.
pub const DEFAULT_DPI: u32 = 96;

/// The icon edge for the system's icon width and height: their mean,
/// rounded toward zero.
pub fn icon_size(width: i32, height: i32) -> (r: i32)
    ensures
        width + height >= 0 ==> r == (width + height) / 2,
        width + height < 0 ==> r == -((-(width + height)) / 2),
{
    ((width as i64 + height as i64) / 2) as i32
}

/// The dpi of the tray monitor from its x and y dpi, if they could be
/// read: their mean, rounded down; else `DEFAULT_DPI`.
pub fn tray_dpi(dpi: Option<(u32, u32)>) -> (r: u32)
    ensures
        match dpi {
            Some((x, y)) => r == (x + y) / 2,
            None => r == DEFAULT_DPI,
        },
{
    match dpi {
        Some((x, y)) => ((x as u64 + y as u64) / 2) as u32,
        None => DEFAULT_DPI,
    }
}

} // verus!

verus! {

/// An icon handle owned by one component. Whatever replaces it is handed
/// back to be released, so that every handle put in is released once.
pub struct IconSlot {
    hicon: Option<isize>,
}

impl View for IconSlot {
    type V = Option<isize>;

    closed spec fn view(&self) -> Option<isize> {
        self.hicon
    }
}

impl IconSlot {
    pub fn new() -> (r: IconSlot)
        ensures
            r@ is None,
    {
        IconSlot { hicon: None }
    }

    pub fn get(&self) -> (r: Option<isize>)
        ensures
            r == self@,
    {
        self.hicon
    }

    /// Puts in a new icon; returns the one it replaces, to be released.
    pub fn replace(&mut self, hicon: isize) -> (released: Option<isize>)
        ensures
            final(self)@ == Some(hicon),
            released == old(self)@,
    {
        let released = self.hicon;
        self.hicon = Some(hicon);
        released
    }

    /// Empties the slot; returns its icon, to be released.
    pub fn take(&mut self) -> (released: Option<isize>)
        ensures
            final(self)@ is None,
            released == old(self)@,
    {
        let released = self.hicon;
        self.hicon = None;
        released
    }
}

} // verus!

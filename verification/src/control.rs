//! The native-control wrapper: one opaque window handle plus the state this
//! library last requested from the window system for it.
//!
//! The primitive calls that carry these requests to the window system (show,
//! move, resize, text change, rectangle query) stay outside the library; a
//! caller issues them against `hwnd` after the matching mutator here has
//! recorded what was asked for. Absent outside interference, the recorded
//! state is what a rectangle query would report back.

use vstd::prelude::*;
use crate::geometry::{Point, Size};

verus! {

/// Wraps exactly one native window handle. A zero handle means creation
/// failed and the wrapper must not be used.
#[derive(Debug)]
pub struct CommonWindowControl {
    pub hwnd: u64,
    pub visible: bool,
    pub pos: Point,
    pub size: Size,
    pub text: String,
}

impl CommonWindowControl {
    /// A usable control owns a nonzero native handle.
    pub open spec fn wf(self) -> bool {
        self.hwnd != 0
    }

    /// The control after a show request: visible, everything else untouched.
    pub open spec fn shown(c: CommonWindowControl) -> CommonWindowControl {
        CommonWindowControl { visible: true, ..c }
    }

    /// The control after a resize request: size replaced, position kept.
    pub open spec fn resized(c: CommonWindowControl, size: Size) -> CommonWindowControl {
        CommonWindowControl { size, ..c }
    }

    /// The control after a move request: position replaced, size kept.
    pub open spec fn moved(c: CommonWindowControl, pos: Point) -> CommonWindowControl {
        CommonWindowControl { pos, ..c }
    }

    pub fn new(hwnd: u64, pos: Point, size: Size, text: String) -> (c: CommonWindowControl)
        requires
            hwnd != 0,
        ensures
            c.hwnd == hwnd,
            !c.visible,
            c.pos == pos,
            c.size == size,
            c.text == text,
            c.wf(),
    {
        CommonWindowControl { hwnd, visible: false, pos, size, text }
    }

    pub fn get_hwnd(&self) -> (r: u64)
        ensures
            r == self.hwnd,
    {
        self.hwnd
    }

    /// Makes the control visible; a repeated call changes nothing further.
    pub fn show(&mut self)
        ensures
            *final(self) == CommonWindowControl::shown(*old(self)),
    {
        self.visible = true;
    }

    /// Reports the extent the library last requested for this control.
    pub fn get_size(&self) -> (s: Size)
        ensures
            s == self.size,
    {
        self.size
    }

    /// Resizes without moving.
    pub fn set_size(&mut self, size: Size)
        ensures
            *final(self) == CommonWindowControl::resized(*old(self), size),
    {
        self.size = size;
    }

    /// Moves without resizing.
    pub fn set_position(&mut self, pos: Point)
        ensures
            *final(self) == CommonWindowControl::moved(*old(self), pos),
    {
        self.pos = pos;
    }

    /// Replaces the control's text.
    pub fn set_text(&mut self, text: &str)
        ensures
            final(self).text@ == text@,
            final(self).hwnd == old(self).hwnd,
            final(self).visible == old(self).visible,
            final(self).pos == old(self).pos,
            final(self).size == old(self).size,
    {
        self.text = text.to_owned();
    }
}

/// The extent of a native bounding rectangle, as a rectangle query reports
/// it: width from the left and right edges, height from the top and bottom.
pub fn size_from_rect(left: i32, top: i32, right: i32, bottom: i32) -> (s: Size)
    requires
        i32::MIN <= right - left <= i32::MAX,
        i32::MIN <= bottom - top <= i32::MAX,
    ensures
        s.width == right - left,
        s.height == bottom - top,
{
    Size { width: right - left, height: bottom - top }
}

} // verus!

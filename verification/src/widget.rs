//! Concrete child widgets and the closed set of child kinds.
//!
//! A container slot holds a [`Child`], a tagged value over the fixed set of
//! widget kinds. The tag is what lets typed lookup fail safely instead of
//! handing back a value of the wrong concrete type.

use vstd::prelude::*;
use crate::control::CommonWindowControl;
use crate::geometry::{Point, Size};
use crate::window::Window;

verus! {

/// Width of the fixed default geometry a fresh child control is created with.
pub const DEFAULT_CHILD_WIDTH: i32 = 50;

/// Height of the fixed default geometry a fresh child control is created with.
pub const DEFAULT_CHILD_HEIGHT: i32 = 100;

/// A push button.
#[derive(Debug)]
pub struct Button {
    pub control: CommonWindowControl,
}

/// A single-line text input field.
#[derive(Debug)]
pub struct TextEdit {
    pub control: CommonWindowControl,
}

/// The kind tag of a stored child widget.
#[derive(Clone, Copy, Debug, PartialEq, Eq, Structural)]
pub enum ChildKind {
    Button,
    TextEdit,
}

/// A child widget as a container stores it: one of the closed set of
/// concrete kinds, each wrapping its native control.
#[derive(Debug)]
pub enum Child {
    Button(Button),
    TextEdit(TextEdit),
}

impl Child {
    /// The kind tag of this child.
    pub open spec fn kind(self) -> ChildKind {
        match self {
            Child::Button(_) => ChildKind::Button,
            Child::TextEdit(_) => ChildKind::TextEdit,
        }
    }

    /// The native control behind this child.
    pub open spec fn control_spec(self) -> CommonWindowControl {
        match self {
            Child::Button(b) => b.control,
            Child::TextEdit(t) => t.control,
        }
    }

    /// The native handle behind this child.
    pub open spec fn hwnd_spec(self) -> u64 {
        self.control_spec().hwnd
    }

    pub open spec fn wf(self) -> bool {
        self.control_spec().wf()
    }

    /// The same child with its control replaced.
    pub open spec fn with_control(self, c: CommonWindowControl) -> Child {
        match self {
            Child::Button(_) => Child::Button(Button { control: c }),
            Child::TextEdit(_) => Child::TextEdit(TextEdit { control: c }),
        }
    }

    pub fn kind_of(&self) -> (k: ChildKind)
        ensures
            k == self.kind(),
    {
        match self {
            Child::Button(_) => ChildKind::Button,
            Child::TextEdit(_) => ChildKind::TextEdit,
        }
    }

    pub fn get_hwnd(&self) -> (r: u64)
        ensures
            r == self.hwnd_spec(),
    {
        match self {
            Child::Button(b) => b.control.get_hwnd(),
            Child::TextEdit(t) => t.control.get_hwnd(),
        }
    }

    pub fn show(&mut self)
        ensures
            *final(self) == old(self).with_control(
                CommonWindowControl::shown(old(self).control_spec()),
            ),
    {
        match self {
            Child::Button(b) => b.control.show(),
            Child::TextEdit(t) => t.control.show(),
        }
    }

    pub fn get_size(&self) -> (s: Size)
        ensures
            s == self.control_spec().size,
    {
        match self {
            Child::Button(b) => b.control.get_size(),
            Child::TextEdit(t) => t.control.get_size(),
        }
    }

    pub fn set_size(&mut self, size: Size)
        ensures
            *final(self) == old(self).with_control(
                CommonWindowControl::resized(old(self).control_spec(), size),
            ),
    {
        match self {
            Child::Button(b) => b.control.set_size(size),
            Child::TextEdit(t) => t.control.set_size(size),
        }
    }

    pub fn set_position(&mut self, pos: Point)
        ensures
            *final(self) == old(self).with_control(
                CommonWindowControl::moved(old(self).control_spec(), pos),
            ),
    {
        match self {
            Child::Button(b) => b.control.set_position(pos),
            Child::TextEdit(t) => t.control.set_position(pos),
        }
    }

    pub fn set_text(&mut self, text: &str)
        ensures
            final(self).kind() == old(self).kind(),
            final(self).control_spec().text@ == text@,
            final(self).control_spec().hwnd == old(self).control_spec().hwnd,
            final(self).control_spec().visible == old(self).control_spec().visible,
            final(self).control_spec().pos == old(self).control_spec().pos,
            final(self).control_spec().size == old(self).control_spec().size,
    {
        match self {
            Child::Button(b) => b.control.set_text(text),
            Child::TextEdit(t) => t.control.set_text(text),
        }
    }
}

/// What a freshly created button's control looks like: the handle the window
/// system returned, the fixed default geometry, the given label, not yet
/// visible.
pub open spec fn spec_created_button(b: Button, hwnd: u64, text: Seq<char>) -> bool {
    &&& b.control.hwnd == hwnd
    &&& !b.control.visible
    &&& b.control.pos == (Point { x: 0, y: 0 })
    &&& b.control.size == (Size { width: DEFAULT_CHILD_WIDTH, height: DEFAULT_CHILD_HEIGHT })
    &&& b.control.text@ == text
}

/// What a freshly created text field's control looks like: the handle the
/// window system returned, the fixed default geometry, empty text, not yet
/// visible.
pub open spec fn spec_created_text_edit(t: TextEdit, hwnd: u64) -> bool {
    &&& t.control.hwnd == hwnd
    &&& !t.control.visible
    &&& t.control.pos == (Point { x: 0, y: 0 })
    &&& t.control.size == (Size { width: DEFAULT_CHILD_WIDTH, height: DEFAULT_CHILD_HEIGHT })
    &&& t.control.text@ == Seq::<char>::empty()
}

impl Button {
    pub open spec fn wf(self) -> bool {
        self.control.wf()
    }

    /// Registers a new button into `parent` under `name`, anchored to the
    /// child handle `hwnd` that the window system returned for it. A zero
    /// handle reports creation failure and registers nothing.
    pub fn create(parent: &mut Window, name: &str, text: &str, hwnd: u64) -> (ok: bool)
        ensures
            ok == (hwnd != 0),
            hwnd == 0 ==> *final(parent) == *old(parent),
            hwnd != 0 ==> crate::container::grows_by(
                old(parent).children.entries@,
                final(parent).children.entries@,
                name@,
            ),
            hwnd != 0 ==> (final(parent).children.entries@.last().child matches Child::Button(b)
                && spec_created_button(b, hwnd, text@)),
            final(parent).control == old(parent).control,
            final(parent).handlers@ == old(parent).handlers@,
    {
        if hwnd == 0 {
            false
        } else {
            let control = CommonWindowControl::new(
                hwnd,
                Point::new(0, 0),
                Size::new(DEFAULT_CHILD_WIDTH, DEFAULT_CHILD_HEIGHT),
                text.to_owned(),
            );
            parent.add(name, Child::Button(Button { control }));
            true
        }
    }

    /// Replaces the button's label.
    pub fn set_text(&mut self, title: &str)
        ensures
            final(self).control.text@ == title@,
            final(self).control.hwnd == old(self).control.hwnd,
            final(self).control.visible == old(self).control.visible,
            final(self).control.pos == old(self).control.pos,
            final(self).control.size == old(self).control.size,
    {
        self.control.set_text(title);
    }

    pub fn get_hwnd(&self) -> (r: u64)
        ensures
            r == self.control.hwnd,
    {
        self.control.get_hwnd()
    }

    pub fn show(&mut self)
        ensures
            *final(self) == (Button { control: CommonWindowControl::shown(old(self).control) }),
    {
        self.control.show();
    }

    pub fn get_size(&self) -> (s: Size)
        ensures
            s == self.control.size,
    {
        self.control.get_size()
    }

    pub fn set_size(&mut self, size: Size)
        ensures
            *final(self) == (Button {
                control: CommonWindowControl::resized(old(self).control, size),
            }),
    {
        self.control.set_size(size);
    }

    pub fn set_position(&mut self, pos: Point)
        ensures
            *final(self) == (Button {
                control: CommonWindowControl::moved(old(self).control, pos),
            }),
    {
        self.control.set_position(pos);
    }
}

impl TextEdit {
    pub open spec fn wf(self) -> bool {
        self.control.wf()
    }

    /// Registers a new text field into `parent` under `name`, anchored to the
    /// child handle `hwnd` that the window system returned for it. A zero
    /// handle reports creation failure and registers nothing.
    pub fn create(parent: &mut Window, name: &str, hwnd: u64) -> (ok: bool)
        ensures
            ok == (hwnd != 0),
            hwnd == 0 ==> *final(parent) == *old(parent),
            hwnd != 0 ==> crate::container::grows_by(
                old(parent).children.entries@,
                final(parent).children.entries@,
                name@,
            ),
            hwnd != 0 ==> (final(parent).children.entries@.last().child matches Child::TextEdit(t)
                && spec_created_text_edit(t, hwnd)),
            final(parent).control == old(parent).control,
            final(parent).handlers@ == old(parent).handlers@,
    {
        if hwnd == 0 {
            false
        } else {
            let control = CommonWindowControl::new(
                hwnd,
                Point::new(0, 0),
                Size::new(DEFAULT_CHILD_WIDTH, DEFAULT_CHILD_HEIGHT),
                String::new(),
            );
            parent.add(name, Child::TextEdit(TextEdit { control }));
            true
        }
    }

    pub fn get_hwnd(&self) -> (r: u64)
        ensures
            r == self.control.hwnd,
    {
        self.control.get_hwnd()
    }

    pub fn show(&mut self)
        ensures
            *final(self) == (TextEdit { control: CommonWindowControl::shown(old(self).control) }),
    {
        self.control.show();
    }

    pub fn get_size(&self) -> (s: Size)
        ensures
            s == self.control.size,
    {
        self.control.get_size()
    }

    pub fn set_size(&mut self, size: Size)
        ensures
            *final(self) == (TextEdit {
                control: CommonWindowControl::resized(old(self).control, size),
            }),
    {
        self.control.set_size(size);
    }

    pub fn set_position(&mut self, pos: Point)
        ensures
            *final(self) == (TextEdit {
                control: CommonWindowControl::moved(old(self).control, pos),
            }),
    {
        self.control.set_position(pos);
    }
}

} // verus!

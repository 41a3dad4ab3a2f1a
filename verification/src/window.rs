//! The window: a native-control handle, the widget tree it owns, and the
//! ordered callback registrations — the unit of native-message dispatch.

use vstd::prelude::*;
use crate::container;
use crate::container::{Container, ContainerEntry};
use crate::control::CommonWindowControl;
use crate::events::{
    find_first_command, find_first_mousemove, find_first_paint, first_command, first_mousemove,
    first_paint, MouseEvent, WindowEvent,
};
use crate::geometry::{Point, Size};
use crate::widget::{Child, ChildKind};

verus! {

/// The native code of a destroy notice.
pub const WM_DESTROY: u32 = 0x0002;

/// The native code of a paint request.
pub const WM_PAINT: u32 = 0x000F;

/// The native code of a command notice (a control activation); its payload
/// carries the raising child's handle.
pub const WM_COMMAND: u32 = 0x0111;

/// The native code of a pointer move; its payload packs the coordinates.
pub const WM_MOUSEMOVE: u32 = 0x0200;

/// The sentinel the window system reads as "pick a default" for a creation
/// coordinate or extent.
pub const CW_USEDEFAULT: i32 = i32::MIN;

/// A 16-bit word read as a signed value.
pub open spec fn sign_extend_16(w: u16) -> i32 {
    if w >= 0x8000 {
        (w - 0x10000) as i32
    } else {
        w as i32
    }
}

/// The x coordinate packed into a pointer-message payload: its low 16 bits,
/// signed.
pub open spec fn x_of_lparam(lparam: u64) -> i32 {
    sign_extend_16((lparam & 0xffff) as u16)
}

/// The y coordinate packed into a pointer-message payload: its next 16
/// bits, signed.
pub open spec fn y_of_lparam(lparam: u64) -> i32 {
    sign_extend_16(((lparam >> 16) & 0xffff) as u16)
}

/// Reads the packed x coordinate out of a pointer-message payload.
pub fn get_x_lparam(lparam: u64) -> (x: i32)
    ensures
        x == x_of_lparam(lparam),
{
    proof {
        assert(lparam & 0xffff <= 0xffff) by (bit_vector);
    }
    let w: u16 = (lparam & 0xffff) as u16;
    if w >= 0x8000 {
        (w as i32) - 0x10000
    } else {
        w as i32
    }
}

/// Reads the packed y coordinate out of a pointer-message payload.
pub fn get_y_lparam(lparam: u64) -> (y: i32)
    ensures
        y == y_of_lparam(lparam),
{
    proof {
        assert((lparam >> 16) & 0xffff <= 0xffff) by (bit_vector);
    }
    let w: u16 = ((lparam >> 16) & 0xffff) as u16;
    if w >= 0x8000 {
        (w as i32) - 0x10000
    } else {
        w as i32
    }
}

/// What one dispatch decided: the callback token the caller must now
/// invoke, with its payload — or that the window declines the message, so
/// default handling must run instead.
#[derive(Clone, Copy, Debug, PartialEq, Eq, Structural)]
pub enum MessageOutcome {
    RunPaint { handler: u64 },
    RunMouseMove { handler: u64, event: MouseEvent },
    RunCommand { handler: u64 },
    NotHandled,
}

/// Options for creating a window; an unset option falls back to the window
/// system's default.
#[derive(Debug)]
pub struct WindowOpt {
    pub topmost: Option<bool>,
    pub position: Option<Point>,
    pub size: Option<Size>,
    pub title: Option<String>,
}

/// The plain inputs of a window-creation call, chosen from a `WindowOpt`.
#[derive(Debug)]
pub struct CreationParams {
    pub x: i32,
    pub y: i32,
    pub width: i32,
    pub height: i32,
    pub title: String,
}

impl WindowOpt {
    pub fn new() -> (r: WindowOpt)
        ensures
            r.topmost is None,
            r.position is None,
            r.size is None,
            r.title is None,
    {
        WindowOpt { topmost: None, position: None, size: None, title: None }
    }

    pub fn is_topmost(self, value: bool) -> (r: WindowOpt)
        ensures
            r.topmost == Some(value),
            r.position == self.position,
            r.size == self.size,
            r.title == self.title,
    {
        WindowOpt { topmost: Some(value), ..self }
    }

    pub fn position(self, value: Point) -> (r: WindowOpt)
        ensures
            r.position == Some(value),
            r.topmost == self.topmost,
            r.size == self.size,
            r.title == self.title,
    {
        WindowOpt { position: Some(value), ..self }
    }

    pub fn size(self, value: Size) -> (r: WindowOpt)
        ensures
            r.size == Some(value),
            r.topmost == self.topmost,
            r.position == self.position,
            r.title == self.title,
    {
        WindowOpt { size: Some(value), ..self }
    }

    pub fn title(self, value: &str) -> (r: WindowOpt)
        ensures
            r.title matches Some(t) && t@ == value@,
            r.topmost == self.topmost,
            r.position == self.position,
            r.size == self.size,
    {
        WindowOpt { title: Some(value.to_owned()), ..self }
    }

    /// The creation call's inputs under these options: the explicit
    /// position and extent where set, the default sentinel where not, and
    /// an empty title where none was given.
    pub fn creation_params(&self) -> (p: CreationParams)
        ensures
            p.x == (match self.position {
                Some(pt) => pt.x,
                None => CW_USEDEFAULT,
            }),
            p.y == (match self.position {
                Some(pt) => pt.y,
                None => CW_USEDEFAULT,
            }),
            p.width == (match self.size {
                Some(s) => s.width,
                None => CW_USEDEFAULT,
            }),
            p.height == (match self.size {
                Some(s) => s.height,
                None => CW_USEDEFAULT,
            }),
            p.title@ == (match self.title {
                Some(t) => t@,
                None => Seq::<char>::empty(),
            }),
    {
        let (x, y) = match &self.position {
            Some(pt) => (pt.x, pt.y),
            None => (CW_USEDEFAULT, CW_USEDEFAULT),
        };
        let (width, height) = match &self.size {
            Some(s) => (s.width, s.height),
            None => (CW_USEDEFAULT, CW_USEDEFAULT),
        };
        let title = match &self.title {
            Some(t) => t.clone(),
            None => String::new(),
        };
        CreationParams { x, y, width, height, title }
    }
}

/// A live window. It exists only with a nonzero native handle: creation
/// failure never constructs one.
#[derive(Debug)]
pub struct Window {
    pub control: CommonWindowControl,
    pub children: Container,
    pub handlers: Vec<WindowEvent>,
}

/// The dispatch decision for one native message delivered to `w`:
/// - a paint request runs the first registered paint callback, if any;
/// - a pointer move decodes the packed coordinates and runs the first
///   registered pointer-move callback, if any, with that position;
/// - a command notice finds the child owning the handle in the payload and
///   runs the first command callback registered for that child's name;
/// - every other message class, and every case above in which no callback
///   is found, is declined and left to default handling.
pub open spec fn spec_on_message(w: Window, msg: u32, wparam: u64, lparam: u64) -> MessageOutcome {
    if msg == WM_PAINT {
        match first_paint(w.handlers@) {
            Some(h) => MessageOutcome::RunPaint { handler: h },
            None => MessageOutcome::NotHandled,
        }
    } else if msg == WM_MOUSEMOVE {
        match first_mousemove(w.handlers@) {
            Some(h) => MessageOutcome::RunMouseMove {
                handler: h,
                event: MouseEvent {
                    mouse_pos: Point { x: x_of_lparam(lparam), y: y_of_lparam(lparam) },
                },
            },
            None => MessageOutcome::NotHandled,
        }
    } else if msg == WM_COMMAND {
        match container::child_by_hwnd(w.children.entries@, lparam) {
            Some(e) => match first_command(w.handlers@, e.name@) {
                Some(h) => MessageOutcome::RunCommand { handler: h },
                None => MessageOutcome::NotHandled,
            },
            None => MessageOutcome::NotHandled,
        }
    } else {
        MessageOutcome::NotHandled
    }
}

/// Paint dispatch is first-match-wins: a paint registration with none of
/// its kind before it is the one a paint message runs, however many more
/// are registered after it — exactly one callback is chosen.
pub proof fn lemma_paint_dispatch_first_match(w: Window, wparam: u64, lparam: u64, i: int)
    requires
        0 <= i < w.handlers@.len(),
        w.handlers@[i].is_paint(),
        forall|k: int| 0 <= k < i ==> !w.handlers@[k].is_paint(),
    ensures
        spec_on_message(w, WM_PAINT, wparam, lparam) == (MessageOutcome::RunPaint {
            handler: w.handlers@[i].handler_id(),
        }),
{
    crate::events::lemma_first_paint_wins(w.handlers@, i);
}

/// A command callback runs only for a handle that a stored child owns: a
/// command message whose embedded handle belongs to the child stored under
/// some name runs the first command registration for exactly that name, and
/// one whose handle no child owns is declined with nothing invoked.
pub proof fn lemma_command_dispatch_match(w: Window, wparam: u64, lparam: u64)
    ensures
        (match container::child_by_hwnd(w.children.entries@, lparam) {
            Some(e) => spec_on_message(w, WM_COMMAND, wparam, lparam) == (match first_command(
                w.handlers@,
                e.name@,
            ) {
                Some(h) => MessageOutcome::RunCommand { handler: h },
                None => MessageOutcome::NotHandled,
            }),
            None => spec_on_message(w, WM_COMMAND, wparam, lparam)
                == MessageOutcome::NotHandled,
        }),
{
}

impl Window {
    /// A usable window owns a nonzero native handle, as does every child it
    /// stores.
    pub open spec fn wf(self) -> bool {
        self.control.wf() && self.children.wf()
    }

    /// A window the window system created with handle `hwnd` from `params`:
    /// no children, no registrations, control state mirroring the request.
    pub fn new(hwnd: u64, params: CreationParams) -> (w: Window)
        requires
            hwnd != 0,
        ensures
            w.control.hwnd == hwnd,
            !w.control.visible,
            w.control.pos == (Point { x: params.x, y: params.y }),
            w.control.size == (Size { width: params.width, height: params.height }),
            w.control.text == params.title,
            w.children.entries@ == Seq::<ContainerEntry>::empty(),
            w.handlers@ == Seq::<WindowEvent>::empty(),
            w.wf(),
    {
        Window {
            control: CommonWindowControl::new(
                hwnd,
                Point::new(params.x, params.y),
                Size::new(params.width, params.height),
                params.title,
            ),
            children: Container::new(),
            handlers: Vec::new(),
        }
    }

    /// Appends one callback registration; dispatch reads the list in this
    /// order.
    pub fn connect(&mut self, handler: WindowEvent)
        ensures
            final(self).handlers@ == old(self).handlers@.push(handler),
            final(self).control == old(self).control,
            final(self).children.entries@ == old(self).children.entries@,
    {
        self.handlers.push(handler);
    }

    /// Moves `component` into this window's tree under `name`.
    pub fn add(&mut self, name: &str, component: Child)
        ensures
            container::grows_by(
                old(self).children.entries@,
                final(self).children.entries@,
                name@,
            ),
            final(self).children.entries@.last().child == component,
            final(self).control == old(self).control,
            final(self).handlers@ == old(self).handlers@,
    {
        self.children.add(name, component);
    }

    /// Typed lookup in this window's tree; see [`Container::find_child`].
    pub fn find_child(&self, name: &str, kind: ChildKind) -> (r: Option<&Child>)
        ensures
            (match container::spec_find_child(self.children.entries@, name@, kind) {
                Some(c) => r matches Some(x) && *x == c,
                None => r is None,
            }),
    {
        self.children.find_child(name, kind)
    }

    /// Routes one native message to this window's registrations and decides
    /// which callback, if any, the caller must invoke. First match wins: at
    /// most one callback is chosen.
    pub fn on_message(&self, msg: u32, wparam: u64, lparam: u64) -> (r: MessageOutcome)
        ensures
            r == spec_on_message(*self, msg, wparam, lparam),
    {
        if msg == WM_PAINT {
            match find_first_paint(&self.handlers) {
                Some(h) => MessageOutcome::RunPaint { handler: h },
                None => MessageOutcome::NotHandled,
            }
        } else if msg == WM_MOUSEMOVE {
            let x = get_x_lparam(lparam);
            let y = get_y_lparam(lparam);
            match find_first_mousemove(&self.handlers) {
                Some(h) => MessageOutcome::RunMouseMove {
                    handler: h,
                    event: MouseEvent::new(Point::new(x, y)),
                },
                None => MessageOutcome::NotHandled,
            }
        } else if msg == WM_COMMAND {
            match self.children.find_by_hwnd(lparam) {
                Some(entry) => match find_first_command(&self.handlers, &entry.name) {
                    Some(h) => MessageOutcome::RunCommand { handler: h },
                    None => MessageOutcome::NotHandled,
                },
                None => MessageOutcome::NotHandled,
            }
        } else {
            MessageOutcome::NotHandled
        }
    }

    pub fn get_hwnd(&self) -> (r: u64)
        ensures
            r == self.control.hwnd,
    {
        self.control.get_hwnd()
    }

    pub fn show(&mut self)
        ensures
            final(self).control == CommonWindowControl::shown(old(self).control),
            final(self).children.entries@ == old(self).children.entries@,
            final(self).handlers@ == old(self).handlers@,
    {
        self.control.show();
    }

    pub fn get_size(&self) -> (s: Size)
        ensures
            s == self.control.size,
    {
        self.control.get_size()
    }

    pub fn set_size(&mut self, size: Size)
        ensures
            final(self).control == CommonWindowControl::resized(old(self).control, size),
            final(self).children.entries@ == old(self).children.entries@,
            final(self).handlers@ == old(self).handlers@,
    {
        self.control.set_size(size);
    }

    pub fn set_position(&mut self, pos: Point)
        ensures
            final(self).control == CommonWindowControl::moved(old(self).control, pos),
            final(self).children.entries@ == old(self).children.entries@,
            final(self).handlers@ == old(self).handlers@,
    {
        self.control.set_position(pos);
    }
}

} // verus!

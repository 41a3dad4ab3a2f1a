//! The event model: callback registrations kept per window, read in
//! registration order during dispatch.
//!
//! A window never runs user code itself: it stores one token per registered
//! callback and dispatch hands the token of the chosen callback back to the
//! embedding program, which keeps the callbacks keyed by token and invokes
//! the chosen one. Dispatch is first-match-wins: at most one callback is
//! chosen per delivered message.

use vstd::prelude::*;
use crate::geometry::Point;

verus! {

/// The payload handed to a paint callback.
pub struct PaintEvent {}

/// The payload handed to a command callback.
pub struct Event {}

/// The payload handed to a pointer-move callback: the decoded pointer
/// position.
#[derive(Clone, Copy, Debug, PartialEq, Eq, Structural)]
pub struct MouseEvent {
    pub mouse_pos: Point,
}

impl MouseEvent {
    pub fn new(mouse_pos: Point) -> (e: MouseEvent)
        ensures
            e.mouse_pos == mouse_pos,
    {
        MouseEvent { mouse_pos }
    }

    pub fn get_position(&self) -> (p: Point)
        ensures
            p == self.mouse_pos,
    {
        self.mouse_pos
    }
}

/// One callback registration. The variant selects the message class it
/// answers; the token names the callback the embedding program keeps for
/// it. `OnButtonClick` also carries the container name it listens for.
#[derive(Debug, PartialEq, Eq)]
pub enum WindowEvent {
    OnPaint(u64),
    OnMouseMove(u64),
    OnButtonClick(String, u64),
}

impl WindowEvent {
    pub open spec fn is_paint(self) -> bool {
        self matches WindowEvent::OnPaint(_)
    }

    pub open spec fn is_mousemove(self) -> bool {
        self matches WindowEvent::OnMouseMove(_)
    }

    /// Whether this registration answers a command raised by the child
    /// stored under `name`.
    pub open spec fn is_command_for(self, name: Seq<char>) -> bool {
        self matches WindowEvent::OnButtonClick(n, _) && n@ == name
    }

    /// The callback token this registration carries.
    pub open spec fn handler_id(self) -> u64 {
        match self {
            WindowEvent::OnPaint(h) => h,
            WindowEvent::OnMouseMove(h) => h,
            WindowEvent::OnButtonClick(_, h) => h,
        }
    }

    /// A paint registration carrying the callback token `handler`.
    pub fn paint(handler: u64) -> (e: WindowEvent)
        ensures
            e == WindowEvent::OnPaint(handler),
    {
        WindowEvent::OnPaint(handler)
    }

    /// A pointer-move registration carrying the callback token `handler`.
    pub fn mousemove(handler: u64) -> (e: WindowEvent)
        ensures
            e == WindowEvent::OnMouseMove(handler),
    {
        WindowEvent::OnMouseMove(handler)
    }

    /// A command registration for the child stored under `name`, carrying
    /// the callback token `handler`.
    pub fn button_click(name: &str, handler: u64) -> (e: WindowEvent)
        ensures
            e matches WindowEvent::OnButtonClick(n, h) && n@ == name@ && h == handler,
    {
        WindowEvent::OnButtonClick(name.to_owned(), handler)
    }
}

/// The token of the first paint registration, in registration order.
pub open spec fn first_paint(events: Seq<WindowEvent>) -> Option<u64>
    decreases events.len(),
{
    if events.len() == 0 {
        None
    } else if events[0].is_paint() {
        Some(events[0].handler_id())
    } else {
        first_paint(events.drop_first())
    }
}

/// The token of the first pointer-move registration, in registration order.
pub open spec fn first_mousemove(events: Seq<WindowEvent>) -> Option<u64>
    decreases events.len(),
{
    if events.len() == 0 {
        None
    } else if events[0].is_mousemove() {
        Some(events[0].handler_id())
    } else {
        first_mousemove(events.drop_first())
    }
}

/// The token of the first command registration for `name`, in registration
/// order.
pub open spec fn first_command(events: Seq<WindowEvent>, name: Seq<char>) -> Option<u64>
    decreases events.len(),
{
    if events.len() == 0 {
        None
    } else if events[0].is_command_for(name) {
        Some(events[0].handler_id())
    } else {
        first_command(events.drop_first(), name)
    }
}

/// First-match-wins for paint dispatch: a paint registration with none of
/// its kind before it is the one that paint dispatch chooses, however many
/// are registered after it.
pub proof fn lemma_first_paint_wins(events: Seq<WindowEvent>, i: int)
    requires
        0 <= i < events.len(),
        events[i].is_paint(),
        forall|k: int| 0 <= k < i ==> !events[k].is_paint(),
    ensures
        first_paint(events) == Some(events[i].handler_id()),
    decreases i,
{
    if i > 0 {
        assert(events.drop_first()[i - 1] == events[i]);
        assert(forall|k: int| 0 <= k < i - 1 ==> events.drop_first()[k] == events[k + 1]);
        lemma_first_paint_wins(events.drop_first(), i - 1);
    }
}

/// First-match-wins for pointer-move dispatch: a pointer-move registration
/// with none of its kind before it is the one that pointer-move dispatch
/// chooses, however many are registered after it.
pub proof fn lemma_first_mousemove_wins(events: Seq<WindowEvent>, i: int)
    requires
        0 <= i < events.len(),
        events[i].is_mousemove(),
        forall|k: int| 0 <= k < i ==> !events[k].is_mousemove(),
    ensures
        first_mousemove(events) == Some(events[i].handler_id()),
    decreases i,
{
    if i > 0 {
        assert(events.drop_first()[i - 1] == events[i]);
        assert(forall|k: int| 0 <= k < i - 1 ==> events.drop_first()[k] == events[k + 1]);
        lemma_first_mousemove_wins(events.drop_first(), i - 1);
    }
}

/// First-match-wins for command dispatch: a command registration for `name`
/// with none for that name before it is the one that command dispatch
/// chooses for `name`.
pub proof fn lemma_first_command_wins(events: Seq<WindowEvent>, name: Seq<char>, i: int)
    requires
        0 <= i < events.len(),
        events[i].is_command_for(name),
        forall|k: int| 0 <= k < i ==> !events[k].is_command_for(name),
    ensures
        first_command(events, name) == Some(events[i].handler_id()),
    decreases i,
{
    if i > 0 {
        assert(events.drop_first()[i - 1] == events[i]);
        assert(forall|k: int| 0 <= k < i - 1 ==> events.drop_first()[k] == events[k + 1]);
        lemma_first_command_wins(events.drop_first(), name, i - 1);
    }
}

/// The first paint registration, by a forward scan.
pub(crate) fn find_first_paint(events: &Vec<WindowEvent>) -> (r: Option<u64>)
    ensures
        r == first_paint(events@),
{
    let n = events.len();
    let mut i: usize = 0;
    proof {
        assert(events@.skip(0) =~= events@);
    }
    while i < n
        invariant
            i <= n,
            n == events@.len(),
            first_paint(events@) == first_paint(events@.skip(i as int)),
        decreases n - i,
    {
        proof {
            assert(events@.skip(i as int)[0] == events@[i as int]);
        }
        match &events[i] {
            WindowEvent::OnPaint(h) => {
                return Some(*h);
            },
            _ => {},
        }
        proof {
            assert(events@.skip(i as int).drop_first() =~= events@.skip(i as int + 1));
        }
        i = i + 1;
    }
    None
}

/// The first pointer-move registration, by a forward scan.
pub(crate) fn find_first_mousemove(events: &Vec<WindowEvent>) -> (r: Option<u64>)
    ensures
        r == first_mousemove(events@),
{
    let n = events.len();
    let mut i: usize = 0;
    proof {
        assert(events@.skip(0) =~= events@);
    }
    while i < n
        invariant
            i <= n,
            n == events@.len(),
            first_mousemove(events@) == first_mousemove(events@.skip(i as int)),
        decreases n - i,
    {
        proof {
            assert(events@.skip(i as int)[0] == events@[i as int]);
        }
        match &events[i] {
            WindowEvent::OnMouseMove(h) => {
                return Some(*h);
            },
            _ => {},
        }
        proof {
            assert(events@.skip(i as int).drop_first() =~= events@.skip(i as int + 1));
        }
        i = i + 1;
    }
    None
}

/// The first command registration for `name`, by a forward scan.
pub(crate) fn find_first_command(events: &Vec<WindowEvent>, name: &String) -> (r: Option<u64>)
    ensures
        r == first_command(events@, name@),
{
    let n = events.len();
    let mut i: usize = 0;
    proof {
        assert(events@.skip(0) =~= events@);
    }
    while i < n
        invariant
            i <= n,
            n == events@.len(),
            first_command(events@, name@) == first_command(events@.skip(i as int), name@),
        decreases n - i,
    {
        proof {
            assert(events@.skip(i as int)[0] == events@[i as int]);
        }
        match &events[i] {
            WindowEvent::OnButtonClick(n_reg, h) => {
                if *n_reg == *name {
                    return Some(*h);
                }
            },
            _ => {},
        }
        proof {
            assert(events@.skip(i as int).drop_first() =~= events@.skip(i as int + 1));
        }
        i = i + 1;
    }
    None
}

} // verus!

//! The process-wide registry: the set of live windows, the one-time native
//! window-class registration, and the message loop's termination condition.
//!
//! The blocking wait/translate/dispatch calls themselves run outside the
//! library. The loop's decisions all stand here: which window owns an
//! incoming handle, what a destroy notice does to the registry, and when no
//! live window remains so the loop must end. A window is recovered from its
//! handle through this registry alone; nothing stores a back-reference that
//! could outlive the window.

use vstd::prelude::*;
use crate::window::{spec_on_message, MessageOutcome, Window, WM_DESTROY};

verus! {

/// Outcome of routing one native message through the registry.
#[derive(Clone, Copy, Debug, PartialEq, Eq, Structural)]
pub enum SystemOutcome {
    /// No live window owns the handle; default handling must run.
    DefaultHandling,
    /// A destroy notice for a live window: the window left the registry.
    /// `quit` says no live window remains, so the message loop must end.
    WindowDestroyed { quit: bool },
    /// The owning window's dispatch decision; a declined message
    /// (`MessageOutcome::NotHandled`) is left to default handling.
    Dispatched(MessageOutcome),
}

/// The registry. One instance is created at startup and handed to whatever
/// runs the message loop.
#[derive(Debug)]
pub struct System {
    pub class_registered: bool,
    pub hinstance: u64,
    pub windows: Vec<Window>,
}

/// The index of the first live window owning `hwnd`, in registration order.
pub open spec fn window_index(s: Seq<Window>, hwnd: u64) -> Option<int>
    decreases s.len(),
{
    if s.len() == 0 {
        None
    } else if s[0].control.hwnd == hwnd {
        Some(0)
    } else {
        match window_index(s.drop_first(), hwnd) {
            Some(i) => Some(i + 1),
            None => None,
        }
    }
}

/// The window an owned handle leads to is real, owns the handle, and no
/// earlier registration owns it; a miss means no live window owns it.
pub proof fn lemma_window_index(s: Seq<Window>, hwnd: u64)
    ensures
        (match window_index(s, hwnd) {
            Some(i) => 0 <= i < s.len() && s[i].control.hwnd == hwnd && (forall|k: int|
                0 <= k < i ==> s[k].control.hwnd != hwnd),
            None => forall|k: int| 0 <= k < s.len() ==> s[k].control.hwnd != hwnd,
        }),
    decreases s.len(),
{
    if s.len() > 0 && s[0].control.hwnd != hwnd {
        lemma_window_index(s.drop_first(), hwnd);
        let rest = s.drop_first();
        assert(forall|k: int| 0 <= k < rest.len() ==> rest[k] == s[k + 1]);
        match window_index(rest, hwnd) {
            Some(i) => {
                assert(window_index(s, hwnd) == Some(i + 1));
                assert forall|k: int| 0 <= k < i + 1 implies s[k].control.hwnd != hwnd by {
                    if k > 0 {
                        assert(rest[k - 1].control.hwnd != hwnd);
                    }
                }
            },
            None => {
                assert forall|k: int| 0 <= k < s.len() implies s[k].control.hwnd != hwnd by {
                    if k > 0 {
                        assert(rest[k - 1].control.hwnd != hwnd);
                    }
                }
            },
        }
    }
}

/// One initialization attempt, as a function of the registry's state and
/// the two values the attempt obtained from the operating system: the
/// process module handle and the atom that window-class registration
/// returned (zero marks failure of either). Once the class is registered,
/// every further attempt succeeds without consulting either value.
pub open spec fn spec_init(s: System, hmodule: u64, class_atom: u16) -> (System, bool) {
    if s.class_registered {
        (s, true)
    } else if hmodule == 0 || class_atom == 0 {
        (s, false)
    } else {
        (System { class_registered: true, hinstance: hmodule, windows: s.windows }, true)
    }
}

/// The outcome of routing one native message for `hwnd` through the
/// registry `s`.
pub open spec fn spec_handle_outcome(
    s: System,
    hwnd: u64,
    msg: u32,
    wparam: u64,
    lparam: u64,
) -> SystemOutcome {
    match window_index(s.windows@, hwnd) {
        None => SystemOutcome::DefaultHandling,
        Some(i) => if msg == WM_DESTROY {
            SystemOutcome::WindowDestroyed { quit: s.windows@.len() == 1 }
        } else {
            SystemOutcome::Dispatched(spec_on_message(s.windows@[i], msg, wparam, lparam))
        },
    }
}

/// The registry's windows after routing one native message for `hwnd`:
/// unchanged, except that a destroy notice removes the owning window.
pub open spec fn spec_windows_after(s: System, hwnd: u64, msg: u32) -> Seq<Window> {
    match window_index(s.windows@, hwnd) {
        Some(i) => if msg == WM_DESTROY {
            s.windows@.remove(i)
        } else {
            s.windows@
        },
        None => s.windows@,
    }
}

impl System {
    /// Every registered window is live: it owns a usable native handle.
    pub open spec fn wf(self) -> bool {
        forall|i: int| 0 <= i < self.windows@.len() ==> (#[trigger] self.windows@[i]).wf()
    }

    /// A fresh registry: class not yet registered, no live windows.
    pub fn new() -> (s: System)
        ensures
            !s.class_registered,
            s.hinstance == 0,
            s.windows@ == Seq::<Window>::empty(),
            s.wf(),
    {
        System { class_registered: false, hinstance: 0, windows: Vec::new() }
    }

    /// Whether an initialization attempt still has to register the native
    /// window class with the operating system: only until the first
    /// successful `init`. A caller performs the registration call only when
    /// this holds, so the class is registered at most once per process.
    pub fn needs_class_registration(&self) -> (r: bool)
        ensures
            r == !self.class_registered,
    {
        !self.class_registered
    }

    /// One initialization attempt; see [`spec_init`]. `hmodule` and
    /// `class_atom` are the operating system's answers to the module-handle
    /// query and the class registration, obtained by the caller only while
    /// [`Self::needs_class_registration`] holds; both are ignored once the
    /// class is registered. Failure of either aborts startup at the caller.
    pub fn init(&mut self, hmodule: u64, class_atom: u16) -> (ok: bool)
        ensures
            (*final(self), ok) == spec_init(*old(self), hmodule, class_atom),
    {
        if self.class_registered {
            true
        } else if hmodule == 0 || class_atom == 0 {
            false
        } else {
            self.class_registered = true;
            self.hinstance = hmodule;
            true
        }
    }

    /// Adds a freshly created live window to the registry.
    pub fn register_window(&mut self, window: Window)
        requires
            window.wf(),
        ensures
            final(self).windows@ == old(self).windows@.push(window),
            final(self).class_registered == old(self).class_registered,
            final(self).hinstance == old(self).hinstance,
            old(self).wf() ==> final(self).wf(),
    {
        self.windows.push(window);
        proof {
            if old(self).wf() {
                assert forall|i: int| 0 <= i < final(self).windows@.len() implies (#[trigger]
                final(self).windows@[i]).wf() by {
                    if i < old(self).windows@.len() {
                        assert(old(self).windows@[i].wf());
                    }
                }
            }
        }
    }

    /// How many live windows the registry holds.
    pub fn window_count(&self) -> (n: usize)
        ensures
            n == self.windows@.len(),
    {
        self.windows.len()
    }

    /// The message loop's termination condition: no live window remains.
    pub fn should_quit(&self) -> (r: bool)
        ensures
            r == (self.windows@.len() == 0),
    {
        self.windows.len() == 0
    }

    /// Routes one native message: recovers the owning window from its
    /// handle, lets a destroy notice remove that window from the registry,
    /// and otherwise hands the message to the window's own dispatch. A
    /// handle no live window owns is left entirely to default handling.
    pub fn handle_message(&mut self, hwnd: u64, msg: u32, wparam: u64, lparam: u64) -> (r:
        SystemOutcome)
        ensures
            r == spec_handle_outcome(*old(self), hwnd, msg, wparam, lparam),
            final(self).windows@ == spec_windows_after(*old(self), hwnd, msg),
            final(self).class_registered == old(self).class_registered,
            final(self).hinstance == old(self).hinstance,
            old(self).wf() ==> final(self).wf(),
    {
        let idx = self.find_window_index(hwnd);
        let r = match idx {
            None => SystemOutcome::DefaultHandling,
            Some(i) => {
                if msg == WM_DESTROY {
                    let quit = self.windows.len() == 1;
                    self.windows.remove(i);
                    SystemOutcome::WindowDestroyed { quit }
                } else {
                    SystemOutcome::Dispatched(self.windows[i].on_message(msg, wparam, lparam))
                }
            },
        };
        proof {
            if old(self).wf() {
                assert forall|i: int| 0 <= i < final(self).windows@.len() implies (#[trigger]
                final(self).windows@[i]).wf() by {
                    match window_index(old(self).windows@, hwnd) {
                        Some(j) => {
                            if msg == WM_DESTROY {
                                if i < j {
                                    assert(old(self).windows@[i].wf());
                                } else {
                                    assert(old(self).windows@[i + 1].wf());
                                }
                            } else {
                                assert(old(self).windows@[i].wf());
                            }
                        },
                        None => {
                            assert(old(self).windows@[i].wf());
                        },
                    }
                }
            }
        }
        r
    }

    /// The index of the live window owning `hwnd`, by a forward scan.
    fn find_window_index(&self, hwnd: u64) -> (r: Option<usize>)
        ensures
            (match window_index(self.windows@, hwnd) {
                Some(i) => r matches Some(j) && j == i && 0 <= i < self.windows@.len(),
                None => r is None,
            }),
    {
        let n = self.windows.len();
        let mut i: usize = 0;
        while i < n
            invariant
                i <= n,
                n == self.windows@.len(),
                forall|k: int| 0 <= k < i ==> self.windows@[k].control.hwnd != hwnd,
            decreases n - i,
        {
            if self.windows[i].get_hwnd() == hwnd {
                proof {
                    lemma_window_index(self.windows@, hwnd);
                }
                return Some(i);
            }
            i = i + 1;
        }
        proof {
            lemma_window_index(self.windows@, hwnd);
        }
        None
    }
}

/// Registry auto-termination: in a registry holding exactly one live
/// window, that window's destroy notice removes it, reports that the
/// message loop must end, and every later message for the destroyed handle
/// falls to default handling — the destroyed window is never dispatched to
/// again.
pub proof fn lemma_destroy_last_window_quits(
    s: System,
    hwnd: u64,
    wparam: u64,
    lparam: u64,
    msg2: u32,
    wparam2: u64,
    lparam2: u64,
)
    requires
        s.windows@.len() == 1,
        s.windows@[0].control.hwnd == hwnd,
    ensures
        spec_handle_outcome(s, hwnd, WM_DESTROY, wparam, lparam) == (SystemOutcome::WindowDestroyed {
            quit: true,
        }),
        spec_windows_after(s, hwnd, WM_DESTROY).len() == 0,
        forall|s2: System|
            s2.windows@ == spec_windows_after(s, hwnd, WM_DESTROY) ==> #[trigger] spec_handle_outcome(
                s2,
                hwnd,
                msg2,
                wparam2,
                lparam2,
            ) == SystemOutcome::DefaultHandling,
{
    assert(window_index(s.windows@, hwnd) == Some(0int));
    assert(spec_windows_after(s, hwnd, WM_DESTROY) =~= Seq::<Window>::empty());
}

/// Idempotent initialization: after one successful attempt the class is
/// registered, and a second attempt succeeds while changing nothing —
/// whatever values it carries — so the native class registration the first
/// attempt consumed remains the only one.
pub proof fn lemma_init_idempotent(s: System, hmodule: u64, class_atom: u16, h2: u64, a2: u16)
    requires
        spec_init(s, hmodule, class_atom).1 == true,
    ensures
        spec_init(s, hmodule, class_atom).0.class_registered,
        spec_init(spec_init(s, hmodule, class_atom).0, h2, a2) == (
        spec_init(s, hmodule, class_atom).0, true),
{
}

} // verus!

//! The widget tree: a window's owned, named collection of child widgets.
//!
//! Entries keep insertion order. Nothing enforces name uniqueness: a later
//! insertion under an existing name shadows the earlier entry for every
//! future lookup, while the earlier entry (and its native handle) lives on.
//! Typed lookup hands a child back only when the requested kind matches the
//! stored kind; a mismatch reports "not found" instead of a wrongly typed
//! value.

use vstd::prelude::*;
use crate::control::CommonWindowControl;
use crate::geometry::{Point, Size};
use crate::widget::{Child, ChildKind};

verus! {

/// One slot of the tree: a caller-supplied name and the stored child.
#[derive(Debug)]
pub struct ContainerEntry {
    pub name: String,
    pub child: Child,
}

/// A named, insertion-ordered collection of child widgets.
#[derive(Debug)]
pub struct Container {
    pub entries: Vec<ContainerEntry>,
}

/// The index a lookup under `name` finds: that of the most recent insertion
/// under the name.
pub open spec fn lookup_index(s: Seq<ContainerEntry>, name: Seq<char>) -> Option<int>
    decreases s.len(),
{
    if s.len() == 0 {
        None
    } else if s.last().name@ == name {
        Some(s.len() - 1)
    } else {
        lookup_index(s.drop_last(), name)
    }
}

/// The entry a lookup under `name` finds, if any.
pub open spec fn lookup(s: Seq<ContainerEntry>, name: Seq<char>) -> Option<ContainerEntry> {
    match lookup_index(s, name) {
        Some(i) => Some(s[i]),
        None => None,
    }
}

/// The first entry, in insertion order, whose child owns the native handle
/// `hwnd`.
pub open spec fn child_by_hwnd(s: Seq<ContainerEntry>, hwnd: u64) -> Option<ContainerEntry>
    decreases s.len(),
{
    if s.len() == 0 {
        None
    } else if s[0].child.hwnd_spec() == hwnd {
        Some(s[0])
    } else {
        child_by_hwnd(s.drop_first(), hwnd)
    }
}

/// What typed lookup under `name` yields: the most recently inserted child
/// under that name, and only if it is of the requested kind.
pub open spec fn spec_find_child(
    s: Seq<ContainerEntry>,
    name: Seq<char>,
    kind: ChildKind,
) -> Option<Child> {
    match lookup(s, name) {
        Some(e) => if e.child.kind() == kind {
            Some(e.child)
        } else {
            None
        },
        None => None,
    }
}

/// `post` is `pre` with one entry appended under `name`.
pub open spec fn grows_by(pre: Seq<ContainerEntry>, post: Seq<ContainerEntry>, name: Seq<char>) -> bool {
    &&& post.len() == pre.len() + 1
    &&& post.last().name@ == name
    &&& post.drop_last() == pre
}

/// `s` with the child at `i` replaced and its name kept.
pub open spec fn updated_child(s: Seq<ContainerEntry>, i: int, c: Child) -> Seq<ContainerEntry> {
    s.update(i, ContainerEntry { name: s[i].name, child: c })
}

/// What a lookup finds is a real entry under the looked-up name, and no
/// later insertion carries that name; a failed lookup means no entry at all
/// carries it.
pub proof fn lemma_lookup_index(s: Seq<ContainerEntry>, name: Seq<char>)
    ensures
        (match lookup_index(s, name) {
            Some(i) => 0 <= i < s.len() && s[i].name@ == name && (forall|j: int|
                i < j < s.len() ==> s[j].name@ != name),
            None => forall|j: int| 0 <= j < s.len() ==> s[j].name@ != name,
        }),
    decreases s.len(),
{
    if s.len() > 0 && s.last().name@ != name {
        lemma_lookup_index(s.drop_last(), name);
        assert(forall|j: int| 0 <= j < s.len() - 1 ==> s.drop_last()[j] == s[j]);
    }
}

/// The most recent insertion under a name decides every future lookup:
/// appending an entry makes lookup under its name find exactly that entry,
/// and leaves lookup under every other name unchanged.
pub proof fn lemma_lookup_after_add(s: Seq<ContainerEntry>, e: ContainerEntry, name: Seq<char>)
    ensures
        lookup(s.push(e), name) == (if e.name@ == name {
            Some(e)
        } else {
            lookup(s, name)
        }),
{
    let s2 = s.push(e);
    assert(s2.last() == e);
    assert(s2.drop_last() =~= s);
    if e.name@ != name {
        match lookup_index(s, name) {
            Some(i) => {
                lemma_lookup_index(s, name);
                assert(s2[i] == s[i]);
            },
            None => {},
        }
    }
}

/// Typed lookup is decided by the most recent insertion under the name, and
/// is kind-safe: after storing `e`, lookup under its name yields the stored
/// child exactly when the child is of the requested kind — never a child of
/// another kind — and lookup under every other name is unchanged.
pub proof fn lemma_find_child_after_add(
    s: Seq<ContainerEntry>,
    e: ContainerEntry,
    name: Seq<char>,
    kind: ChildKind,
)
    ensures
        spec_find_child(s.push(e), name, kind) == (if e.name@ == name {
            if e.child.kind() == kind {
                Some(e.child)
            } else {
                None
            }
        } else {
            spec_find_child(s, name, kind)
        }),
{
    lemma_lookup_after_add(s, e, name);
}

impl Container {
    /// Every stored child owns a usable native handle.
    pub open spec fn wf(self) -> bool {
        forall|i: int| 0 <= i < self.entries@.len() ==> (#[trigger] self.entries@[i]).child.wf()
    }

    pub fn new() -> (c: Container)
        ensures
            c.entries@ == Seq::<ContainerEntry>::empty(),
    {
        Container { entries: Vec::new() }
    }

    /// Moves `child` into the tree under `name`. An entry already stored
    /// under the same name stays, but is shadowed for future lookups.
    pub fn add(&mut self, name: &str, child: Child)
        ensures
            grows_by(old(self).entries@, final(self).entries@, name@),
            final(self).entries@.last().child == child,
    {
        let entry = ContainerEntry { name: name.to_owned(), child };
        self.entries.push(entry);
        proof {
            assert(final(self).entries@.drop_last() =~= old(self).entries@);
        }
    }

    /// The index of the entry that a lookup under `name` finds.
    pub fn find_index(&self, name: &str) -> (r: Option<usize>)
        ensures
            (match lookup_index(self.entries@, name@) {
                Some(i) => r matches Some(j) && j == i && 0 <= i < self.entries@.len(),
                None => r is None,
            }),
    {
        let key: String = name.to_owned();
        let mut i: usize = self.entries.len();
        while i > 0
            invariant
                i <= self.entries@.len(),
                key@ == name@,
                forall|j: int| i <= j < self.entries@.len() ==> self.entries@[j].name@ != name@,
            decreases i,
        {
            let idx = i - 1;
            if self.entries[idx].name == key {
                proof {
                    lemma_lookup_index(self.entries@, name@);
                }
                return Some(idx);
            }
            i = idx;
        }
        proof {
            lemma_lookup_index(self.entries@, name@);
        }
        None
    }

    /// Typed lookup: the child most recently stored under `name`, and only
    /// if it is of the requested kind; a name miss or a kind mismatch both
    /// report nothing found.
    pub fn find_child(&self, name: &str, kind: ChildKind) -> (r: Option<&Child>)
        ensures
            (match spec_find_child(self.entries@, name@, kind) {
                Some(c) => r matches Some(x) && *x == c,
                None => r is None,
            }),
    {
        match self.find_index(name) {
            Some(i) => {
                let c = &self.entries[i].child;
                if c.kind_of() == kind {
                    Some(c)
                } else {
                    None
                }
            },
            None => None,
        }
    }

    /// The first stored entry whose child owns the native handle `hwnd`.
    pub fn find_by_hwnd(&self, hwnd: u64) -> (r: Option<&ContainerEntry>)
        ensures
            (match child_by_hwnd(self.entries@, hwnd) {
                Some(e) => r matches Some(x) && *x == e,
                None => r is None,
            }),
    {
        let n = self.entries.len();
        let mut i: usize = 0;
        proof {
            assert(self.entries@.skip(0) =~= self.entries@);
        }
        while i < n
            invariant
                i <= n,
                n == self.entries@.len(),
                child_by_hwnd(self.entries@, hwnd) == child_by_hwnd(
                    self.entries@.skip(i as int),
                    hwnd,
                ),
            decreases n - i,
        {
            let e = &self.entries[i];
            if e.child.get_hwnd() == hwnd {
                proof {
                    assert(self.entries@.skip(i as int)[0] == self.entries@[i as int]);
                }
                return Some(e);
            }
            proof {
                assert(self.entries@.skip(i as int).drop_first() =~= self.entries@.skip(
                    i as int + 1,
                ));
            }
            i = i + 1;
        }
        None
    }

    /// Shows the child a lookup under `name` finds; reports whether one was
    /// found.
    pub fn show_child(&mut self, name: &str) -> (ok: bool)
        ensures
            (match lookup_index(old(self).entries@, name@) {
                Some(i) => ok && final(self).entries@ == updated_child(
                    old(self).entries@,
                    i,
                    old(self).entries@[i].child.with_control(
                        CommonWindowControl::shown(old(self).entries@[i].child.control_spec()),
                    ),
                ),
                None => !ok && *final(self) == *old(self),
            }),
    {
        match self.find_index(name) {
            Some(i) => {
                let e = &mut self.entries[i];
                e.child.show();
                true
            },
            None => false,
        }
    }

    /// The requested extent of the child a lookup under `name` finds.
    pub fn get_child_size(&self, name: &str) -> (r: Option<Size>)
        ensures
            (match lookup(self.entries@, name@) {
                Some(e) => r == Some(e.child.control_spec().size),
                None => r is None,
            }),
    {
        match self.find_index(name) {
            Some(i) => Some(self.entries[i].child.get_size()),
            None => None,
        }
    }

    /// Resizes the child a lookup under `name` finds, without moving it;
    /// reports whether one was found.
    pub fn set_child_size(&mut self, name: &str, size: Size) -> (ok: bool)
        ensures
            (match lookup_index(old(self).entries@, name@) {
                Some(i) => ok && final(self).entries@ == updated_child(
                    old(self).entries@,
                    i,
                    old(self).entries@[i].child.with_control(
                        CommonWindowControl::resized(
                            old(self).entries@[i].child.control_spec(),
                            size,
                        ),
                    ),
                ),
                None => !ok && *final(self) == *old(self),
            }),
    {
        match self.find_index(name) {
            Some(i) => {
                let e = &mut self.entries[i];
                e.child.set_size(size);
                true
            },
            None => false,
        }
    }

    /// Moves the child a lookup under `name` finds, without resizing it;
    /// reports whether one was found.
    pub fn set_child_position(&mut self, name: &str, pos: Point) -> (ok: bool)
        ensures
            (match lookup_index(old(self).entries@, name@) {
                Some(i) => ok && final(self).entries@ == updated_child(
                    old(self).entries@,
                    i,
                    old(self).entries@[i].child.with_control(
                        CommonWindowControl::moved(old(self).entries@[i].child.control_spec(), pos),
                    ),
                ),
                None => !ok && *final(self) == *old(self),
            }),
    {
        match self.find_index(name) {
            Some(i) => {
                let e = &mut self.entries[i];
                e.child.set_position(pos);
                true
            },
            None => false,
        }
    }

    /// Replaces the text of the child a lookup under `name` finds; reports
    /// whether one was found.
    pub fn set_child_text(&mut self, name: &str, text: &str) -> (ok: bool)
        ensures
            (match lookup_index(old(self).entries@, name@) {
                Some(i) => {
                    &&& ok
                    &&& final(self).entries@.len() == old(self).entries@.len()
                    &&& forall|j: int|
                        0 <= j < old(self).entries@.len() && j != i ==> final(self).entries@[j]
                            == old(self).entries@[j]
                    &&& final(self).entries@[i].name == old(self).entries@[i].name
                    &&& final(self).entries@[i].child.kind() == old(
                        self,
                    ).entries@[i].child.kind()
                    &&& final(self).entries@[i].child.control_spec().text@ == text@
                    &&& final(self).entries@[i].child.control_spec().hwnd == old(
                        self,
                    ).entries@[i].child.control_spec().hwnd
                    &&& final(self).entries@[i].child.control_spec().visible == old(
                        self,
                    ).entries@[i].child.control_spec().visible
                    &&& final(self).entries@[i].child.control_spec().pos == old(
                        self,
                    ).entries@[i].child.control_spec().pos
                    &&& final(self).entries@[i].child.control_spec().size == old(
                        self,
                    ).entries@[i].child.control_spec().size
                },
                None => !ok && *final(self) == *old(self),
            }),
    {
        match self.find_index(name) {
            Some(i) => {
                let e = &mut self.entries[i];
                e.child.set_text(text);
                true
            },
            None => false,
        }
    }
}

} // verus!

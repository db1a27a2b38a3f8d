use vstd::prelude::*;

use crate::layout::{Command, Layout, LayoutStrategy, Viewport, WindowId};
use crate::stack::{focus_after_push, focus_after_remove, next_index, prev_index, swapped, Stack};

verus! {

/// `i` is the first index of `items` that holds `id`.
pub open spec fn is_first_index(items: Seq<WindowId>, id: WindowId, i: int) -> bool {
    &&& 0 <= i < items.len()
    &&& items[i] == id
    &&& forall|j: int| 0 <= j < i ==> items[j] != id
}

/// The first index of `items` that holds `id`, if any.
fn find_window(items: &Vec<WindowId>, id: WindowId) -> (r: Option<usize>)
    ensures
        match r {
            Some(i) => is_first_index(items@, id, i as int),
            None => !items@.contains(id),
        },
{
    let mut i: usize = 0;
    while i < items.len()
        invariant
            i <= items@.len(),
            forall|j: int| 0 <= j < i ==> items@[j] != id,
        decreases items@.len() - i,
    {
        if items[i] == id {
            return Some(i);
        }
        i = i + 1;
    }
    None
}

/// A change made to a group.
#[derive(Clone, Copy, Debug, PartialEq, Eq, Structural)]
pub enum GroupOp {
    AddWindow(WindowId),
    RemoveWindow(WindowId),
    Focus(WindowId),
    FocusNext,
    FocusPrevious,
    ShuffleNext,
    ShufflePrevious,
    LayoutNext,
}

/// A named set of windows, arranged by one of a cycle of layouts.
pub struct Group {
    pub name: String,
    pub viewport: Viewport,
    pub layouts: Vec<LayoutStrategy>,
    pub active: usize,
    pub windows: Stack<WindowId>,
}

/// `g1` is `g0` after `op`.
pub open spec fn group_step(g0: Group, g1: Group, op: GroupOp) -> bool {
    let w0 = g0.windows.items@;
    let f0 = g0.windows.focused;
    let w1 = g1.windows.items@;
    let f1 = g1.windows.focused;
    &&& g1.name == g0.name
    &&& g1.viewport == g0.viewport
    &&& g1.layouts@ == g0.layouts@
    &&& (op is LayoutNext || g1.active == g0.active)
    &&& match op {
        GroupOp::AddWindow(id) => w1 == w0.push(id) && f1 == focus_after_push(w0.len() as int, f0),
        GroupOp::RemoveWindow(id) => if w0.contains(id) {
            forall|i: int|
                is_first_index(w0, id, i) ==> w1 == w0.remove(i) && f1 == focus_after_remove(
                    w0.len() as int,
                    f0,
                    i,
                )
        } else {
            w1 == w0 && f1 == f0
        },
        GroupOp::Focus(id) => w1 == w0 && if w0.contains(id) {
            forall|i: int| is_first_index(w0, id, i) ==> f1 == Some(i as usize)
        } else {
            f1 == f0
        },
        GroupOp::FocusNext => w1 == w0 && f1 == match f0 {
            Some(f) => Some(next_index(w0.len() as int, f as int) as usize),
            None => None,
        },
        GroupOp::FocusPrevious => w1 == w0 && f1 == match f0 {
            Some(f) => Some(prev_index(w0.len() as int, f as int) as usize),
            None => None,
        },
        GroupOp::ShuffleNext => match f0 {
            Some(f) => {
                let g = next_index(w0.len() as int, f as int);
                w1 == swapped(w0, f as int, g) && f1 == Some(g as usize)
            },
            None => w1 == w0 && f1 == f0,
        },
        GroupOp::ShufflePrevious => match f0 {
            Some(f) => {
                let g = prev_index(w0.len() as int, f as int);
                w1 == swapped(w0, f as int, g) && f1 == Some(g as usize)
            },
            None => w1 == w0 && f1 == f0,
        },
        GroupOp::LayoutNext => w1 == w0 && f1 == f0 && g1.active == if g0.layouts@.len() == 0 {
            g0.active
        } else {
            next_index(g0.layouts@.len() as int, g0.active as int) as usize
        },
    }
}

impl Group {
    pub open spec fn wf(&self) -> bool {
        &&& self.windows.wf()
        &&& (self.layouts@.len() == 0 || self.active < self.layouts@.len())
    }

    /// The requests that arrange the group's windows with its active layout;
    /// none where the group has no layout.
    pub open spec fn arrangement(&self) -> Seq<Command> {
        if self.active < self.layouts@.len() {
            self.layouts@[self.active as int].layout_spec(self.viewport, self.windows.items@, self.windows.focused)
        } else {
            Seq::empty()
        }
    }

    /// The focused window, if any.
    pub open spec fn focused_window(&self) -> Option<WindowId> {
        self.windows.focused_item()
    }

    pub fn new(name: String, viewport: Viewport, layouts: Vec<LayoutStrategy>) -> (g: Group)
        ensures
            g.wf(),
            g.name == name,
            g.viewport == viewport,
            g.layouts@ == layouts@,
            g.active == 0,
            g.windows.items@ == Seq::<WindowId>::empty(),
    {
        Group { name, viewport, layouts, active: 0, windows: Stack::new() }
    }

    /// Arranges the windows with the active layout.
    pub fn relayout(&self) -> (r: Vec<Command>)
        requires
            self.wf(),
        ensures
            r@ == self.arrangement(),
    {
        if self.active < self.layouts.len() {
            self.layouts[self.active].layout(&self.viewport, &self.windows)
        } else {
            Vec::new()
        }
    }

    /// Adds window `id` after the others, then arranges the group again.
    pub fn add_window(&mut self, id: WindowId) -> (r: Vec<Command>)
        requires
            old(self).wf(),
        ensures
            final(self).wf(),
            group_step(*old(self), *final(self), GroupOp::AddWindow(id)),
            r@ == final(self).arrangement(),
    {
        self.windows.push(id);
        self.relayout()
    }

    /// Removes the first window `id`, if the group holds it, then arranges
    /// the group again.
    pub fn remove_window(&mut self, id: WindowId) -> (r: Vec<Command>)
        requires
            old(self).wf(),
        ensures
            final(self).wf(),
            group_step(*old(self), *final(self), GroupOp::RemoveWindow(id)),
            r@ == final(self).arrangement(),
    {
        let ghost w0 = self.windows.items@;
        match find_window(&self.windows.items, id) {
            Some(i) => {
                self.windows.remove(i);
                assert forall|k: int| is_first_index(w0, id, k) implies k == i by {
                    if k < i {
                        assert(w0[k] != id);
                    } else if k > i {
                        assert(w0[i as int] != id);
                    }
                }
                assert(w0.contains(id)) by {
                    assert(w0[i as int] == id);
                }
            },
            None => {},
        }
        self.relayout()
    }

    /// Gives focus to the first window `id`, if the group holds it, then
    /// arranges the group again.
    pub fn focus(&mut self, id: WindowId) -> (r: Vec<Command>)
        requires
            old(self).wf(),
        ensures
            final(self).wf(),
            group_step(*old(self), *final(self), GroupOp::Focus(id)),
            r@ == final(self).arrangement(),
    {
        let ghost w0 = self.windows.items@;
        match find_window(&self.windows.items, id) {
            Some(i) => {
                self.windows.focus(i);
                assert forall|k: int| is_first_index(w0, id, k) implies k == i by {
                    if k < i {
                        assert(w0[k] != id);
                    } else if k > i {
                        assert(w0[i as int] != id);
                    }
                }
                assert(w0.contains(id)) by {
                    assert(w0[i as int] == id);
                }
            },
            None => {},
        }
        self.relayout()
    }

    pub fn focus_next(&mut self) -> (r: Vec<Command>)
        requires
            old(self).wf(),
        ensures
            final(self).wf(),
            group_step(*old(self), *final(self), GroupOp::FocusNext),
            r@ == final(self).arrangement(),
    {
        self.windows.focus_next();
        self.relayout()
    }

    pub fn focus_previous(&mut self) -> (r: Vec<Command>)
        requires
            old(self).wf(),
        ensures
            final(self).wf(),
            group_step(*old(self), *final(self), GroupOp::FocusPrevious),
            r@ == final(self).arrangement(),
    {
        self.windows.focus_previous();
        self.relayout()
    }

    pub fn shuffle_next(&mut self) -> (r: Vec<Command>)
        requires
            old(self).wf(),
        ensures
            final(self).wf(),
            group_step(*old(self), *final(self), GroupOp::ShuffleNext),
            r@ == final(self).arrangement(),
    {
        self.windows.shuffle_next();
        self.relayout()
    }

    pub fn shuffle_previous(&mut self) -> (r: Vec<Command>)
        requires
            old(self).wf(),
        ensures
            final(self).wf(),
            group_step(*old(self), *final(self), GroupOp::ShufflePrevious),
            r@ == final(self).arrangement(),
    {
        self.windows.shuffle_previous();
        self.relayout()
    }

    /// Moves on to the next layout of the cycle, then arranges the group again.
    pub fn layout_next(&mut self) -> (r: Vec<Command>)
        requires
            old(self).wf(),
        ensures
            final(self).wf(),
            group_step(*old(self), *final(self), GroupOp::LayoutNext),
            r@ == final(self).arrangement(),
    {
        let n = self.layouts.len();
        if n > 0 {
            if self.active >= n - 1 {
                self.active = 0;
            } else {
                self.active = self.active + 1;
            }
        }
        self.relayout()
    }

    /// Makes change `op`, then arranges the group again.
    pub fn apply(&mut self, op: GroupOp) -> (r: Vec<Command>)
        requires
            old(self).wf(),
        ensures
            final(self).wf(),
            group_step(*old(self), *final(self), op),
            r@ == final(self).arrangement(),
    {
        match op {
            GroupOp::AddWindow(id) => self.add_window(id),
            GroupOp::RemoveWindow(id) => self.remove_window(id),
            GroupOp::Focus(id) => self.focus(id),
            GroupOp::FocusNext => self.focus_next(),
            GroupOp::FocusPrevious => self.focus_previous(),
            GroupOp::ShuffleNext => self.shuffle_next(),
            GroupOp::ShufflePrevious => self.shuffle_previous(),
            GroupOp::LayoutNext => self.layout_next(),
        }
    }

    /// The focused window, if any.
    pub fn get_focused(&self) -> (r: Option<WindowId>)
        requires
            self.wf(),
        ensures
            r == self.focused_window(),
    {
        match self.windows.focused() {
            Some(w) => Some(*w),
            None => None,
        }
    }
}

} // verus!

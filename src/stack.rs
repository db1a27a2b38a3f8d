use vstd::prelude::*;

verus! {

/// Focus of a stack of `len` items is well formed: an index in range when the
/// stack holds items, none when it is empty.
pub open spec fn focus_wf(len: int, focused: Option<usize>) -> bool {
    match focused {
        Some(f) => f < len,
        None => len == 0,
    }
}

/// Focus after appending an item to a stack of `len` items.
pub open spec fn focus_after_push(len: int, focused: Option<usize>) -> Option<usize> {
    if len == 0 {
        Some(0)
    } else {
        focused
    }
}

/// Focus after removing index `i` from a stack of `len` items: the focused item
/// keeps focus; when it is the one removed, the previous item takes it, else
/// the next one, else nothing.
pub open spec fn focus_after_remove(len: int, focused: Option<usize>, i: int) -> Option<usize> {
    match focused {
        None => None,
        Some(f) => if i < f {
            Some((f - 1) as usize)
        } else if i > f {
            Some(f)
        } else if f > 0 {
            Some((f - 1) as usize)
        } else if len > 1 {
            Some(0)
        } else {
            None
        },
    }
}

/// The index after `f` in a ring of `len` positions.
pub open spec fn next_index(len: int, f: int) -> int {
    if f + 1 >= len {
        0
    } else {
        f + 1
    }
}

/// The index before `f` in a ring of `len` positions.
pub open spec fn prev_index(len: int, f: int) -> int {
    if f <= 0 {
        len - 1
    } else {
        f - 1
    }
}

/// `items` with the entries at `a` and `b` exchanged.
pub open spec fn swapped<T>(items: Seq<T>, a: int, b: int) -> Seq<T> {
    items.update(a, items[b]).update(b, items[a])
}

/// One edit of a stack's membership.
pub enum StackOp<T> {
    Push(T),
    Remove(usize),
}

/// Items and focus after one edit; removing an index out of range changes nothing.
pub open spec fn apply_op<T>(items: Seq<T>, focused: Option<usize>, op: StackOp<T>) -> (Seq<T>, Option<usize>) {
    match op {
        StackOp::Push(x) => (items.push(x), focus_after_push(items.len() as int, focused)),
        StackOp::Remove(i) => if i < items.len() {
            (items.remove(i as int), focus_after_remove(items.len() as int, focused, i as int))
        } else {
            (items, focused)
        },
    }
}

/// Items and focus after a sequence of edits, applied from first to last.
pub open spec fn apply_ops<T>(items: Seq<T>, focused: Option<usize>, ops: Seq<StackOp<T>>) -> (Seq<T>, Option<usize>)
    decreases ops.len(),
{
    if ops.len() == 0 {
        (items, focused)
    } else {
        let (i2, f2) = apply_ops(items, focused, ops.drop_last());
        apply_op(i2, f2, ops.last())
    }
}

/// Focus after `k` steps forward.
pub open spec fn next_times(len: int, f: int, k: nat) -> int
    decreases k,
{
    if k == 0 {
        f
    } else {
        next_index(len, next_times(len, f, (k - 1) as nat))
    }
}

/// Focus after `k` steps backward.
pub open spec fn prev_times(len: int, f: int, k: nat) -> int
    decreases k,
{
    if k == 0 {
        f
    } else {
        prev_index(len, prev_times(len, f, (k - 1) as nat))
    }
}

/// Any sequence of pushes and removals keeps the focus well formed: one item
/// is focused exactly when the stack is non-empty.
pub proof fn lemma_ops_keep_focus_wf<T>(items: Seq<T>, focused: Option<usize>, ops: Seq<StackOp<T>>)
    requires
        focus_wf(items.len() as int, focused),
    ensures
        focus_wf(apply_ops(items, focused, ops).0.len() as int, apply_ops(items, focused, ops).1),
    decreases ops.len(),
{
    if ops.len() > 0 {
        lemma_ops_keep_focus_wf(items, focused, ops.drop_last());
    }
}

/// Removing the focused item hands focus to the previous item when there is
/// one, else to the next, else to nothing.
pub proof fn lemma_remove_focused<T>(items: Seq<T>, f: usize)
    requires
        f < items.len(),
    ensures
        f > 0 ==> focus_after_remove(items.len() as int, Some(f), f as int) == Some((f - 1) as usize)
            && items.remove(f as int)[f - 1] == items[f - 1],
        f == 0 && items.len() > 1 ==> focus_after_remove(items.len() as int, Some(f), f as int) == Some(0usize)
            && items.remove(f as int)[0] == items[1],
        f == 0 && items.len() == 1 ==> focus_after_remove(items.len() as int, Some(f), f as int).is_none(),
{
}

proof fn lemma_next_times_add(len: int, f: int, a: nat, b: nat)
    ensures
        next_times(len, f, a + b) == next_times(len, next_times(len, f, a), b),
    decreases b,
{
    if b > 0 {
        lemma_next_times_add(len, f, a, (b - 1) as nat);
        assert((a + b - 1) as nat == a + (b - 1) as nat);
    }
}

proof fn lemma_prev_times_add(len: int, f: int, a: nat, b: nat)
    ensures
        prev_times(len, f, a + b) == prev_times(len, prev_times(len, f, a), b),
    decreases b,
{
    if b > 0 {
        lemma_prev_times_add(len, f, a, (b - 1) as nat);
        assert((a + b - 1) as nat == a + (b - 1) as nat);
    }
}

proof fn lemma_next_times_no_wrap(len: int, f: int, k: nat)
    requires
        0 <= f,
        f + k < len,
    ensures
        next_times(len, f, k) == f + k,
    decreases k,
{
    if k > 0 {
        lemma_next_times_no_wrap(len, f, (k - 1) as nat);
    }
}

proof fn lemma_prev_times_no_wrap(len: int, f: int, k: nat)
    requires
        k <= f < len,
    ensures
        prev_times(len, f, k) == f - k,
    decreases k,
{
    if k > 0 {
        lemma_prev_times_no_wrap(len, f, (k - 1) as nat);
    }
}

/// Stepping focus forward, or backward, as many times as the stack has items
/// brings it back to where it started.
pub proof fn lemma_focus_full_cycle(len: int, f: int)
    requires
        0 <= f < len,
    ensures
        next_times(len, f, len as nat) == f,
        prev_times(len, f, len as nat) == f,
{
    let a = (len - 1 - f) as nat;
    lemma_next_times_no_wrap(len, f, a);
    assert(next_times(len, f, a + 1) == 0);
    lemma_next_times_add(len, f, a + 1, f as nat);
    lemma_next_times_no_wrap(len, 0, f as nat);
    assert((a + 1 + f) as nat == len as nat);

    lemma_prev_times_no_wrap(len, f, f as nat);
    assert(prev_times(len, f, f as nat + 1) == len - 1);
    lemma_prev_times_add(len, f, f as nat + 1, a);
    lemma_prev_times_no_wrap(len, len - 1, a);
    assert((f + 1 + a) as nat == len as nat);
}

/// An ordered sequence of items with at most one focused position.
pub struct Stack<T> {
    pub items: Vec<T>,
    pub focused: Option<usize>,
}

impl<T> Stack<T> {
    /// Exactly one item is focused when the stack is non-empty, none when it is empty.
    pub open spec fn wf(&self) -> bool {
        focus_wf(self.items@.len() as int, self.focused)
    }

    /// The focused item, if any.
    pub open spec fn focused_item(&self) -> Option<T> {
        match self.focused {
            Some(f) => Some(self.items@[f as int]),
            None => None,
        }
    }

    pub fn new() -> (s: Self)
        ensures
            s.wf(),
            s.items@ == Seq::<T>::empty(),
            s.focused.is_none(),
    {
        Stack { items: Vec::new(), focused: None }
    }

    pub fn len(&self) -> (r: usize)
        ensures
            r == self.items@.len(),
    {
        self.items.len()
    }

    /// Appends `item`; it takes focus when the stack was empty.
    pub fn push(&mut self, item: T)
        requires
            old(self).wf(),
        ensures
            final(self).wf(),
            final(self).items@ == old(self).items@.push(item),
            final(self).focused == focus_after_push(old(self).items@.len() as int, old(self).focused),
    {
        if self.items.len() == 0 {
            self.focused = Some(0);
        }
        self.items.push(item);
    }

    /// Removes the item at index `i`.
    pub fn remove(&mut self, i: usize) -> (r: T)
        requires
            old(self).wf(),
            i < old(self).items@.len(),
        ensures
            final(self).wf(),
            r == old(self).items@[i as int],
            final(self).items@ == old(self).items@.remove(i as int),
            final(self).focused == focus_after_remove(old(self).items@.len() as int, old(self).focused, i as int),
    {
        let len = self.items.len();
        let f = self.focused.unwrap();
        if i < f {
            self.focused = Some(f - 1);
        } else if i == f {
            if f > 0 {
                self.focused = Some(f - 1);
            } else if len > 1 {
                self.focused = Some(0);
            } else {
                self.focused = None;
            }
        }
        self.items.remove(i)
    }

    /// Gives focus to index `i`.
    pub fn focus(&mut self, i: usize)
        requires
            old(self).wf(),
            i < old(self).items@.len(),
        ensures
            final(self).wf(),
            final(self).items@ == old(self).items@,
            final(self).focused == Some(i),
    {
        self.focused = Some(i);
    }

    /// Moves focus one place forward, from the last item to the first.
    pub fn focus_next(&mut self)
        requires
            old(self).wf(),
        ensures
            final(self).wf(),
            final(self).items@ == old(self).items@,
            final(self).focused == match old(self).focused {
                Some(f) => Some(next_index(old(self).items@.len() as int, f as int) as usize),
                None => None,
            },
    {
        if let Some(f) = self.focused {
            if f >= self.items.len() - 1 {
                self.focused = Some(0);
            } else {
                self.focused = Some(f + 1);
            }
        }
    }

    /// Moves focus one place backward, from the first item to the last.
    pub fn focus_previous(&mut self)
        requires
            old(self).wf(),
        ensures
            final(self).wf(),
            final(self).items@ == old(self).items@,
            final(self).focused == match old(self).focused {
                Some(f) => Some(prev_index(old(self).items@.len() as int, f as int) as usize),
                None => None,
            },
    {
        if let Some(f) = self.focused {
            if f == 0 {
                self.focused = Some(self.items.len() - 1);
            } else {
                self.focused = Some(f - 1);
            }
        }
    }

    /// Exchanges the focused item with the one at `g`; focus follows the item.
    fn swap_focused_with(&mut self, g: usize)
        requires
            old(self).wf(),
            old(self).focused.is_some(),
            g < old(self).items@.len(),
        ensures
            final(self).wf(),
            final(self).items@ == swapped(old(self).items@, old(self).focused.unwrap() as int, g as int),
            final(self).focused == Some(g),
    {
        let f = self.focused.unwrap();
        if f != g {
            let ghost s = self.items@;
            let mut tmp = self.items.remove(g);
            let fi: usize = if f < g { f } else { f - 1 };
            core::mem::swap(&mut self.items[fi], &mut tmp);
            self.items.insert(g, tmp);
            assert(self.items@ =~= swapped(s, f as int, g as int));
        }
        self.focused = Some(g);
    }

    /// Moves the focused item one place forward, exchanging it with its
    /// neighbour (the last with the first); focus stays on the moved item.
    pub fn shuffle_next(&mut self)
        requires
            old(self).wf(),
        ensures
            final(self).wf(),
            match old(self).focused {
                Some(f) => {
                    let g = next_index(old(self).items@.len() as int, f as int);
                    &&& final(self).items@ == swapped(old(self).items@, f as int, g)
                    &&& final(self).focused == Some(g as usize)
                },
                None => *final(self) == *old(self),
            },
    {
        if let Some(f) = self.focused {
            let g = if f >= self.items.len() - 1 { 0 } else { f + 1 };
            self.swap_focused_with(g);
        }
    }

    /// Moves the focused item one place backward, exchanging it with its
    /// neighbour (the first with the last); focus stays on the moved item.
    pub fn shuffle_previous(&mut self)
        requires
            old(self).wf(),
        ensures
            final(self).wf(),
            match old(self).focused {
                Some(f) => {
                    let g = prev_index(old(self).items@.len() as int, f as int);
                    &&& final(self).items@ == swapped(old(self).items@, f as int, g)
                    &&& final(self).focused == Some(g as usize)
                },
                None => *final(self) == *old(self),
            },
    {
        if let Some(f) = self.focused {
            let g = if f == 0 { self.items.len() - 1 } else { f - 1 };
            self.swap_focused_with(g);
        }
    }

    /// The focused item, if any.
    pub fn focused(&self) -> (r: Option<&T>)
        requires
            self.wf(),
        ensures
            r.is_some() == self.focused.is_some(),
            r.is_some() ==> *r.unwrap() == self.items@[self.focused.unwrap() as int],
    {
        match self.focused {
            Some(f) => Some(&self.items[f]),
            None => None,
        }
    }
}

} // verus!

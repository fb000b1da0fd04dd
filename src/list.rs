use vstd::prelude::*;

verus! {

/// The index that `next` moves to: one step down, clamped at the last item.
pub open spec fn next_index(len: int, index: int) -> int {
    if len != 0 && index < len - 1 {
        index + 1
    } else {
        index
    }
}

/// What `next` does at the last item.
#[derive(Debug, Clone, Copy, PartialEq, Eq, Structural)]
pub enum EndPolicy {
    /// Stay on the last item.
    Clamp,
    /// Go back to the first item.
    Wrap,
}

/// The index that `next_with` moves to under `policy`.
pub open spec fn next_index_with(len: int, index: int, policy: EndPolicy) -> int {
    if len != 0 && index < len - 1 {
        index + 1
    } else if policy == EndPolicy::Wrap && len != 0 {
        0
    } else {
        index
    }
}

/// The index that `prev` moves to: one step up, never past the first item.
pub open spec fn prev_index(index: int) -> int {
    if index != 0 {
        index - 1
    } else {
        index
    }
}

/// The index after the items were replaced by `len` new ones: kept where it
/// still lies on an item, else moved to the last item (0 on an empty list).
pub open spec fn clamped_index(len: int, index: int) -> int {
    if index == 0 || index < len {
        index
    } else if len == 0 {
        0
    } else {
        len - 1
    }
}

/// `n` successive calls of `next`.
pub open spec fn next_times(len: int, index: int, n: nat) -> int
    decreases n,
{
    if n == 0 {
        index
    } else {
        next_times(len, next_index(len, index), (n - 1) as nat)
    }
}

/// Away from the boundaries, a step up and a step down undo each other.
pub proof fn lemma_prev_next_round_trip(len: int, index: int)
    requires
        0 <= index < len,
    ensures
        0 < index ==> next_index(len, prev_index(index)) == index,
        index < len - 1 ==> prev_index(next_index(len, index)) == index,
{
}

/// Under the clamp policy `next` at the last item is a no-op, and no number
/// of calls of `next` moves a valid index past the last item.
pub proof fn lemma_next_clamps(len: int, index: int, n: nat)
    requires
        0 <= index < len,
    ensures
        next_index(len, len - 1) == len - 1,
        index <= next_times(len, index, n) <= len - 1,
    decreases n,
{
    if n > 0 {
        lemma_next_clamps(len, next_index(len, index), (n - 1) as nat);
    }
}

/// `prev` at the first item is a no-op.
pub proof fn lemma_prev_at_top()
    ensures
        prev_index(0) == 0,
{
}

/// A sequence of items with a selection index into it.
#[derive(Debug)]
pub struct ContentList<T> {
    pub list: Vec<T>,
    pub index: usize,
}

impl<T> ContentList<T> {
    /// The index lies on an item, or is 0 on an empty list.
    pub open spec fn well_formed(&self) -> bool {
        self.index == 0 || self.index < self.list.len()
    }

    pub fn new() -> (r: Self)
        ensures
            r.list@.len() == 0,
            r.index == 0,
    {
        ContentList { list: Vec::new(), index: 0 }
    }

    /// Go to the next item in the list; stays on the last one.
    pub fn next(&mut self)
        ensures
            final(self).list@ == old(self).list@,
            final(self).index == next_index(old(self).list@.len() as int, old(self).index as int),
    {
        self.next_with(EndPolicy::Clamp);
    }

    /// Go to the next item in the list; at the last one, stay or wrap to the
    /// first as `policy` says.
    pub fn next_with(&mut self, policy: EndPolicy)
        ensures
            final(self).list@ == old(self).list@,
            final(self).index == next_index_with(old(self).list@.len() as int, old(self).index as int, policy),
    {
        let len = self.list.len();
        if len != 0 && self.index < len - 1 {
            self.index += 1;
        } else if policy == EndPolicy::Wrap && len != 0 {
            self.index = 0;
        }
    }

    /// Go to the previous item in the list; stays on the first one.
    pub fn prev(&mut self)
        ensures
            final(self).list@ == old(self).list@,
            final(self).index == prev_index(old(self).index as int),
    {
        if self.index != 0 {
            self.index -= 1;
        }
    }

    pub fn reset_index(&mut self)
        ensures
            final(self).list@ == old(self).list@,
            final(self).index == 0,
    {
        self.index = 0;
    }

    /// The selected item, or `None` when the index lies on no item (always
    /// so for an empty list).
    pub fn current(&self) -> (r: Option<&T>)
        ensures
            self.index < self.list@.len() ==> r == Some(&self.list@[self.index as int]),
            self.index >= self.list@.len() ==> r is None,
    {
        if self.index < self.list.len() {
            Some(&self.list[self.index])
        } else {
            None
        }
    }

    /// Brings the index back onto the list after its items were replaced.
    pub fn clamp_index(&mut self)
        ensures
            final(self).list@ == old(self).list@,
            final(self).well_formed(),
            final(self).index == clamped_index(old(self).list@.len() as int, old(self).index as int),
    {
        if self.index != 0 && self.index >= self.list.len() {
            if self.list.len() == 0 {
                self.index = 0;
            } else {
                self.index = self.list.len() - 1;
            }
        }
    }

    /// Replaces the items wholesale and clamps the index onto them.
    pub fn set_list(&mut self, items: Vec<T>)
        ensures
            final(self).list@ == items@,
            final(self).well_formed(),
            final(self).index == clamped_index(items@.len() as int, old(self).index as int),
    {
        self.list = items;
        self.clamp_index();
    }

    /// Selects the first item.
    pub fn select_first(&mut self)
        ensures
            final(self).list@ == old(self).list@,
            final(self).index == 0,
    {
        self.index = 0;
    }

    /// Selects the last item; an empty list keeps index 0.
    pub fn select_last(&mut self)
        ensures
            final(self).list@ == old(self).list@,
            final(self).index == if old(self).list@.len() == 0 {
                0
            } else {
                old(self).list@.len() - 1
            },
    {
        if self.list.len() == 0 {
            self.index = 0;
        } else {
            self.index = self.list.len() - 1;
        }
    }
}

impl<T> Default for ContentList<T> {
    fn default() -> (r: Self)
        ensures
            r.list@.len() == 0,
            r.index == 0,
    {
        Self::new()
    }
}

/// The play queue as the client caches it, with its selection.
#[derive(Debug)]
pub struct Queue {
    pub list: Vec<crate::song::RSong>,
    pub index: usize,
}

impl Queue {
    pub fn new() -> (r: Self)
        ensures
            r.list@.len() == 0,
            r.index == 0,
    {
        Queue { list: Vec::new(), index: 0 }
    }

    /// Go to the next song; stays on the last one.
    pub fn next(&mut self)
        ensures
            final(self).list@ == old(self).list@,
            final(self).index == next_index(old(self).list@.len() as int, old(self).index as int),
    {
        let len = self.list.len();
        if len != 0 && self.index < len - 1 {
            self.index += 1;
        }
    }

    /// Go to the previous song; stays on the first one.
    pub fn prev(&mut self)
        ensures
            final(self).list@ == old(self).list@,
            final(self).index == prev_index(old(self).index as int),
    {
        if self.index != 0 {
            self.index -= 1;
        }
    }

    pub fn reset_index(&mut self)
        ensures
            final(self).list@ == old(self).list@,
            final(self).index == 0,
    {
        self.index = 0;
    }
}

} // verus!

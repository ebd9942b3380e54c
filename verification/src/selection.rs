//! The abstract state shared by every selectable list: a sequence of items with one
//! position marked, moving forward and backward with wraparound.

use vstd::prelude::*;

verus! {

/// A list of items together with the position of the marked one.
pub struct Selection<T> {
    pub items: Seq<T>,
    pub index: nat,
}

impl<T> Selection<T> {
    /// The marked position lies inside a non-empty list and is 0 in an empty one.
    pub open spec fn wf(self) -> bool {
        if self.items.len() == 0 {
            self.index == 0
        } else {
            self.index < self.items.len()
        }
    }

    /// The mark moved one step forward, from the last position back to the first.
    /// An empty list stays as it is.
    pub open spec fn next(self) -> Self {
        if self.items.len() == 0 {
            self
        } else {
            Selection { items: self.items, index: (self.index + 1) % self.items.len() }
        }
    }

    /// The mark moved one step backward, from the first position on to the last.
    /// An empty list stays as it is.
    pub open spec fn previous(self) -> Self {
        if self.items.len() == 0 {
            self
        } else if self.index == 0 {
            Selection { items: self.items, index: (self.items.len() - 1) as nat }
        } else {
            Selection { items: self.items, index: (self.index - 1) as nat }
        }
    }

    /// The marked item, if the mark points at one.
    pub open spec fn current(self) -> Option<T> {
        if self.index < self.items.len() {
            Some(self.items[self.index as int])
        } else {
            None
        }
    }

    /// A fresh list with the mark on its first position.
    pub open spec fn replaced(items: Seq<T>) -> Self {
        Selection { items, index: 0 }
    }

    /// `next` applied `steps` times.
    pub open spec fn next_times(self, steps: nat) -> Self
        decreases steps,
    {
        if steps == 0 {
            self
        } else {
            self.next_times((steps - 1) as nat).next()
        }
    }

    /// `previous` applied `steps` times.
    pub open spec fn previous_times(self, steps: nat) -> Self
        decreases steps,
    {
        if steps == 0 {
            self
        } else {
            self.previous_times((steps - 1) as nat).previous()
        }
    }
}

/// Moving the mark keeps a well-formed selection well-formed and never touches the items.
pub proof fn lemma_step_preserves_wf<T>(s: Selection<T>)
    requires
        s.wf(),
    ensures
        s.next().wf(),
        s.previous().wf(),
        s.next().items == s.items,
        s.previous().items == s.items,
{
}

/// One step forward and one step back cancel out, in either order.
pub proof fn lemma_next_previous_inverse<T>(s: Selection<T>)
    requires
        s.wf(),
    ensures
        s.next().previous() == s,
        s.previous().next() == s,
{
    let n = s.items.len() as int;
    if n > 0 {
        if s.index + 1 < n {
            assert((s.index as int + 1) % n == s.index + 1) by (nonlinear_arith)
                requires
                    0 <= s.index + 1 < n,
            ;
        } else {
            assert((s.index as int + 1) % n == 0) by (nonlinear_arith)
                requires
                    s.index + 1 == n,
                    n > 0,
            ;
        }
        if s.index == 0 {
            assert(((n - 1) + 1) % n == 0) by (nonlinear_arith)
                requires
                    n > 0,
            ;
        } else {
            assert(((s.index - 1) + 1) % n == s.index) by (nonlinear_arith)
                requires
                    0 < s.index < n,
            ;
        }
    }
}

/// After `steps` steps forward the mark stands `steps` positions further, modulo the length.
pub proof fn lemma_next_times<T>(s: Selection<T>, steps: nat)
    requires
        s.wf(),
        s.items.len() > 0,
    ensures
        s.next_times(steps).items == s.items,
        s.next_times(steps).index == (s.index as int + steps as int) % (s.items.len() as int),
    decreases steps,
{
    let n = s.items.len() as int;
    if steps == 0 {
        assert((s.index as int) % n == s.index) by (nonlinear_arith)
            requires
                0 <= s.index < n,
        ;
    } else {
        lemma_next_times(s, (steps - 1) as nat);
        let before = (s.index + steps - 1) as int;
        assert(((before % n) + 1) % n == (before + 1) % n) by (nonlinear_arith)
            requires
                n > 0,
                before >= 0,
        ;
    }
}

/// After `steps` steps backward the mark stands `steps` positions earlier, modulo the length.
pub proof fn lemma_previous_times<T>(s: Selection<T>, steps: nat)
    requires
        s.wf(),
        s.items.len() > 0,
    ensures
        s.previous_times(steps).items == s.items,
        s.previous_times(steps).index == (s.index as int - steps as int) % (s.items.len() as int),
    decreases steps,
{
    let n = s.items.len() as int;
    if steps == 0 {
        assert((s.index as int) % n == s.index) by (nonlinear_arith)
            requires
                0 <= s.index < n,
        ;
    } else {
        lemma_previous_times(s, (steps - 1) as nat);
        let before = s.index - (steps - 1);
        let at = before % n;
        assert(0 <= at < n) by (nonlinear_arith)
            requires
                n > 0,
                at == before % n,
        ;
        if at == 0 {
            assert((before - 1) % n == n - 1) by (nonlinear_arith)
                requires
                    n > 0,
                    before % n == 0,
            ;
        } else {
            assert((before - 1) % n == at - 1) by (nonlinear_arith)
                requires
                    n > 0,
                    at == before % n,
                    0 < at < n,
            ;
        }
    }
}

/// Wraparound: on a list of `n` items, `n` steps forward bring the mark back to where it
/// started, and so do `n` steps backward. On an empty list nothing moves at all.
pub proof fn lemma_full_cycle<T>(s: Selection<T>)
    requires
        s.wf(),
    ensures
        s.next_times(s.items.len()) == s,
        s.previous_times(s.items.len()) == s,
        s.items.len() == 0 ==> s.next() == s && s.previous() == s,
{
    let n = s.items.len() as int;
    if n > 0 {
        lemma_next_times(s, s.items.len());
        lemma_previous_times(s, s.items.len());
        assert((s.index + n) % n == s.index) by (nonlinear_arith)
            requires
                0 <= s.index < n,
        ;
        assert((s.index - n) % n == s.index) by (nonlinear_arith)
            requires
                0 <= s.index < n,
        ;
    }
}

/// The position after `index` on a list of `len` items, wrapping to 0 past the end.
pub fn next_index(index: usize, len: usize) -> (r: usize)
    requires
        index < len,
    ensures
        r == (index as nat + 1) % (len as nat),
        r < len,
{
    (index + 1) % len
}

/// The position before `index` on a list of `len` items, wrapping to the end before 0.
pub fn previous_index(index: usize, len: usize) -> (r: usize)
    requires
        index < len,
    ensures
        r == if index == 0 { len - 1 } else { index - 1 },
        r < len,
{
    if index == 0 {
        len - 1
    } else {
        index - 1
    }
}

} // verus!

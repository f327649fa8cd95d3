//! Selection cursor over the queue: cyclic next/previous over a bound,
//! re-clamped whenever the queue snapshot changes size.

use vstd::arithmetic::div_mod::{
    lemma_add_mod_noop_right, lemma_mod_add_multiples_vanish, lemma_mod_division_less_than_divisor,
    lemma_mod_self_0, lemma_small_mod,
};
use vstd::prelude::*;

verus! {

/// Where the cursor moves on one forward step: a zero bound is a no-op,
/// an unset cursor lands on the first entry, a set one advances modulo
/// the bound.
pub open spec fn next_sel(sel: Option<usize>, bound: usize) -> Option<usize> {
    if bound == 0 {
        sel
    } else {
        match sel {
            None => Some(0usize),
            Some(i) => Some((((i as int) + 1) % (bound as int)) as usize),
        }
    }
}

/// Where the cursor moves on one backward step; the mirror image of
/// [`next_sel`].
pub open spec fn prev_sel(sel: Option<usize>, bound: usize) -> Option<usize> {
    if bound == 0 {
        sel
    } else {
        match sel {
            None => Some(0usize),
            Some(i) => Some((((i as int) + (bound as int) - 1) % (bound as int)) as usize),
        }
    }
}

/// Where the cursor stands after the bound changes: an index that is
/// still valid is kept, one that fell off the end is clamped to the last
/// valid index, and a cursor over an empty queue is unset.
pub open spec fn rebind_sel(sel: Option<usize>, new_bound: usize) -> Option<usize> {
    match sel {
        None => None,
        Some(i) => if i < new_bound {
            Some(i)
        } else if new_bound == 0 {
            None
        } else {
            Some((new_bound - 1) as usize)
        },
    }
}

/// Cursor over a queue of `bound` entries: either unset, or an index
/// below `bound`.  It tracks the highlighted row, independent of the
/// daemon's currently-playing position.
pub struct Selection {
    selected: Option<usize>,
    bound: usize,
}

impl Selection {
    /// The cursor never points at or past the bound.
    pub open spec fn wf(self) -> bool {
        self.spec_selected() is Some ==> self.spec_selected()->0 < self.spec_bound()
    }

    /// The current cursor position.
    pub closed spec fn spec_selected(self) -> Option<usize> {
        self.selected
    }

    /// The number of queue entries the cursor ranges over.
    pub closed spec fn spec_bound(self) -> usize {
        self.bound
    }

    /// A fresh, unset cursor over `bound` entries.
    pub fn new(bound: usize) -> (s: Selection)
        ensures
            s.spec_selected() is None,
            s.spec_bound() == bound,
            s.wf(),
    {
        Selection { selected: None, bound }
    }

    /// The current cursor position.
    pub fn selected(&self) -> (r: Option<usize>)
        ensures
            r == self.spec_selected(),
    {
        self.selected
    }

    /// The number of queue entries the cursor ranges over.
    pub fn bound(&self) -> (r: usize)
        ensures
            r == self.spec_bound(),
    {
        self.bound
    }

    /// Place the cursor on a valid index.
    pub fn select(&mut self, i: usize)
        requires
            i < old(self).spec_bound(),
        ensures
            final(self).spec_selected() == Some(i),
            final(self).spec_bound() == old(self).spec_bound(),
            final(self).wf(),
    {
        self.selected = Some(i);
    }

    /// Move the cursor one entry forward, wrapping at the end of the
    /// queue; on an empty queue nothing happens and nothing panics.
    pub fn next(&mut self)
        requires
            old(self).wf(),
        ensures
            final(self).wf(),
            final(self).spec_bound() == old(self).spec_bound(),
            final(self).spec_selected() == next_sel(old(self).spec_selected(), old(self).spec_bound()),
    {
        if self.bound == 0 {
            return;
        }
        let i: usize = match self.selected {
            Some(i) => if i >= self.bound - 1 {
                proof {
                    lemma_mod_self_0(self.bound as int);
                }
                0
            } else {
                proof {
                    lemma_small_mod((i + 1) as nat, self.bound as nat);
                }
                i + 1
            },
            None => 0,
        };
        self.selected = Some(i);
    }

    /// Move the cursor one entry backward, wrapping at the start of the
    /// queue; on an empty queue nothing happens and nothing panics.
    pub fn previous(&mut self)
        requires
            old(self).wf(),
        ensures
            final(self).wf(),
            final(self).spec_bound() == old(self).spec_bound(),
            final(self).spec_selected() == prev_sel(old(self).spec_selected(), old(self).spec_bound()),
    {
        if self.bound == 0 {
            return;
        }
        let i: usize = match self.selected {
            Some(i) => if i == 0 {
                proof {
                    lemma_small_mod((self.bound - 1) as nat, self.bound as nat);
                }
                self.bound - 1
            } else {
                proof {
                    lemma_mod_add_multiples_vanish((i - 1) as int, self.bound as int);
                    lemma_small_mod((i - 1) as nat, self.bound as nat);
                }
                i - 1
            },
            None => 0,
        };
        self.selected = Some(i);
    }

    /// Commit the cursor: the command that switches playback to the
    /// selected entry, or none while the cursor is unset — the caller
    /// reports that and moves on; nothing panics.
    pub fn commit(&self, mpd: &crate::mpd::Mpd) -> (r: Option<crate::mpd::DaemonRequest>)
        ensures
            r == match self.spec_selected() {
                Some(i) => Some(crate::mpd::DaemonRequest::SwitchTo(i)),
                None => None::<crate::mpd::DaemonRequest>,
            },
    {
        match self.selected {
            Some(i) => Some(mpd.issue_switch(i)),
            None => None,
        }
    }

    /// Give the cursor a new bound after the queue snapshot changed
    /// size, clamping an index that is no longer valid.
    pub fn rebind(&mut self, new_bound: usize)
        ensures
            final(self).wf(),
            final(self).spec_bound() == new_bound,
            final(self).spec_selected() == rebind_sel(old(self).spec_selected(), new_bound),
    {
        self.bound = new_bound;
        if let Some(i) = self.selected {
            if i >= new_bound {
                if new_bound == 0 {
                    self.selected = None;
                } else {
                    self.selected = Some(new_bound - 1);
                }
            }
        }
    }
}

/// The cursor after `k` forward steps.
pub open spec fn iterate_next(sel: Option<usize>, bound: usize, k: nat) -> Option<usize>
    decreases k,
{
    if k == 0 {
        sel
    } else {
        next_sel(iterate_next(sel, bound, (k - 1) as nat), bound)
    }
}

proof fn lemma_iterate_next_set(i: usize, bound: usize, k: nat)
    requires
        i < bound,
    ensures
        iterate_next(Some(i), bound, k) == Some((((i as int) + k) % (bound as int)) as usize),
    decreases k,
{
    if k == 0 {
        lemma_small_mod(i as nat, bound as nat);
    } else {
        lemma_iterate_next_set(i, bound, (k - 1) as nat);
        lemma_mod_division_less_than_divisor((i as int) + k - 1, bound as int);
        lemma_add_mod_noop_right(1, (i as int) + k - 1, bound as int);
    }
}

/// Empty-queue safety: over a zero-length queue a well-formed cursor is
/// unset, and stepping it in either direction leaves it unset.
pub proof fn lemma_empty_queue_safety(s: Selection)
    requires
        s.wf(),
        s.spec_bound() == 0,
    ensures
        s.spec_selected() is None,
        next_sel(s.spec_selected(), s.spec_bound()) == s.spec_selected(),
        prev_sel(s.spec_selected(), s.spec_bound()) == s.spec_selected(),
{
}

/// Cyclic selection: on a queue of `bound > 0` entries, stepping the
/// cursor forward exactly `bound` times returns it to where it started.
pub proof fn lemma_next_cycles(i: usize, bound: usize)
    requires
        i < bound,
    ensures
        iterate_next(Some(i), bound, bound as nat) == Some(i),
{
    lemma_iterate_next_set(i, bound, bound as nat);
    lemma_mod_add_multiples_vanish(i as int, bound as int);
    lemma_small_mod(i as nat, bound as nat);
}

/// Stepping forward and then backward is a no-op on a set cursor.
pub proof fn lemma_prev_undoes_next(i: usize, bound: usize)
    requires
        i < bound,
    ensures
        prev_sel(next_sel(Some(i), bound), bound) == Some(i),
{
    lemma_mod_division_less_than_divisor((i as int) + 1, bound as int);
    lemma_add_mod_noop_right((bound as int) - 1, (i as int) + 1, bound as int);
    lemma_mod_add_multiples_vanish(i as int, bound as int);
    lemma_small_mod(i as nat, bound as nat);
}

} // verus!

//! The selection-list primitive: a highlight cursor that moves cyclically
//! through a fixed number of options, plus an independent multi-select set.

use vstd::prelude::*;
use std::collections::HashSet;

verus! {

broadcast use vstd::std_specs::hash::group_hash_axioms;

/// Abstract value of an [`OptionListState`].
pub ghost struct OptionListView {
    pub highlighted: Option<usize>,
    pub selected: Set<usize>,
    pub option_size: nat,
}

impl OptionListView {
    /// The highlight cursor; meaningful only when `wf()` holds.
    pub open spec fn hl(self) -> int {
        self.highlighted->Some_0 as int
    }

    pub open spec fn wf(self) -> bool {
        &&& self.option_size >= 1
        &&& self.highlighted matches Some(h) && h < self.option_size
    }
}

/// One cyclic step forward through `[0, n)`.
pub open spec fn rot_next(h: int, n: int) -> int {
    (h + 1) % n
}

/// One cyclic step backward through `[0, n)`.
pub open spec fn rot_prev(h: int, n: int) -> int {
    (h + n - 1) % n
}

/// Highlight + multi-select state over a fixed count of options.
pub struct OptionListState {
    pub highlighted: Option<usize>,
    pub selected: HashSet<usize>,
    pub option_size: usize,
}

impl View for OptionListState {
    type V = OptionListView;

    open spec fn view(&self) -> OptionListView {
        OptionListView {
            highlighted: self.highlighted,
            selected: self.selected@,
            option_size: self.option_size as nat,
        }
    }
}

impl Default for OptionListState {
    /// A one-option list with nothing selected.
    fn default() -> (r: OptionListState)
        ensures
            r@.wf(),
            r@.highlighted == Some(0usize),
            r@.selected == Set::<usize>::empty(),
            r@.option_size == 1nat,
    {
        OptionListState { highlighted: Some(0), selected: HashSet::new(), option_size: 1 }
    }
}

impl OptionListState {
    /// A list over `option_size` options, cursor on the first, nothing
    /// selected.  A list needs at least one option: the cyclic cursor has
    /// no position in an empty list, so callers guard that case.
    pub fn new(option_size: usize) -> (r: OptionListState)
        requires
            option_size >= 1,
        ensures
            r@.wf(),
            r@.highlighted == Some(0usize),
            r@.selected == Set::<usize>::empty(),
            r@.option_size == option_size as nat,
    {
        OptionListState { highlighted: Some(0), selected: HashSet::new(), option_size }
    }

    /// Move the highlight one option forward, wrapping past the last
    /// option to the first.
    pub fn highlight_next(&mut self)
        requires
            old(self)@.wf(),
        ensures
            final(self)@.wf(),
            final(self)@.highlighted == Some(rot_next(old(self)@.hl(), old(self)@.option_size as int) as usize),
            final(self)@.selected == old(self)@.selected,
            final(self)@.option_size == old(self)@.option_size,
    {
        if let Some(index) = self.highlighted {
            if index >= self.option_size - 1 {
                proof {
                    vstd::arithmetic::div_mod::lemma_mod_self_0(self.option_size as int);
                }
                self.highlighted = Some(0);
            } else {
                proof {
                    vstd::arithmetic::div_mod::lemma_small_mod((index + 1) as nat, self.option_size as nat);
                }
                self.highlighted = Some(index + 1);
            }
        } else {
            self.highlighted = Some(0);
        }
    }

    /// Move the highlight one option backward, wrapping past the first
    /// option to the last.
    pub fn highlight_prev(&mut self)
        requires
            old(self)@.wf(),
        ensures
            final(self)@.wf(),
            final(self)@.highlighted == Some(rot_prev(old(self)@.hl(), old(self)@.option_size as int) as usize),
            final(self)@.selected == old(self)@.selected,
            final(self)@.option_size == old(self)@.option_size,
    {
        if let Some(index) = self.highlighted {
            if index == 0 {
                proof {
                    vstd::arithmetic::div_mod::lemma_small_mod((self.option_size - 1) as nat, self.option_size as nat);
                }
                self.highlighted = Some(self.option_size - 1);
            } else {
                proof {
                    vstd::arithmetic::div_mod::lemma_mod_add_multiples_vanish(index - 1, self.option_size as int);
                    vstd::arithmetic::div_mod::lemma_small_mod((index - 1) as nat, self.option_size as nat);
                }
                self.highlighted = Some(index - 1);
            }
        } else {
            self.highlighted = Some(self.option_size - 1);
        }
    }

    /// Add the highlighted option to the selection (idempotent).
    pub fn select(&mut self)
        requires
            old(self)@.wf(),
        ensures
            final(self)@.wf(),
            final(self)@.selected == old(self)@.selected.insert(old(self)@.hl() as usize),
            final(self)@.highlighted == old(self)@.highlighted,
            final(self)@.option_size == old(self)@.option_size,
    {
        self.selected.insert(self.highlighted.unwrap());
    }

    /// Remove the highlighted option from the selection (idempotent).
    pub fn unselect(&mut self)
        requires
            old(self)@.wf(),
        ensures
            final(self)@.wf(),
            final(self)@.selected == old(self)@.selected.remove(old(self)@.hl() as usize),
            final(self)@.highlighted == old(self)@.highlighted,
            final(self)@.option_size == old(self)@.option_size,
    {
        self.selected.remove(&self.highlighted.unwrap());
    }

    /// Pure membership test: is `index` currently selected?
    pub fn is_selected(&self, index: usize) -> (r: bool)
        ensures
            r == self@.selected.contains(index),
    {
        return self.selected.contains(&index);
    }
}

/// `k` forward steps of the cyclic cursor.
pub open spec fn rot_next_iter(h: int, n: int, k: nat) -> int
    decreases k,
{
    if k == 0 {
        h
    } else {
        rot_next(rot_next_iter(h, n, (k - 1) as nat), n)
    }
}

/// `k` backward steps of the cyclic cursor.
pub open spec fn rot_prev_iter(h: int, n: int, k: nat) -> int
    decreases k,
{
    if k == 0 {
        h
    } else {
        rot_prev(rot_prev_iter(h, n, (k - 1) as nat), n)
    }
}

proof fn lemma_rot_next_iter_shift(h: int, n: int, k: nat)
    requires
        0 <= h < n,
    ensures
        rot_next_iter(h, n, k) == (h + k) % n,
    decreases k,
{
    if k == 0 {
        vstd::arithmetic::div_mod::lemma_small_mod(h as nat, n as nat);
    } else {
        lemma_rot_next_iter_shift(h, n, (k - 1) as nat);
        vstd::arithmetic::div_mod::lemma_add_mod_noop(h + k - 1, 1, n);
        if n == 1 {
            vstd::arithmetic::div_mod::lemma_mod_self_0(n);
        } else {
            vstd::arithmetic::div_mod::lemma_small_mod(1nat, n as nat);
        }
    }
}

proof fn lemma_rot_prev_iter_shift(h: int, n: int, k: nat)
    requires
        0 <= h < n,
    ensures
        rot_prev_iter(h, n, k) == (h - k) % n,
    decreases k,
{
    if k == 0 {
        vstd::arithmetic::div_mod::lemma_small_mod(h as nat, n as nat);
    } else {
        lemma_rot_prev_iter_shift(h, n, (k - 1) as nat);
        vstd::arithmetic::div_mod::lemma_add_mod_noop(h - k + 1, n - 1, n);
        vstd::arithmetic::div_mod::lemma_mod_bound(n - 1, n);
        vstd::arithmetic::div_mod::lemma_small_mod((n - 1) as nat, n as nat);
        vstd::arithmetic::div_mod::lemma_mod_add_multiples_vanish(h - k, n);
    }
}

/// Cyclic law: from any in-range start, stepping the highlight forward
/// `option_size` times returns it to its starting value.
pub proof fn lemma_highlight_next_cycle(h: int, n: int)
    requires
        0 <= h < n,
    ensures
        rot_next_iter(h, n, n as nat) == h,
{
    lemma_rot_next_iter_shift(h, n, n as nat);
    vstd::arithmetic::div_mod::lemma_mod_add_multiples_vanish(h, n);
    vstd::arithmetic::div_mod::lemma_small_mod(h as nat, n as nat);
}

/// Cyclic law: from any in-range start, stepping the highlight backward
/// `option_size` times returns it to its starting value.
pub proof fn lemma_highlight_prev_cycle(h: int, n: int)
    requires
        0 <= h < n,
    ensures
        rot_prev_iter(h, n, n as nat) == h,
{
    lemma_rot_prev_iter_shift(h, n, n as nat);
    vstd::arithmetic::div_mod::lemma_mod_add_multiples_vanish(h - n, n);
    vstd::arithmetic::div_mod::lemma_small_mod(h as nat, n as nat);
}

/// Selection laws: selecting makes an index selected, unselecting makes it
/// unselected, and selecting twice is the same as selecting once.
pub proof fn lemma_selection(s: Set<usize>, i: usize)
    ensures
        s.insert(i).contains(i),
        !s.remove(i).contains(i),
        s.insert(i).insert(i) == s.insert(i),
{
    assert(s.insert(i).insert(i) =~= s.insert(i));
}

} // verus!

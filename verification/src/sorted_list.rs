use vstd::prelude::*;

use crate::listable::Listable;
use crate::listable::eqv;
use crate::listable::le;
use crate::order::Cmp;

verus! {

/// Rows of padding kept between the cursor and the window's edges.
pub const PADDING: usize = 2;

pub open spec fn sat_sub(a: int, b: int) -> int {
    if a >= b {
        a - b
    } else {
        0
    }
}

/// Adjacent entries are in order; with transitivity this is full sortedness
/// (see `lemma_sorted_pairwise`).
pub open spec fn sorted_adj<T: Listable>(s: Seq<T>) -> bool {
    forall|i: int| 0 <= i < s.len() - 1 ==> le(#[trigger] s[i], s[i + 1])
}

pub open spec fn has_selectable<T: Listable>(s: Seq<T>) -> bool {
    exists|i: int| 0 <= i < s.len() && s[i].selectable()
}

/// Index of the first selectable entry at or after `from`; `s.len()` if none.
pub open spec fn next_selectable<T: Listable>(s: Seq<T>, from: int) -> int
    recommends
        0 <= from,
    decreases sat_sub(s.len() as int, from),
{
    if from >= s.len() {
        s.len() as int
    } else if s[from].selectable() {
        from
    } else {
        next_selectable(s, from + 1)
    }
}

/// Index of the last selectable entry at or before `from`; `-1` if none.
pub open spec fn prev_selectable<T: Listable>(s: Seq<T>, from: int) -> int
    recommends
        from < s.len(),
    decreases sat_sub(from + 1, 0),
{
    if from < 0 {
        -1
    } else if s[from].selectable() {
        from
    } else {
        prev_selectable(s, from - 1)
    }
}

/// Index of the first selectable entry; `s.len()` if none.
pub open spec fn first_selectable<T: Listable>(s: Seq<T>) -> int {
    next_selectable(s, 0)
}

/// The position a new entry is inserted at: before the first entry that
/// sorts no earlier than it.
pub open spec fn insert_pos<T: Listable>(s: Seq<T>, x: T) -> int
    decreases s.len(),
{
    if s.len() == 0 {
        0
    } else if le(x, s[0]) {
        0
    } else {
        1 + insert_pos(s.drop_first(), x)
    }
}

/// Some entry of `s` compares `Equal` to `x`.
pub open spec fn contains_eqv<T: Listable>(s: Seq<T>, x: T) -> bool {
    exists|i: int| 0 <= i < s.len() && eqv(s[i], x)
}

/// Where the scroll anchor lands after the cursor moved, with `PADDING`
/// rows kept visible above and below it where the list allows.
pub open spec fn spec_new_anchor(sel: int, anchor: int, len: int, height: int) -> int {
    let anchor_max = sat_sub(sat_sub(len, 1), sat_sub(height, 1));
    let selected_top = anchor + PADDING;
    let selected_bot = sat_sub(anchor + sat_sub(height, 1), PADDING as int);
    let new_top = sat_sub(sel, PADDING as int);
    let new_bot = sat_sub(sel + PADDING + 1, height);
    let a1 = if sel < selected_top {
        new_top
    } else {
        anchor
    };
    if sel > selected_bot {
        if new_bot < anchor_max {
            new_bot
        } else {
            anchor_max
        }
    } else {
        a1
    }
}

pub open spec fn spec_select_next<T: Listable>(s: Seq<T>, sel: int, off: int) -> int {
    let last = sat_sub(s.len() as int, 1);
    let init = if sel + off < last {
        sel + off
    } else {
        last
    };
    let found = next_selectable(s, init);
    if found < s.len() {
        found
    } else {
        let lastsel = prev_selectable(s, s.len() - 1);
        if lastsel >= 0 {
            lastsel
        } else {
            0
        }
    }
}

pub open spec fn spec_select_prev<T: Listable>(s: Seq<T>, sel: int, off: int) -> int {
    let init = sat_sub(sel, off);
    let found = prev_selectable(s, init);
    if found >= 0 {
        found
    } else {
        let firstsel = next_selectable(s, 0);
        if firstsel < s.len() {
            firstsel
        } else {
            0
        }
    }
}

pub proof fn lemma_le_reflexive<T: Listable>(a: T)
    ensures
        le(a, a),
{
    T::cmp_flip_law(a, a);
}

/// Adjacent sortedness lifts to every pair of positions.
pub proof fn lemma_le_span<T: Listable>(s: Seq<T>, i: int, j: int)
    requires
        sorted_adj(s),
        0 <= i <= j < s.len(),
    ensures
        le(s[i], s[j]),
    decreases j - i,
{
    if i == j {
        lemma_le_reflexive(s[i]);
    } else {
        lemma_le_span(s, i, j - 1);
        assert(le(s[j - 1], s[j]));
        T::cmp_trans_law(s[i], s[j - 1], s[j]);
    }
}

/// A list whose adjacent entries are in order is sorted outright.
pub proof fn lemma_sorted_pairwise<T: Listable>(s: Seq<T>)
    requires
        sorted_adj(s),
    ensures
        forall|i: int, j: int| 0 <= i <= j < s.len() ==> #[trigger] le(s[i], s[j]),
{
    assert forall|i: int, j: int| 0 <= i <= j < s.len() implies le(s[i], s[j]) by {
        lemma_le_span(s, i, j);
    }
}

pub proof fn lemma_next_selectable<T: Listable>(s: Seq<T>, from: int)
    requires
        0 <= from,
    ensures
        next_selectable(s, from) <= s.len(),
        from <= s.len() ==> from <= next_selectable(s, from),
        next_selectable(s, from) < s.len() ==> s[next_selectable(s, from)].selectable(),
        forall|k: int|
            from <= k < next_selectable(s, from) && k < s.len() ==> !s[k].selectable(),
    decreases s.len() - from,
{
    if from < s.len() && !s[from].selectable() {
        lemma_next_selectable(s, from + 1);
    }
}

pub proof fn lemma_prev_selectable<T: Listable>(s: Seq<T>, from: int)
    requires
        -1 <= from < s.len(),
    ensures
        -1 <= prev_selectable(s, from) <= from,
        prev_selectable(s, from) >= 0 ==> s[prev_selectable(s, from)].selectable(),
        forall|k: int| prev_selectable(s, from) < k <= from && 0 <= k ==> !s[k].selectable(),
    decreases from + 1,
{
    if from >= 0 && !s[from].selectable() {
        lemma_prev_selectable(s, from - 1);
    }
}

/// `first_selectable` finds a selectable entry exactly when one exists.
pub proof fn lemma_first_selectable<T: Listable>(s: Seq<T>)
    ensures
        first_selectable(s) < s.len() <==> has_selectable(s),
        first_selectable(s) < s.len() ==> s[first_selectable(s)].selectable(),
        0 <= first_selectable(s) <= s.len(),
{
    lemma_next_selectable(s, 0);
    if has_selectable(s) {
        let w = choose|i: int| 0 <= i < s.len() && s[i].selectable();
        assert(first_selectable(s) < s.len()) by {
            if first_selectable(s) > w {
                assert(!s[w].selectable());
            }
        }
    }
}

pub proof fn lemma_last_selectable<T: Listable>(s: Seq<T>)
    requires
        s.len() > 0,
    ensures
        prev_selectable(s, s.len() - 1) >= 0 <==> has_selectable(s),
        prev_selectable(s, s.len() - 1) >= 0 ==> s[prev_selectable(s, s.len() - 1)].selectable(),
        prev_selectable(s, s.len() - 1) < s.len(),
{
    lemma_prev_selectable(s, s.len() - 1);
    if has_selectable(s) {
        let w = choose|i: int| 0 <= i < s.len() && s[i].selectable();
        assert(prev_selectable(s, s.len() - 1) >= 0) by {
            if prev_selectable(s, s.len() - 1) < w {
                assert(!s[w].selectable());
            }
        }
    }
}

pub proof fn lemma_insert_pos<T: Listable>(s: Seq<T>, x: T)
    ensures
        0 <= insert_pos(s, x) <= s.len(),
        forall|k: int| 0 <= k < insert_pos(s, x) ==> !le(x, #[trigger] s[k]),
        insert_pos(s, x) < s.len() ==> le(x, s[insert_pos(s, x)]),
    decreases s.len(),
{
    if s.len() > 0 && !le(x, s[0]) {
        lemma_insert_pos(s.drop_first(), x);
        assert forall|k: int| 0 <= k < insert_pos(s, x) implies !le(x, #[trigger] s[k]) by {
            if k > 0 {
                assert(s[k] == s.drop_first()[k - 1]);
            }
        }
    }
}

/// In a sorted list, an entry equal to `x` exists exactly when the entry at
/// the insertion position is equal to `x`.
pub proof fn lemma_contains_eqv_at_insert_pos<T: Listable>(s: Seq<T>, x: T)
    requires
        sorted_adj(s),
    ensures
        contains_eqv(s, x) <==> (insert_pos(s, x) < s.len() && eqv(x, s[insert_pos(s, x)])),
{
    let p = insert_pos(s, x);
    lemma_insert_pos(s, x);
    lemma_sorted_pairwise(s);
    if p < s.len() && eqv(x, s[p]) {
        T::cmp_flip_law(x, s[p]);
        assert(eqv(s[p], x));
        assert(contains_eqv(s, x));
    }
    if contains_eqv(s, x) {
        let i = choose|i: int| 0 <= i < s.len() && eqv(s[i], x);
        T::cmp_flip_law(s[i], x);
        // an equal entry cannot sit before the insertion position
        assert(i >= p) by {
            if i < p {
                assert(!le(x, s[i]));
            }
        }
        assert(le(s[p], s[i]));
        // x <= s[p] (position property) and s[p] <= s[i] ~ x, so x ~ s[p]
        T::cmp_trans_law(s[p], s[i], x);
        assert(le(s[p], x));
        T::cmp_flip_law(s[p], x);
        assert(!(T::cmp_spec(x, s[p]) is Less));
        assert(eqv(x, s[p]));
    }
}

/// Cursor-bearing list whose entries are kept sorted per `T`'s order.
///
/// Well-formedness (`wf`) carries the library's standing guarantees: the
/// entries are sorted, the cursor is in bounds, and whenever any entry is
/// selectable the cursor rests on a selectable one.
#[derive(Clone, Debug, PartialEq, Eq)]
pub struct SortedListState<T: Listable> {
    pub unique: bool,
    pub selected: usize,
    pub scroll_anchor: usize,
    pub entries: Vec<T>,
}

impl<T: Listable> SortedListState<T> {
    pub open spec fn wf(self) -> bool {
        &&& sorted_adj(self.entries@)
        &&& self.entries@.len() == 0 ==> self.selected == 0
        &&& self.entries@.len() > 0 ==> (self.selected as int) < self.entries@.len()
        &&& has_selectable(self.entries@) ==> self.entries@[self.selected as int].selectable()
        &&& self.scroll_anchor <= self.entries@.len()
    }

    pub fn new(unique: bool) -> (r: Self)
        ensures
            r.wf(),
            r.unique == unique,
            r.selected == 0,
            r.scroll_anchor == 0,
            r.entries@ =~= Seq::<T>::empty(),
    {
        SortedListState { unique, selected: 0, scroll_anchor: 0, entries: Vec::new() }
    }

    pub fn selected_index(&self) -> (r: usize)
        ensures
            r == self.selected,
    {
        self.selected
    }

    pub fn selected_entry(&self) -> (r: Option<&T>)
        ensures
            match r {
                Option::Some(e) => (self.selected as int) < self.entries@.len() && *e
                    == self.entries@[self.selected as int],
                Option::None => (self.selected as int) >= self.entries@.len(),
            },
    {
        if self.selected < self.entries.len() {
            Some(&self.entries[self.selected])
        } else {
            None
        }
    }

    pub fn entries(&self) -> (r: &Vec<T>)
        ensures
            r@ == self.entries@,
    {
        &self.entries
    }

    fn find_next_selectable(&self, from: usize) -> (r: usize)
        ensures
            r == next_selectable(self.entries@, from as int),
    {
        let ghost s = self.entries@;
        let mut i: usize = from;
        loop
            invariant
                from <= i,
                i <= s.len() || i == from,
                self.entries@ == s,
                next_selectable(s, from as int) == next_selectable(s, i as int),
            decreases s.len() - i,
        {
            if i >= self.entries.len() {
                proof {
                    if i > s.len() {
                        assert(next_selectable(s, i as int) == s.len());
                    }
                }
                return self.entries.len();
            }
            if self.entries[i].is_selectable() {
                return i;
            }
            i = i + 1;
        }
    }

    fn find_prev_selectable(&self, from: usize) -> (r: Option<usize>)
        requires
            (from as int) < self.entries@.len(),
        ensures
            match r {
                Option::Some(i) => i == prev_selectable(self.entries@, from as int),
                Option::None => prev_selectable(self.entries@, from as int) == -1,
            },
    {
        let ghost s = self.entries@;
        let mut i: usize = from;
        loop
            invariant
                0 <= i <= from,
                (from as int) < s.len(),
                self.entries@ == s,
                prev_selectable(s, from as int) == prev_selectable(s, i as int),
            decreases i,
        {
            if self.entries[i].is_selectable() {
                return Some(i);
            }
            if i == 0 {
                proof {
                    reveal_with_fuel(prev_selectable, 2);
                }
                return None;
            }
            i = i - 1;
        }
    }

    /// Move the cursor to the first selectable entry, or to the top.
    pub fn select_start(&mut self)
        requires
            old(self).wf(),
        ensures
            final(self).wf(),
            final(self).entries@ == old(self).entries@,
            final(self).unique == old(self).unique,
            final(self).scroll_anchor == old(self).scroll_anchor,
            final(self).selected as int == if first_selectable(old(self).entries@) < old(
                self,
            ).entries@.len() {
                first_selectable(old(self).entries@)
            } else {
                0
            },
    {
        proof {
            lemma_first_selectable(self.entries@);
        }
        let i = self.find_next_selectable(0);
        if i < self.entries.len() {
            self.selected = i;
        } else {
            self.selected = 0;
        }
    }

    /// Move the cursor to the last selectable entry, or to the top.
    pub fn select_end(&mut self)
        requires
            old(self).wf(),
        ensures
            final(self).wf(),
            final(self).entries@ == old(self).entries@,
            final(self).unique == old(self).unique,
            final(self).scroll_anchor == old(self).scroll_anchor,
            final(self).selected as int == if old(self).entries@.len() > 0 && prev_selectable(
                old(self).entries@,
                old(self).entries@.len() - 1,
            ) >= 0 {
                prev_selectable(old(self).entries@, old(self).entries@.len() - 1)
            } else {
                0
            },
    {
        if self.entries.len() == 0 {
            self.selected = 0;
            return ;
        }
        proof {
            lemma_last_selectable(self.entries@);
        }
        match self.find_prev_selectable(self.entries.len() - 1) {
            Some(i) => self.selected = i,
            None => self.selected = 0,
        }
    }

    /// Move the cursor `offset` rows down, skipping entries that cannot be
    /// selected and saturating at the end of the list.
    pub fn select_next(&mut self, offset: usize)
        requires
            old(self).wf(),
        ensures
            final(self).wf(),
            final(self).entries@ == old(self).entries@,
            final(self).unique == old(self).unique,
            final(self).scroll_anchor == old(self).scroll_anchor,
            final(self).selected as int == spec_select_next(
                old(self).entries@,
                old(self).selected as int,
                offset as int,
            ),
    {
        let ghost s = self.entries@;
        let last = if self.entries.len() == 0 {
            0
        } else {
            self.entries.len() - 1
        };
        let init = if self.selected <= last && offset <= last - self.selected {
            self.selected + offset
        } else {
            last
        };
        proof {
            lemma_next_selectable(s, init as int);
        }
        let i = self.find_next_selectable(init);
        if i < self.entries.len() {
            self.selected = i;
        } else {
            self.select_end();
            proof {
                if s.len() > 0 {
                    lemma_last_selectable(s);
                }
            }
        }
    }

    /// Move the cursor `offset` rows up, skipping entries that cannot be
    /// selected and saturating at the start of the list.
    pub fn select_prev(&mut self, offset: usize)
        requires
            old(self).wf(),
        ensures
            final(self).wf(),
            final(self).entries@ == old(self).entries@,
            final(self).unique == old(self).unique,
            final(self).scroll_anchor == old(self).scroll_anchor,
            final(self).selected as int == spec_select_prev(
                old(self).entries@,
                old(self).selected as int,
                offset as int,
            ),
    {
        let ghost s = self.entries@;
        if self.entries.len() == 0 {
            proof {
                reveal_with_fuel(prev_selectable, 3);
                reveal_with_fuel(next_selectable, 2);
            }
            self.selected = 0;
            return ;
        }
        let init = if self.selected >= offset {
            self.selected - offset
        } else {
            0
        };
        proof {
            lemma_prev_selectable(s, init as int);
        }
        match self.find_prev_selectable(init) {
            Some(i) => self.selected = i,
            None => {
                self.select_start();
                proof {
                    lemma_first_selectable(s);
                }
            },
        }
    }
}

impl<T: Listable> SortedListState<T> {
    fn find_insert_pos(&self, x: &T) -> (r: usize)
        ensures
            r as int == insert_pos(self.entries@, *x),
    {
        let ghost s = self.entries@;
        let mut i: usize = 0;
        loop
            invariant
                0 <= i <= s.len(),
                self.entries@ == s,
                forall|k: int| 0 <= k < i ==> !le(*x, #[trigger] s[k]),
            decreases s.len() - i,
        {
            if i >= self.entries.len() {
                proof {
                    lemma_insert_pos(s, *x);
                    let p = insert_pos(s, *x);
                    if p < i {
                        assert(!le(*x, s[p]));
                    }
                }
                return i;
            }
            let c = x.compare(&self.entries[i]);
            match c {
                Cmp::Greater => {
                    i = i + 1;
                },
                _ => {
                    proof {
                        lemma_insert_pos(s, *x);
                        let p = insert_pos(s, *x);
                        if i < p {
                            assert(!le(*x, s[i as int]));
                        }
                        if p < i {
                            assert(!le(*x, s[p]));
                        }
                    }
                    return i;
                },
            }
        }
    }

    /// Insert `element` at its sorted position; in unique mode an entry that
    /// compares equal to an existing one is dropped. When the insertion lands
    /// before the first selectable position the cursor snaps to the first
    /// selectable entry; when it lands at or before the cursor, the cursor
    /// and the scroll anchor shift down with the entry they rested on.
    pub fn add(&mut self, element: T)
        requires
            old(self).wf(),
            old(self).entries@.len() < usize::MAX,
        ensures
            final(self).wf(),
            final(self).unique == old(self).unique,
            ({
                let s = old(self).entries@;
                let p = insert_pos(s, element);
                if old(self).unique && contains_eqv(s, element) {
                    *final(self) == *old(self)
                } else {
                    &&& final(self).entries@ == s.insert(p, element)
                    &&& final(self).entries@.to_multiset() == s.to_multiset().insert(element)
                    &&& if first_selectable(s) >= p {
                        &&& final(self).scroll_anchor == old(self).scroll_anchor
                        &&& final(self).selected as int == ({
                            let nf = first_selectable(s.insert(p, element));
                            if nf < s.len() + 1 {
                                nf
                            } else {
                                0
                            }
                        })
                    } else if p <= old(self).selected as int {
                        &&& final(self).selected == old(self).selected + 1
                        &&& final(self).scroll_anchor == old(self).scroll_anchor + 1
                    } else {
                        &&& final(self).selected == old(self).selected
                        &&& final(self).scroll_anchor == old(self).scroll_anchor
                    }
                }
            }),
    {
        let ghost s = self.entries@;
        let pos = self.find_insert_pos(&element);
        proof {
            lemma_insert_pos(s, element);
            lemma_contains_eqv_at_insert_pos(s, element);
        }
        if self.unique && pos < self.entries.len() {
            let c = element.compare(&self.entries[pos]);
            if matches!(c, Cmp::Equal) {
                return ;
            }
        }
        let first_sel = self.find_next_selectable(0);
        proof {
            lemma_first_selectable(s);
        }
        self.entries.insert(pos, element);
        let ghost sp = self.entries@;
        proof {
            s.insert_ensures(pos as int, element);
            vstd::seq_lib::to_multiset_insert(s, pos as int, element);
            lemma_insert_pos_sorted(s, element);
        }
        if first_sel >= pos {
            proof {
                lemma_first_selectable(sp);
            }
            let nf = self.find_next_selectable(0);
            if nf < self.entries.len() {
                self.selected = nf;
            } else {
                self.selected = 0;
                proof {
                    if has_selectable(sp) {
                        lemma_first_selectable(sp);
                        assert(false);
                    }
                }
            }
        } else if pos <= self.selected {
            // the old first selectable entry sits before the insertion, so the
            // old cursor entry was selectable and has shifted down by one
            self.scroll_anchor = self.scroll_anchor + 1;
            self.selected = self.selected + 1;
            proof {
                assert(first_selectable(s) < s.len());
                assert(has_selectable(s)) by {
                    lemma_first_selectable(s);
                }
                assert(sp[self.selected as int] == s[old(self).selected as int]);
                assert(has_selectable(sp)) by {
                    assert(sp[self.selected as int].selectable());
                }
            }
        } else {
            proof {
                assert(has_selectable(s)) by {
                    lemma_first_selectable(s);
                }
                assert(sp[self.selected as int] == s[self.selected as int]);
                assert(has_selectable(sp)) by {
                    assert(sp[self.selected as int].selectable());
                }
            }
        }
    }

    /// Replace the whole contents, reset the scroll anchor, and move the
    /// cursor to the first selectable entry.
    pub fn replace_all(&mut self, elements: Vec<T>)
        requires
            old(self).wf(),
            sorted_adj(elements@),
        ensures
            final(self).wf(),
            final(self).unique == old(self).unique,
            final(self).entries@ == elements@,
            final(self).scroll_anchor == 0,
            final(self).selected as int == ({
                let nf = first_selectable(elements@);
                if nf < elements@.len() {
                    nf
                } else {
                    0
                }
            }),
    {
        self.entries = elements;
        proof {
            lemma_first_selectable(self.entries@);
        }
        let nf = self.find_next_selectable(0);
        if nf < self.entries.len() {
            self.selected = nf;
        } else {
            self.selected = 0;
            proof {
                if has_selectable(self.entries@) {
                    lemma_first_selectable(self.entries@);
                    assert(false);
                }
            }
        }
        self.scroll_anchor = 0;
    }

    /// Move the scroll anchor so the cursor stays inside the window with
    /// `PADDING` rows of context, without scrolling past the end.
    pub fn update_scroll(&mut self, render_height: usize)
        requires
            old(self).wf(),
            old(self).entries@.len() + render_height + PADDING + 1 < usize::MAX,
        ensures
            final(self).wf(),
            final(self).entries@ == old(self).entries@,
            final(self).unique == old(self).unique,
            final(self).selected == old(self).selected,
            final(self).scroll_anchor as int == spec_new_anchor(
                old(self).selected as int,
                old(self).scroll_anchor as int,
                old(self).entries@.len() as int,
                render_height as int,
            ),
    {
        let len = self.entries.len();
        let list_bot = sat_sub_usize(len, 1);
        let anchor_max = sat_sub_usize(list_bot, sat_sub_usize(render_height, 1));
        let selected_top = self.scroll_anchor + PADDING;
        let selected_bot = sat_sub_usize(self.scroll_anchor + sat_sub_usize(render_height, 1), PADDING);
        let new_top = sat_sub_usize(self.selected, PADDING);
        let new_bot = sat_sub_usize(self.selected + PADDING + 1, render_height);
        if self.selected < selected_top {
            self.scroll_anchor = new_top;
        }
        if self.selected > selected_bot {
            self.scroll_anchor = if new_bot < anchor_max {
                new_bot
            } else {
                anchor_max
            };
        }
    }

    /// The visible window of `term_height` rows after scrolling, together
    /// with the cursor position inside the window.
    pub fn view(&mut self, term_height: usize) -> (r: (Vec<T>, usize))
        requires
            old(self).wf(),
            old(self).entries@.len() + term_height + PADDING + 1 < usize::MAX,
        ensures
            final(self).wf(),
            final(self).entries@ == old(self).entries@,
            final(self).unique == old(self).unique,
            final(self).selected == old(self).selected,
            final(self).scroll_anchor as int == spec_new_anchor(
                old(self).selected as int,
                old(self).scroll_anchor as int,
                old(self).entries@.len() as int,
                term_height as int,
            ),
            r.0@ == ({
                let a = final(self).scroll_anchor as int;
                let len = old(self).entries@.len() as int;
                let hi = if a + term_height < len {
                    a + term_height
                } else {
                    len
                };
                old(self).entries@.subrange(a, hi)
            }),
            r.1 as int == sat_sub(old(self).selected as int, final(self).scroll_anchor as int),
    {
        self.update_scroll(term_height);
        let ghost s = self.entries@;
        let start = self.scroll_anchor;
        let mut window: Vec<T> = Vec::new();
        let mut i: usize = 0;
        while i < term_height && start + i < self.entries.len()
            invariant
                self.entries@ == s,
                start == self.scroll_anchor,
                start <= s.len(),
                i <= term_height,
                start + i <= s.len(),
                s.len() + term_height + PADDING + 1 < usize::MAX,
                window@ == s.subrange(start as int, start + i),
            decreases term_height - i,
        {
            let e = self.entries[start + i].duplicate();
            window.push(e);
            i = i + 1;
            proof {
                assert(window@ =~= s.subrange(start as int, start + i));
            }
        }
        proof {
            let a = self.scroll_anchor as int;
            let len = s.len() as int;
            let hi = if a + term_height < len {
                a + term_height
            } else {
                len
            };
            assert(window@ =~= s.subrange(a, hi));
        }
        let cursor = sat_sub_usize(self.selected, self.scroll_anchor);
        (window, cursor)
    }
}

fn sat_sub_usize(a: usize, b: usize) -> (r: usize)
    ensures
        r as int == sat_sub(a as int, b as int),
{
    if a >= b {
        a - b
    } else {
        0
    }
}

/// The entries of a well-formed list are sorted: every entry sorts no later
/// than every entry after it.
pub proof fn law_entries_sorted<T: Listable>(l: SortedListState<T>)
    requires
        l.wf(),
    ensures
        forall|i: int, j: int| 0 <= i <= j < l.entries@.len() ==> #[trigger] le(
            l.entries@[i],
            l.entries@[j],
        ),
{
    lemma_sorted_pairwise(l.entries@);
}

/// Whenever a well-formed list holds at least one selectable entry, the
/// cursor names an entry and that entry is selectable.
pub proof fn law_cursor_on_selectable<T: Listable>(l: SortedListState<T>)
    requires
        l.wf(),
        has_selectable(l.entries@),
    ensures
        (l.selected as int) < l.entries@.len(),
        l.entries@[l.selected as int].selectable(),
{
}

/// Two sorted sequences that hold the same entries hold them in the same
/// order, provided the order can tell distinct entries apart. Lists built by
/// `add` are sorted and their contents do not depend on insertion order, so
/// inserting the same entries in any order, or handing a list's entries to
/// `replace_all`, yields the same sequence.
pub proof fn law_sorted_form_unique<T: Listable>(s1: Seq<T>, s2: Seq<T>)
    requires
        sorted_adj(s1),
        sorted_adj(s2),
        s1.to_multiset() == s2.to_multiset(),
        forall|a: T, b: T| s1.contains(a) && s1.contains(b) && #[trigger] eqv(a, b) ==> a == b,
    ensures
        s1 == s2,
    decreases s1.len(),
{
    broadcast use vstd::seq_lib::group_to_multiset_ensures;

    if s1.len() == 0 {
        assert(s2.to_multiset().len() == 0);
        assert(s2 =~= s1);
    } else {
        lemma_sorted_pairwise(s1);
        lemma_sorted_pairwise(s2);
        assert(s1.to_multiset().count(s1[0]) > 0);
        assert(s2.contains(s1[0]));
        assert(s2.to_multiset().count(s2[0]) > 0);
        assert(s1.contains(s2[0]));
        let i = choose|i: int| 0 <= i < s1.len() && s1[i] == s2[0];
        let j = choose|j: int| 0 <= j < s2.len() && s2[j] == s1[0];
        assert(le(s1[0], s1[i]));
        assert(le(s2[0], s2[j]));
        assert(le(s1[0], s2[0]) && le(s2[0], s1[0]));
        assert(eqv(s1[0], s2[0])) by {
            T::cmp_flip_law(s1[0], s2[0]);
        }
        assert(s1.contains(s1[0]));
        assert(s1[0] == s2[0]);
        let t1 = s1.drop_first();
        let t2 = s2.drop_first();
        assert(t1 =~= s1.remove(0));
        assert(t2 =~= s2.remove(0));
        vstd::seq_lib::to_multiset_remove(s1, 0);
        vstd::seq_lib::to_multiset_remove(s2, 0);
        assert(t1.to_multiset() == t2.to_multiset());
        assert(sorted_adj(t1)) by {
            assert forall|k: int| 0 <= k < t1.len() - 1 implies le(#[trigger] t1[k], t1[k + 1]) by {
                assert(t1[k] == s1[k + 1]);
                assert(t1[k + 1] == s1[k + 2]);
            }
        }
        assert(sorted_adj(t2)) by {
            assert forall|k: int| 0 <= k < t2.len() - 1 implies le(#[trigger] t2[k], t2[k + 1]) by {
                assert(t2[k] == s2[k + 1]);
                assert(t2[k + 1] == s2[k + 2]);
            }
        }
        assert forall|a: T, b: T| t1.contains(a) && t1.contains(b) && #[trigger] eqv(a, b)
            implies a == b by {
            let ka = choose|k: int| 0 <= k < t1.len() && t1[k] == a;
            let kb = choose|k: int| 0 <= k < t1.len() && t1[k] == b;
            assert(s1[ka + 1] == a);
            assert(s1[kb + 1] == b);
            assert(s1.contains(a));
            assert(s1.contains(b));
        }
        law_sorted_form_unique(t1, t2);
        assert(s1.len() == s2.len());
        assert forall|k: int| 0 <= k < s1.len() implies s1[k] == s2[k] by {
            if k > 0 {
                assert(s1[k] == t1[k - 1]);
                assert(s2[k] == t2[k - 1]);
            }
        }
        assert(s1 =~= s2);
    }
}

/// Inserting at the insertion position keeps a sorted sequence sorted.
pub proof fn lemma_insert_pos_sorted<T: Listable>(s: Seq<T>, x: T)
    requires
        sorted_adj(s),
    ensures
        sorted_adj(s.insert(insert_pos(s, x), x)),
{
    let p = insert_pos(s, x);
    let sp = s.insert(p, x);
    lemma_insert_pos(s, x);
    s.insert_ensures(p, x);
    assert forall|j: int| 0 <= j < sp.len() - 1 implies le(#[trigger] sp[j], sp[j + 1]) by {
        if j + 1 < p {
            assert(sp[j] == s[j]);
            assert(sp[j + 1] == s[j + 1]);
        } else if j + 1 == p {
            assert(sp[j] == s[j]);
            assert(!le(x, s[j]));
            T::cmp_flip_law(x, s[j]);
        } else if j == p {
            assert(sp[j + 1] == s[j]);
            assert(le(x, s[j]));
        } else {
            assert(sp[j] == s[j - 1]);
            assert(sp[j + 1] == s[j]);
        }
    }
}

/// The insertion position of `x` in the sorted vector `v`.
pub fn vec_insert_pos<T: Listable>(v: &Vec<T>, x: &T) -> (r: usize)
    ensures
        r as int == insert_pos(v@, *x),
{
    let ghost s = v@;
    let mut i: usize = 0;
    loop
        invariant
            0 <= i <= s.len(),
            v@ == s,
            forall|k: int| 0 <= k < i ==> !le(*x, #[trigger] s[k]),
        decreases s.len() - i,
    {
        if i >= v.len() {
            proof {
                lemma_insert_pos(s, *x);
                if insert_pos(s, *x) < i {
                    assert(!le(*x, s[insert_pos(s, *x)]));
                }
            }
            return i;
        }
        let c = x.compare(&v[i]);
        match c {
            Cmp::Greater => {
                i = i + 1;
            },
            _ => {
                proof {
                    lemma_insert_pos(s, *x);
                    let p = insert_pos(s, *x);
                    if i < p {
                        assert(!le(*x, s[i as int]));
                    }
                    if p < i {
                        assert(!le(*x, s[p]));
                    }
                }
                return i;
            },
        }
    }
}

/// A sorted sequence with `x` inserted, unless an entry comparing equal is
/// already there.
pub open spec fn spec_unique_insert<T: Listable>(s: Seq<T>, x: T) -> Seq<T> {
    if contains_eqv(s, x) {
        s
    } else {
        s.insert(insert_pos(s, x), x)
    }
}

/// Insert into a sorted vector, dropping the entry when one comparing
/// equal is already present.
pub fn sorted_insert_unique<T: Listable>(v: &mut Vec<T>, x: T)
    requires
        sorted_adj(old(v)@),
        old(v)@.len() < usize::MAX,
    ensures
        sorted_adj(final(v)@),
        final(v)@ == spec_unique_insert(old(v)@, x),
{
    let ghost s = v@;
    let pos = vec_insert_pos(v, &x);
    proof {
        lemma_insert_pos(s, x);
        lemma_contains_eqv_at_insert_pos(s, x);
    }
    if pos < v.len() {
        let c = x.compare(&v[pos]);
        if matches!(c, Cmp::Equal) {
            return ;
        }
    }
    v.insert(pos, x);
    proof {
        lemma_insert_pos_sorted(s, x);
    }
}

/// A fresh vector holding the same entries.
pub fn duplicate_entries<T: Listable>(v: &Vec<T>) -> (r: Vec<T>)
    ensures
        r@ == v@,
{
    let mut out: Vec<T> = Vec::new();
    let mut i: usize = 0;
    while i < v.len()
        invariant
            0 <= i <= v@.len(),
            out@ == v@.take(i as int),
        decreases v@.len() - i,
    {
        out.push(v[i].duplicate());
        proof {
            assert(out@ =~= v@.take(i + 1));
        }
        i = i + 1;
    }
    proof {
        assert(out@ =~= v@);
    }
    out
}

} // verus!

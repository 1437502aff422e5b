use vstd::prelude::*;

verus! {

/// Index shift caused by inserting `n` items at `pos`: indices at or
/// past the insertion point move up by `n`.
pub open spec fn spec_shift_added(idx: int, pos: int, n: int) -> int {
    if idx >= pos {
        idx + n
    } else {
        idx
    }
}

/// Index shift caused by removing the `n` items at `pos`: indices past
/// the removed range move down by `n`; an index inside the removed
/// range collapses onto the removal point.
pub open spec fn spec_shift_removed(idx: int, pos: int, n: int) -> int {
    if idx >= pos + n {
        idx - n
    } else if idx >= pos {
        pos
    } else {
        idx
    }
}

/// Inserting `n` items at `pos` and then removing the same range
/// restores every index, wherever it lies.
pub proof fn lemma_shift_roundtrip(idx: int, pos: int, n: int)
    requires
        idx >= 0,
        pos >= 0,
        n >= 0,
    ensures
        spec_shift_removed(spec_shift_added(idx, pos, n), pos, n) == idx,
{
}

/// Does the sequence hold the value?
pub open spec fn seq_has(s: Seq<usize>, v: int) -> bool {
    exists|i: int| 0 <= i < s.len() && s[i] == v
}

/// No value occurs twice.
pub open spec fn seq_distinct(s: Seq<usize>) -> bool {
    forall|i: int, j: int| 0 <= i < j < s.len() ==> s[i] != s[j]
}

/// What a selection must answer about itself during a render pass.
pub trait TableSelection {
    spec fn spec_is_selected_row(&self, row: int) -> bool;

    spec fn spec_is_selected_column(&self, column: int) -> bool;

    spec fn spec_is_selected_cell(&self, column: int, row: int) -> bool;

    spec fn spec_lead_selection(&self) -> Option<(usize, usize)>;

    /// Is this row selected?
    fn is_selected_row(&self, row: usize) -> (r: bool)
        ensures
            r == self.spec_is_selected_row(row as int),
    ;

    /// Is this column selected?
    fn is_selected_column(&self, column: usize) -> (r: bool)
        ensures
            r == self.spec_is_selected_column(column as int),
    ;

    /// Is this cell selected?
    fn is_selected_cell(&self, column: usize, row: usize) -> (r: bool)
        ensures
            r == self.spec_is_selected_cell(column as int, row as int),
    ;

    /// The lead cell of the selection as (column, row), if any.
    fn lead_selection(&self) -> (r: Option<(usize, usize)>)
        ensures
            r == self.spec_lead_selection(),
    ;
}

/// Nothing is ever selected.
#[derive(Clone, Copy, Debug, PartialEq, Eq, Structural)]
pub struct NoSelection;

impl TableSelection for NoSelection {
    open spec fn spec_is_selected_row(&self, row: int) -> bool {
        false
    }

    open spec fn spec_is_selected_column(&self, column: int) -> bool {
        false
    }

    open spec fn spec_is_selected_cell(&self, column: int, row: int) -> bool {
        false
    }

    open spec fn spec_lead_selection(&self) -> Option<(usize, usize)> {
        None
    }

    fn is_selected_row(&self, row: usize) -> bool {
        false
    }

    fn is_selected_column(&self, column: usize) -> bool {
        false
    }

    fn is_selected_cell(&self, column: usize, row: usize) -> bool {
        false
    }

    fn lead_selection(&self) -> Option<(usize, usize)> {
        None
    }
}

impl Default for NoSelection {
    fn default() -> (r: Self)
        ensures
            r == NoSelection,
    {
        NoSelection
    }
}

/// A single selected row.
#[derive(Clone, Copy, Debug, PartialEq, Eq, Structural)]
pub struct RowSelection {
    /// The selected row.
    pub lead_row: Option<usize>,
    /// Scroll events move the selection instead of the offset.
    pub scroll_selected: bool,
}

impl TableSelection for RowSelection {
    open spec fn spec_is_selected_row(&self, row: int) -> bool {
        match self.lead_row {
            Some(v) => v == row,
            None => false,
        }
    }

    open spec fn spec_is_selected_column(&self, column: int) -> bool {
        false
    }

    open spec fn spec_is_selected_cell(&self, column: int, row: int) -> bool {
        false
    }

    open spec fn spec_lead_selection(&self) -> Option<(usize, usize)> {
        match self.lead_row {
            Some(r) => Some((0usize, r)),
            None => None,
        }
    }

    fn is_selected_row(&self, row: usize) -> bool {
        self.lead_row == Some(row)
    }

    fn is_selected_column(&self, column: usize) -> bool {
        false
    }

    fn is_selected_cell(&self, column: usize, row: usize) -> bool {
        false
    }

    fn lead_selection(&self) -> Option<(usize, usize)> {
        match self.lead_row {
            Some(r) => Some((0, r)),
            None => None,
        }
    }
}

impl Default for RowSelection {
    fn default() -> (r: Self)
        ensures
            r == (RowSelection { lead_row: None, scroll_selected: false }),
    {
        RowSelection { lead_row: None, scroll_selected: false }
    }
}

impl RowSelection {
    pub fn new() -> (r: Self)
        ensures
            r == (RowSelection { lead_row: None, scroll_selected: false }),
    {
        RowSelection { lead_row: None, scroll_selected: false }
    }

    /// The selected row.
    pub fn selected(&self) -> (r: Option<usize>)
        ensures
            r == self.lead_row,
    {
        self.lead_row
    }

    /// Select the row. Reports whether the selection changed.
    pub fn select(&mut self, row: Option<usize>) -> (r: bool)
        ensures
            *final(self) == (RowSelection { lead_row: row, ..*old(self) }),
            r == (old(self).lead_row != row),
    {
        let old_row = self.lead_row;
        self.lead_row = row;
        old_row != row
    }

    /// Anything selected?
    pub fn has_selection(&self) -> (r: bool)
        ensures
            r == self.lead_row.is_some(),
    {
        self.lead_row.is_some()
    }

    /// Clear the selection.
    pub fn clear(&mut self)
        ensures
            *final(self) == (RowSelection { lead_row: None, ..*old(self) }),
    {
        self.lead_row = None;
    }

    /// Scroll events move the selection instead of the offset.
    pub fn set_scroll_selected(&mut self, scroll: bool)
        ensures
            *final(self) == (RowSelection { scroll_selected: scroll, ..*old(self) }),
    {
        self.scroll_selected = scroll;
    }

    /// Move the selection to the row, clamped to the last row `max`.
    pub fn move_to(&mut self, row: usize, max: usize) -> (r: bool)
        ensures
            final(self).lead_row == Some(if row <= max { row } else { max }),
            *final(self) == (RowSelection { lead_row: final(self).lead_row, ..*old(self) }),
            r == (old(self).lead_row != final(self).lead_row),
    {
        let old_row = self.lead_row;
        self.lead_row = Some(if row <= max { row } else { max });
        old_row != self.lead_row
    }

    /// Move the selection up `n` rows, clamped to `[0, max]`. Without a
    /// selection the last row is selected.
    pub fn move_up(&mut self, n: usize, max: usize) -> (r: bool)
        ensures
            final(self).lead_row == Some(match old(self).lead_row {
                Some(v) => {
                    let down = if v >= n { (v - n) as usize } else { 0usize };
                    if down <= max { down } else { max }
                },
                None => max,
            }),
            *final(self) == (RowSelection { lead_row: final(self).lead_row, ..*old(self) }),
            r == (old(self).lead_row != final(self).lead_row),
    {
        let old_row = self.lead_row;
        self.lead_row = Some(match self.lead_row {
            Some(v) => {
                let down = v.saturating_sub(n);
                if down <= max { down } else { max }
            },
            None => max,
        });
        old_row != self.lead_row
    }

    /// Move the selection down `n` rows, clamped to `[0, max]`. Without
    /// a selection the first row is selected.
    pub fn move_down(&mut self, n: usize, max: usize) -> (r: bool)
        ensures
            final(self).lead_row == Some(match old(self).lead_row {
                Some(v) => {
                    let up = if v + n <= usize::MAX { (v + n) as usize } else { usize::MAX };
                    if up <= max { up } else { max }
                },
                None => 0usize,
            }),
            *final(self) == (RowSelection { lead_row: final(self).lead_row, ..*old(self) }),
            r == (old(self).lead_row != final(self).lead_row),
    {
        let old_row = self.lead_row;
        self.lead_row = Some(match self.lead_row {
            Some(v) => {
                let up = v.saturating_add(n);
                if up <= max { up } else { max }
            },
            None => 0,
        });
        old_row != self.lead_row
    }

    /// Shift the selection for `n` items inserted at `pos`.
    pub fn items_added(&mut self, pos: usize, n: usize) -> (r: bool)
        requires
            (match old(self).lead_row {
                Some(v) => v + n <= usize::MAX,
                None => true,
            }),
        ensures
            final(self).lead_row == (match old(self).lead_row {
                Some(v) => Some((spec_shift_added(v as int, pos as int, n as int)) as usize),
                None => None::<usize>,
            }),
            *final(self) == (RowSelection { lead_row: final(self).lead_row, ..*old(self) }),
            r == (old(self).lead_row != final(self).lead_row),
    {
        let old_row = self.lead_row;
        if let Some(v) = self.lead_row {
            if v >= pos {
                self.lead_row = Some(v + n);
            }
        }
        old_row != self.lead_row
    }

    /// Shift the selection for the `n` items removed at `pos`.
    pub fn items_removed(&mut self, pos: usize, n: usize) -> (r: bool)
        ensures
            final(self).lead_row == (match old(self).lead_row {
                Some(v) => Some((spec_shift_removed(v as int, pos as int, n as int)) as usize),
                None => None::<usize>,
            }),
            *final(self) == (RowSelection { lead_row: final(self).lead_row, ..*old(self) }),
            r == (old(self).lead_row != final(self).lead_row),
    {
        let old_row = self.lead_row;
        if let Some(v) = self.lead_row {
            if n <= usize::MAX - pos && v >= pos + n {
                self.lead_row = Some(v - n);
            } else if v >= pos {
                self.lead_row = Some(pos);
            }
        }
        old_row != self.lead_row
    }
}

} // verus!

verus! {

/// Find `row` in the list.
fn row_list_contains(list: &Vec<usize>, row: usize) -> (r: bool)
    ensures
        r == seq_has(list@, row as int),
{
    let mut i: usize = 0;
    while i < list.len()
        invariant
            0 <= i <= list@.len(),
            forall|k: int| 0 <= k < i ==> list@[k] != row,
        decreases list@.len() - i,
    {
        if list[i] == row {
            assert(list@[i as int] == row);
            return true;
        }
        i += 1;
    }
    false
}

/// Add `row` to the list unless it is already there.
fn row_list_add(list: &mut Vec<usize>, row: usize)
    requires
        seq_distinct(old(list)@),
    ensures
        seq_distinct(final(list)@),
        forall|v: int|
            #![trigger seq_has(final(list)@, v)]
            #![trigger seq_has(old(list)@, v)]
            seq_has(final(list)@, v) <==> (seq_has(old(list)@, v) || v == row),
{
    if !row_list_contains(list, row) {
        let ghost pre = list@;
        list.push(row);
        assert forall|v: int| seq_has(list@, v) <==> (seq_has(pre, v) || v == row) by {
            if seq_has(pre, v) {
                let k = choose|k: int| 0 <= k < pre.len() && pre[k] == v;
                assert(list@[k] == v);
            }
            if v == row {
                assert(list@[pre.len() as int] == v);
            }
            if seq_has(list@, v) {
                let k = choose|k: int| 0 <= k < list@.len() && list@[k] == v;
                if k < pre.len() {
                    assert(pre[k] == v);
                }
            }
        }
    }
}

/// Remove `row` from the list if it is there.
#[verifier::loop_isolation(false)]
fn row_list_remove(list: &mut Vec<usize>, row: usize)
    requires
        seq_distinct(old(list)@),
    ensures
        seq_distinct(final(list)@),
        forall|v: int|
            #![trigger seq_has(final(list)@, v)]
            #![trigger seq_has(old(list)@, v)]
            seq_has(final(list)@, v) <==> (seq_has(old(list)@, v) && v != row),
{
    let ghost pre = list@;
    let mut i: usize = 0;
    while i < list.len()
        invariant
            list@ == pre,
            0 <= i <= pre.len(),
            seq_distinct(pre),
            forall|k: int| 0 <= k < i ==> pre[k] != row,
        decreases pre.len() - i,
    {
        if list[i] == row {
            list.remove(i);
            assert forall|v: int| seq_has(list@, v) <==> (seq_has(pre, v) && v != row) by {
                if seq_has(list@, v) {
                    let k = choose|k: int| 0 <= k < list@.len() && list@[k] == v;
                    if k < i {
                        assert(pre[k] == v);
                    } else {
                        assert(pre[k + 1] == v);
                    }
                }
                if seq_has(pre, v) && v != row {
                    let k = choose|k: int| 0 <= k < pre.len() && pre[k] == v;
                    if k < i {
                        assert(list@[k] == v);
                    } else {
                        assert(k != i);
                        assert(list@[k - 1] == v);
                    }
                }
            }
            assert forall|a: int, b: int| 0 <= a < b < list@.len() implies list@[a] != list@[b] by {
                let wa = if a < i { a } else { a + 1 };
                let wb = if b < i { b } else { b + 1 };
                assert(list@[a] == pre[wa]);
                assert(list@[b] == pre[wb]);
            }
            return;
        }
        i += 1;
    }
}

} // verus!

verus! {

/// An anchor/lead range of rows plus a retired set of rows.
///
/// The inclusive range between anchor and lead (in either order) is
/// the active selection; `retire_selection` folds it into the retired
/// set and clears anchor and lead for a new range.
#[derive(Clone, Debug)]
pub struct RowSetSelection {
    /// Fixed end of the active range.
    pub anchor_row: Option<usize>,
    /// Moving end of the active range.
    pub lead_row: Option<usize>,
    /// Retired rows, each held once.
    pub selected: Vec<usize>,
}

impl RowSetSelection {
    /// The retired rows hold no duplicates.
    pub open spec fn wf(&self) -> bool {
        seq_distinct(self.selected@)
    }

    /// Is the row in the retired set?
    pub open spec fn spec_retired(&self, row: int) -> bool {
        seq_has(self.selected@, row)
    }

    /// Is the row in the active anchor/lead range? The range is
    /// inclusive on both ends whatever the order of anchor and lead;
    /// with only a lead it is that single row.
    pub open spec fn spec_in_active(&self, row: int) -> bool {
        match self.lead_row {
            Some(l) => {
                let a = match self.anchor_row {
                    Some(a) => a as int,
                    None => l as int,
                };
                (if a <= l { a <= row <= l } else { l <= row <= a })
            },
            None => false,
        }
    }

    /// Retired or in the active range.
    pub open spec fn spec_selected(&self, row: int) -> bool {
        self.spec_retired(row) || self.spec_in_active(row)
    }

    pub fn new() -> (r: Self)
        ensures
            r.anchor_row == None::<usize>,
            r.lead_row == None::<usize>,
            forall|v: int| !r.spec_retired(v),
            r.wf(),
    {
        RowSetSelection { anchor_row: None, lead_row: None, selected: Vec::new() }
    }

    /// Clear anchor, lead and the retired set.
    pub fn clear(&mut self)
        ensures
            final(self).anchor_row == None::<usize>,
            final(self).lead_row == None::<usize>,
            forall|v: int| !final(self).spec_retired(v),
            final(self).wf(),
    {
        self.anchor_row = None;
        self.lead_row = None;
        self.selected = Vec::new();
    }

    /// Anything selected?
    pub fn has_selection(&self) -> (r: bool)
        ensures
            r == (self.lead_row.is_some() || self.selected@.len() > 0),
    {
        self.lead_row.is_some() || self.selected.len() > 0
    }

    /// Current lead.
    pub fn lead(&self) -> (r: Option<usize>)
        ensures
            r == self.lead_row,
    {
        self.lead_row
    }

    /// Current anchor.
    pub fn anchor(&self) -> (r: Option<usize>)
        ensures
            r == self.anchor_row,
    {
        self.anchor_row
    }

    /// Change the lead. With `extend` the anchor stays where it is and
    /// only the lead moves; without it anchor and lead both move to
    /// `row`, starting a fresh range. Reports whether anchor or lead
    /// changed.
    pub fn set_lead(&mut self, row: Option<usize>, extend: bool) -> (r: bool)
        requires
            old(self).wf(),
        ensures
            final(self).lead_row == row,
            final(self).anchor_row == if extend {
                old(self).anchor_row
            } else {
                row
            },
            forall|v: int| final(self).spec_retired(v) == old(self).spec_retired(v),
            final(self).wf(),
            r == (old(self).anchor_row != final(self).anchor_row || old(self).lead_row
                != final(self).lead_row),
    {
        let old_anchor = self.anchor_row;
        let old_lead = self.lead_row;
        if extend {
            self.lead_row = row;
        } else {
            self.anchor_row = row;
            self.lead_row = row;
        }
        old_anchor != self.anchor_row || old_lead != self.lead_row
    }

    /// Fold the active anchor/lead range into the retired set and
    /// clear anchor and lead, so that a new range can be started.
    #[verifier::loop_isolation(false)]
    pub fn retire_selection(&mut self)
        requires
            old(self).wf(),
        ensures
            final(self).anchor_row == None::<usize>,
            final(self).lead_row == None::<usize>,
            forall|v: int|
                final(self).spec_retired(v) <==> (old(self).spec_retired(v) || old(
                    self,
                ).spec_in_active(v)),
            final(self).wf(),
    {
        if let Some(l) = self.lead_row {
            let a = match self.anchor_row {
                Some(a) => a,
                None => l,
            };
            let lo = if a <= l { a } else { l };
            let hi = if a <= l { l } else { a };
            let ghost pre = *self;
            row_list_add(&mut self.selected, lo);
            let mut i: usize = lo;
            while i < hi
                invariant
                    lo <= i <= hi,
                    self.anchor_row == pre.anchor_row,
                    self.lead_row == pre.lead_row,
                    seq_distinct(self.selected@),
                    forall|v: int|
                        #![trigger seq_has(self.selected@, v)]
                        #![trigger pre.spec_retired(v)]
                        seq_has(self.selected@, v) <==> (pre.spec_retired(v) || lo <= v <= i),
                decreases hi - i,
            {
                i += 1;
                row_list_add(&mut self.selected, i);
            }

        }
        self.anchor_row = None;
        self.lead_row = None;
    }

    /// Add a row to the retired set. The active range is unaffected.
    pub fn add(&mut self, idx: usize)
        requires
            old(self).wf(),
        ensures
            final(self).anchor_row == old(self).anchor_row,
            final(self).lead_row == old(self).lead_row,
            forall|v: int|
                final(self).spec_retired(v) <==> (old(self).spec_retired(v) || v == idx),
            final(self).wf(),
    {
        row_list_add(&mut self.selected, idx);
    }

    /// Remove a row from the retired set. The active range is
    /// unaffected.
    pub fn remove(&mut self, idx: usize)
        requires
            old(self).wf(),
        ensures
            final(self).anchor_row == old(self).anchor_row,
            final(self).lead_row == old(self).lead_row,
            forall|v: int|
                final(self).spec_retired(v) <==> (old(self).spec_retired(v) && v != idx),
            final(self).wf(),
    {
        row_list_remove(&mut self.selected, idx);
    }

    /// The retired rows together with the active range, each row once.
    #[verifier::loop_isolation(false)]
    pub fn selected(&self) -> (r: Vec<usize>)
        requires
            self.wf(),
        ensures
            seq_distinct(r@),
            forall|v: int| seq_has(r@, v) <==> self.spec_selected(v),
    {
        let mut out = self.selected.clone();
        assert(out@ == self.selected@);
        if let Some(l) = self.lead_row {
            let a = match self.anchor_row {
                Some(a) => a,
                None => l,
            };
            let lo = if a <= l { a } else { l };
            let hi = if a <= l { l } else { a };
            row_list_add(&mut out, lo);
            let mut i: usize = lo;
            while i < hi
                invariant
                    lo <= i <= hi,
                    seq_distinct(out@),
                    forall|v: int|
                        #![trigger seq_has(out@, v)]
                        #![trigger self.spec_retired(v)]
                        seq_has(out@, v) <==> (self.spec_retired(v) || lo <= v <= i),
                decreases hi - i,
            {
                i += 1;
                row_list_add(&mut out, i);
            }
        }
        out
    }

    /// Move the lead to the row, clamped to the last row `max`.
    pub fn move_to(&mut self, row: usize, max: usize, extend: bool) -> (r: bool)
        requires
            old(self).wf(),
        ensures
            final(self).lead_row == Some(if row <= max { row } else { max }),
            final(self).anchor_row == if extend {
                old(self).anchor_row
            } else {
                final(self).lead_row
            },
            forall|v: int| final(self).spec_retired(v) == old(self).spec_retired(v),
            final(self).wf(),
            r == (old(self).anchor_row != final(self).anchor_row || old(self).lead_row
                != final(self).lead_row),
    {
        let to = if row <= max { row } else { max };
        self.set_lead(Some(to), extend)
    }

    /// Move the lead up `n` rows, clamped to `[0, max]`. Without a lead
    /// the last row is selected.
    pub fn move_up(&mut self, n: usize, max: usize, extend: bool) -> (r: bool)
        requires
            old(self).wf(),
        ensures
            final(self).lead_row == Some(match old(self).lead_row {
                Some(v) => {
                    let down = if v >= n { (v - n) as usize } else { 0usize };
                    if down <= max { down } else { max }
                },
                None => max,
            }),
            final(self).anchor_row == if extend {
                old(self).anchor_row
            } else {
                final(self).lead_row
            },
            forall|v: int| final(self).spec_retired(v) == old(self).spec_retired(v),
            final(self).wf(),
            r == (old(self).anchor_row != final(self).anchor_row || old(self).lead_row
                != final(self).lead_row),
    {
        let to = match self.lead_row {
            Some(v) => {
                let down = v.saturating_sub(n);
                if down <= max { down } else { max }
            },
            None => max,
        };
        self.set_lead(Some(to), extend)
    }

    /// Move the lead down `n` rows, clamped to `[0, max]`. Without a
    /// lead the first row is selected.
    pub fn move_down(&mut self, n: usize, max: usize, extend: bool) -> (r: bool)
        requires
            old(self).wf(),
        ensures
            final(self).lead_row == Some(match old(self).lead_row {
                Some(v) => {
                    let up = if v + n <= usize::MAX { (v + n) as usize } else { usize::MAX };
                    if up <= max { up } else { max }
                },
                None => 0usize,
            }),
            final(self).anchor_row == if extend {
                old(self).anchor_row
            } else {
                final(self).lead_row
            },
            forall|v: int| final(self).spec_retired(v) == old(self).spec_retired(v),
            final(self).wf(),
            r == (old(self).anchor_row != final(self).anchor_row || old(self).lead_row
                != final(self).lead_row),
    {
        let to = match self.lead_row {
            Some(v) => {
                let up = v.saturating_add(n);
                if up <= max { up } else { max }
            },
            None => 0,
        };
        self.set_lead(Some(to), extend)
    }
}

impl Default for RowSetSelection {
    fn default() -> (r: Self)
        ensures
            r.anchor_row == None::<usize>,
            r.lead_row == None::<usize>,
            forall|v: int| !r.spec_retired(v),
            r.wf(),
    {
        RowSetSelection::new()
    }
}

impl TableSelection for RowSetSelection {
    open spec fn spec_is_selected_row(&self, row: int) -> bool {
        self.spec_selected(row)
    }

    open spec fn spec_is_selected_column(&self, column: int) -> bool {
        false
    }

    open spec fn spec_is_selected_cell(&self, column: int, row: int) -> bool {
        false
    }

    open spec fn spec_lead_selection(&self) -> Option<(usize, usize)> {
        match self.lead_row {
            Some(r) => Some((0usize, r)),
            None => None,
        }
    }

    fn is_selected_row(&self, row: usize) -> bool {
        if row_list_contains(&self.selected, row) {
            true
        } else {
            match self.lead_row {
                Some(l) => {
                    let a = match self.anchor_row {
                        Some(a) => a,
                        None => l,
                    };
                    let lo = if a <= l { a } else { l };
                    let hi = if a <= l { l } else { a };
                    lo <= row && row <= hi
                },
                None => false,
            }
        }
    }

    fn is_selected_column(&self, column: usize) -> bool {
        false
    }

    fn is_selected_cell(&self, column: usize, row: usize) -> bool {
        false
    }

    fn lead_selection(&self) -> Option<(usize, usize)> {
        match self.lead_row {
            Some(r) => Some((0, r)),
            None => None,
        }
    }
}

/// Starting a fresh range at `p`, extending it to `q` and retiring it
/// leaves a retired set that is exactly the inclusive range between
/// `p` and `q`, in either order. The three intermediate states are
/// related exactly as `set_lead` and `retire_selection` promise.
pub proof fn lemma_retire_is_inclusive_range(
    s0: RowSetSelection,
    s1: RowSetSelection,
    s2: RowSetSelection,
    s3: RowSetSelection,
    p: usize,
    q: usize,
)
    requires
        forall|v: int| !s0.spec_retired(v),
        // set_lead(Some(p), false)
        s1.lead_row == Some(p),
        s1.anchor_row == Some(p),
        forall|v: int| s1.spec_retired(v) == s0.spec_retired(v),
        // set_lead(Some(q), true)
        s2.lead_row == Some(q),
        s2.anchor_row == s1.anchor_row,
        forall|v: int| s2.spec_retired(v) == s1.spec_retired(v),
        // retire_selection()
        s3.anchor_row == None::<usize>,
        s3.lead_row == None::<usize>,
        forall|v: int| s3.spec_retired(v) <==> (s2.spec_retired(v) || s2.spec_in_active(v)),
    ensures
        forall|v: int|
            s3.spec_retired(v) <==> (if p <= q {
                p <= v <= q
            } else {
                q <= v <= p
            }),
{
}

} // verus!

verus! {

/// A single selected cell, as (column, row).
#[derive(Clone, Copy, Debug)]
pub struct CellSelection {
    /// The selected cell.
    pub lead_cell: Option<(usize, usize)>,
}

/// Are the two optional cells the same?
fn cell_opt_eq(a: Option<(usize, usize)>, b: Option<(usize, usize)>) -> (r: bool)
    ensures
        r == (a == b),
{
    match (a, b) {
        (Some(x), Some(y)) => x.0 == y.0 && x.1 == y.1,
        (None, None) => true,
        _ => false,
    }
}

impl TableSelection for CellSelection {
    open spec fn spec_is_selected_row(&self, row: int) -> bool {
        match self.lead_cell {
            Some(c) => c.1 == row,
            None => false,
        }
    }

    open spec fn spec_is_selected_column(&self, column: int) -> bool {
        match self.lead_cell {
            Some(c) => c.0 == column,
            None => false,
        }
    }

    open spec fn spec_is_selected_cell(&self, column: int, row: int) -> bool {
        match self.lead_cell {
            Some(c) => c.0 == column && c.1 == row,
            None => false,
        }
    }

    open spec fn spec_lead_selection(&self) -> Option<(usize, usize)> {
        self.lead_cell
    }

    fn is_selected_row(&self, row: usize) -> bool {
        match self.lead_cell {
            Some(c) => c.1 == row,
            None => false,
        }
    }

    fn is_selected_column(&self, column: usize) -> bool {
        match self.lead_cell {
            Some(c) => c.0 == column,
            None => false,
        }
    }

    fn is_selected_cell(&self, column: usize, row: usize) -> bool {
        match self.lead_cell {
            Some(c) => c.0 == column && c.1 == row,
            None => false,
        }
    }

    fn lead_selection(&self) -> Option<(usize, usize)> {
        self.lead_cell
    }
}

impl Default for CellSelection {
    fn default() -> (r: Self)
        ensures
            r == (CellSelection { lead_cell: None::<(usize, usize)> }),
    {
        CellSelection { lead_cell: None }
    }
}

impl CellSelection {
    pub fn new() -> (r: Self)
        ensures
            r == (CellSelection { lead_cell: None::<(usize, usize)> }),
    {
        CellSelection { lead_cell: None }
    }

    /// The selected cell.
    pub fn selected(&self) -> (r: Option<(usize, usize)>)
        ensures
            r == self.lead_cell,
    {
        self.lead_cell
    }

    /// Anything selected?
    pub fn has_selection(&self) -> (r: bool)
        ensures
            r == self.lead_cell.is_some(),
    {
        self.lead_cell.is_some()
    }

    /// Clear the selection.
    pub fn clear(&mut self)
        ensures
            final(self).lead_cell == None::<(usize, usize)>,
    {
        self.lead_cell = None;
    }

    /// Select a cell. Reports whether the selection changed.
    pub fn select_cell(&mut self, select: Option<(usize, usize)>) -> (r: bool)
        ensures
            final(self).lead_cell == select,
            r == (old(self).lead_cell != select),
    {
        let old_cell = self.lead_cell;
        self.lead_cell = select;
        !cell_opt_eq(old_cell, select)
    }

    /// Select a row; the column stays, or starts at 0 without a
    /// selection. `None` clears the selection.
    pub fn select_row(&mut self, row: Option<usize>) -> (r: bool)
        ensures
            final(self).lead_cell == (match row {
                Some(v) => Some((
                    (match old(self).lead_cell {
                        Some(c) => c.0,
                        None => 0usize,
                    }),
                    v,
                )),
                None => None::<(usize, usize)>,
            }),
            r == (old(self).lead_cell != final(self).lead_cell),
    {
        let old_cell = self.lead_cell;
        self.lead_cell = match row {
            Some(v) => Some((
                match old_cell {
                    Some(c) => c.0,
                    None => 0,
                },
                v,
            )),
            None => None,
        };
        !cell_opt_eq(old_cell, self.lead_cell)
    }

    /// Select a column; the row stays, or starts at 0 without a
    /// selection. `None` clears the selection.
    pub fn select_column(&mut self, column: Option<usize>) -> (r: bool)
        ensures
            final(self).lead_cell == (match column {
                Some(v) => Some((
                    v,
                    (match old(self).lead_cell {
                        Some(c) => c.1,
                        None => 0usize,
                    }),
                )),
                None => None::<(usize, usize)>,
            }),
            r == (old(self).lead_cell != final(self).lead_cell),
    {
        let old_cell = self.lead_cell;
        self.lead_cell = match column {
            Some(v) => Some((
                v,
                match old_cell {
                    Some(c) => c.1,
                    None => 0,
                },
            )),
            None => None,
        };
        !cell_opt_eq(old_cell, self.lead_cell)
    }

    /// Move the selection to the cell, clamped to `max` (column, row).
    pub fn move_to(&mut self, select: (usize, usize), max: (usize, usize)) -> (r: bool)
        ensures
            final(self).lead_cell == Some((
                (if select.0 <= max.0 { select.0 } else { max.0 }),
                (if select.1 <= max.1 { select.1 } else { max.1 }),
            )),
            r == (old(self).lead_cell != final(self).lead_cell),
    {
        let old_cell = self.lead_cell;
        let col = if select.0 <= max.0 { select.0 } else { max.0 };
        let row = if select.1 <= max.1 { select.1 } else { max.1 };
        self.lead_cell = Some((col, row));
        !cell_opt_eq(old_cell, self.lead_cell)
    }

    /// Move the selection to the row, clamped to `[0, max]`; the
    /// column stays, or starts at 0 without a selection.
    pub fn move_to_row(&mut self, row: usize, max: usize) -> (r: bool)
        ensures
            final(self).lead_cell == Some((
                (match old(self).lead_cell {
                    Some(c) => c.0,
                    None => 0usize,
                }),
                (if row <= max { row } else { max }),
            )),
            r == (old(self).lead_cell != final(self).lead_cell),
    {
        let old_cell = self.lead_cell;
        let col = match old_cell {
            Some(c) => c.0,
            None => 0,
        };
        self.lead_cell = Some((col, if row <= max { row } else { max }));
        !cell_opt_eq(old_cell, self.lead_cell)
    }

    /// Move the selection to the column, clamped to `[0, max]`; the
    /// row stays, or starts at 0 without a selection.
    pub fn move_to_col(&mut self, col: usize, max: usize) -> (r: bool)
        ensures
            final(self).lead_cell == Some((
                (if col <= max { col } else { max }),
                (match old(self).lead_cell {
                    Some(c) => c.1,
                    None => 0usize,
                }),
            )),
            r == (old(self).lead_cell != final(self).lead_cell),
    {
        let old_cell = self.lead_cell;
        let row = match old_cell {
            Some(c) => c.1,
            None => 0,
        };
        self.lead_cell = Some((if col <= max { col } else { max }, row));
        !cell_opt_eq(old_cell, self.lead_cell)
    }

    /// Move the selection up `n` rows, clamped to `[0, max]`. Without
    /// a selection the last row is selected.
    pub fn move_up(&mut self, n: usize, max: usize) -> (r: bool)
        ensures
            final(self).lead_cell == Some((match old(self).lead_cell {
                Some(c) => {
                    let down = if c.1 >= n { (c.1 - n) as usize } else { 0usize };
                    (c.0, if down <= max { down } else { max })
                },
                None => (0usize, max),
            })),
            r == (old(self).lead_cell != final(self).lead_cell),
    {
        let old_cell = self.lead_cell;
        self.lead_cell = Some(match old_cell {
            Some(c) => {
                let down = c.1.saturating_sub(n);
                (c.0, if down <= max { down } else { max })
            },
            None => (0, max),
        });
        !cell_opt_eq(old_cell, self.lead_cell)
    }

    /// Move the selection down `n` rows, clamped to `[0, max]`.
    /// Without a selection the first row is selected.
    pub fn move_down(&mut self, n: usize, max: usize) -> (r: bool)
        ensures
            final(self).lead_cell == Some((match old(self).lead_cell {
                Some(c) => {
                    let up = if c.1 + n <= usize::MAX { (c.1 + n) as usize } else { usize::MAX };
                    (c.0, if up <= max { up } else { max })
                },
                None => (0usize, 0usize),
            })),
            r == (old(self).lead_cell != final(self).lead_cell),
    {
        let old_cell = self.lead_cell;
        self.lead_cell = Some(match old_cell {
            Some(c) => {
                let up = c.1.saturating_add(n);
                (c.0, if up <= max { up } else { max })
            },
            None => (0, 0),
        });
        !cell_opt_eq(old_cell, self.lead_cell)
    }

    /// Move the selection left `n` columns, clamped to `[0, max]`.
    /// Without a selection the last column is selected.
    pub fn move_left(&mut self, n: usize, max: usize) -> (r: bool)
        ensures
            final(self).lead_cell == Some((match old(self).lead_cell {
                Some(c) => {
                    let left = if c.0 >= n { (c.0 - n) as usize } else { 0usize };
                    ((if left <= max { left } else { max }), c.1)
                },
                None => (max, 0usize),
            })),
            r == (old(self).lead_cell != final(self).lead_cell),
    {
        let old_cell = self.lead_cell;
        self.lead_cell = Some(match old_cell {
            Some(c) => {
                let left = c.0.saturating_sub(n);
                (if left <= max { left } else { max }, c.1)
            },
            None => (max, 0),
        });
        !cell_opt_eq(old_cell, self.lead_cell)
    }

    /// Move the selection right `n` columns, clamped to `[0, max]`.
    /// Without a selection the first column is selected.
    pub fn move_right(&mut self, n: usize, max: usize) -> (r: bool)
        ensures
            final(self).lead_cell == Some((match old(self).lead_cell {
                Some(c) => {
                    let right = if c.0 + n <= usize::MAX { (c.0 + n) as usize } else { usize::MAX };
                    ((if right <= max { right } else { max }), c.1)
                },
                None => (0usize, 0usize),
            })),
            r == (old(self).lead_cell != final(self).lead_cell),
    {
        let old_cell = self.lead_cell;
        self.lead_cell = Some(match old_cell {
            Some(c) => {
                let right = c.0.saturating_add(n);
                (if right <= max { right } else { max }, c.1)
            },
            None => (0, 0),
        });
        !cell_opt_eq(old_cell, self.lead_cell)
    }

    /// Shift the selected row for `n` items inserted at `pos`.
    pub fn items_added(&mut self, pos: usize, n: usize) -> (r: bool)
        requires
            (match old(self).lead_cell {
                Some(c) => c.1 + n <= usize::MAX,
                None => true,
            }),
        ensures
            final(self).lead_cell == (match old(self).lead_cell {
                Some(c) => Some(
                    (c.0, (spec_shift_added(c.1 as int, pos as int, n as int)) as usize),
                ),
                None => None::<(usize, usize)>,
            }),
            r == (old(self).lead_cell != final(self).lead_cell),
    {
        let old_cell = self.lead_cell;
        if let Some(c) = self.lead_cell {
            if c.1 >= pos {
                self.lead_cell = Some((c.0, c.1 + n));
            }
        }
        !cell_opt_eq(old_cell, self.lead_cell)
    }

    /// Shift the selected row for the `n` items removed at `pos`.
    pub fn items_removed(&mut self, pos: usize, n: usize) -> (r: bool)
        ensures
            final(self).lead_cell == (match old(self).lead_cell {
                Some(c) => Some(
                    (c.0, (spec_shift_removed(c.1 as int, pos as int, n as int)) as usize),
                ),
                None => None::<(usize, usize)>,
            }),
            r == (old(self).lead_cell != final(self).lead_cell),
    {
        let old_cell = self.lead_cell;
        if let Some(c) = self.lead_cell {
            if n <= usize::MAX - pos && c.1 >= pos + n {
                self.lead_cell = Some((c.0, c.1 - n));
            } else if c.1 >= pos {
                self.lead_cell = Some((c.0, pos));
            }
        }
        !cell_opt_eq(old_cell, self.lead_cell)
    }
}

} // verus!

verus! {

/// The retired rows after removing the `n` rows at `pos`: rows
/// inside the removed range are dropped, rows past it move down.
pub open spec fn spec_removed_rows(s: Seq<usize>, pos: int, n: int) -> Seq<usize>
    decreases s.len(),
{
    if s.len() == 0 {
        Seq::empty()
    } else {
        let rest = spec_removed_rows(s.drop_last(), pos, n);
        let e = s.last() as int;
        if e < pos {
            rest.push(s.last())
        } else if e >= pos + n {
            rest.push((e - n) as usize)
        } else {
            rest
        }
    }
}

/// What `spec_removed_rows` holds: exactly the kept rows, shifted,
/// and no row twice when none was twice before.
pub proof fn lemma_removed_rows_members(s: Seq<usize>, pos: int, n: int)
    requires
        pos >= 0,
        n >= 0,
        seq_distinct(s),
    ensures
        seq_distinct(spec_removed_rows(s, pos, n)),
        forall|v: int|
            #![trigger seq_has(spec_removed_rows(s, pos, n), v)]
            seq_has(spec_removed_rows(s, pos, n), v) <==> ((v < pos && seq_has(s, v)) || (v >= pos
                && v + n <= usize::MAX && seq_has(s, v + n))),
    decreases s.len(),
{
    if s.len() > 0 {
        assert(seq_distinct(s.drop_last()));
        lemma_removed_rows_members(s.drop_last(), pos, n);
        let rest = spec_removed_rows(s.drop_last(), pos, n);
        let full = spec_removed_rows(s, pos, n);
        let e = s.last() as int;
        assert forall|v: int| seq_has(s.drop_last(), v) implies seq_has(s, v) by {
            let k = choose|k: int| 0 <= k < s.drop_last().len() && s.drop_last()[k] == v;
            assert(s[k] == v);
        }
        assert forall|v: int| seq_has(s, v) && v != e implies seq_has(s.drop_last(), v) by {
            let k = choose|k: int| 0 <= k < s.len() && s[k] == v;
            assert(k < s.len() - 1);
            assert(s.drop_last()[k] == v);
        }
        assert(seq_has(s, e)) by {
            assert(s[s.len() - 1] == s.last());
        }
        if e < pos || e >= pos + n {
            let m: int = if e < pos {
                e
            } else {
                e - n
            };
            assert(full == rest.push(m as usize));
            assert(!seq_has(rest, m));
            assert forall|v: int| #![trigger seq_has(full, v)]
                seq_has(full, v) <==> (seq_has(rest, v) || v == m) by {
                if seq_has(rest, v) {
                    let k = choose|k: int| 0 <= k < rest.len() && rest[k] == v;
                    assert(full[k] == v);
                }
                if v == m {
                    assert(full[rest.len() as int] == v);
                }
                if seq_has(full, v) {
                    let k = choose|k: int| 0 <= k < full.len() && full[k] == v;
                    if k < rest.len() {
                        assert(rest[k] == v);
                    }
                }
            }
            assert forall|a: int, b: int| 0 <= a < b < full.len() implies full[a] != full[b] by {
                if b == full.len() - 1 {
                    assert(full[a] == rest[a]);
                    assert(seq_has(rest, full[b] as int) == false);
                }
            }
        }
    }
}

impl RowSetSelection {
    /// Every retired row can shift up by `n` without leaving `usize`.
    pub open spec fn spec_fits_added(&self, n: int) -> bool {
        &&& (match self.anchor_row {
            Some(v) => v + n <= usize::MAX,
            None => true,
        })
        &&& (match self.lead_row {
            Some(v) => v + n <= usize::MAX,
            None => true,
        })
        &&& (forall|i: int|
            0 <= i < self.selected@.len() ==> self.selected@[i] + n <= usize::MAX)
    }

    /// Shift the whole selection for `n` items inserted at `pos`:
    /// anchor, lead and every retired row at or past the insertion
    /// point move up with the items.
    pub fn items_added(&mut self, pos: usize, n: usize)
        requires
            old(self).wf(),
            old(self).spec_fits_added(n as int),
        ensures
            final(self).anchor_row == (match old(self).anchor_row {
                Some(v) => Some((spec_shift_added(v as int, pos as int, n as int)) as usize),
                None => None::<usize>,
            }),
            final(self).lead_row == (match old(self).lead_row {
                Some(v) => Some((spec_shift_added(v as int, pos as int, n as int)) as usize),
                None => None::<usize>,
            }),
            forall|v: int|
                #![trigger final(self).spec_retired(v)]
                final(self).spec_retired(v) <==> ((v < pos && old(self).spec_retired(v)) || (v
                    >= pos + n && old(self).spec_retired(v - n))),
            final(self).wf(),
    {
        if let Some(a) = self.anchor_row {
            if a >= pos {
                self.anchor_row = Some(a + n);
            }
        }
        if let Some(l) = self.lead_row {
            if l >= pos {
                self.lead_row = Some(l + n);
            }
        }
        let ghost sel = self.selected@;
        let mut out: Vec<usize> = Vec::new();
        let mut i: usize = 0;
        while i < self.selected.len()
            invariant
                0 <= i <= sel.len(),
                self.selected@ == sel,
                seq_distinct(sel),
                forall|k: int| 0 <= k < sel.len() ==> sel[k] + n <= usize::MAX,
                out@.len() == i,
                forall|k: int|
                    0 <= k < i ==> out@[k] == (spec_shift_added(
                        sel[k] as int,
                        pos as int,
                        n as int,
                    )) as usize,
            decreases sel.len() - i,
        {
            let e = self.selected[i];
            if e >= pos {
                out.push(e + n);
            } else {
                out.push(e);
            }
            i += 1;
        }
        proof {
            assert forall|a: int, b: int| 0 <= a < b < out@.len() implies out@[a] != out@[b] by {
                assert(sel[a] != sel[b]);
            }
            assert forall|v: int|
                seq_has(out@, v) <==> ((v < pos && seq_has(sel, v)) || (v >= pos + n && seq_has(
                    sel,
                    v - n,
                ))) by {
                if seq_has(out@, v) {
                    let k = choose|k: int| 0 <= k < out@.len() && out@[k] == v;
                    assert(sel[k] == if v >= pos + n {
                        v - n
                    } else {
                        v
                    });
                }
                if v < pos && seq_has(sel, v) {
                    let k = choose|k: int| 0 <= k < sel.len() && sel[k] == v;
                    assert(out@[k] == v);
                }
                if v >= pos + n && seq_has(sel, v - n) {
                    let k = choose|k: int| 0 <= k < sel.len() && sel[k] == v - n;
                    assert(out@[k] == v);
                }
            }
        }
        self.selected = out;
    }

    /// Shift the whole selection for the `n` items removed at `pos`:
    /// anchor and lead collapse onto the removal point when they fall
    /// inside it; retired rows inside the removed range are dropped
    /// and the ones past it move down with the items.
    pub fn items_removed(&mut self, pos: usize, n: usize)
        requires
            old(self).wf(),
        ensures
            final(self).anchor_row == (match old(self).anchor_row {
                Some(v) => Some((spec_shift_removed(v as int, pos as int, n as int)) as usize),
                None => None::<usize>,
            }),
            final(self).lead_row == (match old(self).lead_row {
                Some(v) => Some((spec_shift_removed(v as int, pos as int, n as int)) as usize),
                None => None::<usize>,
            }),
            forall|v: int|
                #![trigger final(self).spec_retired(v)]
                final(self).spec_retired(v) <==> ((v < pos && old(self).spec_retired(v)) || (v
                    >= pos && v + n <= usize::MAX && old(self).spec_retired(v + n))),
            final(self).wf(),
    {
        if let Some(a) = self.anchor_row {
            if n <= usize::MAX - pos && a >= pos + n {
                self.anchor_row = Some(a - n);
            } else if a >= pos {
                self.anchor_row = Some(pos);
            }
        }
        if let Some(l) = self.lead_row {
            if n <= usize::MAX - pos && l >= pos + n {
                self.lead_row = Some(l - n);
            } else if l >= pos {
                self.lead_row = Some(pos);
            }
        }
        let ghost sel = self.selected@;
        let mut out: Vec<usize> = Vec::new();
        let mut i: usize = 0;
        proof {
            assert(sel.subrange(0, 0) =~= Seq::<usize>::empty());
        }
        while i < self.selected.len()
            invariant
                0 <= i <= sel.len(),
                self.selected@ == sel,
                out@ == spec_removed_rows(sel.subrange(0, i as int), pos as int, n as int),
            decreases sel.len() - i,
        {
            let ghost prefix = sel.subrange(0, i + 1);
            proof {
                assert(prefix.drop_last() =~= sel.subrange(0, i as int));
                assert(prefix.last() == sel[i as int]);
            }
            let e = self.selected[i];
            if e < pos {
                out.push(e);
            } else if n <= usize::MAX - pos && e >= pos + n {
                out.push(e - n);
            }
            i += 1;
        }
        proof {
            assert(sel.subrange(0, sel.len() as int) =~= sel);
            lemma_removed_rows_members(sel, pos as int, n as int);
        }
        self.selected = out;
    }
}

} // verus!

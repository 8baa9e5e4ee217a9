//! Selection cursor for a table of rows.
//!
//! The drawing toolkit keeps an implicit cursor and clamps it while
//! rendering; here the policy is explicit so it can be stated and
//! proved. Navigation saturates at both ends (no wraparound), and every
//! read clamps a stale cursor to the last row instead of failing when
//! the list has shrunk.

use vstd::prelude::*;

verus! {

/// Selection state of a scrollable table. `selected` may point past the
/// end of the current row list; [`TableState::selected`] clamps it.
#[derive(Debug, PartialEq, Eq, Clone, Copy)]
pub struct TableState {
    pub selected: Option<usize>,
}

/// Where the cursor lands after a "select previous" key, for a table of
/// `len` rows: one row up, saturating at the first row; the first row
/// when nothing was selected; no selection when the table is empty.
pub open spec fn spec_select_previous(sel: Option<usize>, len: usize) -> Option<usize> {
    if len == 0 {
        Option::None
    } else {
        match sel {
            Option::None => Option::Some(0usize),
            Option::Some(i) => if i == 0 {
                Option::Some(0usize)
            } else if i - 1 > len - 1 {
                Option::Some((len - 1) as usize)
            } else {
                Option::Some((i - 1) as usize)
            },
        }
    }
}

/// Where the cursor lands after a "select next" key: one row down,
/// saturating at the last row; the first row when nothing was selected;
/// no selection when the table is empty.
pub open spec fn spec_select_next(sel: Option<usize>, len: usize) -> Option<usize> {
    if len == 0 {
        Option::None
    } else {
        match sel {
            Option::None => Option::Some(0usize),
            Option::Some(i) => if i + 1 > len - 1 {
                Option::Some((len - 1) as usize)
            } else {
                Option::Some((i + 1) as usize)
            },
        }
    }
}

/// The row a cursor actually denotes in a table of `len` rows: clamped
/// to the last row when the list has shrunk below it, `None` when there
/// is no selection or no row.
pub open spec fn spec_selected(sel: Option<usize>, len: usize) -> Option<usize> {
    if len == 0 {
        Option::None
    } else {
        match sel {
            Option::None => Option::None,
            Option::Some(i) => if i > len - 1 {
                Option::Some((len - 1) as usize)
            } else {
                Option::Some(i)
            },
        }
    }
}

impl TableState {
    /// A fresh table with no selection.
    pub fn new() -> (r: TableState)
        ensures
            r.selected == Option::<usize>::None,
    {
        TableState { selected: None }
    }

    /// A fresh table with the given row selected.
    pub fn with_selected(sel: Option<usize>) -> (r: TableState)
        ensures
            r.selected == sel,
    {
        TableState { selected: sel }
    }

    /// Move the selection one row up in a table of `len` rows.
    pub fn select_previous(&mut self, len: usize)
        ensures
            final(self).selected == spec_select_previous(old(self).selected, len),
    {
        self.selected = match self.selected {
            None => if len == 0 { None } else { Some(0) },
            Some(i) => {
                if len == 0 {
                    None
                } else if i == 0 {
                    Some(0)
                } else if i - 1 > len - 1 {
                    Some(len - 1)
                } else {
                    Some(i - 1)
                }
            },
        };
    }

    /// Move the selection one row down in a table of `len` rows.
    pub fn select_next(&mut self, len: usize)
        ensures
            final(self).selected == spec_select_next(old(self).selected, len),
    {
        self.selected = match self.selected {
            None => if len == 0 { None } else { Some(0) },
            Some(i) => {
                if len == 0 {
                    None
                } else if i >= len - 1 {
                    Some(len - 1)
                } else {
                    Some(i + 1)
                }
            },
        };
    }

    /// The selected row, clamped into the current table of `len` rows.
    /// Never out of range: the result is always below `len`.
    pub fn selected(&self, len: usize) -> (r: Option<usize>)
        ensures
            r == spec_selected(self.selected, len),
            r matches Some(i) ==> i < len,
    {
        match self.selected {
            None => None,
            Some(i) => {
                if len == 0 {
                    None
                } else if i > len - 1 {
                    Some(len - 1)
                } else {
                    Some(i)
                }
            },
        }
    }
}

} // verus!

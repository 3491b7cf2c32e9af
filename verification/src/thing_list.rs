use vstd::prelude::*;

use crate::action::Action;
use crate::merge;
use crate::merge::stable_sort;
use crate::order::SortOrder;
use crate::pull_request::PullRequest;

verus! {

/// A plain table over a closed set of row kinds — here pull requests —
/// with a cursor and a sortable column, and no paging of its own.
pub struct ThingList {
    pub selected_row: usize,
    pub selected_column: usize,
    pub things: Option<Vec<PullRequest>>,
}

impl ThingList {
    /// An empty table sorted by the repository column.
    pub fn new() -> (l: ThingList)
        ensures
            l.selected_row == 0,
            l.selected_column == 1,
            l.things is None,
    {
        ThingList { selected_row: 0, selected_column: 1, things: Option::None }
    }

    /// Replace the rows wholesale.
    pub fn set_things(&mut self, things: Vec<PullRequest>)
        ensures
            final(self).things == Some(things),
            final(self).selected_row == old(self).selected_row,
            final(self).selected_column == old(self).selected_column,
    {
        self.things = Option::Some(things);
    }

    /// Stable-sort the rows by the active column.
    pub fn sort_things(&mut self)
        ensures
            final(self).selected_row == old(self).selected_row,
            final(self).selected_column == old(self).selected_column,
            (match old(self).things {
                Option::Some(v) => final(self).things matches Some(w) && w@ == stable_sort(
                    SortOrder::Column(old(self).selected_column),
                    v@,
                ),
                Option::None => final(self).things is None,
            }),
    {
        let col = self.selected_column;
        match &mut self.things {
            Option::Some(v) => {
                merge::sort_pull_requests_by(v, &SortOrder::Column(col));
            },
            Option::None => {},
        }
    }

    /// Apply one action: the cursor moves with a redraw, the arrow keys
    /// cycle the sort column and re-sort, everything else is ignored.
    pub fn update(&mut self, action: Action) -> (emitted: Option<Action>)
        ensures
            (match action {
                Action::Up => {
                    &&& final(self).selected_row == (if old(self).selected_row > 0 {
                        (old(self).selected_row - 1) as usize
                    } else {
                        0usize
                    })
                    &&& final(self).selected_column == old(self).selected_column
                    &&& final(self).things == old(self).things
                    &&& emitted == Some(Action::Render)
                },
                Action::Down => {
                    &&& final(self).selected_row == (match old(self).things {
                        Option::Some(v) => {
                            if v@.len() > 0 {
                                if old(self).selected_row + 1 < v@.len() {
                                    (old(self).selected_row + 1) as usize
                                } else {
                                    (v@.len() - 1) as usize
                                }
                            } else {
                                old(self).selected_row
                            }
                        },
                        Option::None => old(self).selected_row,
                    })
                    &&& final(self).selected_column == old(self).selected_column
                    &&& final(self).things == old(self).things
                    &&& emitted == Some(Action::Render)
                },
                Action::Left => {
                    &&& final(self).selected_column == (if old(self).selected_column > 0 {
                        (old(self).selected_column - 1) as usize
                    } else {
                        0usize
                    })
                    &&& final(self).selected_row == old(self).selected_row
                    &&& (match old(self).things {
                        Option::Some(v) => final(self).things matches Some(w) && w@ == stable_sort(
                            SortOrder::Column(final(self).selected_column),
                            v@,
                        ),
                        Option::None => final(self).things is None,
                    })
                    &&& emitted is None
                },
                Action::Right => {
                    &&& final(self).selected_column == (if old(self).selected_column
                        < usize::MAX {
                        (old(self).selected_column + 1) as usize
                    } else {
                        old(self).selected_column
                    })
                    &&& final(self).selected_row == old(self).selected_row
                    &&& (match old(self).things {
                        Option::Some(v) => final(self).things matches Some(w) && w@ == stable_sort(
                            SortOrder::Column(final(self).selected_column),
                            v@,
                        ),
                        Option::None => final(self).things is None,
                    })
                    &&& emitted is None
                },
                _ => {
                    &&& *final(self) == *old(self)
                    &&& emitted is None
                },
            }),
    {
        match action {
            Action::Up => {
                if self.selected_row > 0 {
                    self.selected_row = self.selected_row - 1;
                }
                Option::Some(Action::Render)
            },
            Action::Down => {
                match &self.things {
                    Option::Some(v) => {
                        if v.len() > 0 {
                            let last = v.len() - 1;
                            if self.selected_row < last {
                                self.selected_row = self.selected_row + 1;
                            } else {
                                self.selected_row = last;
                            }
                        }
                    },
                    Option::None => {},
                }
                Option::Some(Action::Render)
            },
            Action::Left => {
                if self.selected_column > 0 {
                    self.selected_column = self.selected_column - 1;
                }
                self.sort_things();
                Option::None
            },
            Action::Right => {
                if self.selected_column < usize::MAX {
                    self.selected_column = self.selected_column + 1;
                }
                self.sort_things();
                Option::None
            },
            _ => Option::None,
        }
    }
}

} // verus!

//! Everything the screen shows, and the cursor that walks its table.
//!
//! The table has one row for each group and one for each session, in
//! document order. The cursor is a row number, or nothing.

use vstd::prelude::*;
use crate::session_core::session_group::{group_views, SessionGroup, SessionGroupView};
use super::config::{Config, ConfigView};
use super::popup_state::{PopupState, PopupView};

verus! {

/// The number of sessions in all of `groups`.
pub open spec fn session_count(groups: Seq<SessionGroupView>) -> nat
    decreases groups.len(),
{
    if groups.len() == 0 {
        0
    } else {
        session_count(groups.drop_last()) + groups.last().sessions.len()
    }
}

/// The number of rows of the table: one for each group, one for each
/// session.
pub open spec fn row_count(groups: Seq<SessionGroupView>) -> nat {
    groups.len() + session_count(groups)
}

/// The cursor after one step down a table of `rows` rows: the first row
/// if nothing was selected, the first row again after the last, and
/// nothing if the table is empty.
pub open spec fn next_selection(rows: nat, selected: Option<usize>) -> Option<usize> {
    if rows == 0 {
        None
    } else {
        match selected {
            None => Some(0),
            Some(index) => if index >= rows - 1 {
                Some(0)
            } else {
                Some((index + 1) as usize)
            },
        }
    }
}

/// The cursor after one step up a table of `rows` rows: the first row
/// if nothing was selected, the last row from the first, and nothing if
/// the table is empty.
pub open spec fn previous_selection(rows: nat, selected: Option<usize>) -> Option<usize> {
    if rows == 0 {
        None
    } else {
        match selected {
            None => Some(0),
            Some(index) => if index == 0 {
                Some((rows - 1) as usize)
            } else {
                Some((index - 1) as usize)
            },
        }
    }
}

/// The first groups of a document hold no more sessions than all of
/// them.
pub proof fn lemma_session_count_prefix(groups: Seq<SessionGroupView>, n: int)
    requires
        0 <= n <= groups.len(),
    ensures
        session_count(groups.take(n)) <= session_count(groups),
    decreases groups.len() - n,
{
    if n == groups.len() {
        assert(groups.take(n) =~= groups);
    } else {
        lemma_session_count_prefix(groups, n + 1);
        assert(groups.take(n + 1).drop_last() =~= groups.take(n));
    }
}

/// The number of rows of the table that shows `groups`, if a `usize`
/// can hold it.
pub fn checked_count_rows(groups: &Vec<SessionGroup>) -> (rows: Option<usize>)
    ensures
        match rows {
            Some(rows) => rows == row_count(group_views(groups@)),
            None => row_count(group_views(groups@)) > usize::MAX,
        },
{
    let ghost views = group_views(groups@);
    let mut rows: usize = groups.len();
    let mut i: usize = 0;
    while i < groups.len()
        invariant
            i <= groups.len(),
            views == group_views(groups@),
            rows == groups.len() + session_count(views.take(i as int)),
        decreases groups.len() - i,
    {
        proof {
            lemma_session_count_prefix(views, i + 1);
            assert(views.take(i + 1).drop_last() =~= views.take(i as int));
        }
        match rows.checked_add(groups[i].sessions.len()) {
            Some(sum) => {
                rows = sum;
            },
            None => {
                return None;
            },
        }
        i += 1;
    }
    assert(views.take(groups.len() as int) =~= views);
    Some(rows)
}

/// The number of rows of the table that shows `groups`.
pub fn count_rows(groups: &Vec<SessionGroup>) -> (rows: usize)
    requires
        row_count(group_views(groups@)) <= usize::MAX,
    ensures
        rows == row_count(group_views(groups@)),
{
    match checked_count_rows(groups) {
        Some(rows) => rows,
        None => vstd::pervasive::unreached(),
    }
}

/// The screen's state as mathematics.
pub struct ShellView {
    pub selected: Option<usize>,
    pub config: ConfigView,
    pub popup: PopupView,
    pub connected: bool,
}

impl ShellView {
    /// The number of rows of the table.
    pub open spec fn rows(self) -> nat {
        row_count(self.config.session_groups)
    }

    /// The state after the finished group that waits in the wizard, if
    /// any, was appended to the document.
    pub open spec fn with_finished_group(self) -> ShellView {
        ShellView {
            config: match self.popup.finished {
                Some(group) => ConfigView {
                    session_groups: self.config.session_groups.push(group),
                    ..self.config
                },
                None => self.config,
            },
            popup: PopupView { finished: None, ..self.popup },
            ..self
        }
    }
}

/// The state behind the screen: the cursor, the document, the wizard,
/// and whether a connection was asked for.
pub struct ViewState<'a> {
    pub selected: Option<usize>,
    pub config: Config,
    pub popup_state: PopupState<'a>,
    pub connected: bool,
}

impl<'a> View for ViewState<'a> {
    type V = ShellView;

    open spec fn view(&self) -> ShellView {
        ShellView {
            selected: self.selected,
            config: self.config@,
            popup: self.popup_state@,
            connected: self.connected,
        }
    }
}

impl<'a> ViewState<'a> {
    /// The state at start: nothing selected, the wizard hidden.
    pub fn new(config: Config) -> (state: ViewState<'a>)
        ensures
            state@ == (ShellView {
                selected: None,
                config: config@,
                popup: PopupView::fresh(false, None),
                connected: false,
            }),
    {
        ViewState { selected: None, config, popup_state: PopupState::new(), connected: false }
    }

    /// Whether the state can take a key: the wizard holds what its
    /// prompt needs, and the rows of the table can be counted.
    pub fn is_ready(&self) -> (ready: bool)
        ensures
            ready == (self@.popup.wf() && self@.rows() <= usize::MAX),
    {
        self.popup_state.is_well_formed() && checked_count_rows(
            &self.config.session_groups,
        ).is_some()
    }

    /// Replaces the whole document, as after a reload from storage.
    /// What was changed in the old one and not stored is gone; cursor
    /// and wizard stay as they are.
    pub fn reload(&mut self, config: Config)
        ensures
            final(self)@ == (ShellView { config: config@, ..old(self)@ }),
    {
        self.config = config;
    }

    /// Appends the finished group that waits in the wizard, if any, to
    /// the document.
    pub fn add_temp_session_group_to_cfg(&mut self)
        ensures
            final(self)@ == old(self)@.with_finished_group(),
    {
        if let Some(group) = self.popup_state.take_group() {
            self.config.session_groups.push(group);
            assert(group_views(self.config.session_groups@) =~= group_views(
                old(self).config.session_groups@,
            ).push(group@));
        }
    }

    /// Moves the cursor one row down, from the last row to the first.
    pub fn next(&mut self)
        requires
            old(self)@.rows() <= usize::MAX,
        ensures
            final(self)@ == (ShellView {
                selected: next_selection(old(self)@.rows(), old(self).selected),
                ..old(self)@
            }),
    {
        let rows = count_rows(&self.config.session_groups);
        self.selected = if rows == 0 {
            None
        } else {
            match self.selected {
                Some(index) => if index >= rows - 1 {
                    Some(0)
                } else {
                    Some(index + 1)
                },
                None => Some(0),
            }
        };
    }

    /// Moves the cursor one row up, from the first row to the last.
    pub fn previous(&mut self)
        requires
            old(self)@.rows() <= usize::MAX,
        ensures
            final(self)@ == (ShellView {
                selected: previous_selection(old(self)@.rows(), old(self).selected),
                ..old(self)@
            }),
    {
        let rows = count_rows(&self.config.session_groups);
        self.selected = if rows == 0 {
            None
        } else {
            match self.selected {
                Some(index) => if index == 0 {
                    Some(rows - 1)
                } else {
                    Some(index - 1)
                },
                None => Some(0),
            }
        };
    }
}

/// The cursor after `times` steps down a table of `rows` rows.
pub open spec fn next_times(rows: nat, selected: Option<usize>, times: nat) -> Option<usize>
    decreases times,
{
    if times == 0 {
        selected
    } else {
        next_selection(rows, next_times(rows, selected, (times - 1) as nat))
    }
}

/// From the first row, each step down reaches the next row, as long as
/// there is one.
pub proof fn lemma_next_counts_up(rows: nat, times: nat)
    requires
        times < rows <= usize::MAX,
    ensures
        next_times(rows, Some(0), times) == Some(times as usize),
    decreases times,
{
    if times > 0 {
        lemma_next_counts_up(rows, (times - 1) as nat);
    }
}

/// The cursor goes round a table that has rows.
///
/// The first step down from no selection selects the first row. From
/// the first row, as many steps down as the table has rows lead back to
/// the first row. One step up from the first row selects the last.
pub proof fn lemma_selection_wraps(rows: nat)
    requires
        0 < rows <= usize::MAX,
    ensures
        next_selection(rows, None) == Some(0usize),
        next_times(rows, Some(0), rows) == Some(0usize),
        next_times(rows, None, rows + 1) == Some(0usize),
        next_times(rows, None, rows) == Some((rows - 1) as usize),
        previous_selection(rows, Some(0)) == Some((rows - 1) as usize),
{
    lemma_next_counts_up(rows, (rows - 1) as nat);
    lemma_next_after_first(rows, rows);
    lemma_next_after_first(rows, (rows - 1) as nat);
}

/// From no selection, the first step down selects the first row, and
/// the steps after it go on from there.
pub proof fn lemma_next_after_first(rows: nat, times: nat)
    requires
        0 < rows,
    ensures
        next_times(rows, None, times + 1) == next_times(rows, Some(0), times),
    decreases times,
{
    if times > 0 {
        lemma_next_after_first(rows, (times - 1) as nat);
    } else {
        assert(next_times(rows, None, 1) == next_selection(rows, next_times(rows, None, 0)));
    }
}

/// An empty table has no row to select: a step up or down from any
/// cursor leaves nothing selected.
pub proof fn lemma_empty_table_selects_nothing(selected: Option<usize>, times: nat)
    ensures
        next_selection(0, selected) is None,
        previous_selection(0, selected) is None,
        times > 0 ==> next_times(0, selected, times) is None,
{
}

} // verus!

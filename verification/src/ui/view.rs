//! What a key press does.
//!
//! While the wizard is hidden a key is a command to the shell; while it
//! is shown every key goes to the wizard.

use vstd::prelude::*;
use crate::session_core::connection_type::{lowercase_of, protocol_of_lowercase};
use crate::session_core::session::{session_views, Session, SessionView};
use crate::session_core::session_group::{group_views, SessionGroupView};
use super::config::ConfigView;
use super::popup_state::{blank, ActionView, PopupBuilderState, PopupStateAction, PopupView};
use super::text_field::{appended, key_kind, kind_of, typed_char, KeyKind};
use super::view_state::{next_selection, previous_selection, ShellView, ViewState};

verus! {

/// What a row of the table shows.
pub enum Row {
    /// The heading of the group with this number.
    Group(int),
    /// A session: the number of its group, and its number in the group.
    Session(int, int),
    /// The row number is past the end of the table.
    Nothing,
}

/// What row number `index` shows, counting from the heading of group
/// number `from`: the heading itself at 0, then the group's sessions,
/// then the next group.
pub open spec fn locate_from(groups: Seq<SessionGroupView>, from: int, index: int) -> Row
    decreases groups.len() - from,
{
    if from < 0 || from >= groups.len() {
        Row::Nothing
    } else if index == 0 {
        Row::Group(from)
    } else if index <= groups[from].sessions.len() {
        Row::Session(from, index - 1)
    } else {
        locate_from(groups, from + 1, index - 1 - groups[from].sessions.len())
    }
}

/// What the selected row shows.
pub open spec fn selected_row(groups: Seq<SessionGroupView>, selected: Option<usize>) -> Row {
    match selected {
        Some(index) => locate_from(groups, 0, index as int),
        None => Row::Nothing,
    }
}

/// The groups without what `row` shows: without the whole group for a
/// heading, without the one session for a session.
pub open spec fn without_row(groups: Seq<SessionGroupView>, row: Row) -> Seq<SessionGroupView> {
    match row {
        Row::Group(group) => groups.remove(group),
        Row::Session(group, session) => groups.update(
            group,
            SessionGroupView {
                sessions: groups[group].sessions.remove(session),
                ..groups[group]
            },
        ),
        Row::Nothing => groups,
    }
}

/// The session that `row` shows, if it shows one.
pub open spec fn session_at(groups: Seq<SessionGroupView>, row: Row) -> Option<SessionView> {
    match row {
        Row::Session(group, session) => Some(groups[group].sessions[session]),
        _ => None,
    }
}

/// Removes what the selected row shows. The walk through the table is
/// made afresh on every call; the cursor stays where it is.
pub fn remove_selected(state: &mut ViewState)
    ensures
        final(state)@ == (ShellView {
            config: ConfigView {
                session_groups: without_row(
                    old(state)@.config.session_groups,
                    selected_row(old(state)@.config.session_groups, old(state).selected),
                ),
                ..old(state)@.config
            },
            ..old(state)@
        }),
{
    let ghost groups = state@.config.session_groups;
    let mut counter: usize = match state.selected {
        Some(index) => index,
        None => {
            return ;
        },
    };
    let ghost row = selected_row(groups, state.selected);
    let mut i: usize = 0;
    while i < state.config.session_groups.len()
        invariant
            *state == *old(state),
            row == selected_row(groups, state.selected),
            groups == group_views(state.config.session_groups@),
            i <= state.config.session_groups.len(),
            locate_from(groups, i as int, counter as int) == row,
        decreases state.config.session_groups.len() - i,
    {
        if counter == 0 {
            assert(row == Row::Group(i as int));
            state.config.session_groups.remove(i);
            assert(group_views(state.config.session_groups@) =~= groups.remove(i as int));
            return ;
        }
        counter -= 1;
        let sessions: usize = state.config.session_groups[i].sessions.len();
        let ghost start = counter;
        let mut j: usize = 0;
        while j < sessions
            invariant
                *state == *old(state),
                row == selected_row(groups, state.selected),
                groups == group_views(state.config.session_groups@),
                i < state.config.session_groups.len(),
                sessions == state.config.session_groups@[i as int].sessions@.len(),
                j <= sessions,
                counter + j == start,
                locate_from(groups, i as int, start + 1) == row,
            decreases sessions - j,
        {
            if counter == 0 {
                assert(row == Row::Session(i as int, j as int));
                let ghost before = state.config.session_groups@[i as int];
                state.config.session_groups[i].sessions.remove(j);
                let ghost after = state.config.session_groups@[i as int];
                assert(session_views(after.sessions@) =~= session_views(before.sessions@).remove(
                    j as int,
                ));
                assert(group_views(state.config.session_groups@) =~= without_row(
                    groups,
                    Row::Session(i as int, j as int),
                ));
                return ;
            }
            counter -= 1;
            j += 1;
        }
        i += 1;
    }
}

/// The session that the selected row shows, if it shows one.
pub fn find_selected(state: &ViewState) -> (found: Option<Session>)
    ensures
        match found {
            Some(session) => session_at(
                state@.config.session_groups,
                selected_row(state@.config.session_groups, state.selected),
            ) == Some(session@),
            None => session_at(
                state@.config.session_groups,
                selected_row(state@.config.session_groups, state.selected),
            ) is None,
        },
{
    let ghost groups = state@.config.session_groups;
    let mut counter: usize = match state.selected {
        Some(index) => index,
        None => {
            return None;
        },
    };
    let ghost row = selected_row(groups, state.selected);
    let mut i: usize = 0;
    while i < state.config.session_groups.len()
        invariant
            row == selected_row(groups, state.selected),
            groups == group_views(state.config.session_groups@),
            i <= state.config.session_groups.len(),
            locate_from(groups, i as int, counter as int) == row,
        decreases state.config.session_groups.len() - i,
    {
        if counter == 0 {
            assert(row == Row::Group(i as int));
            return None;
        }
        counter -= 1;
        let sessions: usize = state.config.session_groups[i].sessions.len();
        let ghost start = counter;
        let mut j: usize = 0;
        while j < sessions
            invariant
                row == selected_row(groups, state.selected),
                groups == group_views(state.config.session_groups@),
                i < state.config.session_groups.len(),
                sessions == state.config.session_groups@[i as int].sessions@.len(),
                j <= sessions,
                counter + j == start,
                locate_from(groups, i as int, start + 1) == row,
            decreases sessions - j,
        {
            if counter == 0 {
                assert(row == Row::Session(i as int, j as int));
                return Some(state.config.session_groups[i].sessions[j].clone());
            }
            counter -= 1;
            j += 1;
        }
        i += 1;
    }
    None
}

/// What the caller of the shell has to do after a key press.
#[derive(Clone, Copy, Debug, PartialEq, Eq, Structural)]
pub enum ShellAction {
    /// Nothing: draw the screen and wait for the next key.
    Continue,
    /// Store the document and leave.
    Quit,
    /// Replace the document by the stored one.
    Reload,
}

/// The state after the selected row was removed.
pub open spec fn selection_removed(pre: ShellView) -> ShellView {
    ShellView {
        config: ConfigView {
            session_groups: without_row(
                pre.config.session_groups,
                selected_row(pre.config.session_groups, pre.selected),
            ),
            ..pre.config
        },
        ..pre
    }
}

/// What a key does while the wizard is hidden: `q` and Escape quit, `a`
/// shows the wizard, `r` removes the selected row, `R` asks for a
/// reload, Enter asks for a connection, `j` and Down move the cursor
/// down, `k` and Up move it up. Every other key does nothing.
pub open spec fn normal_step(pre: ShellView, key: KeyKind) -> (ShellView, ShellAction) {
    match key {
        KeyKind::Esc => (pre, ShellAction::Quit),
        KeyKind::Enter => (ShellView { connected: true, ..pre }, ShellAction::Continue),
        KeyKind::Down => (
            ShellView { selected: next_selection(pre.rows(), pre.selected), ..pre },
            ShellAction::Continue,
        ),
        KeyKind::Up => (
            ShellView { selected: previous_selection(pre.rows(), pre.selected), ..pre },
            ShellAction::Continue,
        ),
        KeyKind::Char(c) => if c == 'q' {
            (pre, ShellAction::Quit)
        } else if c == 'a' {
            (
                ShellView { popup: PopupView { open: true, ..pre.popup }, ..pre },
                ShellAction::Continue,
            )
        } else if c == 'r' {
            (selection_removed(pre), ShellAction::Continue)
        } else if c == 'R' {
            (pre, ShellAction::Reload)
        } else if c == 'j' {
            (
                ShellView { selected: next_selection(pre.rows(), pre.selected), ..pre },
                ShellAction::Continue,
            )
        } else if c == 'k' {
            (
                ShellView { selected: previous_selection(pre.rows(), pre.selected), ..pre },
                ShellAction::Continue,
            )
        } else {
            (pre, ShellAction::Continue)
        },
        KeyKind::Other => (pre, ShellAction::Continue),
    }
}

/// The answer that a key gives to a yes-or-no prompt: `y` is a yes, `n`
/// a no, and every other key is no answer.
pub open spec fn answer(key: KeyKind) -> Option<ActionView> {
    if key == KeyKind::Char('y') {
        Some(ActionView::Store)
    } else if key == KeyKind::Char('n') {
        Some(ActionView::Next)
    } else {
        None
    }
}

/// The state after the wizard gave up what it had collected and was
/// hidden.
pub open spec fn wizard_closed(pre: ShellView) -> ShellView {
    ShellView { popup: PopupView::fresh(false, pre.popup.finished), ..pre }
}

/// The state after the wizard took `action` at its prompt.
pub open spec fn wizard_stepped(pre: ShellView, action: ActionView) -> ShellView {
    ShellView { popup: pre.popup.step(action), ..pre }
}

/// What a key press does while the wizard is shown.
///
/// Escape gives up the whole build. At a text prompt Enter submits the
/// first line of the text field, unless it is empty, and every other
/// key goes to the text field: see `PopupView::keyed` for `lines` and
/// `caret_at_end`. At a yes-or-no prompt only an answer counts. The
/// answer to the group's confirmation ends the wizard: the group, if
/// accepted, is appended to the document and the wizard is closed.
pub open spec fn edit_step(
    pre: ShellView,
    input: tui_textarea::Input,
    lines: Seq<Seq<char>>,
    caret_at_end: bool,
) -> ShellView {
    let key = kind_of(input);
    if key == KeyKind::Esc {
        wizard_closed(pre)
    } else if pre.popup.state.is_text_entry() {
        if key == KeyKind::Enter {
            if pre.popup.lines[0].len() == 0 {
                pre
            } else {
                wizard_stepped(pre, ActionView::StoreStr(pre.popup.lines[0]))
            }
        } else {
            ShellView { popup: pre.popup.keyed(input, lines, caret_at_end), ..pre }
        }
    } else if pre.popup.state == PopupBuilderState::Done {
        wizard_closed(pre.with_finished_group())
    } else {
        match answer(key) {
            None => pre,
            Some(action) => if pre.popup.state == PopupBuilderState::SessionGroupConfirm {
                wizard_closed(wizard_stepped(pre, action).with_finished_group())
            } else {
                wizard_stepped(pre, action)
            },
        }
    }
}

/// What a key press does: a command while the wizard is hidden, an
/// input to the wizard while it is shown.
pub open spec fn shell_step(
    pre: ShellView,
    input: tui_textarea::Input,
    lines: Seq<Seq<char>>,
    caret_at_end: bool,
) -> (ShellView, ShellAction) {
    if pre.popup.open {
        (edit_step(pre, input, lines, caret_at_end), ShellAction::Continue)
    } else {
        normal_step(pre, kind_of(input))
    }
}

/// Takes a key press while the wizard is hidden.
pub fn handle_normal_mode_events(state: &mut ViewState, input: &tui_textarea::Input) -> (action:
    ShellAction)
    requires
        old(state)@.rows() <= usize::MAX,
    ensures
        (final(state)@, action) == normal_step(old(state)@, kind_of(*input)),
{
    match key_kind(input) {
        KeyKind::Esc => {
            return ShellAction::Quit;
        },
        KeyKind::Enter => {
            state.connected = true;
        },
        KeyKind::Down => {
            state.next();
        },
        KeyKind::Up => {
            state.previous();
        },
        KeyKind::Char(c) => {
            if c == 'q' {
                return ShellAction::Quit;
            } else if c == 'a' {
                state.popup_state.show();
            } else if c == 'r' {
                remove_selected(state);
            } else if c == 'R' {
                return ShellAction::Reload;
            } else if c == 'j' {
                state.next();
            } else if c == 'k' {
                state.previous();
            }
        },
        KeyKind::Other => {},
    }
    ShellAction::Continue
}

/// Takes a key press while the wizard is shown.
pub fn handle_edit_mode_events(state: &mut ViewState, input: tui_textarea::Input)
    requires
        old(state)@.popup.wf(),
    ensures
        final(state)@ == edit_step(
            old(state)@,
            input,
            final(state)@.popup.lines,
            final(state)@.popup.caret_at_end,
        ),
        final(state)@.popup.wf(),
{
    let key = key_kind(&input);
    if matches!(key, KeyKind::Esc) {
        state.popup_state.reset_state();
        return ;
    }
    match state.popup_state.get_state() {
        PopupBuilderState::SessionGroupName
        | PopupBuilderState::SessionName
        | PopupBuilderState::SessionConnectionType
        | PopupBuilderState::SessionData => {
            if matches!(key, KeyKind::Enter) {
                let line = state.popup_state.current_line();
                if line.as_str().is_empty() {
                    return ;
                }
                state.popup_state.increment_state(PopupStateAction::StoreStr(&line));
            } else {
                state.popup_state.type_key(input);
            }
        },
        PopupBuilderState::SessionAddConfirm | PopupBuilderState::SessionAddMore => {
            if let KeyKind::Char(c) = key {
                if c == 'y' {
                    state.popup_state.increment_state(PopupStateAction::Store);
                } else if c == 'n' {
                    state.popup_state.increment_state(PopupStateAction::Next);
                }
            }
        },
        PopupBuilderState::SessionGroupConfirm => {
            if let KeyKind::Char(c) = key {
                if c == 'y' || c == 'n' {
                    if c == 'y' {
                        state.popup_state.increment_state(PopupStateAction::Store);
                    } else {
                        state.popup_state.increment_state(PopupStateAction::Next);
                    }
                    state.add_temp_session_group_to_cfg();
                    state.popup_state.reset_state();
                }
            }
        },
        PopupBuilderState::Done => {
            state.add_temp_session_group_to_cfg();
            state.popup_state.reset_state();
        },
    }
}

/// Takes a key press: a command while the wizard is hidden, an input
/// to the wizard while it is shown.
pub fn handle_events(state: &mut ViewState, input: tui_textarea::Input) -> (action: ShellAction)
    requires
        old(state)@.popup.wf(),
        old(state)@.rows() <= usize::MAX,
    ensures
        (final(state)@, action) == shell_step(
            old(state)@,
            input,
            final(state)@.popup.lines,
            final(state)@.popup.caret_at_end,
        ),
        final(state)@.popup.wf(),
{
    if state.popup_state.is_open() {
        handle_edit_mode_events(state, input);
        ShellAction::Continue
    } else {
        handle_normal_mode_events(state, &input)
    }
}

/// Answers a request for a connection: hands out the selected session,
/// if the selected row shows one, and takes the request back.
pub fn connect_selected(state: &mut ViewState) -> (found: Option<Session>)
    ensures
        final(state)@ == (ShellView { connected: false, ..old(state)@ }),
        match found {
            Some(session) => session_at(
                old(state)@.config.session_groups,
                selected_row(old(state)@.config.session_groups, old(state).selected),
            ) == Some(session@),
            None => session_at(
                old(state)@.config.session_groups,
                selected_row(old(state)@.config.session_groups, old(state).selected),
            ) is None,
        },
{
    let found = find_selected(state);
    state.connected = false;
    found
}

/// A key press while the wizard is shown, and what the text field
/// holds afterwards if the key goes to it.
pub struct KeyPress {
    pub input: tui_textarea::Input,
    pub lines: Seq<Seq<char>>,
    pub caret_at_end: bool,
}

impl KeyPress {
    /// The state after this key press was taken by the wizard.
    pub open spec fn after(self, pre: ShellView) -> ShellView {
        edit_step(pre, self.input, self.lines, self.caret_at_end)
    }
}

/// The state after a run of key presses, all taken by the wizard.
pub open spec fn edit_run(pre: ShellView, presses: Seq<KeyPress>) -> ShellView
    decreases presses.len(),
{
    if presses.len() == 0 {
        pre
    } else {
        presses.last().after(edit_run(pre, presses.drop_last()))
    }
}

/// Escape leaves the document, the cursor and the connection request as
/// they are, and the wizard hidden at its first prompt with nothing
/// collected.
pub proof fn lemma_escape_discards(pre: ShellView, escape: KeyPress)
    requires
        kind_of(escape.input) == KeyKind::Esc,
    ensures
        escape.after(pre) == (ShellView {
            popup: PopupView::fresh(false, pre.popup.finished),
            ..pre
        }),
{
}

/// The wizard touches the document only when it ends.
///
/// Start with the wizard shown and no finished group waiting. After any
/// run of key presses that leaves the wizard shown, the document is the
/// one from before the run, and it still is after Escape.
pub proof fn lemma_cancel_keeps_document(pre: ShellView, presses: Seq<KeyPress>, escape: KeyPress)
    requires
        pre.popup.open,
        pre.popup.finished is None,
        kind_of(escape.input) == KeyKind::Esc,
    ensures
        edit_run(pre, presses).popup.open ==> {
            &&& edit_run(pre, presses).config == pre.config
            &&& edit_run(pre, presses).popup.finished is None
            &&& escape.after(edit_run(pre, presses)).config == pre.config
        },
    decreases presses.len(),
{
    if presses.len() > 0 {
        lemma_cancel_keeps_document(pre, presses.drop_last(), escape);
    }
}

/// The key presses type `text`, character by character.
pub open spec fn types(presses: Seq<KeyPress>, text: Seq<char>) -> bool {
    &&& presses.len() == text.len()
    &&& forall|i: int| 0 <= i < presses.len() ==> typed_char(#[trigger] presses[i].input) == Some(text[i])
}

/// Characters typed at a text prompt are appended to the line.
///
/// At a text prompt whose field holds one line with the caret at its
/// end, key presses that type a text leave that text behind what the
/// line held, the caret at the end, and everything else as it was.
pub proof fn lemma_typing_appends(pre: ShellView, presses: Seq<KeyPress>, text: Seq<char>)
    requires
        pre.popup.state.is_text_entry(),
        pre.popup.lines.len() == 1,
        pre.popup.caret_at_end,
        types(presses, text),
    ensures
        edit_run(pre, presses) == (ShellView {
            popup: PopupView { lines: seq![pre.popup.lines[0] + text], ..pre.popup },
            ..pre
        }),
    decreases presses.len(),
{
    if presses.len() == 0 {
        assert(seq![pre.popup.lines[0] + text] =~= pre.popup.lines);
    } else {
        lemma_typing_appends(pre, presses.drop_last(), text.drop_last());
        let before = edit_run(pre, presses.drop_last());
        assert(typed_char(presses.last().input) == Some(text.last()));
        assert(before.popup.lines[0].push(text.last()) =~= pre.popup.lines[0] + text);
        assert(appended(before.popup.lines, text.last()) =~= seq![pre.popup.lines[0] + text]);
    }
}

/// The state after a text was typed and submitted: a run of key presses
/// and then one more.
pub open spec fn submitted(pre: ShellView, typing: Seq<KeyPress>, enter: KeyPress) -> ShellView {
    enter.after(edit_run(pre, typing))
}

/// Typing a text into the empty field of a text prompt and pressing
/// Enter hands exactly that text to the wizard.
pub proof fn lemma_submit(pre: ShellView, typing: Seq<KeyPress>, text: Seq<char>, enter: KeyPress)
    requires
        pre.popup.state.is_text_entry(),
        pre.popup.lines == blank(),
        pre.popup.caret_at_end,
        types(typing, text),
        text.len() > 0,
        kind_of(enter.input) == KeyKind::Enter,
    ensures
        submitted(pre, typing, enter) == wizard_stepped(pre, ActionView::StoreStr(text)),
{
    lemma_typing_appends(pre, typing, text);
    assert(pre.popup.lines[0] + text =~= text);
}

/// A whole build, key by key.
///
/// The wizard was just shown. The group's name is typed and submitted,
/// then a session's name, protocol and endpoint; "add session" is
/// answered with `y`, "add another" with `n`, and the group's
/// confirmation with `y`. Then the document has gained exactly one
/// group, at its end: it has the name typed and the one session typed.
/// The wizard is hidden again with nothing collected, and nothing else
/// has changed.
pub proof fn lemma_wizard_adds_group(
    pre: ShellView,
    name: (Seq<KeyPress>, Seq<char>),
    session: (Seq<KeyPress>, Seq<char>),
    protocol: (Seq<KeyPress>, Seq<char>),
    endpoint: (Seq<KeyPress>, Seq<char>),
    enter: KeyPress,
    yes: KeyPress,
    no: KeyPress,
)
    requires
        pre.popup == PopupView::fresh(true, None),
        types(name.0, name.1) && name.1.len() > 0,
        types(session.0, session.1) && session.1.len() > 0,
        types(protocol.0, protocol.1) && protocol.1.len() > 0,
        types(endpoint.0, endpoint.1) && endpoint.1.len() > 0,
        kind_of(enter.input) == KeyKind::Enter,
        kind_of(yes.input) == KeyKind::Char('y'),
        kind_of(no.input) == KeyKind::Char('n'),
    ensures
        ({
            let named = submitted(pre, name.0, enter);
            let entered = submitted(
                submitted(submitted(named, session.0, enter), protocol.0, enter),
                endpoint.0,
                enter,
            );
            yes.after(no.after(yes.after(entered)))
        }) == (ShellView {
            config: ConfigView {
                session_groups: pre.config.session_groups.push(
                    SessionGroupView {
                        name: name.1,
                        sessions: seq![
                            SessionView {
                                name: session.1,
                                data: endpoint.1,
                                connection_type: protocol_of_lowercase(lowercase_of(protocol.1)),
                            },
                        ],
                    },
                ),
                ..pre.config
            },
            popup: PopupView::fresh(false, None),
            ..pre
        }),
{
    lemma_submit(pre, name.0, name.1, enter);
    let named = submitted(pre, name.0, enter);
    lemma_submit(named, session.0, session.1, enter);
    let with_name = submitted(named, session.0, enter);
    lemma_submit(with_name, protocol.0, protocol.1, enter);
    let with_protocol = submitted(with_name, protocol.0, enter);
    lemma_submit(with_protocol, endpoint.0, endpoint.1, enter);
    let entered = submitted(with_protocol, endpoint.0, enter);
    let added = yes.after(entered);
    assert(added.popup.group.sessions =~= seq![
        SessionView {
            name: session.1,
            data: endpoint.1,
            connection_type: protocol_of_lowercase(lowercase_of(protocol.1)),
        },
    ]);
    let asked = no.after(added);
    assert(asked.popup.state == PopupBuilderState::SessionGroupConfirm);
}

} // verus!

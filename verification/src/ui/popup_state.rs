//! The wizard that collects a new session group, one prompt at a time.

use vstd::prelude::*;
use crate::session_core::connection_type::{lowercase_of, protocol_of_lowercase, ConnectionType};
use crate::session_core::session::{Session, SessionBuilder, SessionView};
use crate::session_core::session_group::{SessionGroup, SessionGroupBuilder, SessionGroupView};
use super::text_field::{appended, field_caret_at_end, field_lines, typed_char, TextField};

verus! {

/// What the wizard is told when it moves on: a line to store, a plain
/// yes, or a no.
pub enum PopupStateAction<'a> {
    StoreStr(&'a String),
    Store,
    Next,
}

/// A `PopupStateAction` as mathematics.
pub enum ActionView {
    StoreStr(Seq<char>),
    Store,
    Next,
}

impl<'a> View for PopupStateAction<'a> {
    type V = ActionView;

    open spec fn view(&self) -> ActionView {
        match *self {
            PopupStateAction::StoreStr(line) => ActionView::StoreStr(line@),
            PopupStateAction::Store => ActionView::Store,
            PopupStateAction::Next => ActionView::Next,
        }
    }
}

impl<'a> PopupStateAction<'a> {
    /// The line that the action carries.
    pub fn get_data(&self) -> (data: &String)
        requires
            *self is StoreStr,
        ensures
            *self == PopupStateAction::StoreStr(data),
    {
        match self {
            PopupStateAction::StoreStr(s) => s,
            _ => vstd::pervasive::unreached(),
        }
    }
}

/// The prompts of the wizard, in the order in which they are asked.
#[derive(Copy, Clone, Debug, PartialEq, Eq, Structural, Hash)]
pub enum PopupBuilderState {
    SessionGroupName,
    SessionName,
    SessionConnectionType,
    SessionData,
    SessionAddConfirm,
    SessionAddMore,
    SessionGroupConfirm,
    Done,
}

impl PopupBuilderState {
    /// The prompts that are answered with a line of text.
    pub open spec fn is_text_entry(self) -> bool {
        self == PopupBuilderState::SessionGroupName || self == PopupBuilderState::SessionName
            || self == PopupBuilderState::SessionConnectionType || self
            == PopupBuilderState::SessionData
    }

    /// The prompts that are answered with yes or no.
    pub open spec fn is_confirmation(self) -> bool {
        self == PopupBuilderState::SessionAddConfirm || self == PopupBuilderState::SessionAddMore
            || self == PopupBuilderState::SessionGroupConfirm
    }

    /// The title and the placeholder shown at this prompt.
    pub open spec fn prompt(self) -> (Seq<char>, Seq<char>) {
        match self {
            PopupBuilderState::SessionGroupName => (
                "Session Group Name:"@,
                "Enter an easy to understand name for the session group..."@,
            ),
            PopupBuilderState::SessionName => (
                "Session Name:"@,
                "Enter an easy to understand name for the session..."@,
            ),
            PopupBuilderState::SessionConnectionType => (
                "Session Type (TELNET/SSH):"@,
                "Enter either 'telnet' or 'ssh'"@,
            ),
            PopupBuilderState::SessionData => ("Connection data:"@, "username@ip:port"@),
            PopupBuilderState::SessionAddConfirm => ("Add session? (y/n)"@, ""@),
            PopupBuilderState::SessionAddMore => ("Add another session? (y/n)"@, ""@),
            PopupBuilderState::SessionGroupConfirm => ("Add session group? (y/n)"@, ""@),
            PopupBuilderState::Done => ("Session group has been created"@, ""@),
        }
    }
}

/// The title and the placeholder of each prompt.
pub fn sg_prompts(state: PopupBuilderState) -> (prompt: (&'static str, &'static str))
    ensures
        prompt.0@ == state.prompt().0,
        prompt.1@ == state.prompt().1,
{
    match state {
        PopupBuilderState::SessionGroupName => (
            "Session Group Name:",
            "Enter an easy to understand name for the session group...",
        ),
        PopupBuilderState::SessionName => (
            "Session Name:",
            "Enter an easy to understand name for the session...",
        ),
        PopupBuilderState::SessionConnectionType => (
            "Session Type (TELNET/SSH):",
            "Enter either 'telnet' or 'ssh'",
        ),
        PopupBuilderState::SessionData => ("Connection data:", "username@ip:port"),
        PopupBuilderState::SessionAddConfirm => ("Add session? (y/n)", ""),
        PopupBuilderState::SessionAddMore => ("Add another session? (y/n)", ""),
        PopupBuilderState::SessionGroupConfirm => ("Add session group? (y/n)", ""),
        PopupBuilderState::Done => ("Session group has been created", ""),
    }
}

/// The wizard as mathematics: whether it is shown, the prompt it is at,
/// the group collected so far, the session being entered, if any, the
/// lines of its text field, whether the caret stands at their end, and
/// the finished group that waits to be put into the document, if any.
pub struct PopupView {
    pub open: bool,
    pub state: PopupBuilderState,
    pub group: SessionGroupView,
    pub session: Option<SessionView>,
    pub lines: Seq<Seq<char>>,
    pub caret_at_end: bool,
    pub finished: Option<SessionGroupView>,
}

/// What an emptied text field holds: one line without a character.
pub open spec fn blank() -> Seq<Seq<char>> {
    seq![Seq::<char>::empty()]
}

impl PopupView {
    /// A wizard at its first prompt with nothing collected and an empty
    /// text field.
    pub open spec fn fresh(open: bool, finished: Option<SessionGroupView>) -> PopupView {
        PopupView {
            open,
            state: PopupBuilderState::SessionGroupName,
            group: SessionGroupBuilder::initial(),
            session: None,
            lines: blank(),
            caret_at_end: true,
            finished,
        }
    }

    /// The wizard after a key went to its text field.
    ///
    /// A key press that types a character, with the caret at the end of
    /// the text, puts the character last and leaves the caret at the
    /// end. After any other key press the field holds `lines`, with the
    /// caret at their end or not as `caret_at_end` says: what those are
    /// is the text field's business.
    pub open spec fn keyed(
        self,
        input: tui_textarea::Input,
        lines: Seq<Seq<char>>,
        caret_at_end: bool,
    ) -> PopupView {
        match typed_char(input) {
            Some(c) => if self.caret_at_end && self.lines.len() > 0 {
                PopupView { lines: appended(self.lines, c), caret_at_end: true, ..self }
            } else {
                PopupView { lines, caret_at_end, ..self }
            },
            None => PopupView { lines, caret_at_end, ..self },
        }
    }

    /// At the prompts that edit the session being entered, there is one.
    pub open spec fn wf(self) -> bool {
        (self.state == PopupBuilderState::SessionConnectionType || self.state
            == PopupBuilderState::SessionData || self.state
            == PopupBuilderState::SessionAddConfirm) ==> self.session is Some
    }

    /// The actions that the wizard can take at its prompt: at a text
    /// prompt a line, or a no that skips the prompt (at the session's
    /// name only while an earlier session is still held); at the other
    /// prompts any action.
    pub open spec fn accepts(self, action: ActionView) -> bool {
        match self.state {
            PopupBuilderState::SessionGroupName
            | PopupBuilderState::SessionConnectionType
            | PopupBuilderState::SessionData => !(action is Store),
            PopupBuilderState::SessionName => action is StoreStr || (action is Next
                && self.session is Some),
            _ => true,
        }
    }

    /// The wizard after one action: it has moved as `advance` says, its
    /// text field is empty with the caret in it, and the group that the action hands over, if
    /// any, waits to be put into the document.
    pub open spec fn step(self, action: ActionView) -> PopupView {
        PopupView {
            lines: blank(),
            caret_at_end: true,
            finished: match self.yields(action) {
                Some(group) => Some(group),
                None => self.finished,
            },
            ..self.advance(action)
        }
    }

    /// How an action moves the wizard from prompt to prompt.
    ///
    /// A text prompt stores the line in the field it asks for and moves
    /// to the next prompt. A yes to "add session" appends the session
    /// entered to the group. A yes to "add another" goes back to the
    /// session's name, a no goes on to the group's confirmation. The
    /// group's confirmation empties the wizard and ends it. A no stores
    /// nothing anywhere.
    pub open spec fn advance(self, action: ActionView) -> PopupView {
        match self.state {
            PopupBuilderState::SessionGroupName => PopupView {
                state: PopupBuilderState::SessionName,
                group: match action {
                    ActionView::StoreStr(line) => SessionGroupView { name: line, ..self.group },
                    _ => self.group,
                },
                ..self
            },
            PopupBuilderState::SessionName => PopupView {
                state: PopupBuilderState::SessionConnectionType,
                session: match action {
                    ActionView::StoreStr(line) => Some(
                        SessionView { name: line, ..SessionBuilder::initial() },
                    ),
                    _ => self.session,
                },
                ..self
            },
            PopupBuilderState::SessionConnectionType => PopupView {
                state: PopupBuilderState::SessionData,
                session: match action {
                    ActionView::StoreStr(line) => Some(
                        SessionView {
                            connection_type: protocol_of_lowercase(lowercase_of(line)),
                            ..self.session.unwrap()
                        },
                    ),
                    _ => self.session,
                },
                ..self
            },
            PopupBuilderState::SessionData => PopupView {
                state: PopupBuilderState::SessionAddConfirm,
                session: match action {
                    ActionView::StoreStr(line) => Some(
                        SessionView { data: line, ..self.session.unwrap() },
                    ),
                    _ => self.session,
                },
                ..self
            },
            PopupBuilderState::SessionAddConfirm => if action is Next {
                PopupView { state: PopupBuilderState::SessionAddMore, ..self }
            } else {
                PopupView {
                    state: PopupBuilderState::SessionAddMore,
                    group: SessionGroupView {
                        sessions: self.group.sessions.push(self.session.unwrap()),
                        ..self.group
                    },
                    session: None,
                    ..self
                }
            },
            PopupBuilderState::SessionAddMore => PopupView {
                state: if action is Next {
                    PopupBuilderState::SessionGroupConfirm
                } else {
                    PopupBuilderState::SessionName
                },
                ..self
            },
            PopupBuilderState::SessionGroupConfirm => PopupView {
                state: PopupBuilderState::Done,
                group: SessionGroupBuilder::initial(),
                session: None,
                ..self
            },
            PopupBuilderState::Done => self,
        }
    }

    /// The group that an action hands over for the document: the one
    /// collected, on any action but a no at the group's confirmation.
    pub open spec fn yields(self, action: ActionView) -> Option<SessionGroupView> {
        if self.state == PopupBuilderState::SessionGroupConfirm && !(action is Next) {
            Some(self.group)
        } else {
            None
        }
    }
}

/// The wizard: its prompt, what it has collected, and its text field.
pub struct PopupState<'a> {
    open: bool,
    session_group_builder: SessionGroupBuilder,
    session_builder: Option<SessionBuilder>,
    sg_state: PopupBuilderState,
    pub textarea: TextField<'a>,
    pub temp_session_group: Option<SessionGroup>,
}

impl<'a> View for PopupState<'a> {
    type V = PopupView;

    closed spec fn view(&self) -> PopupView {
        PopupView {
            open: self.open,
            state: self.sg_state,
            group: self.session_group_builder@,
            session: match self.session_builder {
                Some(builder) => Some(builder@),
                None => None,
            },
            lines: field_lines(self.textarea),
            caret_at_end: field_caret_at_end(self.textarea),
            finished: match self.temp_session_group {
                Some(group) => Some(group@),
                None => None,
            },
        }
    }
}

impl<'a> PopupState<'a> {
    /// A hidden wizard at its first prompt, with an empty text field.
    pub fn new() -> (popup: PopupState<'a>)
        ensures
            popup@ == PopupView::fresh(false, None),
    {
        PopupState {
            open: false,
            session_group_builder: SessionGroup::builder(),
            session_builder: None,
            sg_state: PopupBuilderState::SessionGroupName,
            textarea: TextField::new(),
            temp_session_group: None,
        }
    }

    pub fn get_state(&self) -> (state: PopupBuilderState)
        ensures
            state == self@.state,
    {
        self.sg_state
    }

    /// Whether the wizard holds what its prompt needs.
    pub fn is_well_formed(&self) -> (well_formed: bool)
        ensures
            well_formed == self@.wf(),
    {
        match self.sg_state {
            PopupBuilderState::SessionConnectionType
            | PopupBuilderState::SessionData
            | PopupBuilderState::SessionAddConfirm => self.session_builder.is_some(),
            _ => true,
        }
    }

    pub fn get_prompt(&self) -> (prompt: (&'static str, &'static str))
        ensures
            prompt.0@ == self@.state.prompt().0,
            prompt.1@ == self@.state.prompt().1,
    {
        sg_prompts(self.sg_state)
    }

    /// Takes one action at the current prompt, and empties the text
    /// field.
    pub fn increment_state(&mut self, data: PopupStateAction)
        requires
            old(self)@.wf(),
            old(self)@.accepts(data@),
        ensures
            final(self)@ == old(self)@.step(data@),
            final(self)@.wf(),
    {
        match self.sg_state {
            PopupBuilderState::SessionGroupName => {
                if let PopupStateAction::StoreStr(line) = data {
                    self.session_group_builder.name(line.clone());
                }
                self.sg_state = PopupBuilderState::SessionName;
            },
            PopupBuilderState::SessionName => {
                if let PopupStateAction::StoreStr(line) = data {
                    let mut session_builder = Session::builder();
                    session_builder.name(line.clone());
                    self.session_builder = Some(session_builder);
                }
                self.sg_state = PopupBuilderState::SessionConnectionType;
            },
            PopupBuilderState::SessionConnectionType => {
                if let PopupStateAction::StoreStr(line) = data {
                    let protocol = ConnectionType::from_answer(line.as_str());
                    match &mut self.session_builder {
                        Some(builder) => {
                            builder.connection_type(protocol);
                        },
                        None => {},
                    }
                }
                self.sg_state = PopupBuilderState::SessionData;
            },
            PopupBuilderState::SessionData => {
                if let PopupStateAction::StoreStr(line) = data {
                    match &mut self.session_builder {
                        Some(builder) => {
                            builder.data(line.clone());
                        },
                        None => {},
                    }
                }
                self.sg_state = PopupBuilderState::SessionAddConfirm;
            },
            PopupBuilderState::SessionAddConfirm => {
                if !matches!(data, PopupStateAction::Next) {
                    if let Some(builder) = self.session_builder.take() {
                        self.session_group_builder.add_session(builder);
                    }
                }
                self.sg_state = PopupBuilderState::SessionAddMore;
            },
            PopupBuilderState::SessionAddMore => {
                if matches!(data, PopupStateAction::Next) {
                    self.sg_state = PopupBuilderState::SessionGroupConfirm;
                } else {
                    self.sg_state = PopupBuilderState::SessionName;
                }
            },
            PopupBuilderState::SessionGroupConfirm => {
                if !matches!(data, PopupStateAction::Next) {
                    self.temp_session_group = Some(self.session_group_builder.build());
                }
                self.session_group_builder = SessionGroup::builder();
                self.session_builder = None;
                self.sg_state = PopupBuilderState::Done;
            },
            PopupBuilderState::Done => {},
        }
        self.clear_textarea();
    }

    pub fn is_open(&self) -> (open: bool)
        ensures
            open == self@.open,
    {
        self.open
    }

    pub fn close(&mut self)
        ensures
            final(self)@ == (PopupView { open: false, ..old(self)@ }),
    {
        self.open = false;
    }

    pub fn show(&mut self)
        ensures
            final(self)@ == (PopupView { open: true, ..old(self)@ }),
    {
        self.open = true;
    }

    /// Empties the text field.
    pub fn clear_textarea(&mut self)
        ensures
            final(self)@ == (PopupView { lines: blank(), caret_at_end: true, ..old(self)@ }),
    {
        self.textarea = TextField::new();
    }

    /// Hands a key to the text field. The wizard is otherwise untouched.
    pub fn type_key(&mut self, input: tui_textarea::Input)
        ensures
            final(self)@ == old(self)@.keyed(input, final(self)@.lines, final(self)@.caret_at_end),
    {
        self.textarea.input(input);
    }

    /// The line that would be stored if the prompt were answered now.
    pub fn current_line(&self) -> (line: String)
        ensures
            line@ == self@.lines[0],
    {
        self.textarea.first_line()
    }

    /// Takes the finished group, if one waits, out of the wizard.
    pub fn take_group(&mut self) -> (group: Option<SessionGroup>)
        ensures
            final(self)@ == (PopupView { finished: None, ..old(self)@ }),
            match group {
                Some(group) => old(self)@.finished == Some(group@),
                None => old(self)@.finished is None,
            },
    {
        self.temp_session_group.take()
    }

    /// Gives up whatever was collected: the wizard is hidden, back at
    /// its first prompt, and its text field is empty.
    pub fn reset_state(&mut self)
        ensures
            final(self)@ == PopupView::fresh(false, old(self)@.finished),
    {
        self.clear_textarea();
        self.close();
        self.session_group_builder = SessionGroup::builder();
        self.session_builder = None;
        self.sg_state = PopupBuilderState::SessionGroupName;
    }
}

/// The answers to one pass through the session prompts: the three lines
/// entered, and whether "add session" was answered with yes.
pub struct Entry {
    pub name: Seq<char>,
    pub protocol: Seq<char>,
    pub endpoint: Seq<char>,
    pub add: bool,
}

impl Entry {
    /// The session that the three lines describe.
    pub open spec fn session(self) -> SessionView {
        SessionView {
            name: self.name,
            data: self.endpoint,
            connection_type: protocol_of_lowercase(lowercase_of(self.protocol)),
        }
    }

    /// The answer to "add session".
    pub open spec fn confirmation(self) -> ActionView {
        if self.add {
            ActionView::Store
        } else {
            ActionView::Next
        }
    }
}

/// The wizard after one pass through the session prompts, from the
/// session's name to the answer to "add session".
pub open spec fn pass(pre: PopupView, entry: Entry) -> PopupView {
    pre.step(ActionView::StoreStr(entry.name)).step(ActionView::StoreStr(entry.protocol)).step(
        ActionView::StoreStr(entry.endpoint),
    ).step(entry.confirmation())
}

/// The wizard after several passes through the session prompts, with a
/// yes to "add another" between one pass and the next.
pub open spec fn passes(pre: PopupView, entries: Seq<Entry>) -> PopupView
    decreases entries.len(),
{
    if entries.len() == 0 {
        pre
    } else if entries.len() == 1 {
        pass(pre, entries.last())
    } else {
        pass(passes(pre, entries.drop_last()).step(ActionView::Store), entries.last())
    }
}

/// The sessions of the entries that were confirmed, in the order of the
/// entries.
pub open spec fn confirmed(entries: Seq<Entry>) -> Seq<SessionView>
    decreases entries.len(),
{
    if entries.len() == 0 {
        Seq::empty()
    } else if entries.last().add {
        confirmed(entries.drop_last()).push(entries.last().session())
    } else {
        confirmed(entries.drop_last())
    }
}

/// One pass through the session prompts ends at "add another". It
/// appends the session entered to the group if it was confirmed, and
/// leaves the group as it was if not.
pub proof fn lemma_pass(pre: PopupView, entry: Entry)
    requires
        pre.state == PopupBuilderState::SessionName,
    ensures
        pass(pre, entry).state == PopupBuilderState::SessionAddMore,
        pass(pre, entry).wf(),
        pass(pre, entry).open == pre.open,
        pass(pre, entry).finished == pre.finished,
        pass(pre, entry).group.name == pre.group.name,
        pass(pre, entry).group.sessions == if entry.add {
            pre.group.sessions.push(entry.session())
        } else {
            pre.group.sessions
        },
{
}

/// The group holds exactly the sessions that were confirmed, in the
/// order in which they were entered.
pub proof fn lemma_passes(pre: PopupView, entries: Seq<Entry>)
    requires
        pre.state == PopupBuilderState::SessionName,
        entries.len() > 0,
    ensures
        passes(pre, entries).state == PopupBuilderState::SessionAddMore,
        passes(pre, entries).wf(),
        passes(pre, entries).open == pre.open,
        passes(pre, entries).finished == pre.finished,
        passes(pre, entries).group.name == pre.group.name,
        passes(pre, entries).group.sessions == pre.group.sessions + confirmed(entries),
    decreases entries.len(),
{
    if entries.len() == 1 {
        lemma_pass(pre, entries.last());
        assert(confirmed(entries.drop_last()) =~= Seq::empty());
        assert(pre.group.sessions + confirmed(entries) =~= passes(pre, entries).group.sessions);
    } else {
        lemma_passes(pre, entries.drop_last());
        let again = passes(pre, entries.drop_last()).step(ActionView::Store);
        lemma_pass(again, entries.last());
        assert(pre.group.sessions + confirmed(entries) =~= passes(pre, entries).group.sessions);
    }
}

/// A whole build: from a fresh wizard, a name for the group, then the
/// entries, then a no to "add another" and a yes to the group.
///
/// It hands over one group, under the name entered, with exactly the
/// sessions that were confirmed, in the order in which they were
/// entered; and the wizard is at its end with nothing collected.
pub proof fn lemma_build(open: bool, name: Seq<char>, entries: Seq<Entry>)
    requires
        entries.len() > 0,
    ensures
        ({
            let named = PopupView::fresh(open, None).step(ActionView::StoreStr(name));
            let asked = passes(named, entries).step(ActionView::Next);
            &&& asked.state == PopupBuilderState::SessionGroupConfirm
            &&& asked.step(ActionView::Store).finished == Some(
                SessionGroupView { name, sessions: confirmed(entries) },
            )
            &&& asked.step(ActionView::Store).state == PopupBuilderState::Done
            &&& asked.step(ActionView::Store).group == SessionGroupBuilder::initial()
            &&& asked.step(ActionView::Next).finished is None
        }),
{
    let named = PopupView::fresh(open, None).step(ActionView::StoreStr(name));
    lemma_passes(named, entries);
    assert(named.group.sessions + confirmed(entries) =~= confirmed(entries));
}

} // verus!

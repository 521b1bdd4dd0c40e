use vstd::prelude::*;
use super::session::{session_views, Session, SessionBuilder, SessionView};

verus! {

/// What a group is, as mathematics: a name and its sessions in order.
pub struct SessionGroupView {
    pub name: Seq<char>,
    pub sessions: Seq<SessionView>,
}

/// A named collection of sessions. Their order is the order in which
/// they were added, and the order in which they are shown.
#[derive(Debug)]
pub struct SessionGroup {
    pub name: String,
    pub sessions: Vec<Session>,
}

impl View for SessionGroup {
    type V = SessionGroupView;

    open spec fn view(&self) -> SessionGroupView {
        SessionGroupView { name: self.name@, sessions: session_views(self.sessions@) }
    }
}

/// A copy of `sessions`, session for session.
pub fn clone_sessions(sessions: &Vec<Session>) -> (copy: Vec<Session>)
    ensures
        copy@ == sessions@,
{
    let mut copy: Vec<Session> = Vec::new();
    let mut i: usize = 0;
    while i < sessions.len()
        invariant
            i <= sessions.len(),
            copy@ == sessions@.take(i as int),
        decreases sessions.len() - i,
    {
        copy.push(sessions[i].clone());
        assert(copy@ =~= sessions@.take(i + 1));
        i += 1;
    }
    assert(sessions@.take(sessions.len() as int) =~= sessions@);
    copy
}

impl Clone for SessionGroup {
    fn clone(&self) -> (copy: SessionGroup)
        ensures
            copy.name == self.name,
            copy.sessions@ == self.sessions@,
            copy@ == self@,
    {
        SessionGroup { name: self.name.clone(), sessions: clone_sessions(&self.sessions) }
    }
}

/// The views of a sequence of groups, in the same order.
pub open spec fn group_views(groups: Seq<SessionGroup>) -> Seq<SessionGroupView> {
    Seq::new(groups.len(), |i: int| groups[i]@)
}

impl SessionGroup {
    pub fn new(name: String, sessions: Vec<Session>) -> (group: SessionGroup)
        ensures
            group.name == name,
            group.sessions == sessions,
    {
        SessionGroup { name, sessions }
    }

    pub fn builder() -> (builder: SessionGroupBuilder)
        ensures
            builder@ == SessionGroupBuilder::initial(),
    {
        SessionGroupBuilder::new()
    }
}

/// Collects a group's name and its sessions one at a time.
pub struct SessionGroupBuilder {
    name: String,
    sessions: Vec<SessionBuilder>,
}

impl View for SessionGroupBuilder {
    type V = SessionGroupView;

    closed spec fn view(&self) -> SessionGroupView {
        SessionGroupView {
            name: self.name@,
            sessions: Seq::new(self.sessions@.len(), |i: int| self.sessions@[i]@),
        }
    }
}

impl SessionGroupBuilder {
    /// What a fresh builder holds: no name and no session.
    pub open spec fn initial() -> SessionGroupView {
        SessionGroupView { name: Seq::empty(), sessions: Seq::empty() }
    }

    fn new() -> (builder: SessionGroupBuilder)
        ensures
            builder@ == Self::initial(),
    {
        let builder = SessionGroupBuilder { name: String::new(), sessions: Vec::new() };
        assert(builder@.sessions =~= Seq::empty());
        builder
    }

    pub fn name(&mut self, name: String) -> (this: &mut SessionGroupBuilder)
        ensures
            this@ == (SessionGroupView { name: name@, ..old(self)@ }),
            final(self)@ == final(this)@,
    {
        self.name = name;
        self
    }

    pub fn add_session(&mut self, session: SessionBuilder) -> (this: &mut SessionGroupBuilder)
        ensures
            this@ == (SessionGroupView {
                sessions: old(self)@.sessions.push(session@),
                ..old(self)@
            }),
            final(self)@ == final(this)@,
    {
        self.sessions.push(session);
        assert(self@.sessions =~= old(self)@.sessions.push(session@));
        self
    }

    pub fn build(&self) -> (group: SessionGroup)
        ensures
            group@ == self@,
    {
        let mut sessions: Vec<Session> = Vec::new();
        let mut i: usize = 0;
        while i < self.sessions.len()
            invariant
                i <= self.sessions.len(),
                sessions@.len() == i,
                forall|j: int| 0 <= j < i ==> sessions@[j]@ == self.sessions@[j]@,
            decreases self.sessions.len() - i,
        {
            sessions.push(self.sessions[i].build());
            i += 1;
        }
        let group = SessionGroup::new(self.name.clone(), sessions);
        assert(group@.sessions =~= self@.sessions);
        group
    }
}

} // verus!

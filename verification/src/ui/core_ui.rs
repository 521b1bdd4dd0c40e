//! The document together with the place it is stored at, and the
//! operations that address it by name or by session number.

use vstd::prelude::*;
use crate::session_core::session::{Session, SessionView};
use crate::session_core::session_group::{group_views, SessionGroup, SessionGroupView};
use super::config::{Config, ConfigView};

verus! {

/// A text without the white space at its two ends, as `str::trim`
/// computes it.
pub uninterp spec fn trimmed_of(text: Seq<char>) -> Seq<char>;

/// Calls `str::trim`. The result is a function of the text alone
/// (Unicode's white space property decides); it is named, not described.
#[verifier::external_body]
fn trim(text: &str) -> (trimmed: String)
    ensures
        trimmed@ == trimmed_of(text@),
{
    text.trim().to_owned()
}

/// Whether a trimmed answer to a yes-or-no question of the menu is a
/// yes: `Y` or `y`.
pub fn is_yes_trimmed(answer: &str) -> (yes: bool)
    ensures
        yes == (answer@ == "Y"@ || answer@ == "y"@),
{
    let answer = answer.to_owned();
    answer == "Y".to_owned() || answer == "y".to_owned()
}

/// Whether a trimmed answer to a yes-or-no question of the menu is a
/// no: `N` or `n`.
pub fn is_no_trimmed(answer: &str) -> (no: bool)
    ensures
        no == (answer@ == "N"@ || answer@ == "n"@),
{
    let answer = answer.to_owned();
    answer == "N".to_owned() || answer == "n".to_owned()
}

/// Whether an answer to a yes-or-no question of the menu, with white
/// space around it or without, is a yes.
pub fn is_yes(answer: &str) -> (yes: bool)
    ensures
        yes == (trimmed_of(answer@) == "Y"@ || trimmed_of(answer@) == "y"@),
{
    let trimmed = trim(answer);
    is_yes_trimmed(trimmed.as_str())
}

/// Whether an answer to a yes-or-no question of the menu, with white
/// space around it or without, is a no.
pub fn is_no(answer: &str) -> (no: bool)
    ensures
        no == (trimmed_of(answer@) == "N"@ || trimmed_of(answer@) == "n"@),
{
    let trimmed = trim(answer);
    is_no_trimmed(trimmed.as_str())
}

/// The groups whose name is not `name`, in their order.
pub open spec fn groups_not_named(groups: Seq<SessionGroupView>, name: Seq<char>) -> Seq<
    SessionGroupView,
>
    decreases groups.len(),
{
    if groups.len() == 0 {
        Seq::empty()
    } else if groups.last().name == name {
        groups_not_named(groups.drop_last(), name)
    } else {
        groups_not_named(groups.drop_last(), name).push(groups.last())
    }
}

/// All sessions of all groups, in document order.
pub open spec fn all_sessions(groups: Seq<SessionGroupView>) -> Seq<SessionView>
    decreases groups.len(),
{
    if groups.len() == 0 {
        Seq::empty()
    } else {
        all_sessions(groups.drop_last()) + groups.last().sessions
    }
}

/// Removes every group called exactly `name`; the others keep their
/// order.
pub fn remove_groups_named(groups: &mut Vec<SessionGroup>, name: &str)
    ensures
        group_views(final(groups)@) == groups_not_named(group_views(old(groups)@), name@),
{
    let ghost before = group_views(groups@);
    let target = name.to_owned();
    let ghost mut done: int = 0;
    let mut i: usize = 0;
    assert(before.take(0) =~= Seq::empty());
    while i < groups.len()
        invariant
            before == group_views(old(groups)@),
            target@ == name@,
            0 <= done <= before.len(),
            i <= groups.len(),
            groups.len() - i == before.len() - done,
            group_views(groups@).take(i as int) == groups_not_named(before.take(done), name@),
            group_views(groups@).skip(i as int) == before.skip(done),
        decreases groups.len() - i,
    {
        let ghost views = group_views(groups@);
        assert(views[i as int] == views.skip(i as int)[0]);
        assert(before[done] == before.skip(done)[0]);
        assert(before.take(done + 1).drop_last() =~= before.take(done));
        if groups[i].name == target {
            groups.remove(i);
            assert(group_views(groups@).take(i as int) =~= views.take(i as int));
            assert(group_views(groups@).skip(i as int) =~= views.skip(i as int).drop_first());
            assert(before.skip(done + 1) =~= before.skip(done).drop_first());
        } else {
            assert(views.take(i + 1) =~= views.take(i as int).push(views[i as int]));
            assert(views.skip(i + 1) =~= views.skip(i as int).drop_first());
            assert(before.skip(done + 1) =~= before.skip(done).drop_first());
            i += 1;
        }
        proof {
            done = done + 1;
        }
    }
    assert(before.take(done) =~= before);
    assert(group_views(groups@).take(i as int) =~= group_views(groups@));
}

/// The document and the path of the file that stores it.
pub struct UI {
    pub path: String,
    pub config: Config,
}

impl UI {
    /// Removes every group whose name is `name` without the white space
    /// at its two ends.
    pub fn remove_session_group_by_name(&mut self, name: &str)
        ensures
            final(self).path == old(self).path,
            final(self).config@ == (ConfigView {
                session_groups: groups_not_named(
                    old(self).config@.session_groups,
                    trimmed_of(name@),
                ),
                ..old(self).config@
            }),
    {
        let trimmed = trim(name);
        remove_groups_named(&mut self.config.session_groups, trimmed.as_str());
    }

    /// All sessions of the document, in document order: the order in
    /// which they are numbered when they are listed.
    pub fn sessions(&self) -> (sessions: Vec<&Session>)
        ensures
            sessions@.len() == all_sessions(self.config@.session_groups).len(),
            forall|k: int|
                0 <= k < sessions@.len() ==> sessions@[k]@ == all_sessions(
                    self.config@.session_groups,
                )[k],
    {
        let ghost groups = self.config@.session_groups;
        let mut sessions: Vec<&Session> = Vec::new();
        let mut i: usize = 0;
        assert(groups.take(0) =~= Seq::empty());
        while i < self.config.session_groups.len()
            invariant
                groups == group_views(self.config.session_groups@),
                i <= self.config.session_groups.len(),
                sessions@.len() == all_sessions(groups.take(i as int)).len(),
                forall|k: int|
                    0 <= k < sessions@.len() ==> sessions@[k]@ == all_sessions(
                        groups.take(i as int),
                    )[k],
            decreases self.config.session_groups.len() - i,
        {
            let group = &self.config.session_groups[i];
            let ghost flat = all_sessions(groups.take(i as int));
            assert(groups.take(i + 1).drop_last() =~= groups.take(i as int));
            assert(all_sessions(groups.take(i + 1)) == flat + groups[i as int].sessions);
            let mut j: usize = 0;
            while j < group.sessions.len()
                invariant
                    i < groups.len(),
                    j <= group.sessions.len(),
                    groups[i as int] == group@,
                    sessions@.len() == flat.len() + j,
                    forall|k: int|
                        0 <= k < sessions@.len() ==> sessions@[k]@ == (flat
                            + groups[i as int].sessions)[k],
                decreases group.sessions.len() - j,
            {
                sessions.push(&group.sessions[j]);
                j += 1;
            }
            i += 1;
        }
        assert(groups.take(i as int) =~= groups);
        sessions
    }

    /// The session with the number `index` in the list of all sessions.
    pub fn session_by_index(&self, index: usize) -> (found: Option<Session>)
        ensures
            match found {
                Some(session) => index < all_sessions(self.config@.session_groups).len()
                    && session@ == all_sessions(self.config@.session_groups)[index as int],
                None => index >= all_sessions(self.config@.session_groups).len(),
            },
    {
        let sessions = self.sessions();
        if index < sessions.len() {
            Some(sessions[index].clone())
        } else {
            None
        }
    }
}

} // verus!

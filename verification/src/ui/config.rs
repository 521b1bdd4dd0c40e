use vstd::prelude::*;
use crate::session_core::session_group::{group_views, SessionGroup, SessionGroupView};

verus! {

/// What a document is, as mathematics.
pub struct ConfigView {
    pub version: Seq<char>,
    pub session_groups: Seq<SessionGroupView>,
}

/// The whole stored document: a version tag and the groups in order.
#[derive(Debug)]
pub struct Config {
    pub version: String,
    pub session_groups: Vec<SessionGroup>,
}

impl View for Config {
    type V = ConfigView;

    open spec fn view(&self) -> ConfigView {
        ConfigView { version: self.version@, session_groups: group_views(self.session_groups@) }
    }
}

/// A copy of `groups`, group for group.
pub fn clone_groups(groups: &Vec<SessionGroup>) -> (copy: Vec<SessionGroup>)
    ensures
        group_views(copy@) == group_views(groups@),
{
    let mut copy: Vec<SessionGroup> = Vec::new();
    let mut i: usize = 0;
    while i < groups.len()
        invariant
            i <= groups.len(),
            copy@.len() == i,
            forall|j: int| 0 <= j < i ==> copy@[j]@ == groups@[j]@,
        decreases groups.len() - i,
    {
        copy.push(groups[i].clone());
        i += 1;
    }
    assert(group_views(copy@) =~= group_views(groups@));
    copy
}

impl Clone for Config {
    fn clone(&self) -> (copy: Config)
        ensures
            copy@ == self@,
    {
        Config { version: self.version.clone(), session_groups: clone_groups(&self.session_groups) }
    }
}

impl Config {
    /// The version tag that new and saved documents carry.
    pub open spec fn current_version() -> Seq<char> {
        "0.1.0"@
    }

    /// An empty document at the current version.
    pub fn new() -> (config: Config)
        ensures
            config@ == (ConfigView {
                version: Self::current_version(),
                session_groups: Seq::empty(),
            }),
    {
        let config = Config { version: "0.1.0".to_owned(), session_groups: Vec::new() };
        assert(config@.session_groups =~= Seq::empty());
        config
    }

    /// The document as it is written out: the same groups, under the
    /// current version tag.
    pub fn stamped(&self) -> (config: Config)
        ensures
            config@ == (ConfigView { version: Self::current_version(), ..self@ }),
    {
        Config { version: "0.1.0".to_owned(), session_groups: clone_groups(&self.session_groups) }
    }
}

} // verus!

//! One project's process record.

use crate::text::contains_text;
use crate::text::texts;
use vstd::prelude::*;

verus! {

/// The process record of one project of a policy document.
///
/// The owner and the chat room are always there: a project that lacks either
/// never becomes a record.
#[derive(Debug)]
pub struct ProcessInfo {
    pub project_name: String,
    pub owner: String,
    pub delegated_reviewer: Option<String>,
    pub whitelist: Vec<String>,
    pub matrix_room_id: String,
    pub backlog: Option<String>,
}

/// A record as plain text: what the contracts speak of.
pub struct ProcessInfoView {
    pub project_name: Seq<char>,
    pub owner: Seq<char>,
    pub delegated_reviewer: Option<Seq<char>>,
    pub whitelist: Seq<Seq<char>>,
    pub matrix_room_id: Seq<char>,
    pub backlog: Option<Seq<char>>,
}

/// The characters of an optional string.
pub open spec fn text_of(s: Option<String>) -> Option<Seq<char>> {
    match s {
        Some(s) => Some(s@),
        None => None,
    }
}

impl View for ProcessInfo {
    type V = ProcessInfoView;

    open spec fn view(&self) -> ProcessInfoView {
        ProcessInfoView {
            project_name: self.project_name@,
            owner: self.owner@,
            delegated_reviewer: text_of(self.delegated_reviewer),
            whitelist: texts(self.whitelist@),
            matrix_room_id: self.matrix_room_id@,
            backlog: text_of(self.backlog),
        }
    }
}

impl ProcessInfoView {
    /// The delegate where one is set, else the owner.
    pub open spec fn owner_or_delegate(self) -> Seq<char> {
        match self.delegated_reviewer {
            Some(delegate) => delegate,
            None => self.owner,
        }
    }

    pub open spec fn is_owner(self, login: Seq<char>) -> bool {
        self.owner == login
    }

    pub open spec fn is_delegated_reviewer(self, login: Seq<char>) -> bool {
        self.delegated_reviewer == Some(login)
    }

    pub open spec fn is_owner_or_delegate(self, login: Seq<char>) -> bool {
        self.owner == login || self.delegated_reviewer == Some(login)
    }

    pub open spec fn is_whitelisted(self, login: Seq<char>) -> bool {
        self.whitelist.contains(login)
    }

    /// Everyone who stands for the project: its owner, its delegate and its
    /// whitelist.
    pub open spec fn principals(self) -> Set<Seq<char>> {
        let named = match self.delegated_reviewer {
            Some(delegate) => set![self.owner, delegate],
            None => set![self.owner],
        };
        named.union(self.whitelist.to_set())
    }

    pub open spec fn is_special(self, login: Seq<char>) -> bool {
        self.principals().contains(login)
    }
}

impl Clone for ProcessInfo {
    fn clone(&self) -> (copy: Self)
        ensures
            copy@ == self@,
    {
        let whitelist = self.whitelist.clone();
        assert(texts(whitelist@) =~= texts(self.whitelist@));
        ProcessInfo {
            project_name: self.project_name.clone(),
            owner: self.owner.clone(),
            delegated_reviewer: self.delegated_reviewer.clone(),
            whitelist,
            matrix_room_id: self.matrix_room_id.clone(),
            backlog: self.backlog.clone(),
        }
    }
}

impl ProcessInfo {
    /// The delegate where one is set, else the owner.
    pub fn owner_or_delegate(&self) -> (who: &String)
        ensures
            who@ == self@.owner_or_delegate(),
            *who == (match self.delegated_reviewer {
                Some(delegate) => delegate,
                None => self.owner,
            }),
    {
        match &self.delegated_reviewer {
            Some(delegate) => delegate,
            None => &self.owner,
        }
    }

    /// Whether `login` is the owner or the delegate.
    pub fn is_owner_or_delegate(&self, login: &str) -> (yes: bool)
        ensures
            yes == self@.is_owner_or_delegate(login@),
    {
        self.is_owner(login) || self.is_delegated_reviewer(login)
    }

    /// Whether `login` is the owner.
    pub fn is_owner(&self, login: &str) -> (yes: bool)
        ensures
            yes == self@.is_owner(login@),
    {
        self.owner.as_str().eq(login)
    }

    /// Whether `login` is the delegate.
    pub fn is_delegated_reviewer(&self, login: &str) -> (yes: bool)
        ensures
            yes == self@.is_delegated_reviewer(login@),
    {
        match &self.delegated_reviewer {
            Some(reviewer) => reviewer.as_str().eq(login),
            None => false,
        }
    }

    /// Whether `login` is on the whitelist.
    pub fn is_whitelisted(&self, login: &str) -> (yes: bool)
        ensures
            yes == self@.is_whitelisted(login@),
    {
        contains_text(&self.whitelist, login)
    }

    /// Whether `login` is the owner, the delegate or on the whitelist.
    pub fn is_special(&self, login: &str) -> (yes: bool)
        ensures
            yes == self@.is_special(login@),
    {
        proof {
            lemma_special_is_union(self@, login@);
        }
        self.is_owner(login) || self.is_delegated_reviewer(login) || self.is_whitelisted(login)
    }
}

/// A login is special for a project exactly when it is the owner, the
/// delegate or on the whitelist.
pub proof fn lemma_special_is_union(info: ProcessInfoView, login: Seq<char>)
    ensures
        info.is_special(login) <==> (info.is_owner(login) || info.is_delegated_reviewer(login)
            || info.is_whitelisted(login)),
{
    assert(info.whitelist.to_set().contains(login) <==> info.whitelist.contains(login));
}

/// Who answers for a project does not depend on its whitelist.
pub proof fn lemma_owner_or_delegate_ignores_whitelist(
    info: ProcessInfoView,
    whitelist: Seq<Seq<char>>,
)
    ensures
        (ProcessInfoView { whitelist, ..info }).owner_or_delegate() == info.owner_or_delegate(),
        info.delegated_reviewer is Some ==> info.owner_or_delegate() == info.delegated_reviewer->0,
        info.delegated_reviewer is None ==> info.owner_or_delegate() == info.owner,
{
}

} // verus!

//! The fixed pair of identities that may record transfers and release funds.

use vstd::prelude::*;

use crate::address::{Address, Identity};

verus! {

/// The two admins of an instance, in the order in which they were named. An admin set
/// is made once, with both members, and offers no way to add, drop or replace one.
#[derive(Debug, PartialEq, Eq)]
pub struct AdminSet {
    first: Address,
    second: Address,
}

impl View for AdminSet {
    type V = Seq<Identity>;

    closed spec fn view(&self) -> Seq<Identity> {
        seq![self.first@, self.second@]
    }
}

impl DeepView for AdminSet {
    type V = Seq<Identity>;

    open spec fn deep_view(&self) -> Seq<Identity> {
        self@
    }
}

impl AdminSet {
    /// The admin set of `first` and `second`.
    pub fn new(first: Address, second: Address) -> (admins: AdminSet)
        ensures
            admins@ == seq![first@, second@],
    {
        AdminSet { first, second }
    }

    /// Every admin set has exactly two members (which may be the same identity).
    pub proof fn lemma_two_members(&self)
        ensures
            self@.len() == 2,
    {
    }

    /// Whether `who` is one of the two admins.
    pub fn contains(&self, who: &Address) -> (member: bool)
        ensures
            member == self@.contains(who@),
    {
        let member = self.first == *who || self.second == *who;
        proof {
            if member {
                assert(self@[0] == self.first@ && self@[1] == self.second@);
            }
        }
        member
    }

    /// The admin named first.
    pub fn first(&self) -> (admin: &Address)
        ensures
            admin@ == self@[0],
    {
        &self.first
    }

    /// The admin named second.
    pub fn second(&self) -> (admin: &Address)
        ensures
            admin@ == self@[1],
    {
        &self.second
    }
}

impl Clone for AdminSet {
    fn clone(&self) -> (copy: AdminSet)
        ensures
            copy == *self,
    {
        AdminSet { first: self.first.clone(), second: self.second.clone() }
    }
}

} // verus!

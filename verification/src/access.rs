//! Role predicates.  Every mutating operation of the ledger asks one of
//! these about the acting identity before it writes anything.

use vstd::prelude::*;

use crate::ledger::{approved_doctor_with, Contract};
use crate::utils::vec_has_account;

verus! {

impl Contract {
    /// Whether `actor` is the configured owner identity.
    pub fn is_admin(&self, actor: &String) -> (r: bool)
        ensures
            r == self.spec_is_admin(*actor),
    {
        *actor == self.owner
    }

    /// Whether `actor` is in the registered-user set.
    pub fn is_user(&self, actor: &String) -> (r: bool)
        ensures
            r == self.spec_is_user(*actor),
    {
        vec_has_account(&self.users, actor)
    }

    /// Whether `actor` is a registered user or the owner.
    pub fn is_owner_or_admin(&self, actor: &String) -> (r: bool)
        ensures
            r == self.spec_is_owner_or_admin(*actor),
    {
        self.is_user(actor) || self.is_admin(actor)
    }

    /// Whether some approved doctor record carries the account `actor`.
    pub(crate) fn is_approved_doctor(&self, actor: &String) -> (r: bool)
        ensures
            r == approved_doctor_with(self.doctors@, *actor),
    {
        let mut i: usize = 0;
        while i < self.doctors.len()
            invariant
                i <= self.doctors.len(),
                forall|j: int|
                    0 <= j < i ==> !(self.doctors@[j].account_id@ == actor@
                        && self.doctors@[j].is_approved),
            decreases self.doctors.len() - i,
        {
            if self.doctors[i].is_approved && self.doctors[i].account_id == *actor {
                return true;
            }
            i = i + 1;
        }
        false
    }
}

} // verus!

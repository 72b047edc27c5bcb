//! Initialization and the admin-gated scalar parameters: the two fees and
//! the owner identity.

use vstd::prelude::*;

use crate::errors::LedgerError;
use crate::ledger::{same_accounts, Contract};
use crate::utils::account_vec_to_set;

verus! {

/// The fee both scalar parameters start at.
pub const INITIAL_FEE: u128 = 42_000_000_000;

impl Contract {
    /// A fresh ledger owned by `owner`, with `users` (deduplicated) as the
    /// initial registered-user set and every collection empty.  The host
    /// guarantees single initialization: it refuses to run this once state
    /// exists.
    pub fn init(owner: String, users: Option<Vec<String>>) -> (r: Self)
        ensures
            r.wf(),
            r.owner == owner,
            (match users {
                Some(v) => same_accounts(r.users@, v@),
                None => r.users@.len() == 0,
            }),
            r.patients@.len() == 0,
            r.doctors@.len() == 0,
            r.drugs@.len() == 0,
            r.prescriptions@.len() == 0,
            r.appointments@.len() == 0,
            r.notifications@.len() == 0,
            r.orders@.len() == 0,
            r.appointment_fee == INITIAL_FEE,
            r.registration_fee == INITIAL_FEE,
    {
        let user_set: Vec<String> = match users {
            Some(v) => account_vec_to_set(v),
            None => Vec::new(),
        };
        Contract {
            owner,
            users: user_set,
            patients: Vec::new(),
            doctors: Vec::new(),
            drugs: Vec::new(),
            drug_index: std::collections::HashMap::new(),
            prescriptions: Vec::new(),
            appointments: Vec::new(),
            notifications: Vec::new(),
            orders: Vec::new(),
            appointment_fee: INITIAL_FEE,
            registration_fee: INITIAL_FEE,
        }
    }

    /// Overwrites the registration fee.  Admin only; last write wins.
    pub fn update_registration_fee(&mut self, actor: &String, new_fee: u128) -> (r: Result<
        (),
        LedgerError,
    >)
        requires
            old(self).wf(),
        ensures
            final(self).wf(),
            r is Ok <==> old(self).spec_is_admin(*actor),
            r is Ok ==> *final(self) == (Contract { registration_fee: new_fee, ..*old(self) }),
            r is Err ==> r == Result::<(), LedgerError>::Err(LedgerError::Authorization)
                && *final(self) == *old(self),
    {
        if !self.is_admin(actor) {
            return Err(LedgerError::Authorization);
        }
        self.registration_fee = new_fee;
        Ok(())
    }

    /// Overwrites the appointment fee.  Admin only; last write wins.
    pub fn update_appointment_fee(&mut self, actor: &String, new_fee: u128) -> (r: Result<
        (),
        LedgerError,
    >)
        requires
            old(self).wf(),
        ensures
            final(self).wf(),
            r is Ok <==> old(self).spec_is_admin(*actor),
            r is Ok ==> *final(self) == (Contract { appointment_fee: new_fee, ..*old(self) }),
            r is Err ==> r == Result::<(), LedgerError>::Err(LedgerError::Authorization)
                && *final(self) == *old(self),
    {
        if !self.is_admin(actor) {
            return Err(LedgerError::Authorization);
        }
        self.appointment_fee = new_fee;
        Ok(())
    }

    /// Hands the admin role to `new_admin`.  Admin only.
    pub fn update_admin_address(&mut self, actor: &String, new_admin: String) -> (r: Result<
        (),
        LedgerError,
    >)
        requires
            old(self).wf(),
        ensures
            final(self).wf(),
            r is Ok <==> old(self).spec_is_admin(*actor),
            r is Ok ==> *final(self) == (Contract { owner: new_admin, ..*old(self) }),
            r is Err ==> r == Result::<(), LedgerError>::Err(LedgerError::Authorization)
                && *final(self) == *old(self),
    {
        if !self.is_admin(actor) {
            return Err(LedgerError::Authorization);
        }
        self.owner = new_admin;
        Ok(())
    }
}

impl Default for Contract {
    /// A ledger owned by the service's default account, with no users and
    /// every collection empty.
    fn default() -> (r: Self)
        ensures
            r.wf(),
            r.owner@ == "medinear.testnet"@,
            r.users@.len() == 0,
            r.patients@.len() == 0,
            r.doctors@.len() == 0,
            r.drugs@.len() == 0,
            r.prescriptions@.len() == 0,
            r.appointments@.len() == 0,
            r.notifications@.len() == 0,
            r.orders@.len() == 0,
            r.appointment_fee == INITIAL_FEE,
            r.registration_fee == INITIAL_FEE,
    {
        Contract::init("medinear.testnet".to_owned(), None)
    }
}

} // verus!

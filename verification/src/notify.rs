//! The notification bus: an append-only per-recipient event log.  Workflow
//! operations append to it as a side effect; nothing ever mutates or
//! removes an entry.

use vstd::prelude::*;

use crate::entities::Notification;
use crate::errors::LedgerError;
use crate::ledger::Contract;

verus! {

/// Whether `a` and `b` agree on every field but the notification log.
pub open spec fn eq_but_notifications(a: Contract, b: Contract) -> bool {
    &&& a.owner == b.owner
    &&& a.users == b.users
    &&& a.patients == b.patients
    &&& a.doctors == b.doctors
    &&& a.drugs == b.drugs
    &&& a.drug_index == b.drug_index
    &&& a.prescriptions == b.prescriptions
    &&& a.appointments == b.appointments
    &&& a.orders == b.orders
    &&& a.appointment_fee == b.appointment_fee
    &&& a.registration_fee == b.registration_fee
}

/// Whether `n` is addressed to `account`, filed under `category`, stamped
/// `timestamp`.
pub open spec fn note_about(n: Notification, account: Seq<char>, category: Seq<char>, timestamp: u64) -> bool {
    &&& n.account_id@ == account
    &&& n.category@ == category
    &&& n.timestamp == timestamp
}

impl Contract {
    /// Appends one notification without validation; the workflow operations
    /// use it for their fan-out, with recipients read off existing records.
    pub(crate) fn push_note(&mut self, account_id: String, message: &str, category: &str, timestamp: u64)
        ensures
            eq_but_notifications(*final(self), *old(self)),
            final(self).notifications@ == old(self).notifications@.push(
                final(self).notifications@.last(),
            ),
            note_about(final(self).notifications@.last(), account_id@, category@, timestamp),
            final(self).notifications@.last().message@ == message@,
    {
        let n = Notification {
            account_id,
            message: message.to_owned(),
            category: category.to_owned(),
            timestamp,
        };
        self.notifications.push(n);
    }

    /// Appends a notification for `user_address`.  Fails only on a
    /// malformed (empty) recipient, and then changes nothing.
    pub fn add_notification(
        &mut self,
        user_address: String,
        message: String,
        category: String,
        timestamp: u64,
    ) -> (r: Result<(), LedgerError>)
        requires
            old(self).wf(),
        ensures
            final(self).wf(),
            r is Ok <==> user_address@.len() > 0,
            r is Ok ==> eq_but_notifications(*final(self), *old(self))
                && final(self).notifications@ == old(self).notifications@.push(
                (Notification { account_id: user_address, message, category, timestamp }),
            ),
            r is Err ==> r == Result::<(), LedgerError>::Err(LedgerError::InvalidArgument)
                && *final(self) == *old(self),
    {
        if user_address.as_str().is_empty() {
            return Err(LedgerError::InvalidArgument);
        }
        self.notifications.push(
            Notification { account_id: user_address, message, category, timestamp },
        );
        Ok(())
    }

    /// A snapshot of the whole notification log, in emission order.
    pub fn get_all_notifications(&self) -> (r: Vec<Notification>)
        ensures
            r@ == self.notifications@,
    {
        let mut r: Vec<Notification> = Vec::new();
        let mut i: usize = 0;
        while i < self.notifications.len()
            invariant
                i <= self.notifications.len(),
                r@ =~= self.notifications@.take(i as int),
            decreases self.notifications.len() - i,
        {
            r.push(self.notifications[i].clone());
            i = i + 1;
        }
        proof {
            assert(self.notifications@.take(self.notifications@.len() as int) =~= self
                .notifications@);
        }
        r
    }

    /// Every notification addressed to `recipient`, in emission order.
    pub fn notifications_for(&self, recipient: &String) -> (r: Vec<Notification>)
        ensures
            r@ == self.notifications@.filter(
                |n: Notification| n.account_id@ == recipient@,
            ),
    {
        let ghost pred = |n: Notification| n.account_id@ == recipient@;
        let mut r: Vec<Notification> = Vec::new();
        let mut i: usize = 0;
        proof {
            reveal(Seq::filter);
        }
        while i < self.notifications.len()
            invariant
                i <= self.notifications.len(),
                r@ == self.notifications@.take(i as int).filter(pred),
                pred == (|n: Notification| n.account_id@ == recipient@),
            decreases self.notifications.len() - i,
        {
            let ghost taken = self.notifications@.take(i as int);
            let ghost next = self.notifications@.take(i + 1);
            proof {
                reveal(Seq::filter);
                assert(next.drop_last() =~= taken);
                assert(next.last() == self.notifications@[i as int]);
            }
            if self.notifications[i].account_id == *recipient {
                r.push(self.notifications[i].clone());
            }
            proof {
                assert(r@ =~= next.filter(pred));
            }
            i = i + 1;
        }
        proof {
            assert(self.notifications@.take(self.notifications@.len() as int) =~= self
                .notifications@);
        }
        r
    }
}

} // verus!

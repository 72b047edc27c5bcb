//! The ledger aggregate: every collection, the owner identity, the
//! registered-user set and the two fee parameters, together with the
//! well-formedness invariant that every operation preserves.
//!
//! Ids of patients, doctors, appointments, prescriptions and orders are
//! assigned by a per-collection counter and equal the record's position in
//! its collection, so a lookup by id is a direct index.  Medicine ids are
//! caller-supplied; `drug_index` maps each medicine id to its position, so
//! that lookup is a hash probe, not a scan.

use vstd::prelude::*;
use std::collections::HashMap;

use crate::entities::{Appointment, Doctor, Medicine, Notification, Order, Patient, Prescription};
use crate::errors::LedgerError;
use crate::tally::{count_matching, sum_by};

verus! {

/// Largest unit price a medicine may carry.  Keeps every price computation
/// (`price * (100 - discount)` and `unit price * quantity`) inside `u128`.
pub const MAX_PRICE: u128 = 0xffff_ffff_ffff_ffff;

/// Largest stock a medicine may hold, counting units reserved by pending
/// orders.  Keeps stock arithmetic, including restoring a failed order's
/// reservation, inside `u128`.
pub const MAX_STOCK: u128 = 0xffff_ffff_ffff_ffff;

/// Whether an account equal to `a` (as a character sequence) occurs in `s`.
pub open spec fn has_account(s: Seq<String>, a: String) -> bool {
    exists|i: int| 0 <= i < s.len() && s[i]@ == a@
}

/// Whether `a` and `b` hold the same accounts, ignoring order and
/// multiplicity.
pub open spec fn same_accounts(a: Seq<String>, b: Seq<String>) -> bool {
    forall|x: String| #[trigger] has_account(a, x) == has_account(b, x)
}

/// Whether some approved doctor record carries the account `a`.
pub open spec fn approved_doctor_with(doctors: Seq<Doctor>, a: String) -> bool {
    exists|i: int|
        0 <= i < doctors.len() && doctors[i].account_id@ == a@ && doctors[i].is_approved
}

/// Whether a medicine with id `mid` is in the catalog.
pub open spec fn has_medicine(drugs: Seq<Medicine>, mid: u32) -> bool {
    exists|i: int| 0 <= i < drugs.len() && drugs[i].id == mid
}

/// The catalog position of the medicine with id `mid`; meaningful only
/// when `has_medicine(drugs, mid)` holds, and unique once catalog ids are
/// unique.
pub open spec fn medicine_index(drugs: Seq<Medicine>, mid: u32) -> int {
    choose|i: int| 0 <= i < drugs.len() && drugs[i].id == mid
}

/// Whether `i` is the first position in `patients` whose record carries the
/// account `a`.
pub open spec fn is_first_patient_for(patients: Seq<Patient>, a: String, i: int) -> bool {
    &&& 0 <= i < patients.len()
    &&& patients[i].account_id@ == a@
    &&& forall|j: int| 0 <= j < i ==> patients[j].account_id@ != a@
}

/// Whether some patient record carries the account `a`.
pub open spec fn patient_with_account(patients: Seq<Patient>, a: String) -> bool {
    exists|i: int| 0 <= i < patients.len() && patients[i].account_id@ == a@
}

/// How many appointments are assigned to the doctor with id `did`.
pub open spec fn doctor_load(appointments: Seq<Appointment>, did: u32) -> int {
    count_matching(appointments, |a: Appointment| a.doctor_id == did)
}

/// How many completed appointments are assigned to the doctor with id `did`.
pub open spec fn doctor_completed(appointments: Seq<Appointment>, did: u32) -> int {
    count_matching(
        appointments,
        |a: Appointment| a.doctor_id == did && a.status is Completed,
    )
}

/// How many units of the medicine with id `mid` are reserved by pending
/// orders: stock held back until the host reports the transfer's outcome.
pub open spec fn pending_total(orders: Seq<Order>, mid: u32) -> int {
    sum_by(
        orders,
        |o: Order| if o.medicine_id == mid && o.status is Pending { o.quantity as int } else { 0 },
    )
}

/// The doctor record `d` with its registration approved and everything
/// else unchanged.
pub open spec fn approved(d: Doctor) -> Doctor {
    Doctor { is_approved: true, ..d }
}

/// The outcome that completing appointment `id` for patient `patient_id`
/// on behalf of `actor` has on a ledger holding `appointments` and
/// `doctors`: the transition runs only if the appointment exists, belongs
/// to the named patient, the actor is its assigned doctor, and the
/// appointment is still pending.
pub open spec fn complete_result(
    appointments: Seq<Appointment>,
    doctors: Seq<Doctor>,
    actor: String,
    id: u32,
    patient_id: u32,
) -> Result<(), LedgerError> {
    if id >= appointments.len() {
        Err(LedgerError::NotFound)
    } else {
        let a = appointments[id as int];
        if a.patient_id != patient_id {
            Err(LedgerError::InvalidArgument)
        } else if a.doctor_id >= doctors.len() {
            Err(LedgerError::NotFound)
        } else if doctors[a.doctor_id as int].account_id@ != actor@ {
            Err(LedgerError::Authorization)
        } else if !(a.status is Pending) {
            Err(LedgerError::InvalidStateTransition)
        } else {
            Ok(())
        }
    }
}

/// Ids equal positions, so a well-formed appointment collection can hold
/// at most one record per `u32` id.
pub proof fn lemma_appointments_len_bound(l: Contract)
    requires
        l.appointments_wf(),
    ensures
        l.appointments@.len() <= 0x1_0000_0000,
{
    if l.appointments@.len() > 0x1_0000_0000 {
        assert(l.appointments@[0x1_0000_0000].id == 0x1_0000_0000);
    }
}

/// The whole ledger: one collection per entity type, the owner identity,
/// the registered-user set and the two fee parameters.
pub struct Contract {
    /// The admin identity.
    pub owner: String,
    /// Registered-user accounts, each at most once.
    pub users: Vec<String>,
    pub patients: Vec<Patient>,
    pub doctors: Vec<Doctor>,
    /// The medicine catalog, in insertion order.
    pub drugs: Vec<Medicine>,
    /// Position of each medicine id in `drugs`.
    pub drug_index: HashMap<u32, usize>,
    pub prescriptions: Vec<Prescription>,
    pub appointments: Vec<Appointment>,
    /// Append-only notification log.
    pub notifications: Vec<Notification>,
    pub orders: Vec<Order>,
    pub appointment_fee: u128,
    pub registration_fee: u128,
}

impl Contract {
    /// No two registered-user entries hold the same account.
    pub open spec fn users_wf(self) -> bool {
        forall|i: int, j: int|
            0 <= i < j < self.users@.len() ==> self.users@[i]@ != self.users@[j]@
    }

    /// Each patient sits at the position its id names.
    pub open spec fn patients_wf(self) -> bool {
        forall|i: int| 0 <= i < self.patients@.len() ==> (#[trigger] self.patients@[i]).id == i
    }

    /// Each doctor sits at the position its id names, and its two counters
    /// equal the number of its appointments and of its completed
    /// appointments.
    pub open spec fn doctors_wf(self) -> bool {
        forall|i: int|
            0 <= i < self.doctors@.len() ==> {
                let d = #[trigger] self.doctors@[i];
                &&& d.id == i
                &&& d.appointment_counts == doctor_load(self.appointments@, d.id)
                &&& d.successful_treatments == doctor_completed(self.appointments@, d.id)
            }
    }

    /// Each appointment sits at the position its id names, references an
    /// existing patient and doctor, and is open exactly while pending.
    pub open spec fn appointments_wf(self) -> bool {
        forall|i: int|
            0 <= i < self.appointments@.len() ==> {
                let a = #[trigger] self.appointments@[i];
                &&& a.id == i
                &&& (a.patient_id as int) < self.patients@.len()
                &&& (a.doctor_id as int) < self.doctors@.len()
                &&& (a.is_open <==> a.status is Pending)
            }
    }

    /// Each prescription sits at the position its id names.
    pub open spec fn prescriptions_wf(self) -> bool {
        forall|i: int|
            0 <= i < self.prescriptions@.len() ==> (#[trigger] self.prescriptions@[i]).id == i
    }

    /// Medicine ids are unique; availability tracks stock; discount, price
    /// and stock (counting pending reservations) stay in range.
    pub open spec fn drugs_wf(self) -> bool {
        &&& forall|i: int, j: int|
            0 <= i < j < self.drugs@.len() ==> self.drugs@[i].id != self.drugs@[j].id
        &&& forall|i: int|
            0 <= i < self.drugs@.len() ==> {
                let m = #[trigger] self.drugs@[i];
                &&& (m.availability <==> m.quantity > 0)
                &&& m.discount <= 100
                &&& m.price <= MAX_PRICE
                &&& m.quantity + pending_total(self.orders@, m.id) <= MAX_STOCK
            }
    }

    /// `drug_index` maps exactly the catalog's ids, each to its position.
    pub open spec fn drug_index_wf(self) -> bool {
        &&& forall|i: int|
            0 <= i < self.drugs@.len() ==> {
                &&& self.drug_index@.contains_key((#[trigger] self.drugs@[i]).id)
                &&& self.drug_index@[self.drugs@[i].id] == i
            }
        &&& forall|k: u32|
            #[trigger] self.drug_index@.contains_key(k) ==> {
                &&& (self.drug_index@[k] as int) < self.drugs@.len()
                &&& self.drugs@[self.drug_index@[k] as int].id == k
            }
    }

    /// Each order sits at the position its id names, asks for at least one
    /// unit, and references a medicine the catalog holds.
    pub open spec fn orders_wf(self) -> bool {
        forall|i: int|
            0 <= i < self.orders@.len() ==> {
                let o = #[trigger] self.orders@[i];
                &&& o.id == i
                &&& o.quantity > 0
                &&& has_medicine(self.drugs@, o.medicine_id)
            }
    }

    /// The ledger's well-formedness: established by initialization and
    /// preserved by every operation.
    pub open spec fn wf(self) -> bool {
        &&& self.users_wf()
        &&& self.patients_wf()
        &&& self.doctors_wf()
        &&& self.appointments_wf()
        &&& self.prescriptions_wf()
        &&& self.drugs_wf()
        &&& self.drug_index_wf()
        &&& self.orders_wf()
    }

    /// Whether `actor` is the configured owner identity.
    pub open spec fn spec_is_admin(self, actor: String) -> bool {
        actor@ == self.owner@
    }

    /// Whether `actor` is in the registered-user set.
    pub open spec fn spec_is_user(self, actor: String) -> bool {
        has_account(self.users@, actor)
    }

    /// Whether `actor` is a registered user or the owner.
    pub open spec fn spec_is_owner_or_admin(self, actor: String) -> bool {
        self.spec_is_user(actor) || self.spec_is_admin(actor)
    }
}

} // verus!

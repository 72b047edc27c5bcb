//! Laws of the workflow state machine, stated over the same spec
//! functions the operations' contracts use.

use vstd::prelude::*;

use crate::entities::{Appointment, AppointmentStatus, Doctor};
use crate::errors::LedgerError;
use crate::ledger::{approved, complete_result};

verus! {

/// An appointment completes exactly once.  After a successful completion —
/// which, by `complete_appointment`'s contract, leaves the appointment
/// `Completed` and the assigned doctor's treatment counter one higher — a
/// second completion attempt on the same id, by the same assigned doctor
/// and for the same patient, reports `InvalidStateTransition`; and by that
/// same contract an erring call leaves the ledger, the treatment counter
/// included, unchanged.
pub proof fn lemma_completion_is_one_shot(
    appointments: Seq<Appointment>,
    doctors: Seq<Doctor>,
    actor: String,
    id: u32,
    patient_id: u32,
)
    requires
        complete_result(appointments, doctors, actor, id, patient_id) is Ok,
    ensures
        ({
            let a = appointments[id as int];
            let doc = doctors[a.doctor_id as int];
            let post_appointments = appointments.update(
                id as int,
                (Appointment { status: AppointmentStatus::Completed, is_open: false, ..a }),
            );
            let post_doctors = doctors.update(
                a.doctor_id as int,
                (Doctor { successful_treatments: (doc.successful_treatments + 1) as u64, ..doc }),
            );
            complete_result(post_appointments, post_doctors, actor, id, patient_id) == Result::<
                (),
                LedgerError,
            >::Err(LedgerError::InvalidStateTransition)
        }),
{
}

/// Only the assigned doctor may complete an appointment: whatever identity
/// other than the assigned doctor's account attempts the completion of an
/// existing appointment of the named patient, the outcome is an
/// `Authorization` failure; and by `complete_appointment`'s contract an
/// erring call performs no mutation.
pub proof fn lemma_complete_requires_assigned_doctor(
    appointments: Seq<Appointment>,
    doctors: Seq<Doctor>,
    actor: String,
    id: u32,
    patient_id: u32,
)
    requires
        (id as int) < appointments.len(),
        appointments[id as int].patient_id == patient_id,
        (appointments[id as int].doctor_id as int) < doctors.len(),
        doctors[appointments[id as int].doctor_id as int].account_id@ != actor@,
    ensures
        complete_result(appointments, doctors, actor, id, patient_id) == Result::<
            (),
            LedgerError,
        >::Err(LedgerError::Authorization),
{
}

/// Approving a doctor is idempotent on the doctor collection: approval
/// neither adds nor removes a record, it leaves `is_approved` true, and
/// approving an already-approved doctor changes nothing.
pub proof fn lemma_approve_doctor_idempotent(doctors: Seq<Doctor>, id: int)
    requires
        0 <= id < doctors.len(),
    ensures
        ({
            let once = doctors.update(id, approved(doctors[id]));
            &&& once.len() == doctors.len()
            &&& once[id].is_approved
            &&& once.update(id, approved(once[id])) == once
        }),
{
    let once = doctors.update(id, approved(doctors[id]));
    assert(approved(once[id]) == once[id]);
    assert(once.update(id, approved(once[id])) =~= once);
}

} // verus!

//! Registration, approval and the appointment/prescription workflow.

use vstd::prelude::*;
use vstd::pervasive::VecAdditionalExecFns;

use crate::entities::{
    Appointment, AppointmentStatus, Doctor, DoctorInput, Patient, PatientInput, Prescription,
    doctor_from_input, patient_from_input, patient_like_but_history,
};
use crate::errors::LedgerError;
use crate::ledger::{
    approved, approved_doctor_with, doctor_completed, doctor_load, has_medicine, patient_with_account,
    is_first_patient_for, complete_result, lemma_appointments_len_bound, Contract,
};
use crate::notify::note_about;
use crate::tally::{lemma_count_bounds, lemma_count_push, lemma_count_update, lemma_count_zero};

verus! {

impl Contract {
    /// Registers a doctor.  Registration is open to anyone; the record
    /// starts unapproved with both counters at zero, under the next id.
    pub fn add_doctor(&mut self, doctor: DoctorInput)
        requires
            old(self).wf(),
            old(self).doctors@.len() < u32::MAX,
        ensures
            final(self).wf(),
            final(self).doctors@ == old(self).doctors@.push(
                doctor_from_input(doctor, old(self).doctors@.len() as u32),
            ),
            *final(self) == (Contract { doctors: final(self).doctors, ..*old(self) }),
    {
        let id: u32 = self.doctors.len() as u32;
        let record = Doctor {
            id,
            title: doctor.title,
            first_name: doctor.first_name,
            last_name: doctor.last_name,
            gender: doctor.gender,
            designation: doctor.designation,
            last_work: doctor.last_work,
            email: doctor.email,
            college_name: doctor.college_name,
            college_id: doctor.college_id,
            joining_year: doctor.joining_year,
            end_year: doctor.end_year,
            specialization: doctor.specialization,
            registration_id: doctor.registration_id,
            college_address: doctor.college_address,
            account_id: doctor.account_id,
            profile_pic: doctor.profile_pic,
            bio: doctor.bio,
            appointment_counts: 0,
            successful_treatments: 0,
            is_approved: false,
        };
        self.doctors.push(record);
        proof {
            let appts = self.appointments@;
            let nid = (self.doctors@.len() - 1) as u32;
            assert forall|i: int| 0 <= i < appts.len() implies !(#[trigger] appts[i].doctor_id
                == nid) by {
                assert(appts[i].doctor_id < nid);
            }
            lemma_count_zero(appts, |a: Appointment| a.doctor_id == nid);
            lemma_count_zero(
                appts,
                |a: Appointment| a.doctor_id == nid && a.status is Completed,
            );
        }
    }

    /// Approves the doctor registered under `id`.  Admin only.  Approval is
    /// idempotent on the doctor record; each call notifies the doctor.
    pub fn approve_doctor(&mut self, actor: &String, id: u32, now: u64) -> (r: Result<
        (),
        LedgerError,
    >)
        requires
            old(self).wf(),
        ensures
            final(self).wf(),
            r is Ok <==> old(self).spec_is_admin(*actor) && (id as int) < old(self).doctors@.len(),
            !old(self).spec_is_admin(*actor) ==> r == Result::<(), LedgerError>::Err(
                LedgerError::Authorization,
            ),
            old(self).spec_is_admin(*actor) && (id as int) >= old(self).doctors@.len() ==> r
                == Result::<(), LedgerError>::Err(LedgerError::NotFound),
            r is Err ==> *final(self) == *old(self),
            r is Ok ==> {
                &&& final(self).doctors@ == old(self).doctors@.update(
                    id as int,
                    approved(old(self).doctors@[id as int]),
                )
                &&& final(self).notifications@.len() == old(self).notifications@.len() + 1
                &&& forall|j: int|
                    0 <= j < old(self).notifications@.len() ==> final(self).notifications@[j]
                        == old(self).notifications@[j]
                &&& note_about(
                    final(self).notifications@.last(),
                    old(self).doctors@[id as int].account_id@,
                    "approval"@,
                    now,
                )
                &&& *final(self) == (Contract {
                    doctors: final(self).doctors,
                    notifications: final(self).notifications,
                    ..*old(self)
                })
            },
    {
        if !self.is_admin(actor) {
            return Err(LedgerError::Authorization);
        }
        if (id as usize) >= self.doctors.len() {
            return Err(LedgerError::NotFound);
        }
        let d = self.doctors[id as usize].clone();
        let account = d.account_id.clone();
        let updated = Doctor { is_approved: true, ..d };
        self.doctors.set(id as usize, updated);
        self.push_note(
            account,
            "Your account has been approved. Welcome to the platform!",
            "approval",
            now,
        );
        Ok(())
    }

    /// Registers a patient.  Registration is open to anyone; the record
    /// starts with empty history sequences, under the next id.
    pub fn add_patient(&mut self, patient: PatientInput)
        requires
            old(self).wf(),
            old(self).patients@.len() < u32::MAX,
        ensures
            final(self).wf(),
            final(self).patients@.len() == old(self).patients@.len() + 1,
            forall|j: int|
                0 <= j < old(self).patients@.len() ==> final(self).patients@[j] == old(self).patients@[j],
            patient_from_input(
                final(self).patients@.last(),
                patient,
                old(self).patients@.len() as u32,
            ),
            *final(self) == (Contract { patients: final(self).patients, ..*old(self) }),
    {
        let id: u32 = self.patients.len() as u32;
        let record = Patient {
            id,
            title: patient.title,
            first_name: patient.first_name,
            last_name: patient.last_name,
            gender: patient.gender,
            condition: patient.condition,
            phone: patient.phone,
            email: patient.email,
            dob: patient.dob,
            city: patient.city,
            address: patient.address,
            doctor: patient.doctor,
            profile_pic: patient.profile_pic,
            account_id: patient.account_id,
            message: patient.message,
            medical_history: Vec::new(),
            bought_medicine: Vec::new(),
        };
        self.patients.push(record);
    }

    /// Appends a note to a patient's medical history.  Approved doctors
    /// only; the history is append-only and nothing else of the record
    /// changes.
    pub fn update_patient_medical(
        &mut self,
        actor: &String,
        id: u32,
        new_medical_history: String,
    ) -> (r: Result<(), LedgerError>)
        requires
            old(self).wf(),
        ensures
            final(self).wf(),
            r is Ok <==> approved_doctor_with(old(self).doctors@, *actor) && (id as int) < old(self).patients@.len(),
            !approved_doctor_with(old(self).doctors@, *actor) ==> r == Result::<
                (),
                LedgerError,
            >::Err(LedgerError::Authorization),
            approved_doctor_with(old(self).doctors@, *actor) && (id as int) >= old(self).patients@.len() ==> r == Result::<(), LedgerError>::Err(LedgerError::NotFound),
            r is Err ==> *final(self) == *old(self),
            r is Ok ==> {
                &&& final(self).patients@.len() == old(self).patients@.len()
                &&& forall|j: int|
                    0 <= j < old(self).patients@.len() && j != id as int
                        ==> final(self).patients@[j] == old(self).patients@[j]
                &&& patient_like_but_history(
                    final(self).patients@[id as int],
                    old(self).patients@[id as int],
                )
                &&& final(self).patients@[id as int].medical_history@ == old(self).patients@[id as int].medical_history@.push(new_medical_history)
                &&& *final(self) == (Contract { patients: final(self).patients, ..*old(self) })
            },
    {
        if !self.is_approved_doctor(actor) {
            return Err(LedgerError::Authorization);
        }
        if (id as usize) >= self.patients.len() {
            return Err(LedgerError::NotFound);
        }
        let mut p = self.patients[id as usize].clone();
        p.medical_history.push(new_medical_history);
        let pos: usize = id as usize;
        self.patients.set(pos, p);
        Ok(())
    }

    /// The first patient record carrying the account `actor`, if any.
    fn find_patient_for(&self, actor: &String) -> (r: Option<usize>)
        ensures
            (match r {
                Some(i) => is_first_patient_for(self.patients@, *actor, i as int),
                None => !patient_with_account(self.patients@, *actor),
            }),
    {
        let mut i: usize = 0;
        while i < self.patients.len()
            invariant
                i <= self.patients.len(),
                forall|j: int| 0 <= j < i ==> self.patients@[j].account_id@ != actor@,
            decreases self.patients.len() - i,
        {
            if self.patients[i].account_id == *actor {
                return Some(i);
            }
            i = i + 1;
        }
        None
    }

    /// Books an appointment with the doctor registered under `doctor_id`.
    /// Registered users only; the patient record is resolved from the
    /// caller's identity.  The appointment starts pending, the doctor's
    /// appointment count grows by one, and the patient, the doctor and the
    /// admin are each notified.
    pub fn book_appointment(
        &mut self,
        actor: &String,
        doctor_id: u32,
        from: String,
        to: String,
        appointment_date: String,
        condition: String,
        message: String,
        now: u64,
    ) -> (r: Result<(), LedgerError>)
        requires
            old(self).wf(),
            old(self).appointments@.len() < u32::MAX,
        ensures
            final(self).wf(),
            r is Ok <==> old(self).spec_is_user(*actor) && patient_with_account(
                old(self).patients@,
                *actor,
            ) && (doctor_id as int) < old(self).doctors@.len(),
            !old(self).spec_is_user(*actor) ==> r == Result::<(), LedgerError>::Err(
                LedgerError::Authorization,
            ),
            old(self).spec_is_user(*actor) && !patient_with_account(old(self).patients@, *actor)
                ==> r == Result::<(), LedgerError>::Err(LedgerError::NotFound),
            old(self).spec_is_user(*actor) && patient_with_account(old(self).patients@, *actor)
                && (doctor_id as int) >= old(self).doctors@.len() ==> r == Result::<
                (),
                LedgerError,
            >::Err(LedgerError::NotFound),
            r is Err ==> *final(self) == *old(self),
            r is Ok ==> ({
                let newa = final(self).appointments@.last();
                let nlen = old(self).notifications@.len() as int;
                &&& final(self).appointments@ == old(self).appointments@.push(newa)
                &&& newa.id == old(self).appointments@.len()
                &&& is_first_patient_for(old(self).patients@, *actor, newa.patient_id as int)
                &&& newa.doctor_id == doctor_id
                &&& newa.from == from
                &&& newa.to == to
                &&& newa.appointment_date == appointment_date
                &&& newa.condition == condition
                &&& newa.message == message
                &&& newa.status is Pending
                &&& newa.is_open
                &&& final(self).doctors@ == old(self).doctors@.update(
                    doctor_id as int,
                    (Doctor {
                        appointment_counts: (old(self).doctors@[doctor_id as int].appointment_counts
                            + 1) as u64,
                        ..old(self).doctors@[doctor_id as int]
                    }),
                )
                &&& final(self).notifications@.len() == nlen + 3
                &&& forall|j: int|
                    0 <= j < nlen ==> final(self).notifications@[j] == old(self).notifications@[j]
                &&& note_about(final(self).notifications@[nlen], actor@, "appointment"@, now)
                &&& note_about(
                    final(self).notifications@[nlen + 1],
                    old(self).doctors@[doctor_id as int].account_id@,
                    "appointment"@,
                    now,
                )
                &&& note_about(final(self).notifications@[nlen + 2], old(self).owner@, "appointment"@, now)
                &&& *final(self) == (Contract {
                    appointments: final(self).appointments,
                    doctors: final(self).doctors,
                    notifications: final(self).notifications,
                    ..*old(self)
                })
            }),
    {
        if !self.is_user(actor) {
            return Err(LedgerError::Authorization);
        }
        let pid: usize = match self.find_patient_for(actor) {
            Some(p) => p,
            None => {
                return Err(LedgerError::NotFound);
            },
        };
        if (doctor_id as usize) >= self.doctors.len() {
            return Err(LedgerError::NotFound);
        }
        proof {
            assert(self.patients@[pid as int].id == pid as int);
        }
        let id: u32 = self.appointments.len() as u32;
        let appt = Appointment {
            id,
            patient_id: pid as u32,
            doctor_id,
            from,
            to,
            appointment_date,
            condition,
            status: AppointmentStatus::Pending,
            message,
            is_open: true,
        };
        self.appointments.push(appt);
        let d = self.doctors[doctor_id as usize].clone();
        let doc_account = d.account_id.clone();
        proof {
            lemma_count_bounds(
                old(self).appointments@,
                |a: Appointment| a.doctor_id == doctor_id,
            );
        }
        let updated = Doctor { appointment_counts: d.appointment_counts + 1, ..d };
        self.doctors.set(doctor_id as usize, updated);
        proof {
            let oldappts = old(self).appointments@;
            let newa = self.appointments@.last();
            assert forall|i: int| 0 <= i < self.doctors@.len() implies {
                let dd = #[trigger] self.doctors@[i];
                dd.appointment_counts == doctor_load(self.appointments@, dd.id)
                    && dd.successful_treatments == doctor_completed(self.appointments@, dd.id)
            } by {
                let dd = self.doctors@[i];
                lemma_count_push(oldappts, |a: Appointment| a.doctor_id == dd.id, newa);
                lemma_count_push(
                    oldappts,
                    |a: Appointment| a.doctor_id == dd.id && a.status is Completed,
                    newa,
                );
            }
        }
        let owner_account = self.owner.clone();
        self.push_note(actor.clone(), "You have successfully booked an appointment", "appointment", now);
        self.push_note(doc_account, "You have a new appointment", "appointment", now);
        self.push_note(owner_account, "A new appointment has been booked", "appointment", now);
        Ok(())
    }

    /// Completes a pending appointment.  Only the assigned doctor may
    /// complete it, exactly once; the doctor's successful-treatment count
    /// grows by one and the doctor, the patient and the admin are each
    /// notified.
    pub fn complete_appointment(&mut self, actor: &String, id: u32, patient_id: u32, now: u64) -> (r:
        Result<(), LedgerError>)
        requires
            old(self).wf(),
        ensures
            final(self).wf(),
            r is Ok <==> complete_result(
                old(self).appointments@,
                old(self).doctors@,
                *actor,
                id,
                patient_id,
            ) is Ok,
            r matches Err(e) ==> complete_result(
                old(self).appointments@,
                old(self).doctors@,
                *actor,
                id,
                patient_id,
            ) == Result::<(), LedgerError>::Err(e) && *final(self) == *old(self),
            r is Ok ==> ({
                let a = old(self).appointments@[id as int];
                let doc = old(self).doctors@[a.doctor_id as int];
                let nlen = old(self).notifications@.len() as int;
                &&& final(self).appointments@ == old(self).appointments@.update(
                    id as int,
                    (Appointment { status: AppointmentStatus::Completed, is_open: false, ..a }),
                )
                &&& final(self).doctors@ == old(self).doctors@.update(
                    a.doctor_id as int,
                    (Doctor { successful_treatments: (doc.successful_treatments + 1) as u64, ..doc }),
                )
                &&& final(self).notifications@.len() == nlen + 3
                &&& forall|j: int|
                    0 <= j < nlen ==> final(self).notifications@[j] == old(self).notifications@[j]
                &&& note_about(final(self).notifications@[nlen], doc.account_id@, "appointment"@, now)
                &&& note_about(
                    final(self).notifications@[nlen + 1],
                    old(self).patients@[a.patient_id as int].account_id@,
                    "appointment"@,
                    now,
                )
                &&& note_about(final(self).notifications@[nlen + 2], old(self).owner@, "appointment"@, now)
                &&& *final(self) == (Contract {
                    appointments: final(self).appointments,
                    doctors: final(self).doctors,
                    notifications: final(self).notifications,
                    ..*old(self)
                })
            }),
    {
        if (id as usize) >= self.appointments.len() {
            return Err(LedgerError::NotFound);
        }
        let a = self.appointments[id as usize].clone();
        if a.patient_id != patient_id {
            return Err(LedgerError::InvalidArgument);
        }
        let did: usize = a.doctor_id as usize;
        if !(self.doctors[did].account_id == *actor) {
            return Err(LedgerError::Authorization);
        }
        if !(a.status == AppointmentStatus::Pending) {
            return Err(LedgerError::InvalidStateTransition);
        }
        let updated = Appointment { status: AppointmentStatus::Completed, is_open: false, ..a };
        self.appointments.set(id as usize, updated);
        let d = self.doctors[did].clone();
        let doc_account = d.account_id.clone();
        proof {
            lemma_appointments_len_bound(*old(self));
            lemma_count_bounds(
                old(self).appointments@,
                |x: Appointment| x.doctor_id == d.id && x.status is Completed,
            );
        }
        let upd = Doctor { successful_treatments: d.successful_treatments + 1, ..d };
        self.doctors.set(did, upd);
        proof {
            let oldappts = old(self).appointments@;
            let newx = self.appointments@[id as int];
            assert forall|i: int| 0 <= i < self.doctors@.len() implies {
                let dd = #[trigger] self.doctors@[i];
                dd.appointment_counts == doctor_load(self.appointments@, dd.id)
                    && dd.successful_treatments == doctor_completed(self.appointments@, dd.id)
            } by {
                let dd = self.doctors@[i];
                lemma_count_update(oldappts, |x: Appointment| x.doctor_id == dd.id, id as int, newx);
                lemma_count_update(
                    oldappts,
                    |x: Appointment| x.doctor_id == dd.id && x.status is Completed,
                    id as int,
                    newx,
                );
            }
        }
        let pat_account = self.patients[a.patient_id as usize].account_id.clone();
        let owner_account = self.owner.clone();
        self.push_note(doc_account, "You have completed an appointment", "appointment", now);
        self.push_note(pat_account, "Your appointment has been completed", "appointment", now);
        self.push_note(owner_account, "An appointment has been completed", "appointment", now);
        Ok(())
    }

    /// Issues a prescription of a medicine to a patient.  Approved doctors
    /// only; the medicine, the patient and the doctor must all exist.  The
    /// record is immutable once created; the caller, the patient and the
    /// admin are each notified.
    pub fn prescribe_medicine(
        &mut self,
        actor: &String,
        medicine_id: u32,
        patient_id: u32,
        doctor_id: u32,
        now: u64,
    ) -> (r: Result<(), LedgerError>)
        requires
            old(self).wf(),
            old(self).prescriptions@.len() < u32::MAX,
        ensures
            final(self).wf(),
            r is Ok <==> approved_doctor_with(old(self).doctors@, *actor) && has_medicine(
                old(self).drugs@,
                medicine_id,
            ) && (patient_id as int) < old(self).patients@.len() && (doctor_id as int) < old(
                self,
            ).doctors@.len(),
            !approved_doctor_with(old(self).doctors@, *actor) ==> r == Result::<
                (),
                LedgerError,
            >::Err(LedgerError::Authorization),
            approved_doctor_with(old(self).doctors@, *actor) && !has_medicine(
                old(self).drugs@,
                medicine_id,
            ) ==> r == Result::<(), LedgerError>::Err(LedgerError::NotFound),
            approved_doctor_with(old(self).doctors@, *actor) && has_medicine(
                old(self).drugs@,
                medicine_id,
            ) && ((patient_id as int) >= old(self).patients@.len() || (doctor_id as int) >= old(
                self,
            ).doctors@.len()) ==> r == Result::<(), LedgerError>::Err(LedgerError::NotFound),
            r is Err ==> *final(self) == *old(self),
            r is Ok ==> ({
                let nlen = old(self).notifications@.len() as int;
                &&& final(self).prescriptions@ == old(self).prescriptions@.push(
                    (Prescription {
                        id: old(self).prescriptions@.len() as u32,
                        medicine_id,
                        patient_id,
                        doctor_id,
                        date: now,
                    }),
                )
                &&& final(self).notifications@.len() == nlen + 3
                &&& forall|j: int|
                    0 <= j < nlen ==> final(self).notifications@[j] == old(self).notifications@[j]
                &&& note_about(final(self).notifications@[nlen], actor@, "prescription"@, now)
                &&& note_about(
                    final(self).notifications@[nlen + 1],
                    old(self).patients@[patient_id as int].account_id@,
                    "prescription"@,
                    now,
                )
                &&& note_about(final(self).notifications@[nlen + 2], old(self).owner@, "prescription"@, now)
                &&& *final(self) == (Contract {
                    prescriptions: final(self).prescriptions,
                    notifications: final(self).notifications,
                    ..*old(self)
                })
            }),
    {
        if !self.is_approved_doctor(actor) {
            return Err(LedgerError::Authorization);
        }
        if self.find_drug(medicine_id).is_none() {
            return Err(LedgerError::NotFound);
        }
        if (patient_id as usize) >= self.patients.len() {
            return Err(LedgerError::NotFound);
        }
        if (doctor_id as usize) >= self.doctors.len() {
            return Err(LedgerError::NotFound);
        }
        let record = Prescription {
            id: self.prescriptions.len() as u32,
            medicine_id,
            patient_id,
            doctor_id,
            date: now,
        };
        self.prescriptions.push(record);
        let pat_account = self.patients[patient_id as usize].account_id.clone();
        let owner_account = self.owner.clone();
        self.push_note(actor.clone(), "You have successfully added a prescription", "prescription", now);
        self.push_note(pat_account, "You have a new prescription", "prescription", now);
        self.push_note(owner_account, "A new prescription has been issued", "prescription", now);
        Ok(())
    }
}

} // verus!

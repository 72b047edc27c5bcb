//! Read-only projections over the ledger: snapshots, lookups by id, the
//! enumerated filters, and the most-popular-doctor query.

use vstd::prelude::*;

use crate::entities::{
    patient_like, Appointment, Doctor, Medicine, Order, Patient, Prescription,
};
use crate::errors::LedgerError;
use crate::ledger::{has_medicine, medicine_index, Contract};

verus! {

/// A doctor's popularity score: appointments taken plus treatments
/// completed.
pub open spec fn doctor_score(d: Doctor) -> int {
    d.appointment_counts + d.successful_treatments
}

/// The highest popularity score among `ds`; one less than zero when there
/// are no doctors, so that no score reaches it.
pub open spec fn max_score(ds: Seq<Doctor>) -> int
    decreases ds.len(),
{
    if ds.len() == 0 {
        -1
    } else {
        let rest = max_score(ds.drop_last());
        if doctor_score(ds.last()) > rest {
            doctor_score(ds.last())
        } else {
            rest
        }
    }
}

/// The medicines that the ids in `ids` name in `drugs`, in the order the
/// ids appear; ids that name nothing are skipped.
pub open spec fn collected_meds(drugs: Seq<Medicine>, ids: Seq<u32>) -> Seq<Medicine>
    decreases ids.len(),
{
    if ids.len() == 0 {
        Seq::empty()
    } else {
        let rest = collected_meds(drugs, ids.drop_last());
        if has_medicine(drugs, ids.last()) {
            rest.push(drugs[medicine_index(drugs, ids.last())])
        } else {
            rest
        }
    }
}

impl Contract {
    /// A snapshot of every purchase order, in creation order.
    pub fn get_all_patient_orders(&self) -> (r: Vec<Order>)
        ensures
            r@ == self.orders@,
    {
        let mut r: Vec<Order> = Vec::new();
        let mut i: usize = 0;
        while i < self.orders.len()
            invariant
                i <= self.orders.len(),
                r@ =~= self.orders@.take(i as int),
            decreases self.orders.len() - i,
        {
            r.push(self.orders[i]);
            i = i + 1;
        }
        proof {
            assert(self.orders@.take(self.orders@.len() as int) =~= self.orders@);
        }
        r
    }

    /// A snapshot of every prescription, in creation order.
    pub fn get_all_prescription_details(&self) -> (r: Vec<Prescription>)
        ensures
            r@ == self.prescriptions@,
    {
        let mut r: Vec<Prescription> = Vec::new();
        let mut i: usize = 0;
        while i < self.prescriptions.len()
            invariant
                i <= self.prescriptions.len(),
                r@ =~= self.prescriptions@.take(i as int),
            decreases self.prescriptions.len() - i,
        {
            r.push(self.prescriptions[i]);
            i = i + 1;
        }
        proof {
            assert(self.prescriptions@.take(self.prescriptions@.len() as int) =~= self
                .prescriptions@);
        }
        r
    }

    /// A snapshot of every patient record, in registration order.
    pub fn get_all_registered_patients(&self) -> (r: Vec<Patient>)
        ensures
            r@.len() == self.patients@.len(),
            forall|i: int|
                0 <= i < r@.len() ==> patient_like(#[trigger] r@[i], self.patients@[i]),
    {
        let mut r: Vec<Patient> = Vec::new();
        let mut i: usize = 0;
        while i < self.patients.len()
            invariant
                i <= self.patients.len(),
                r@.len() == i,
                forall|j: int|
                    0 <= j < i ==> patient_like(#[trigger] r@[j], self.patients@[j]),
            decreases self.patients.len() - i,
        {
            r.push(self.patients[i].clone());
            i = i + 1;
        }
        r
    }

    /// The patient registered under `patient_id`, if any.
    pub fn get_patient_id(&self, patient_id: u32) -> (r: Option<Patient>)
        ensures
            r is Some <==> (patient_id as int) < self.patients@.len(),
            r matches Some(p) ==> patient_like(p, self.patients@[patient_id as int]),
    {
        if (patient_id as usize) < self.patients.len() {
            Some(self.patients[patient_id as usize].clone())
        } else {
            None
        }
    }

    /// Every appointment of the patient registered under `patient_id`, in
    /// booking order.
    pub fn get_patient_appointment(&self, patient_id: u32) -> (r: Vec<Appointment>)
        ensures
            r@ == self.appointments@.filter(|a: Appointment| a.patient_id == patient_id),
    {
        let ghost pred = |a: Appointment| a.patient_id == patient_id;
        let mut r: Vec<Appointment> = Vec::new();
        let mut i: usize = 0;
        while i < self.appointments.len()
            invariant
                i <= self.appointments.len(),
                r@ == self.appointments@.take(i as int).filter(pred),
                pred == (|a: Appointment| a.patient_id == patient_id),
            decreases self.appointments.len() - i,
        {
            let ghost taken = self.appointments@.take(i as int);
            let ghost next = self.appointments@.take(i + 1);
            proof {
                reveal(Seq::filter);
                assert(next.drop_last() =~= taken);
                assert(next.last() == self.appointments@[i as int]);
            }
            if self.appointments[i].patient_id == patient_id {
                r.push(self.appointments[i].clone());
            }
            proof {
                assert(r@ =~= next.filter(pred));
            }
            i = i + 1;
        }
        proof {
            assert(self.appointments@.take(self.appointments@.len() as int) =~= self
                .appointments@);
        }
        r
    }

    /// The medical history of the patient registered under `patient_id`.
    /// Registered users and the admin only; an unknown id reads as an
    /// empty history.
    pub fn get_patient_medical_history(&self, actor: &String, patient_id: u32) -> (r: Result<
        Vec<String>,
        LedgerError,
    >)
        ensures
            r is Ok <==> self.spec_is_owner_or_admin(*actor),
            r is Err ==> r == Result::<Vec<String>, LedgerError>::Err(LedgerError::Authorization),
            r matches Ok(h) ==> ({
                if (patient_id as int) < self.patients@.len() {
                    h@ == self.patients@[patient_id as int].medical_history@
                } else {
                    h@.len() == 0
                }
            }),
    {
        if !self.is_owner_or_admin(actor) {
            return Err(LedgerError::Authorization);
        }
        if (patient_id as usize) >= self.patients.len() {
            return Ok(Vec::new());
        }
        let history = &self.patients[patient_id as usize].medical_history;
        let mut h: Vec<String> = Vec::new();
        let mut i: usize = 0;
        while i < history.len()
            invariant
                i <= history.len(),
                h@.len() == i,
                forall|j: int| 0 <= j < i ==> h@[j] == history@[j],
            decreases history.len() - i,
        {
            h.push(history[i].clone());
            i = i + 1;
        }
        proof {
            assert(h@ =~= history@);
        }
        Ok(h)
    }

    /// Every appointment of the patient registered under `patient_id`, in
    /// booking order.
    pub fn get_patient_appointment_history(&self, patient_id: u32) -> (r: Vec<Appointment>)
        ensures
            r@ == self.appointments@.filter(|a: Appointment| a.patient_id == patient_id),
    {
        self.get_patient_appointment(patient_id)
    }

    /// The medicines the patient registered under `patient_id` has bought,
    /// following the ids recorded on the patient; an unknown patient reads
    /// as no purchases.
    pub fn get_bought_medicine_by_patient(&self, patient_id: u32) -> (r: Vec<Medicine>)
        requires
            self.wf(),
        ensures
            (patient_id as int) < self.patients@.len() ==> r@ == collected_meds(
                self.drugs@,
                self.patients@[patient_id as int].bought_medicine@,
            ),
            (patient_id as int) >= self.patients@.len() ==> r@.len() == 0,
    {
        if (patient_id as usize) >= self.patients.len() {
            return Vec::new();
        }
        let ids = &self.patients[patient_id as usize].bought_medicine;
        let mut r: Vec<Medicine> = Vec::new();
        let mut i: usize = 0;
        while i < ids.len()
            invariant
                self.wf(),
                i <= ids.len(),
                ids == &self.patients@[patient_id as int].bought_medicine,
                (patient_id as int) < self.patients@.len(),
                r@ == collected_meds(self.drugs@, ids@.take(i as int)),
            decreases ids.len() - i,
        {
            let ghost taken = ids@.take(i as int);
            let ghost next = ids@.take(i + 1);
            proof {
                assert(next.drop_last() =~= taken);
                assert(next.last() == ids@[i as int]);
            }
            match self.find_drug(ids[i]) {
                Some(pos) => {
                    r.push(self.drugs[pos].clone());
                },
                None => {},
            }
            proof {
                assert(r@ =~= collected_meds(self.drugs@, next));
            }
            i = i + 1;
        }
        proof {
            assert(ids@.take(ids@.len() as int) =~= ids@);
        }
        r
    }

    /// A snapshot of every appointment, in booking order.
    pub fn get_all_appointments(&self) -> (r: Vec<Appointment>)
        ensures
            r@ == self.appointments@,
    {
        let mut r: Vec<Appointment> = Vec::new();
        let mut i: usize = 0;
        while i < self.appointments.len()
            invariant
                i <= self.appointments.len(),
                r@ =~= self.appointments@.take(i as int),
            decreases self.appointments.len() - i,
        {
            r.push(self.appointments[i].clone());
            i = i + 1;
        }
        proof {
            assert(self.appointments@.take(self.appointments@.len() as int) =~= self
                .appointments@);
        }
        r
    }

    /// A snapshot of every doctor record, in registration order.
    pub fn get_all_doctors_data(&self) -> (r: Vec<Doctor>)
        ensures
            r@ == self.doctors@,
    {
        let mut r: Vec<Doctor> = Vec::new();
        let mut i: usize = 0;
        while i < self.doctors.len()
            invariant
                i <= self.doctors.len(),
                r@ =~= self.doctors@.take(i as int),
            decreases self.doctors.len() - i,
        {
            r.push(self.doctors[i].clone());
            i = i + 1;
        }
        proof {
            assert(self.doctors@.take(self.doctors@.len() as int) =~= self.doctors@);
        }
        r
    }

    /// Every approved doctor, in registration order.
    pub fn get_approved_doctors(&self) -> (r: Vec<Doctor>)
        ensures
            r@ == self.doctors@.filter(|d: Doctor| d.is_approved),
    {
        let ghost pred = |d: Doctor| d.is_approved;
        let mut r: Vec<Doctor> = Vec::new();
        let mut i: usize = 0;
        while i < self.doctors.len()
            invariant
                i <= self.doctors.len(),
                r@ == self.doctors@.take(i as int).filter(pred),
                pred == (|d: Doctor| d.is_approved),
            decreases self.doctors.len() - i,
        {
            let ghost taken = self.doctors@.take(i as int);
            let ghost next = self.doctors@.take(i + 1);
            proof {
                reveal(Seq::filter);
                assert(next.drop_last() =~= taken);
                assert(next.last() == self.doctors@[i as int]);
            }
            if self.doctors[i].is_approved {
                r.push(self.doctors[i].clone());
            }
            proof {
                assert(r@ =~= next.filter(pred));
            }
            i = i + 1;
        }
        proof {
            assert(self.doctors@.take(self.doctors@.len() as int) =~= self.doctors@);
        }
        r
    }

    /// The doctor registered under `doctor_id`, if any.
    pub fn get_doctor_details(&self, doctor_id: u32) -> (r: Option<Doctor>)
        ensures
            r is Some <==> (doctor_id as int) < self.doctors@.len(),
            r matches Some(d) ==> d == self.doctors@[doctor_id as int],
    {
        if (doctor_id as usize) < self.doctors.len() {
            Some(self.doctors[doctor_id as usize].clone())
        } else {
            None
        }
    }

    /// Every closed (completed) appointment of the doctor registered under
    /// `doctor_id`, in booking order.
    pub fn get_doctor_appointment_historys(&self, doctor_id: u32) -> (r: Vec<Appointment>)
        ensures
            r@ == self.appointments@.filter(
                |a: Appointment| a.doctor_id == doctor_id && !a.is_open,
            ),
    {
        let ghost pred = |a: Appointment| a.doctor_id == doctor_id && !a.is_open;
        let mut r: Vec<Appointment> = Vec::new();
        let mut i: usize = 0;
        while i < self.appointments.len()
            invariant
                i <= self.appointments.len(),
                r@ == self.appointments@.take(i as int).filter(pred),
                pred == (|a: Appointment| a.doctor_id == doctor_id && !a.is_open),
            decreases self.appointments.len() - i,
        {
            let ghost taken = self.appointments@.take(i as int);
            let ghost next = self.appointments@.take(i + 1);
            proof {
                reveal(Seq::filter);
                assert(next.drop_last() =~= taken);
                assert(next.last() == self.appointments@[i as int]);
            }
            if self.appointments[i].doctor_id == doctor_id && !self.appointments[i].is_open {
                r.push(self.appointments[i].clone());
            }
            proof {
                assert(r@ =~= next.filter(pred));
            }
            i = i + 1;
        }
        proof {
            assert(self.appointments@.take(self.appointments@.len() as int) =~= self
                .appointments@);
        }
        r
    }

    /// Every doctor tied for the highest popularity score, in registration
    /// order; no tie is broken.  No doctors means no winners.
    pub fn most_popular_doctor(&self) -> (r: Vec<Doctor>)
        ensures
            r@ == self.doctors@.filter(
                |d: Doctor| doctor_score(d) == max_score(self.doctors@),
            ),
    {
        let ghost all = self.doctors@;
        if self.doctors.len() == 0 {
            let r: Vec<Doctor> = Vec::new();
            proof {
                reveal(Seq::filter);
                assert(all.filter(|d: Doctor| doctor_score(d) == max_score(all)) =~= Seq::<
                    Doctor,
                >::empty());
            }
            return r;
        }
        let mut maxv: u128 = self.doctors[0].appointment_counts as u128
            + self.doctors[0].successful_treatments as u128;
        let mut i: usize = 1;
        proof {
            assert(all.take(0).len() == 0);
            assert(max_score(all.take(0)) == -1);
            assert(all.take(1).drop_last() =~= all.take(0));
            assert(all.take(1).last() == all[0]);
            assert(max_score(all.take(1)) == doctor_score(all[0]));
        }
        while i < self.doctors.len()
            invariant
                1 <= i <= self.doctors@.len(),
                all == self.doctors@,
                maxv == max_score(all.take(i as int)),
            decreases self.doctors.len() - i,
        {
            let ghost next = all.take(i + 1);
            proof {
                assert(next.drop_last() =~= all.take(i as int));
                assert(next.last() == all[i as int]);
            }
            let score: u128 = self.doctors[i].appointment_counts as u128
                + self.doctors[i].successful_treatments as u128;
            if score > maxv {
                maxv = score;
            }
            i = i + 1;
        }
        proof {
            assert(all.take(all.len() as int) =~= all);
        }
        let ghost pred = |d: Doctor| doctor_score(d) == max_score(all);
        let mut r: Vec<Doctor> = Vec::new();
        let mut k: usize = 0;
        while k < self.doctors.len()
            invariant
                k <= self.doctors@.len(),
                all == self.doctors@,
                maxv == max_score(all),
                r@ == all.take(k as int).filter(pred),
                pred == (|d: Doctor| doctor_score(d) == max_score(all)),
            decreases self.doctors.len() - k,
        {
            let ghost taken = all.take(k as int);
            let ghost next = all.take(k + 1);
            proof {
                reveal(Seq::filter);
                assert(next.drop_last() =~= taken);
                assert(next.last() == all[k as int]);
            }
            let score: u128 = self.doctors[k].appointment_counts as u128
                + self.doctors[k].successful_treatments as u128;
            if score == maxv {
                r.push(self.doctors[k].clone());
            }
            proof {
                assert(r@ =~= next.filter(pred));
            }
            k = k + 1;
        }
        proof {
            assert(all.take(all.len() as int) =~= all);
        }
        r
    }
}

} // verus!

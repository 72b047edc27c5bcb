//! The record types stored in the ledger.
//!
//! Every entity carries an unsigned numeric `id`, unique within its own
//! collection.  Identities (the `account_id` and `owner` fields) are plain
//! account names; the host environment resolves the identity acting in an
//! operation and hands it to the library as a value.

use vstd::prelude::*;

verus! {

/// The state of an appointment.  `Pending` may move to `Completed` exactly
/// once; `Completed` is terminal.
#[derive(Clone, Copy, Debug, PartialEq, Eq, Structural)]
pub enum AppointmentStatus {
    Pending,
    Completed,
}

/// The state of a purchase order with respect to the outbound value
/// transfer: created `Pending`, then settled or failed by the host's
/// transfer-result callback.
#[derive(Clone, Copy, Debug, PartialEq, Eq, Structural)]
pub enum OrderStatus {
    Pending,
    Settled,
    Failed,
}

/// The fields a caller supplies when registering a patient.  The ledger
/// assigns the id and starts the history sequences empty.
pub struct PatientInput {
    pub title: String,
    pub first_name: String,
    pub last_name: String,
    pub gender: String,
    pub condition: String,
    pub phone: u32,
    pub email: String,
    pub dob: u32,
    pub city: String,
    pub address: String,
    pub doctor: String,
    pub profile_pic: String,
    pub account_id: String,
    pub message: String,
}

/// A registered patient.
pub struct Patient {
    pub id: u32,
    pub title: String,
    pub first_name: String,
    pub last_name: String,
    pub gender: String,
    pub condition: String,
    pub phone: u32,
    pub email: String,
    pub dob: u32,
    pub city: String,
    pub address: String,
    pub doctor: String,
    pub profile_pic: String,
    pub account_id: String,
    pub message: String,
    /// Append-only log of medical notes.
    pub medical_history: Vec<String>,
    /// Ids of medicines this patient has bought.
    pub bought_medicine: Vec<u32>,
}

/// The fields a caller supplies when registering a doctor.  The ledger
/// assigns the id, starts both counters at zero and the registration
/// unapproved.
pub struct DoctorInput {
    pub title: String,
    pub first_name: String,
    pub last_name: String,
    pub gender: String,
    pub designation: String,
    pub last_work: String,
    pub email: String,
    pub college_name: String,
    pub college_id: String,
    pub joining_year: u32,
    pub end_year: u32,
    pub specialization: String,
    pub registration_id: String,
    pub college_address: String,
    pub profile_pic: String,
    pub account_id: String,
    pub bio: String,
}

/// A registered doctor.  `is_approved` stays false until an admin approves
/// the registration; both counters only ever grow.
pub struct Doctor {
    pub id: u32,
    pub title: String,
    pub first_name: String,
    pub last_name: String,
    pub gender: String,
    pub designation: String,
    pub last_work: String,
    pub email: String,
    pub college_name: String,
    pub college_id: String,
    pub joining_year: u32,
    pub end_year: u32,
    pub specialization: String,
    pub registration_id: String,
    pub college_address: String,
    pub account_id: String,
    pub profile_pic: String,
    pub bio: String,
    pub appointment_counts: u64,
    pub successful_treatments: u64,
    pub is_approved: bool,
}

/// A medicine in the catalog.  Its id is caller-supplied and unique;
/// `availability` always equals `quantity > 0`.
pub struct Medicine {
    pub id: u32,
    pub doctor_id: u32,
    pub name: String,
    pub brand: String,
    pub manufacturer: String,
    pub manufacturing_date: String,
    pub expiry_date: String,
    pub company_email: String,
    pub discount: u128,
    pub manufacturer_address: String,
    pub price: u128,
    pub quantity: u128,
    pub current_location: String,
    pub phone_no: u64,
    pub image: String,
    pub description: String,
    pub availability: bool,
}

/// A prescription, immutable once created.
#[derive(Clone, Copy, Debug, PartialEq, Eq, Structural)]
pub struct Prescription {
    pub id: u32,
    pub medicine_id: u32,
    pub patient_id: u32,
    pub doctor_id: u32,
    pub date: u64,
}

/// A booked appointment between a patient and a doctor.
pub struct Appointment {
    pub id: u32,
    pub patient_id: u32,
    pub doctor_id: u32,
    pub from: String,
    pub to: String,
    pub appointment_date: String,
    pub condition: String,
    pub status: AppointmentStatus,
    pub message: String,
    /// True exactly while the appointment is still pending.
    pub is_open: bool,
}

/// A free-form message from an account, kept for parity with the wire
/// records the service exchanges.
pub struct Message {
    pub account_id: String,
    pub timestamp: u64,
    pub message: String,
}

/// A purchase order, immutable but for its settlement status.
/// `payment_amount` always equals `price * quantity`.
#[derive(Clone, Copy, Debug, PartialEq, Eq, Structural)]
pub struct Order {
    pub id: u32,
    pub medicine_id: u32,
    /// Unit price at purchase time, after the discount.
    pub price: u128,
    /// Total owed for the order: unit price times quantity.
    pub payment_amount: u128,
    pub quantity: u128,
    pub patient_id: u32,
    pub date: u64,
    pub status: OrderStatus,
}

/// An entry of the append-only notification log.
pub struct Notification {
    pub account_id: String,
    pub message: String,
    pub category: String,
    pub timestamp: u64,
}

/// The doctor record that registering `input` under `id` creates.
pub open spec fn doctor_from_input(input: DoctorInput, id: u32) -> Doctor {
    Doctor {
        id,
        title: input.title,
        first_name: input.first_name,
        last_name: input.last_name,
        gender: input.gender,
        designation: input.designation,
        last_work: input.last_work,
        email: input.email,
        college_name: input.college_name,
        college_id: input.college_id,
        joining_year: input.joining_year,
        end_year: input.end_year,
        specialization: input.specialization,
        registration_id: input.registration_id,
        college_address: input.college_address,
        account_id: input.account_id,
        profile_pic: input.profile_pic,
        bio: input.bio,
        appointment_counts: 0,
        successful_treatments: 0,
        is_approved: false,
    }
}

/// Whether `p` is the patient record that registering `input` under `id`
/// creates: the supplied fields carried over, both history sequences empty.
pub open spec fn patient_from_input(p: Patient, input: PatientInput, id: u32) -> bool {
    &&& p.id == id
    &&& p.title == input.title
    &&& p.first_name == input.first_name
    &&& p.last_name == input.last_name
    &&& p.gender == input.gender
    &&& p.condition == input.condition
    &&& p.phone == input.phone
    &&& p.email == input.email
    &&& p.dob == input.dob
    &&& p.city == input.city
    &&& p.address == input.address
    &&& p.doctor == input.doctor
    &&& p.profile_pic == input.profile_pic
    &&& p.account_id == input.account_id
    &&& p.message == input.message
    &&& p.medical_history@ == Seq::<String>::empty()
    &&& p.bought_medicine@ == Seq::<u32>::empty()
}

/// Whether `a` and `b` agree on every field, comparing the history
/// sequences element by element.
pub open spec fn patient_like(a: Patient, b: Patient) -> bool {
    &&& a.id == b.id
    &&& a.title == b.title
    &&& a.first_name == b.first_name
    &&& a.last_name == b.last_name
    &&& a.gender == b.gender
    &&& a.condition == b.condition
    &&& a.phone == b.phone
    &&& a.email == b.email
    &&& a.dob == b.dob
    &&& a.city == b.city
    &&& a.address == b.address
    &&& a.doctor == b.doctor
    &&& a.profile_pic == b.profile_pic
    &&& a.account_id == b.account_id
    &&& a.message == b.message
    &&& a.medical_history@ == b.medical_history@
    &&& a.bought_medicine@ == b.bought_medicine@
}

/// Whether `a` and `b` agree on every field but the medical history.
pub open spec fn patient_like_but_history(a: Patient, b: Patient) -> bool {
    &&& a.id == b.id
    &&& a.title == b.title
    &&& a.first_name == b.first_name
    &&& a.last_name == b.last_name
    &&& a.gender == b.gender
    &&& a.condition == b.condition
    &&& a.phone == b.phone
    &&& a.email == b.email
    &&& a.dob == b.dob
    &&& a.city == b.city
    &&& a.address == b.address
    &&& a.doctor == b.doctor
    &&& a.profile_pic == b.profile_pic
    &&& a.account_id == b.account_id
    &&& a.message == b.message
    &&& a.bought_medicine@ == b.bought_medicine@
}

impl Clone for Doctor {
    fn clone(&self) -> (res: Self)
        ensures
            res == *self,
    {
        Doctor {
            id: self.id,
            title: self.title.clone(),
            first_name: self.first_name.clone(),
            last_name: self.last_name.clone(),
            gender: self.gender.clone(),
            designation: self.designation.clone(),
            last_work: self.last_work.clone(),
            email: self.email.clone(),
            college_name: self.college_name.clone(),
            college_id: self.college_id.clone(),
            joining_year: self.joining_year,
            end_year: self.end_year,
            specialization: self.specialization.clone(),
            registration_id: self.registration_id.clone(),
            college_address: self.college_address.clone(),
            account_id: self.account_id.clone(),
            profile_pic: self.profile_pic.clone(),
            bio: self.bio.clone(),
            appointment_counts: self.appointment_counts,
            successful_treatments: self.successful_treatments,
            is_approved: self.is_approved,
        }
    }
}

impl Clone for Medicine {
    fn clone(&self) -> (res: Self)
        ensures
            res == *self,
    {
        Medicine {
            id: self.id,
            doctor_id: self.doctor_id,
            name: self.name.clone(),
            brand: self.brand.clone(),
            manufacturer: self.manufacturer.clone(),
            manufacturing_date: self.manufacturing_date.clone(),
            expiry_date: self.expiry_date.clone(),
            company_email: self.company_email.clone(),
            discount: self.discount,
            manufacturer_address: self.manufacturer_address.clone(),
            price: self.price,
            quantity: self.quantity,
            current_location: self.current_location.clone(),
            phone_no: self.phone_no,
            image: self.image.clone(),
            description: self.description.clone(),
            availability: self.availability,
        }
    }
}

impl Clone for Appointment {
    fn clone(&self) -> (res: Self)
        ensures
            res == *self,
    {
        Appointment {
            id: self.id,
            patient_id: self.patient_id,
            doctor_id: self.doctor_id,
            from: self.from.clone(),
            to: self.to.clone(),
            appointment_date: self.appointment_date.clone(),
            condition: self.condition.clone(),
            status: self.status,
            message: self.message.clone(),
            is_open: self.is_open,
        }
    }
}

impl Clone for Notification {
    fn clone(&self) -> (res: Self)
        ensures
            res == *self,
    {
        Notification {
            account_id: self.account_id.clone(),
            message: self.message.clone(),
            category: self.category.clone(),
            timestamp: self.timestamp,
        }
    }
}

impl Clone for Patient {
    fn clone(&self) -> (res: Self)
        ensures
            patient_like(res, *self),
    {
        let mut medical_history: Vec<String> = Vec::new();
        let mut i: usize = 0;
        while i < self.medical_history.len()
            invariant
                i <= self.medical_history.len(),
                medical_history@.len() == i,
                forall|j: int| 0 <= j < i ==> medical_history@[j] == self.medical_history@[j],
            decreases self.medical_history.len() - i,
        {
            medical_history.push(self.medical_history[i].clone());
            i = i + 1;
        }
        let mut bought_medicine: Vec<u32> = Vec::new();
        let mut k: usize = 0;
        while k < self.bought_medicine.len()
            invariant
                k <= self.bought_medicine.len(),
                bought_medicine@.len() == k,
                forall|j: int| 0 <= j < k ==> bought_medicine@[j] == self.bought_medicine@[j],
            decreases self.bought_medicine.len() - k,
        {
            bought_medicine.push(self.bought_medicine[k]);
            k = k + 1;
        }
        let res = Patient {
            id: self.id,
            title: self.title.clone(),
            first_name: self.first_name.clone(),
            last_name: self.last_name.clone(),
            gender: self.gender.clone(),
            condition: self.condition.clone(),
            phone: self.phone,
            email: self.email.clone(),
            dob: self.dob,
            city: self.city.clone(),
            address: self.address.clone(),
            doctor: self.doctor.clone(),
            profile_pic: self.profile_pic.clone(),
            account_id: self.account_id.clone(),
            message: self.message.clone(),
            medical_history,
            bought_medicine,
        };
        proof {
            assert(res.medical_history@ =~= self.medical_history@);
            assert(res.bought_medicine@ =~= self.bought_medicine@);
        }
        res
    }
}

} // verus!

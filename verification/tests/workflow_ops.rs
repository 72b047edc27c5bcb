use medledger::{
    AppointmentStatus, Contract, DoctorInput, LedgerError, PatientInput,
};

fn admin_account() -> String {
    "boss.near".to_string()
}

fn patient_account() -> String {
    "pat.near".to_string()
}

fn doctor_account() -> String {
    "doc.near".to_string()
}

fn fresh_ledger() -> Contract {
    Contract::init(admin_account(), Some(vec![patient_account()]))
}

fn doctor_input(account: &str) -> DoctorInput {
    DoctorInput {
        title: "Dr.".to_string(),
        first_name: "John".to_string(),
        last_name: "Doe".to_string(),
        gender: "Male".to_string(),
        designation: "Cardiologist".to_string(),
        last_work: "Hospital A".to_string(),
        email: "john.doe@example.com".to_string(),
        college_name: "Medical College".to_string(),
        college_id: "MC123".to_string(),
        joining_year: 2010,
        end_year: 2015,
        specialization: "Heart Surgery".to_string(),
        registration_id: "REG123".to_string(),
        college_address: "Meru 567".to_string(),
        profile_pic: "profile.jpg".to_string(),
        account_id: account.to_string(),
        bio: "Experienced doctor in cardiology.".to_string(),
    }
}

fn patient_input(account: &str) -> PatientInput {
    PatientInput {
        title: "Ms.".to_string(),
        first_name: "Jane".to_string(),
        last_name: "Roe".to_string(),
        gender: "Female".to_string(),
        condition: "Checkup".to_string(),
        phone: 700200300,
        email: "jane.roe@example.com".to_string(),
        dob: 19900101,
        city: "Meru".to_string(),
        address: "Meru 568".to_string(),
        doctor: "Dr. John Doe".to_string(),
        profile_pic: "jane.jpg".to_string(),
        account_id: account.to_string(),
        message: "Hello".to_string(),
    }
}

fn add_sample_medicine(c: &mut Contract, id: u32) {
    let admin = admin_account();
    c.add_medicine(
        &admin,
        id,
        0,
        "Painkiller".to_string(),
        "Acme".to_string(),
        "Acme Labs".to_string(),
        "2024-01-01".to_string(),
        "2027-01-01".to_string(),
        "labs@acme.example".to_string(),
        0,
        "Acme Street 1".to_string(),
        100,
        10,
        "Warehouse 3".to_string(),
        700100200,
        "pill.png".to_string(),
        "Relieves pain".to_string(),
    )
    .unwrap();
}

fn book_sample(c: &mut Contract, doctor_id: u32, now: u64) {
    let pat = patient_account();
    c.book_appointment(
        &pat,
        doctor_id,
        "09:00".to_string(),
        "09:30".to_string(),
        "2025-03-01".to_string(),
        "Checkup".to_string(),
        "Please see me".to_string(),
        now,
    )
    .unwrap();
}

#[test]
fn doctor_registration_starts_unapproved() {
    let mut c = fresh_ledger();
    c.add_doctor(doctor_input("doc.near"));
    let d = c.get_doctor_details(0).unwrap();
    assert!(!d.is_approved);
    assert_eq!(d.appointment_counts, 0);
    assert_eq!(d.successful_treatments, 0);
    assert!(c.get_approved_doctors().is_empty());
}

#[test]
fn approve_doctor_is_admin_gated_and_idempotent() {
    let mut c = fresh_ledger();
    c.add_doctor(doctor_input("doc.near"));
    let outsider = c.approve_doctor(&patient_account(), 0, 5);
    assert_eq!(outsider.unwrap_err(), LedgerError::Authorization);
    let admin = admin_account();
    c.approve_doctor(&admin, 0, 6).unwrap();
    assert!(c.get_doctor_details(0).unwrap().is_approved);
    c.approve_doctor(&admin, 0, 7).unwrap();
    assert!(c.get_doctor_details(0).unwrap().is_approved);
    assert_eq!(c.get_all_doctors_data().len(), 1);
    assert_eq!(c.get_approved_doctors().len(), 1);
    let missing = c.approve_doctor(&admin, 9, 8);
    assert_eq!(missing.unwrap_err(), LedgerError::NotFound);
}

#[test]
fn booking_and_completion_flow() {
    let mut c = fresh_ledger();
    c.add_doctor(doctor_input("doc.near"));
    c.add_patient(patient_input("pat.near"));
    let before = c.get_all_notifications().len();
    book_sample(&mut c, 0, 100);
    let appts = c.get_all_appointments();
    assert_eq!(appts.len(), 1);
    assert_eq!(appts[0].status, AppointmentStatus::Pending);
    assert!(appts[0].is_open);
    assert_eq!(appts[0].patient_id, 0);
    assert_eq!(c.get_doctor_details(0).unwrap().appointment_counts, 1);
    assert_eq!(c.get_all_notifications().len(), before + 3);

    let doc = doctor_account();
    c.complete_appointment(&doc, 0, 0, 101).unwrap();
    let appts = c.get_all_appointments();
    assert_eq!(appts[0].status, AppointmentStatus::Completed);
    assert!(!appts[0].is_open);
    assert_eq!(c.get_doctor_details(0).unwrap().successful_treatments, 1);
    assert_eq!(c.get_all_notifications().len(), before + 6);
}

#[test]
fn completion_happens_exactly_once() {
    let mut c = fresh_ledger();
    c.add_doctor(doctor_input("doc.near"));
    c.add_patient(patient_input("pat.near"));
    book_sample(&mut c, 0, 100);
    let doc = doctor_account();
    c.complete_appointment(&doc, 0, 0, 101).unwrap();
    let second = c.complete_appointment(&doc, 0, 0, 102);
    assert_eq!(second.unwrap_err(), LedgerError::InvalidStateTransition);
    assert_eq!(c.get_doctor_details(0).unwrap().successful_treatments, 1);
}

#[test]
fn completion_requires_assigned_doctor() {
    let mut c = fresh_ledger();
    c.add_doctor(doctor_input("doc.near"));
    c.add_doctor(doctor_input("other-doc.near"));
    c.add_patient(patient_input("pat.near"));
    book_sample(&mut c, 0, 100);
    let wrong = c.complete_appointment(&"other-doc.near".to_string(), 0, 0, 101);
    assert_eq!(wrong.unwrap_err(), LedgerError::Authorization);
    let appts = c.get_all_appointments();
    assert_eq!(appts[0].status, AppointmentStatus::Pending);
    assert_eq!(c.get_doctor_details(0).unwrap().successful_treatments, 0);
    let mismatch = c.complete_appointment(&doctor_account(), 0, 3, 102);
    assert_eq!(mismatch.unwrap_err(), LedgerError::InvalidArgument);
    let missing = c.complete_appointment(&doctor_account(), 4, 0, 103);
    assert_eq!(missing.unwrap_err(), LedgerError::NotFound);
}

#[test]
fn booking_requires_registered_user_with_patient_record() {
    let mut c = fresh_ledger();
    c.add_doctor(doctor_input("doc.near"));
    let stranger = c.book_appointment(
        &"stranger.near".to_string(),
        0,
        "09:00".to_string(),
        "09:30".to_string(),
        "2025-03-01".to_string(),
        "Checkup".to_string(),
        "Please see me".to_string(),
        100,
    );
    assert_eq!(stranger.unwrap_err(), LedgerError::Authorization);
    let pat = patient_account();
    let unregistered = c.book_appointment(
        &pat,
        0,
        "09:00".to_string(),
        "09:30".to_string(),
        "2025-03-01".to_string(),
        "Checkup".to_string(),
        "Please see me".to_string(),
        100,
    );
    assert_eq!(unregistered.unwrap_err(), LedgerError::NotFound);
    c.add_patient(patient_input("pat.near"));
    let unknown_doctor = c.book_appointment(
        &pat,
        7,
        "09:00".to_string(),
        "09:30".to_string(),
        "2025-03-01".to_string(),
        "Checkup".to_string(),
        "Please see me".to_string(),
        100,
    );
    assert_eq!(unknown_doctor.unwrap_err(), LedgerError::NotFound);
    assert!(c.get_all_appointments().is_empty());
}

#[test]
fn prescribe_medicine_is_gated_and_recorded() {
    let mut c = fresh_ledger();
    c.add_doctor(doctor_input("doc.near"));
    c.add_patient(patient_input("pat.near"));
    add_sample_medicine(&mut c, 1);
    let doc = doctor_account();

    let not_a_doctor = c.prescribe_medicine(&patient_account(), 1, 0, 0, 50);
    assert_eq!(not_a_doctor.unwrap_err(), LedgerError::Authorization);
    let unapproved = c.prescribe_medicine(&doc, 1, 0, 0, 50);
    assert_eq!(unapproved.unwrap_err(), LedgerError::Authorization);

    let admin = admin_account();
    c.approve_doctor(&admin, 0, 51).unwrap();
    let missing_medicine = c.prescribe_medicine(&doc, 9, 0, 0, 52);
    assert_eq!(missing_medicine.unwrap_err(), LedgerError::NotFound);
    assert!(c.get_all_prescription_details().is_empty());

    let before = c.get_all_notifications().len();
    c.prescribe_medicine(&doc, 1, 0, 0, 53).unwrap();
    let ps = c.get_all_prescription_details();
    assert_eq!(ps.len(), 1);
    assert_eq!(ps[0].id, 0);
    assert_eq!(ps[0].medicine_id, 1);
    assert_eq!(ps[0].patient_id, 0);
    assert_eq!(ps[0].doctor_id, 0);
    assert_eq!(ps[0].date, 53);
    assert_eq!(c.get_all_notifications().len(), before + 3);
}

#[test]
fn most_popular_doctor_keeps_ties() {
    let mut c = fresh_ledger();
    c.add_doctor(doctor_input("doc-a.near"));
    c.add_doctor(doctor_input("doc-b.near"));
    c.add_doctor(doctor_input("doc-c.near"));
    c.add_patient(patient_input("pat.near"));
    for _ in 0..5 {
        book_sample(&mut c, 0, 100);
        book_sample(&mut c, 1, 100);
    }
    for _ in 0..3 {
        book_sample(&mut c, 2, 100);
    }
    let top = c.most_popular_doctor();
    assert_eq!(top.len(), 2);
    assert_eq!(top[0].id, 0);
    assert_eq!(top[1].id, 1);
}

#[test]
fn most_popular_doctor_empty_ledger() {
    let c = fresh_ledger();
    assert!(c.most_popular_doctor().is_empty());
}

#[test]
fn medical_history_is_append_only_and_gated() {
    let mut c = fresh_ledger();
    c.add_doctor(doctor_input("doc.near"));
    c.add_patient(patient_input("pat.near"));
    let doc = doctor_account();
    let unapproved = c.update_patient_medical(&doc, 0, "note 1".to_string());
    assert_eq!(unapproved.unwrap_err(), LedgerError::Authorization);
    let admin = admin_account();
    c.approve_doctor(&admin, 0, 5).unwrap();
    c.update_patient_medical(&doc, 0, "note 1".to_string()).unwrap();
    c.update_patient_medical(&doc, 0, "note 2".to_string()).unwrap();
    let missing = c.update_patient_medical(&doc, 9, "note 3".to_string());
    assert_eq!(missing.unwrap_err(), LedgerError::NotFound);

    let history = c.get_patient_medical_history(&admin, 0).unwrap();
    assert_eq!(history, vec!["note 1".to_string(), "note 2".to_string()]);
    let outsider = c.get_patient_medical_history(&"stranger.near".to_string(), 0);
    assert_eq!(outsider.unwrap_err(), LedgerError::Authorization);
}

#[test]
fn notifications_filter_by_recipient() {
    let mut c = fresh_ledger();
    c.add_notification("a.near".to_string(), "first".to_string(), "general".to_string(), 1)
        .unwrap();
    c.add_notification("b.near".to_string(), "second".to_string(), "general".to_string(), 2)
        .unwrap();
    c.add_notification("a.near".to_string(), "third".to_string(), "general".to_string(), 3)
        .unwrap();
    let for_a = c.notifications_for(&"a.near".to_string());
    assert_eq!(for_a.len(), 2);
    assert_eq!(for_a[0].message, "first");
    assert_eq!(for_a[1].message, "third");
    assert_eq!(for_a[1].timestamp, 3);
    let empty = c.add_notification(String::new(), "nope".to_string(), "general".to_string(), 4);
    assert_eq!(empty.unwrap_err(), LedgerError::InvalidArgument);
    assert_eq!(c.get_all_notifications().len(), 3);
}

#[test]
fn fee_updates_are_admin_gated() {
    let mut c = fresh_ledger();
    let outsider = c.update_registration_fee(&patient_account(), 10);
    assert_eq!(outsider.unwrap_err(), LedgerError::Authorization);
    let admin = admin_account();
    c.update_registration_fee(&admin, 10).unwrap();
    c.update_appointment_fee(&admin, 20).unwrap();
    assert_eq!(c.registration_fee, 10);
    assert_eq!(c.appointment_fee, 20);
    let outsider = c.update_appointment_fee(&patient_account(), 30);
    assert_eq!(outsider.unwrap_err(), LedgerError::Authorization);
    assert_eq!(c.appointment_fee, 20);
}

#[test]
fn admin_handover_moves_the_role() {
    let mut c = fresh_ledger();
    let admin = admin_account();
    let new_admin = "chief.near".to_string();
    c.update_admin_address(&admin, new_admin.clone()).unwrap();
    assert!(!c.is_admin(&admin));
    assert!(c.is_admin(&new_admin));
    let old = c.update_registration_fee(&admin, 5);
    assert_eq!(old.unwrap_err(), LedgerError::Authorization);
    c.update_registration_fee(&new_admin, 5).unwrap();
    assert_eq!(c.registration_fee, 5);
}

#[test]
fn patient_projections() {
    let mut c = fresh_ledger();
    c.add_doctor(doctor_input("doc.near"));
    c.add_patient(patient_input("pat.near"));
    c.add_patient(patient_input("other.near"));
    assert_eq!(c.get_all_registered_patients().len(), 2);
    assert_eq!(c.get_patient_id(0).unwrap().account_id, "pat.near");
    assert!(c.get_patient_id(9).is_none());
    book_sample(&mut c, 0, 100);
    assert_eq!(c.get_patient_appointment(0).len(), 1);
    assert_eq!(c.get_patient_appointment(1).len(), 0);
    assert_eq!(c.get_patient_appointment_history(0).len(), 1);
    assert!(c.get_bought_medicine_by_patient(0).is_empty());
    assert!(c.get_bought_medicine_by_patient(9).is_empty());
    assert!(c.get_doctor_appointment_historys(0).is_empty());
    let doc = doctor_account();
    c.complete_appointment(&doc, 0, 0, 101).unwrap();
    assert_eq!(c.get_doctor_appointment_historys(0).len(), 1);
}

#[test]
fn error_messages_name_the_failure() {
    assert_eq!(
        LedgerError::Authorization.message(),
        "the caller lacks the required role"
    );
    assert_eq!(
        LedgerError::InsufficientStock.message(),
        "the purchase exceeds the available stock"
    );
}

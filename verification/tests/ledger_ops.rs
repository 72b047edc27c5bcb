use medledger::{
    account_vec_to_set, Contract, DoctorInput, LedgerError, OrderStatus, INITIAL_FEE,
};

fn admin_account() -> String {
    "boss.near".to_string()
}

fn patient_account() -> String {
    "pat.near".to_string()
}

fn fresh_ledger() -> Contract {
    Contract::init(admin_account(), Some(vec![patient_account()]))
}

fn doctor_input(account: &str) -> DoctorInput {
    DoctorInput {
        title: "Dr.".to_string(),
        first_name: "John".to_string(),
        last_name: "Doe".to_string(),
        gender: "Male".to_string(),
        designation: "Cardiologist".to_string(),
        last_work: "Hospital A".to_string(),
        email: "john.doe@example.com".to_string(),
        college_name: "Medical College".to_string(),
        college_id: "MC123".to_string(),
        joining_year: 2010,
        end_year: 2015,
        specialization: "Heart Surgery".to_string(),
        registration_id: "REG123".to_string(),
        college_address: "Meru 567".to_string(),
        profile_pic: "profile.jpg".to_string(),
        account_id: account.to_string(),
        bio: "Experienced doctor in cardiology.".to_string(),
    }
}


fn add_sample_medicine(c: &mut Contract, id: u32, price: u128, quantity: u128, discount: u128) {
    let admin = admin_account();
    c.add_medicine(
        &admin,
        id,
        0,
        "Painkiller".to_string(),
        "Acme".to_string(),
        "Acme Labs".to_string(),
        "2024-01-01".to_string(),
        "2027-01-01".to_string(),
        "labs@acme.example".to_string(),
        discount,
        "Acme Street 1".to_string(),
        price,
        quantity,
        "Warehouse 3".to_string(),
        700100200,
        "pill.png".to_string(),
        "Relieves pain".to_string(),
    )
    .unwrap();
}

#[test]
fn get_doctor_by_id() {
    let mut contract = fresh_ledger();
    contract.add_doctor(doctor_input("bob.near"));
    contract.add_doctor(doctor_input("bob.near"));

    let doctor = contract.get_doctor_details(1).unwrap();

    assert_eq!(doctor.id, 1);
}

#[test]
fn init_sets_owner_users_and_fees() {
    let c = fresh_ledger();
    assert!(c.is_admin(&admin_account()));
    assert!(c.is_user(&patient_account()));
    assert!(!c.is_user(&"stranger.near".to_string()));
    assert!(c.is_owner_or_admin(&admin_account()));
    assert_eq!(c.registration_fee, INITIAL_FEE);
    assert_eq!(c.appointment_fee, INITIAL_FEE);
}

#[test]
fn default_ledger_is_owned_by_service_account() {
    let c = Contract::default();
    assert!(c.is_admin(&"medinear.testnet".to_string()));
    assert!(c.get_all_doctors_data().is_empty());
}

#[test]
fn account_vec_to_set_dedups() {
    let set = account_vec_to_set(vec![
        "a.near".to_string(),
        "b.near".to_string(),
        "a.near".to_string(),
        "a.near".to_string(),
    ]);
    assert_eq!(set.len(), 2);
    assert_eq!(set[0], "a.near");
    assert_eq!(set[1], "b.near");
}

#[test]
fn purchase_updates_stock_and_order() {
    let mut c = fresh_ledger();
    add_sample_medicine(&mut c, 1, 100, 10, 10);
    let order = c.buy_medicine(&patient_account(), 1, 2, 0, 77).unwrap();
    assert_eq!(order.price, 90);
    assert_eq!(order.payment_amount, 180);
    assert_eq!(order.quantity, 2);
    assert_eq!(order.status, OrderStatus::Pending);
    assert_eq!(order.date, 77);
    let m = c.get_medicine_by_id(1).unwrap();
    assert_eq!(m.quantity, 8);
    assert!(m.availability);
    assert_eq!(c.get_all_patient_orders().len(), 1);
}

#[test]
fn purchase_rejects_zero_quantity() {
    let mut c = fresh_ledger();
    add_sample_medicine(&mut c, 1, 100, 10, 10);
    let r = c.buy_medicine(&patient_account(), 1, 0, 0, 77);
    assert_eq!(r.unwrap_err(), LedgerError::InvalidArgument);
    let m = c.get_medicine_by_id(1).unwrap();
    assert_eq!(m.quantity, 10);
    assert!(m.availability);
    assert!(c.get_all_patient_orders().is_empty());
}

#[test]
fn purchase_rejects_excess_quantity() {
    let mut c = fresh_ledger();
    add_sample_medicine(&mut c, 1, 100, 10, 10);
    let r = c.buy_medicine(&patient_account(), 1, 11, 0, 77);
    assert_eq!(r.unwrap_err(), LedgerError::InsufficientStock);
    let m = c.get_medicine_by_id(1).unwrap();
    assert_eq!(m.quantity, 10);
    assert!(c.get_all_patient_orders().is_empty());
}

#[test]
fn purchase_requires_known_medicine() {
    let mut c = fresh_ledger();
    let r = c.buy_medicine(&patient_account(), 9, 1, 0, 77);
    assert_eq!(r.unwrap_err(), LedgerError::NotFound);
}

#[test]
fn purchase_requires_registered_user() {
    let mut c = fresh_ledger();
    add_sample_medicine(&mut c, 1, 100, 10, 10);
    let r = c.buy_medicine(&"stranger.near".to_string(), 1, 1, 0, 77);
    assert_eq!(r.unwrap_err(), LedgerError::Authorization);
    assert!(c.get_all_patient_orders().is_empty());
}

#[test]
fn purchases_exhaust_stock_then_refuse() {
    let mut c = fresh_ledger();
    add_sample_medicine(&mut c, 1, 100, 10, 10);
    let pat = patient_account();
    let first = c.buy_medicine(&pat, 1, 2, 0, 77).unwrap();
    assert_eq!(first.payment_amount, 180);
    let m = c.get_medicine_by_id(1).unwrap();
    assert_eq!(m.quantity, 8);
    assert!(m.availability);
    c.buy_medicine(&pat, 1, 8, 0, 78).unwrap();
    let m = c.get_medicine_by_id(1).unwrap();
    assert_eq!(m.quantity, 0);
    assert!(!m.availability);
    let r = c.buy_medicine(&pat, 1, 1, 0, 79);
    assert_eq!(r.unwrap_err(), LedgerError::InsufficientStock);
}

#[test]
fn transfer_failure_restores_stock() {
    let mut c = fresh_ledger();
    add_sample_medicine(&mut c, 1, 100, 10, 10);
    let order = c.buy_medicine(&patient_account(), 1, 10, 0, 77).unwrap();
    assert!(!c.get_medicine_by_id(1).unwrap().availability);
    c.on_transfer_result(order.id, false).unwrap();
    let m = c.get_medicine_by_id(1).unwrap();
    assert_eq!(m.quantity, 10);
    assert!(m.availability);
    assert_eq!(c.get_all_patient_orders()[0].status, OrderStatus::Failed);
    let again = c.on_transfer_result(order.id, false);
    assert_eq!(again.unwrap_err(), LedgerError::InvalidStateTransition);
    assert_eq!(c.get_medicine_by_id(1).unwrap().quantity, 10);
}

#[test]
fn transfer_success_settles_order() {
    let mut c = fresh_ledger();
    add_sample_medicine(&mut c, 1, 100, 10, 10);
    let order = c.buy_medicine(&patient_account(), 1, 2, 0, 77).unwrap();
    c.on_transfer_result(order.id, true).unwrap();
    assert_eq!(c.get_all_patient_orders()[0].status, OrderStatus::Settled);
    assert_eq!(c.get_medicine_by_id(1).unwrap().quantity, 8);
    let unknown = c.on_transfer_result(5, true);
    assert_eq!(unknown.unwrap_err(), LedgerError::NotFound);
}

#[test]
fn add_medicine_requires_admin() {
    let mut c = fresh_ledger();
    let r = c.add_medicine(
        &patient_account(),
        1,
        0,
        "Painkiller".to_string(),
        "Acme".to_string(),
        "Acme Labs".to_string(),
        "2024-01-01".to_string(),
        "2027-01-01".to_string(),
        "labs@acme.example".to_string(),
        0,
        "Acme Street 1".to_string(),
        100,
        10,
        "Warehouse 3".to_string(),
        700100200,
        "pill.png".to_string(),
        "Relieves pain".to_string(),
    );
    assert_eq!(r.unwrap_err(), LedgerError::Authorization);
    assert!(c.get_all_registered_medicines().is_empty());
}

#[test]
fn add_medicine_rejects_duplicate_id() {
    let mut c = fresh_ledger();
    add_sample_medicine(&mut c, 1, 100, 10, 10);
    let admin = admin_account();
    let r = c.add_medicine(
        &admin,
        1,
        0,
        "Other".to_string(),
        "Acme".to_string(),
        "Acme Labs".to_string(),
        "2024-01-01".to_string(),
        "2027-01-01".to_string(),
        "labs@acme.example".to_string(),
        0,
        "Acme Street 1".to_string(),
        50,
        5,
        "Warehouse 3".to_string(),
        700100200,
        "pill.png".to_string(),
        "Relieves pain".to_string(),
    );
    assert_eq!(r.unwrap_err(), LedgerError::DuplicateId);
    assert_eq!(c.get_all_registered_medicines().len(), 1);
}

#[test]
fn add_medicine_rejects_out_of_range_discount() {
    let mut c = fresh_ledger();
    let admin = admin_account();
    let r = c.add_medicine(
        &admin,
        1,
        0,
        "Painkiller".to_string(),
        "Acme".to_string(),
        "Acme Labs".to_string(),
        "2024-01-01".to_string(),
        "2027-01-01".to_string(),
        "labs@acme.example".to_string(),
        101,
        "Acme Street 1".to_string(),
        100,
        10,
        "Warehouse 3".to_string(),
        700100200,
        "pill.png".to_string(),
        "Relieves pain".to_string(),
    );
    assert_eq!(r.unwrap_err(), LedgerError::InvalidArgument);
}

#[test]
fn unavailable_when_added_without_stock() {
    let mut c = fresh_ledger();
    add_sample_medicine(&mut c, 3, 40, 0, 0);
    let m = c.get_medicine_by_id(3).unwrap();
    assert!(!m.availability);
}

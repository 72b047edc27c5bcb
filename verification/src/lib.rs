//! A permissioned record ledger for a healthcare coordination service.
//!
//! The ledger tracks patients, doctors, medicines, appointments,
//! prescriptions, purchase orders and notifications, and gates every write on
//! the role of the acting identity.  The host environment resolves the acting
//! identity, timestamps and the outbound value transfer of a purchase; this
//! library receives them as plain values and is verified for every value the
//! host may hand in.

pub mod access;
pub mod admin;
pub mod entities;
pub mod errors;
pub mod inventory;
pub mod laws;
pub mod ledger;
pub mod notify;
pub mod queries;
pub mod workflow;
pub mod tally;
pub mod utils;

pub use admin::INITIAL_FEE;
pub use entities::{
    Appointment, AppointmentStatus, Doctor, DoctorInput, Medicine, Message, Notification, Order,
    OrderStatus, Patient, PatientInput, Prescription,
};
pub use errors::LedgerError;
pub use ledger::{Contract, MAX_PRICE, MAX_STOCK};
pub use utils::account_vec_to_set;

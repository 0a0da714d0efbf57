//! An ownership-and-permission-gated record registry.
//!
//! [`Patient`] is an ownership registry of tokens: mint, transfer, one
//! approved spender per token, and a token count per account. [`EPR`] is a
//! store of patient records, and [`Epr`] puts it behind an access control
//! layer and mints one token per patient. [`NftMarketplace`] keeps prices and
//! completes purchases. An entry point whose outcome depends on who calls
//! takes the calling account as an argument; every one changes nothing when
//! it fails, and records its events in the log of the instance.

pub mod account;
pub mod account_map;
pub mod epr;
pub mod epr_laws;
pub mod error;
pub mod event;
pub mod marketplace;
pub mod patient;
pub mod patient_laws;
pub mod record;
pub mod rules;

pub use crate::account::AccountId;
pub use crate::account_map::AccountMap;
pub use crate::epr::{Epr, EprView, Permission, Which};
pub use crate::error::Error;
pub use crate::event::{
    Approval, ApprovalForAll, Approved, Balance, BiodataUpdate, ClinicalNotesUpdate, Event,
    EventLog, EventView, HealthId, NewPatient, Purchase, TokenId, Transfer,
};
pub use crate::marketplace::{MarketView, NftMarketplace};
pub use crate::patient::{HealthDot, Patient, PatientView};
pub use crate::record::{Biodata, ClinicalNotes, RecordView, RecordsView, EPR};

//! A ledger of two kinds of tamper-evident facts: content credentials, which
//! bind an issuer to a content hash, and transfer requests, by which one party
//! asks another for an amount of the native asset and the other pays it.
//!
//! `operations` holds the three operations, `ledger` the state they act on,
//! `laws` what holds of them on every ledger. `records`, `layout` and
//! `validation` describe what is stored and in how many bytes, `address` how
//! the address of a transfer request is derived, and `instruction` the
//! instruction that moves the asset.

pub mod address;
pub mod address_map;
pub mod instruction;
pub mod laws;
pub mod layout;
pub mod ledger;
pub mod operations;
pub mod pubkey;
pub mod records;
pub mod validation;

pub use crate::ledger::{AccountRef, HostError, LedgerState};
pub use crate::operations::{
    create_notification_credential, create_transfer_request, execute_transfer_request,
    CreateContentCredential, CreateTransferRequest, ExecuteTransferRequest, LedgerError,
};
pub use crate::pubkey::Pubkey;
pub use crate::records::{
    ContentCredential, ContentType, TransactionEvent, TransactionEventType, Transfer,
};
pub use crate::validation::ErrorCode;

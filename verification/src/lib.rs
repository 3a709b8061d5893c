//! A compliance registry: one officer keeps sanctions, flags and credentials,
//! and anyone can ask how an address stands.
//!
//! The contract works on an [`Env`]: what it reads of the ledger and of
//! storage, and the list of what it asks of its host. [`behavior`] proves what
//! each call does, entry by entry and request by request; [`laws`] holds what is
//! proved of the contract as a whole.
pub mod address;
pub mod behavior;
pub mod contract;
pub mod effect;
pub mod env;
pub mod laws;
mod table;
pub mod types;

pub use address::Address;
pub use contract::{ComplianceContract, Refusal};
pub use effect::{Effect, Entry, Event};
pub use env::Env;
pub use types::{
    ComplianceCheckRecord, CredentialCheckResult, CredentialStatus, DataKey, Durability,
    PendingRevocation, COMPLIANCE_CHECK_FEE, CREDENTIAL_TTL_LEDGERS, INSTANCE_TTL_LEDGERS,
    REVOCATION_DELAY,
};

//! Verified core of the SLA calculator contract.
//!
//! `contract` holds the contract state and every entry point, each
//! specified against the abstract transitions of `model`; `calc` is the
//! evaluation rule, `config` the severity tiers, validation and the config
//! hash, `events` the published events, `version_negotiation` the
//! multi-contract version protocol, and `laws` the properties proved of
//! the whole.
pub mod calc;
pub mod config;
pub mod contract;
pub mod events;
pub mod hash_laws;
pub mod laws;
pub mod model;
pub mod types;
pub mod version_negotiation;

pub use contract::SLACalculatorContract;
pub use events::ContractEvent;
pub use types::{
    Address, ContractMetadata, PauseInfo, SLAConfig, SLAConfigEntry, SLAConfigSnapshot, SLAError,
    SLAResult, SLAResultSchema, SLAStats, StorageVersionInfo, Symbol,
};
pub use version_negotiation::{
    build_negotiation_info, negotiate_contract_versions, version_discovery_interfaces,
    NegotiationOutcome, VersionMismatchDetail, VersionNegotiationInfo, VersionNegotiationResult,
};

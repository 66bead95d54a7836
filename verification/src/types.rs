//! Plain data types of the SLA calculator: identifiers, errors, configs,
//! results and the records returned to backend consumers.
use vstd::prelude::*;

verus! {

/// A short textual identifier (severity, outage id, status, rating, ...).
/// Two symbols are the same identifier exactly when their text is equal.
#[derive(Debug, PartialEq, Eq)]
pub struct Symbol {
    pub name: String,
}

impl View for Symbol {
    type V = Seq<char>;

    open spec fn view(&self) -> Seq<char> {
        self.name@
    }
}

impl Clone for Symbol {
    fn clone(&self) -> (res: Self)
        ensures
            res == *self,
    {
        Symbol { name: self.name.clone() }
    }
}

impl Symbol {
    /// Builds the symbol with the given text.
    pub fn new(name: &str) -> (s: Symbol)
        ensures
            s@ == name@,
    {
        Symbol { name: name.to_owned() }
    }

    /// The text of the symbol.
    pub fn as_str(&self) -> (s: &str)
        ensures
            s@ == self@,
    {
        self.name.as_str()
    }

    /// Whether two symbols carry the same text.
    pub fn equals(&self, other: &Symbol) -> (b: bool)
        ensures
            b == (self@ == other@),
    {
        self.name == other.name
    }
}

/// The identity of an account or contract that calls into the SLA calculator.
#[derive(Debug, PartialEq, Eq)]
pub struct Address {
    pub id: String,
}

impl View for Address {
    type V = Seq<char>;

    open spec fn view(&self) -> Seq<char> {
        self.id@
    }
}

impl Clone for Address {
    fn clone(&self) -> (res: Self)
        ensures
            res == *self,
    {
        Address { id: self.id.clone() }
    }
}

impl Address {
    /// Builds the address with the given textual identity.
    pub fn new(id: &str) -> (a: Address)
        ensures
            a@ == id@,
    {
        Address { id: id.to_owned() }
    }

    /// The textual identity of the address.
    pub fn as_str(&self) -> (s: &str)
        ensures
            s@ == self@,
    {
        self.id.as_str()
    }

    /// Whether two addresses denote the same identity.
    pub fn equals(&self, other: &Address) -> (b: bool)
        ensures
            b == (self@ == other@),
    {
        self.id == other.id
    }
}

/// Errors returned by the contract entry points.
#[derive(Clone, Copy, Debug, PartialEq, Eq, Structural)]
pub enum SLAError {
    AlreadyInitialized,
    NotInitialized,
    Unauthorized,
    ConfigNotFound,
    VersionMismatch,
    ContractPaused,
    NoPendingTransfer,
    InvalidThreshold,
    InvalidPenalty,
    InvalidReward,
    InvalidSeverity,
    RetentionLimitOutOfRange,
}

/// The stable numeric code of each error, as seen by on-chain clients.
pub open spec fn error_code(e: SLAError) -> u32 {
    match e {
        SLAError::AlreadyInitialized => 1,
        SLAError::NotInitialized => 2,
        SLAError::Unauthorized => 3,
        SLAError::ConfigNotFound => 4,
        SLAError::VersionMismatch => 5,
        SLAError::ContractPaused => 6,
        SLAError::NoPendingTransfer => 7,
        SLAError::InvalidThreshold => 8,
        SLAError::InvalidPenalty => 9,
        SLAError::InvalidReward => 10,
        SLAError::InvalidSeverity => 11,
        SLAError::RetentionLimitOutOfRange => 12,
    }
}

impl SLAError {
    /// The stable numeric code of this error.
    pub fn code(&self) -> (c: u32)
        ensures
            c == error_code(*self),
    {
        match self {
            SLAError::AlreadyInitialized => 1,
            SLAError::NotInitialized => 2,
            SLAError::Unauthorized => 3,
            SLAError::ConfigNotFound => 4,
            SLAError::VersionMismatch => 5,
            SLAError::ContractPaused => 6,
            SLAError::NoPendingTransfer => 7,
            SLAError::InvalidThreshold => 8,
            SLAError::InvalidPenalty => 9,
            SLAError::InvalidReward => 10,
            SLAError::InvalidSeverity => 11,
            SLAError::RetentionLimitOutOfRange => 12,
        }
    }
}

/// Per-severity SLA parameters.
#[derive(Clone, Copy, Debug, PartialEq, Eq, Structural)]
pub struct SLAConfig {
    pub threshold_minutes: u32,
    pub penalty_per_minute: i128,
    pub reward_base: i128,
}

/// The outcome of one SLA evaluation.
#[derive(Debug, PartialEq, Eq)]
pub struct SLAResult {
    pub outage_id: Symbol,
    /// "met" or "viol"
    pub status: Symbol,
    pub mttr_minutes: u32,
    pub threshold_minutes: u32,
    /// negative = penalty, positive = reward
    pub amount: i128,
    /// "rew" or "pen"
    pub payment_type: Symbol,
    /// "top", "excel", "good" or "poor"
    pub rating: Symbol,
    /// binds the result to the config table it was evaluated against
    pub config_version_hash: u64,
    /// ledger timestamp at calculation time (0 for audit-mode evaluations)
    pub recorded_at: u64,
}

/// The mathematical content of an [`SLAResult`].
pub struct SLAResultView {
    pub outage_id: Seq<char>,
    pub status: Seq<char>,
    pub mttr_minutes: u32,
    pub threshold_minutes: u32,
    pub amount: int,
    pub payment_type: Seq<char>,
    pub rating: Seq<char>,
    pub config_version_hash: u64,
    pub recorded_at: u64,
}

impl View for SLAResult {
    type V = SLAResultView;

    open spec fn view(&self) -> SLAResultView {
        SLAResultView {
            outage_id: self.outage_id@,
            status: self.status@,
            mttr_minutes: self.mttr_minutes,
            threshold_minutes: self.threshold_minutes,
            amount: self.amount as int,
            payment_type: self.payment_type@,
            rating: self.rating@,
            config_version_hash: self.config_version_hash,
            recorded_at: self.recorded_at,
        }
    }
}

impl Clone for SLAResult {
    fn clone(&self) -> (res: Self)
        ensures
            res == *self,
    {
        SLAResult {
            outage_id: self.outage_id.clone(),
            status: self.status.clone(),
            mttr_minutes: self.mttr_minutes,
            threshold_minutes: self.threshold_minutes,
            amount: self.amount,
            payment_type: self.payment_type.clone(),
            rating: self.rating.clone(),
            config_version_hash: self.config_version_hash,
            recorded_at: self.recorded_at,
        }
    }
}

/// One severity together with its config.
#[derive(Debug, PartialEq, Eq)]
pub struct SLAConfigEntry {
    pub severity: Symbol,
    pub config: SLAConfig,
}

impl Clone for SLAConfigEntry {
    fn clone(&self) -> (res: Self)
        ensures
            res == *self,
    {
        SLAConfigEntry { severity: self.severity.clone(), config: self.config }
    }
}

/// A deterministic snapshot of all configs in canonical severity order.
#[derive(Debug, PartialEq, Eq)]
pub struct SLAConfigSnapshot {
    pub version: Symbol,
    pub entries: Vec<SLAConfigEntry>,
}

/// The symbols a result may carry, published for backend decoders.
#[derive(Debug, PartialEq, Eq)]
pub struct SLAResultSchema {
    pub version: Symbol,
    pub schema_version: u32,
    pub status_met: Symbol,
    pub status_violated: Symbol,
    pub payment_reward: Symbol,
    pub payment_penalty: Symbol,
    pub rating_exceptional: Symbol,
    pub rating_excellent: Symbol,
    pub rating_good: Symbol,
    pub rating_poor: Symbol,
    pub includes_config_version_hash: bool,
}

/// Static capabilities of the contract, for backend introspection.
#[derive(Debug, PartialEq, Eq)]
pub struct ContractMetadata {
    pub contract_name: Symbol,
    pub storage_version: u32,
    pub result_schema_version: u32,
    pub supported_severities: Vec<Symbol>,
    pub features: Vec<Symbol>,
}

/// Cumulative SLA performance metrics.
#[derive(Clone, Copy, Debug, PartialEq, Eq, Structural)]
pub struct SLAStats {
    pub total_calculations: u64,
    pub total_violations: u64,
    /// sum of all reward amounts paid out
    pub total_rewards: i128,
    /// sum of all penalty amounts, stored positive
    pub total_penalties: i128,
}

/// Metadata stored while the contract is paused.
#[derive(Debug, PartialEq, Eq)]
pub struct PauseInfo {
    pub reason: String,
    /// ledger timestamp (seconds)
    pub paused_at: u64,
}

/// The mathematical content of a [`PauseInfo`].
pub struct PauseInfoView {
    pub reason: Seq<char>,
    pub paused_at: u64,
}

impl View for PauseInfo {
    type V = PauseInfoView;

    open spec fn view(&self) -> PauseInfoView {
        PauseInfoView { reason: self.reason@, paused_at: self.paused_at }
    }
}

impl Clone for PauseInfo {
    fn clone(&self) -> (res: Self)
        ensures
            res == *self,
    {
        PauseInfo { reason: self.reason.clone(), paused_at: self.paused_at }
    }
}

/// Storage version and migration posture for off-chain consumers.
#[derive(Clone, Copy, Debug, PartialEq, Eq, Structural)]
pub struct StorageVersionInfo {
    /// The version currently stamped in storage.
    pub stored_version: u32,
    /// The version this contract expects.
    pub expected_version: u32,
    /// True when stored_version != expected_version (migration required).
    pub needs_migration: bool,
}

} // verus!

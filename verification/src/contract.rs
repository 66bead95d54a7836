//! The SLA calculator contract: its instance storage, the ledger time it
//! observes, the events it has published, and every entry point.
use vstd::prelude::*;
use crate::calc::{computable, compute_result};
use crate::config::{
    canonical_severities, canonical_severity_index, compute_config_version_hash,
    lemma_severity_indices, table_slot, validate_config, ConfigTable, MAX_HISTORY_SIZE,
    RESULT_SCHEMA_VERSION, STORAGE_VERSION,
};
use crate::events::{ContractEvent, EventView};
use crate::model::{
    entries_for_outage, entries_since, latest_for_outage, lemma_entries_since_len,
    saturating_sub, stats_incremented, ContractView,
};
use crate::types::{
    Address, ContractMetadata, PauseInfo, PauseInfoView, SLAConfig, SLAConfigEntry,
    SLAConfigSnapshot, SLAError, SLAResult, SLAResultSchema, SLAResultView, SLAStats,
    StorageVersionInfo, Symbol,
};

verus! {

/// The contract as one deployment sees it: a field per storage key, the
/// current ledger timestamp, and the events published so far (oldest
/// first).
#[derive(Debug)]
pub struct SLACalculatorContract {
    pub admin: Option<Address>,
    pub operator: Option<Address>,
    pub pending_admin: Option<Address>,
    pub pending_operator: Option<Address>,
    pub configs: Option<ConfigTable>,
    pub paused: bool,
    pub pause_info: Option<PauseInfo>,
    pub stats: Option<SLAStats>,
    pub history: Vec<SLAResult>,
    pub storage_version: Option<u32>,
    pub retention_limit: u32,
    pub ledger_timestamp: u64,
    pub events: Vec<ContractEvent>,
}

/// The text of an optional address.
pub open spec fn opt_address_view(a: Option<Address>) -> Option<Seq<char>> {
    match a {
        Some(x) => Some(x@),
        None => None,
    }
}

/// The content of an optional pause record.
pub open spec fn opt_pause_view(p: Option<PauseInfo>) -> Option<PauseInfoView> {
    match p {
        Some(x) => Some(x@),
        None => None,
    }
}

/// The content of a sequence of results.
pub open spec fn results_view(h: Seq<SLAResult>) -> Seq<SLAResultView> {
    h.map_values(|r: SLAResult| r@)
}

/// The content of a sequence of events.
pub open spec fn events_view(e: Seq<ContractEvent>) -> Seq<EventView> {
    e.map_values(|x: ContractEvent| x@)
}

/// The content of an address-or-error outcome.
pub open spec fn address_outcome(r: Result<Address, SLAError>) -> Result<Seq<char>, SLAError> {
    match r {
        Ok(a) => Ok(a@),
        Err(e) => Err(e),
    }
}

/// The content of an optional-address-or-error outcome.
pub open spec fn opt_address_outcome(r: Result<Option<Address>, SLAError>) -> Result<
    Option<Seq<char>>,
    SLAError,
> {
    match r {
        Ok(a) => Ok(opt_address_view(a)),
        Err(e) => Err(e),
    }
}

/// The content of a result-or-error outcome.
pub open spec fn result_outcome(r: Result<SLAResult, SLAError>) -> Result<SLAResultView, SLAError> {
    match r {
        Ok(x) => Ok(x@),
        Err(e) => Err(e),
    }
}

/// The content of a list-of-results-or-error outcome.
pub open spec fn results_outcome(r: Result<Vec<SLAResult>, SLAError>) -> Result<
    Seq<SLAResultView>,
    SLAError,
> {
    match r {
        Ok(x) => Ok(results_view(x@)),
        Err(e) => Err(e),
    }
}

impl View for SLACalculatorContract {
    type V = ContractView;

    open spec fn view(&self) -> ContractView {
        ContractView {
            admin: opt_address_view(self.admin),
            operator: opt_address_view(self.operator),
            pending_admin: opt_address_view(self.pending_admin),
            pending_operator: opt_address_view(self.pending_operator),
            configs: self.configs,
            paused: self.paused,
            pause_info: opt_pause_view(self.pause_info),
            stats: self.stats,
            history: results_view(self.history@),
            storage_version: self.storage_version,
            retention_limit: self.retention_limit,
            ledger_timestamp: self.ledger_timestamp,
            events: events_view(self.events@),
        }
    }
}

fn clone_opt_address(a: &Option<Address>) -> (r: Option<Address>)
    ensures
        r == *a,
{
    match a {
        Some(x) => Some(x.clone()),
        None => None,
    }
}

impl SLACalculatorContract {
    /// A freshly deployed contract: empty storage, ledger time 0, no events.
    pub fn new() -> (c: SLACalculatorContract)
        ensures
            c@.admin is None,
            c@.operator is None,
            c@.pending_admin is None,
            c@.pending_operator is None,
            c@.configs is None,
            !c@.paused,
            c@.pause_info is None,
            c@.stats is None,
            c@.history.len() == 0,
            c@.storage_version is None,
            c@.retention_limit == MAX_HISTORY_SIZE,
            c@.ledger_timestamp == 0,
            c@.events.len() == 0,
    {
        SLACalculatorContract {
            admin: None,
            operator: None,
            pending_admin: None,
            pending_operator: None,
            configs: None,
            paused: false,
            pause_info: None,
            stats: None,
            history: Vec::new(),
            storage_version: None,
            retention_limit: MAX_HISTORY_SIZE,
            ledger_timestamp: 0,
            events: Vec::new(),
        }
    }

    // ---------------------------------------------------------------
    // Guards and helpers
    // ---------------------------------------------------------------

    fn emit(&mut self, e: ContractEvent)
        ensures
            final(self)@ == old(self)@.emit(e@),
    {
        self.events.push(e);
        proof {
            assert(events_view(self.events@) =~= events_view(old(self).events@).push(e@));
        }
    }

    fn check_version(&self) -> (r: Result<(), SLAError>)
        ensures
            r == self@.version_check(),
    {
        match self.storage_version {
            None => Err(SLAError::NotInitialized),
            Some(v) => if v != STORAGE_VERSION {
                Err(SLAError::VersionMismatch)
            } else {
                Ok(())
            },
        }
    }

    fn require_admin(&self, caller: &Address) -> (r: Result<(), SLAError>)
        ensures
            r == self@.admin_check(caller@),
    {
        match &self.admin {
            None => Err(SLAError::NotInitialized),
            Some(a) => if !caller.equals(a) {
                Err(SLAError::Unauthorized)
            } else {
                Ok(())
            },
        }
    }

    fn require_operator(&self, caller: &Address) -> (r: Result<(), SLAError>)
        ensures
            r == self@.operator_check(caller@),
    {
        match &self.operator {
            None => Err(SLAError::NotInitialized),
            Some(o) => if !caller.equals(o) {
                Err(SLAError::Unauthorized)
            } else {
                Ok(())
            },
        }
    }

    fn require_not_paused(&self) -> (r: Result<(), SLAError>)
        ensures
            r is Ok <==> !self@.paused,
            r is Err ==> r == Err::<(), SLAError>(SLAError::ContractPaused),
    {
        if self.paused {
            Err(SLAError::ContractPaused)
        } else {
            Ok(())
        }
    }

    fn admin_guard(&self, caller: &Address) -> (r: Result<(), SLAError>)
        ensures
            r == self@.admin_guard(caller@),
    {
        if let Err(e) = self.check_version() {
            return Err(e);
        }
        self.require_admin(caller)
    }

    fn load_config(&self, severity: &Symbol) -> (r: Result<SLAConfig, SLAError>)
        ensures
            r == self@.config_lookup(severity@),
    {
        match &self.configs {
            None => Err(SLAError::NotInitialized),
            Some(t) => match t.lookup(severity) {
                Some(c) => Ok(c),
                None => Err(SLAError::ConfigNotFound),
            },
        }
    }

    // ---------------------------------------------------------------
    // Initialisation and migration
    // ---------------------------------------------------------------

    /// Deploys the roles and defaults: `admin` may update config, pause and
    /// assign roles; `operator` may calculate. Installs the default config
    /// table (critical 15/100/750, high 30/50/750, medium 60/25/750, low
    /// 120/10/600), zeroed stats, an empty history, the unpaused flag and
    /// the current storage version. Fails with `AlreadyInitialized` once the
    /// store was initialized: while an admin or a schema version is stored
    /// (so renouncing the admin does not reopen initialization).
    pub fn initialize(&mut self, admin: Address, operator: Address) -> (r: Result<(), SLAError>)
        ensures
            (final(self)@, r) == old(self)@.initialize(admin@, operator@),
    {
        if self.admin.is_some() || self.storage_version.is_some() {
            return Err(SLAError::AlreadyInitialized);
        }
        self.admin = Some(admin);
        self.operator = Some(operator);
        self.paused = false;
        self.stats = Some(
            SLAStats { total_calculations: 0, total_violations: 0, total_rewards: 0, total_penalties: 0 },
        );
        self.history = Vec::new();
        self.configs = Some(ConfigTable::defaults());
        self.storage_version = Some(STORAGE_VERSION);
        proof {
            assert(results_view(self.history@) =~= Seq::<SLAResultView>::empty());
        }
        Ok(())
    }

    /// Brings storage from an older schema version to the current one
    /// (admin only, without the version check). Already current: no-op.
    /// A version newer than this contract knows: `VersionMismatch`,
    /// nothing changed. An unversioned store is stamped with version 1.
    pub fn migrate(&mut self, caller: &Address) -> (r: Result<(), SLAError>)
        ensures
            (final(self)@, r) == old(self)@.migrate(caller@),
    {
        if let Err(e) = self.require_admin(caller) {
            return Err(e);
        }
        let stored: u32 = match self.storage_version {
            Some(v) => v,
            None => 0,
        };
        if stored == STORAGE_VERSION {
            return Ok(());
        }
        if stored > STORAGE_VERSION {
            return Err(SLAError::VersionMismatch);
        }
        let mut current = stored;
        if current == 0 {
            self.storage_version = Some(1);
            current = 1;
        }
        if current != STORAGE_VERSION {
            return Err(SLAError::VersionMismatch);
        }
        Ok(())
    }

    // ---------------------------------------------------------------
    // Role queries and role management
    // ---------------------------------------------------------------

    /// The current admin.
    pub fn get_admin(&self) -> (r: Result<Address, SLAError>)
        ensures
            address_outcome(r) == self@.get_admin(),
    {
        if let Err(e) = self.check_version() {
            return Err(e);
        }
        match &self.admin {
            Some(a) => Ok(a.clone()),
            None => Err(SLAError::NotInitialized),
        }
    }

    /// The current operator.
    pub fn get_operator(&self) -> (r: Result<Address, SLAError>)
        ensures
            address_outcome(r) == self@.get_operator(),
    {
        if let Err(e) = self.check_version() {
            return Err(e);
        }
        match &self.operator {
            Some(o) => Ok(o.clone()),
            None => Err(SLAError::NotInitialized),
        }
    }

    /// Replaces the operator (admin only); publishes `op_set`.
    pub fn set_operator(&mut self, caller: &Address, new_operator: Address) -> (r: Result<
        (),
        SLAError,
    >)
        ensures
            (final(self)@, r) == old(self)@.set_operator(caller@, new_operator@),
    {
        if let Err(e) = self.admin_guard(caller) {
            return Err(e);
        }
        let ev = ContractEvent::OperatorSet { caller: caller.clone(), new_operator: new_operator.clone() };
        self.operator = Some(new_operator);
        self.emit(ev);
        Ok(())
    }

    /// Proposes a new admin (admin only), replacing any earlier proposal;
    /// publishes `adm_prop`.
    pub fn propose_admin(&mut self, caller: &Address, new_admin: Address) -> (r: Result<
        (),
        SLAError,
    >)
        ensures
            (final(self)@, r) == old(self)@.propose_admin(caller@, new_admin@),
    {
        if let Err(e) = self.admin_guard(caller) {
            return Err(e);
        }
        let ev = ContractEvent::AdminProposed { caller: caller.clone(), new_admin: new_admin.clone() };
        self.pending_admin = Some(new_admin);
        self.emit(ev);
        Ok(())
    }

    /// Accepts the pending admin proposal; the caller must be the proposed
    /// admin. On success the caller is admin and the proposal is cleared;
    /// publishes `adm_acc`.
    pub fn accept_admin(&mut self, caller: &Address) -> (r: Result<(), SLAError>)
        ensures
            (final(self)@, r) == old(self)@.accept_admin(caller@),
    {
        if let Err(e) = self.check_version() {
            return Err(e);
        }
        match &self.pending_admin {
            None => {
                return Err(SLAError::NoPendingTransfer);
            },
            Some(p) => {
                if !caller.equals(p) {
                    return Err(SLAError::Unauthorized);
                }
            },
        }
        self.admin = Some(caller.clone());
        self.pending_admin = None;
        self.emit(ContractEvent::AdminAccepted { caller: caller.clone() });
        Ok(())
    }

    /// Cancels the pending admin proposal (admin only); `NoPendingTransfer`
    /// when there is none. Publishes `adm_can`.
    pub fn cancel_admin_proposal(&mut self, caller: &Address) -> (r: Result<(), SLAError>)
        ensures
            (final(self)@, r) == old(self)@.cancel_admin_proposal(caller@),
    {
        if let Err(e) = self.admin_guard(caller) {
            return Err(e);
        }
        if self.pending_admin.is_none() {
            return Err(SLAError::NoPendingTransfer);
        }
        self.pending_admin = None;
        self.emit(ContractEvent::AdminProposalCancelled { caller: caller.clone() });
        Ok(())
    }

    /// The pending admin, if any.
    pub fn get_pending_admin(&self) -> (r: Result<Option<Address>, SLAError>)
        ensures
            opt_address_outcome(r) == self@.get_pending_admin(),
    {
        if let Err(e) = self.check_version() {
            return Err(e);
        }
        Ok(clone_opt_address(&self.pending_admin))
    }

    /// Proposes a new operator (admin only), replacing any earlier
    /// proposal; publishes `op_prop`.
    pub fn propose_operator(&mut self, caller: &Address, new_operator: Address) -> (r: Result<
        (),
        SLAError,
    >)
        ensures
            (final(self)@, r) == old(self)@.propose_operator(caller@, new_operator@),
    {
        if let Err(e) = self.admin_guard(caller) {
            return Err(e);
        }
        let ev = ContractEvent::OperatorProposed {
            caller: caller.clone(),
            new_operator: new_operator.clone(),
        };
        self.pending_operator = Some(new_operator);
        self.emit(ev);
        Ok(())
    }

    /// Accepts the pending operator proposal; the caller must be the
    /// proposed operator. Publishes `op_acc`.
    pub fn accept_operator(&mut self, caller: &Address) -> (r: Result<(), SLAError>)
        ensures
            (final(self)@, r) == old(self)@.accept_operator(caller@),
    {
        if let Err(e) = self.check_version() {
            return Err(e);
        }
        match &self.pending_operator {
            None => {
                return Err(SLAError::NoPendingTransfer);
            },
            Some(p) => {
                if !caller.equals(p) {
                    return Err(SLAError::Unauthorized);
                }
            },
        }
        self.operator = Some(caller.clone());
        self.pending_operator = None;
        self.emit(ContractEvent::OperatorAccepted { caller: caller.clone() });
        Ok(())
    }

    /// Cancels the pending operator proposal (admin only);
    /// `NoPendingTransfer` when there is none. Publishes `op_can`.
    pub fn cancel_operator_proposal(&mut self, caller: &Address) -> (r: Result<(), SLAError>)
        ensures
            (final(self)@, r) == old(self)@.cancel_operator_proposal(caller@),
    {
        if let Err(e) = self.admin_guard(caller) {
            return Err(e);
        }
        if self.pending_operator.is_none() {
            return Err(SLAError::NoPendingTransfer);
        }
        self.pending_operator = None;
        self.emit(ContractEvent::OperatorProposalCancelled { caller: caller.clone() });
        Ok(())
    }

    /// The pending operator, if any.
    pub fn get_pending_operator(&self) -> (r: Result<Option<Address>, SLAError>)
        ensures
            opt_address_outcome(r) == self@.get_pending_operator(),
    {
        if let Err(e) = self.check_version() {
            return Err(e);
        }
        Ok(clone_opt_address(&self.pending_operator))
    }

    // ---------------------------------------------------------------
    // Pause
    // ---------------------------------------------------------------

    /// Pauses the contract (admin only), recording the reason and the
    /// current ledger timestamp; `calculate_sla` is blocked until unpaused.
    /// Publishes `paused`.
    pub fn pause(&mut self, caller: &Address, reason: String) -> (r: Result<(), SLAError>)
        ensures
            (final(self)@, r) == old(self)@.pause(caller@, reason@),
    {
        if let Err(e) = self.admin_guard(caller) {
            return Err(e);
        }
        let paused_at = self.ledger_timestamp;
        self.paused = true;
        self.pause_info = Some(PauseInfo { reason, paused_at });
        self.emit(ContractEvent::Paused { caller: caller.clone() });
        Ok(())
    }

    /// Unpauses the contract (admin only) and clears the pause record;
    /// publishes `unpause`.
    pub fn unpause(&mut self, caller: &Address) -> (r: Result<(), SLAError>)
        ensures
            (final(self)@, r) == old(self)@.unpause(caller@),
    {
        if let Err(e) = self.admin_guard(caller) {
            return Err(e);
        }
        self.paused = false;
        self.pause_info = None;
        self.emit(ContractEvent::Unpaused { caller: caller.clone() });
        Ok(())
    }

    /// Whether the contract is paused.
    pub fn is_paused(&self) -> (r: Result<bool, SLAError>)
        ensures
            r == self@.is_paused(),
    {
        if let Err(e) = self.check_version() {
            return Err(e);
        }
        Ok(self.paused)
    }

    /// The pause record (reason and timestamp), if one is stored.
    pub fn get_pause_info(&self) -> (r: Result<Option<PauseInfo>, SLAError>)
        ensures
            match r {
                Ok(p) => self@.get_pause_info() == Ok::<Option<PauseInfoView>, SLAError>(
                    opt_pause_view(p),
                ),
                Err(e) => self@.get_pause_info() == Err::<Option<PauseInfoView>, SLAError>(e),
            },
    {
        if let Err(e) = self.check_version() {
            return Err(e);
        }
        match &self.pause_info {
            Some(p) => Ok(Some(p.clone())),
            None => Ok(None),
        }
    }

    // ---------------------------------------------------------------
    // Config management
    // ---------------------------------------------------------------

    /// Replaces the config of one severity (admin only) after validating
    /// it; publishes `cfg_upd` with (threshold, penalty, reward). A rejected
    /// config leaves every severity unchanged.
    pub fn set_config(
        &mut self,
        caller: &Address,
        severity: Symbol,
        threshold_minutes: u32,
        penalty_per_minute: i128,
        reward_base: i128,
    ) -> (r: Result<(), SLAError>)
        ensures
            (final(self)@, r) == old(self)@.set_config(
                caller@,
                severity@,
                threshold_minutes,
                penalty_per_minute,
                reward_base,
            ),
    {
        if let Err(e) = self.admin_guard(caller) {
            return Err(e);
        }
        if let Err(e) = validate_config(&severity, threshold_minutes, penalty_per_minute, reward_base) {
            return Err(e);
        }
        let idx = match canonical_severity_index(&severity) {
            Some(i) => i,
            None => {
                return Err(SLAError::InvalidSeverity);
            },
        };
        let mut table = match self.configs {
            Some(t) => t,
            None => {
                return Err(SLAError::NotInitialized);
            },
        };
        table.set_slot(idx, SLAConfig { threshold_minutes, penalty_per_minute, reward_base });
        self.configs = Some(table);
        self.emit(
            ContractEvent::ConfigUpdated { severity, threshold_minutes, penalty_per_minute, reward_base },
        );
        Ok(())
    }

    /// The config of a severity; `ConfigNotFound` for any other symbol.
    pub fn get_config(&self, severity: &Symbol) -> (r: Result<SLAConfig, SLAError>)
        ensures
            r == self@.get_config(severity@),
    {
        if let Err(e) = self.check_version() {
            return Err(e);
        }
        self.load_config(severity)
    }

    /// The stored config map, one entry per severity, in key order
    /// (critical, high, low, medium).
    pub fn list_configs(&self) -> (r: Result<Vec<SLAConfigEntry>, SLAError>)
        ensures
            r is Ok <==> (self@.version_check() is Ok && self@.configs is Some),
            r is Err ==> r == Err::<Vec<SLAConfigEntry>, SLAError>(
                if self@.version_check() is Err { self@.version_check()->Err_0 } else { SLAError::NotInitialized },
            ),
            r matches Ok(v) ==> {
                let t = self@.configs.unwrap();
                &&& v@.len() == 4
                &&& v@[0].severity@ == "critical"@ && v@[0].config == t.critical
                &&& v@[1].severity@ == "high"@ && v@[1].config == t.high
                &&& v@[2].severity@ == "low"@ && v@[2].config == t.low
                &&& v@[3].severity@ == "medium"@ && v@[3].config == t.medium
            },
    {
        if let Err(e) = self.check_version() {
            return Err(e);
        }
        let t = match self.configs {
            Some(t) => t,
            None => {
                return Err(SLAError::NotInitialized);
            },
        };
        let mut v: Vec<SLAConfigEntry> = Vec::new();
        v.push(SLAConfigEntry { severity: Symbol::new("critical"), config: t.critical });
        v.push(SLAConfigEntry { severity: Symbol::new("high"), config: t.high });
        v.push(SLAConfigEntry { severity: Symbol::new("low"), config: t.low });
        v.push(SLAConfigEntry { severity: Symbol::new("medium"), config: t.medium });
        Ok(v)
    }

    /// A deterministic snapshot (version "v1") of every config in canonical
    /// order: critical, high, medium, low.
    pub fn get_config_snapshot(&self) -> (r: Result<SLAConfigSnapshot, SLAError>)
        ensures
            r is Ok <==> (self@.version_check() is Ok && self@.configs is Some),
            r is Err ==> r == Err::<SLAConfigSnapshot, SLAError>(
                if self@.version_check() is Err { self@.version_check()->Err_0 } else { SLAError::NotInitialized },
            ),
            r matches Ok(s) ==> {
                let t = self@.configs.unwrap();
                &&& s.version@ == "v1"@
                &&& s.entries@.len() == 4
                &&& s.entries@[0].severity@ == "critical"@ && s.entries@[0].config == t.critical
                &&& s.entries@[1].severity@ == "high"@ && s.entries@[1].config == t.high
                &&& s.entries@[2].severity@ == "medium"@ && s.entries@[2].config == t.medium
                &&& s.entries@[3].severity@ == "low"@ && s.entries@[3].config == t.low
            },
    {
        if let Err(e) = self.check_version() {
            return Err(e);
        }
        let severities = canonical_severities();
        let mut entries: Vec<SLAConfigEntry> = Vec::new();
        let mut i: usize = 0;
        while i < 4
            invariant
                0 <= i <= 4,
                severities@.len() == 4,
                severities@[0]@ == "critical"@,
                severities@[1]@ == "high"@,
                severities@[2]@ == "medium"@,
                severities@[3]@ == "low"@,
                self@.version_check() is Ok,
                i > 0 ==> self@.configs is Some,
                entries@.len() == i,
                forall|j: int|
                    0 <= j < i ==> #[trigger] entries@[j].severity@ == severities@[j]@
                        && entries@[j].config == table_slot(self@.configs.unwrap(), j),
            decreases 4 - i,
        {
            let severity = severities[i].clone();
            proof {
                lemma_severity_indices();
            }
            let config = match self.load_config(&severity) {
                Ok(c) => c,
                Err(e) => {
                    return Err(e);
                },
            };
            entries.push(SLAConfigEntry { severity, config });
            i = i + 1;
        }
        Ok(SLAConfigSnapshot { version: Symbol::new("v1"), entries })
    }

    /// The deterministic hash of the whole config table; equal tables give
    /// equal hashes.
    pub fn get_config_version_hash(&self) -> (r: Result<u64, SLAError>)
        ensures
            r == self@.get_config_version_hash(),
    {
        if let Err(e) = self.check_version() {
            return Err(e);
        }
        match &self.configs {
            None => Err(SLAError::NotInitialized),
            Some(t) => Ok(compute_config_version_hash(t)),
        }
    }

    /// The number of severity tiers configured (the size of the config map).
    pub fn get_config_count(&self) -> (r: Result<u32, SLAError>)
        ensures
            r == self@.get_config_count(),
    {
        if let Err(e) = self.check_version() {
            return Err(e);
        }
        match &self.configs {
            None => Err(SLAError::NotInitialized),
            Some(_) => Ok(4),
        }
    }

    // ---------------------------------------------------------------
    // Published schema and capabilities
    // ---------------------------------------------------------------

    /// The symbols a result may carry (layout version "v1", schema version 1).
    pub fn get_result_schema(&self) -> (r: Result<SLAResultSchema, SLAError>)
        ensures
            r is Err ==> r == Err::<SLAResultSchema, SLAError>(self@.version_check()->Err_0),
            r is Ok <==> self@.version_check() is Ok,
            r matches Ok(s) ==> {
                &&& s.version@ == "v1"@
                &&& s.schema_version == RESULT_SCHEMA_VERSION
                &&& s.status_met@ == "met"@
                &&& s.status_violated@ == "viol"@
                &&& s.payment_reward@ == "rew"@
                &&& s.payment_penalty@ == "pen"@
                &&& s.rating_exceptional@ == "top"@
                &&& s.rating_excellent@ == "excel"@
                &&& s.rating_good@ == "good"@
                &&& s.rating_poor@ == "poor"@
                &&& s.includes_config_version_hash
            },
    {
        if let Err(e) = self.check_version() {
            return Err(e);
        }
        Ok(SLAResultSchema {
            version: Symbol::new("v1"),
            schema_version: RESULT_SCHEMA_VERSION,
            status_met: Symbol::new("met"),
            status_violated: Symbol::new("viol"),
            payment_reward: Symbol::new("rew"),
            payment_penalty: Symbol::new("pen"),
            rating_exceptional: Symbol::new("top"),
            rating_excellent: Symbol::new("excel"),
            rating_good: Symbol::new("good"),
            rating_poor: Symbol::new("poor"),
            includes_config_version_hash: true,
        })
    }

    /// Static contract capabilities: name "sla_calc", storage and result
    /// schema versions, the severities in canonical order and the features
    /// calc, audit, pause, stats, history.
    pub fn get_contract_metadata(&self) -> (r: Result<ContractMetadata, SLAError>)
        ensures
            r is Err ==> r == Err::<ContractMetadata, SLAError>(self@.version_check()->Err_0),
            r is Ok <==> self@.version_check() is Ok,
            r matches Ok(m) ==> {
                &&& m.contract_name@ == "sla_calc"@
                &&& m.storage_version == STORAGE_VERSION
                &&& m.result_schema_version == RESULT_SCHEMA_VERSION
                &&& m.supported_severities@.len() == 4
                &&& m.supported_severities@[0]@ == "critical"@
                &&& m.supported_severities@[1]@ == "high"@
                &&& m.supported_severities@[2]@ == "medium"@
                &&& m.supported_severities@[3]@ == "low"@
                &&& m.features@.len() == 5
                &&& m.features@[0]@ == "calc"@
                &&& m.features@[1]@ == "audit"@
                &&& m.features@[2]@ == "pause"@
                &&& m.features@[3]@ == "stats"@
                &&& m.features@[4]@ == "history"@
            },
    {
        if let Err(e) = self.check_version() {
            return Err(e);
        }
        let severities = canonical_severities();
        let mut features: Vec<Symbol> = Vec::new();
        features.push(Symbol::new("calc"));
        features.push(Symbol::new("audit"));
        features.push(Symbol::new("pause"));
        features.push(Symbol::new("stats"));
        features.push(Symbol::new("history"));
        Ok(ContractMetadata {
            contract_name: Symbol::new("sla_calc"),
            storage_version: STORAGE_VERSION,
            result_schema_version: RESULT_SCHEMA_VERSION,
            supported_severities: severities,
            features,
        })
    }

    /// The cumulative statistics.
    pub fn get_stats(&self) -> (r: Result<SLAStats, SLAError>)
        ensures
            r == self@.get_stats(),
    {
        if let Err(e) = self.check_version() {
            return Err(e);
        }
        match self.stats {
            Some(st) => Ok(st),
            None => Err(SLAError::NotInitialized),
        }
    }

    // ---------------------------------------------------------------
    // SLA calculation
    // ---------------------------------------------------------------

    /// Audit mode: evaluates an outage against the current config without
    /// the pause or operator checks, without changing any state and
    /// without publishing events. The result has `recorded_at == 0`.
    pub fn calculate_sla_view(&self, outage_id: Symbol, severity: &Symbol, mttr_minutes: u32) -> (r:
        Result<SLAResult, SLAError>)
        requires
            !self@.view_overflows(severity@, mttr_minutes),
        ensures
            result_outcome(r) == self@.calculate_sla_view(outage_id@, severity@, mttr_minutes),
    {
        if let Err(e) = self.check_version() {
            return Err(e);
        }
        let cfg = match self.load_config(severity) {
            Ok(c) => c,
            Err(e) => {
                return Err(e);
            },
        };
        let config_version_hash = match &self.configs {
            Some(t) => compute_config_version_hash(t),
            None => {
                return Err(SLAError::NotInitialized);
            },
        };
        Ok(compute_result(outage_id, mttr_minutes, &cfg, config_version_hash, 0))
    }

    /// Whether `calculate_sla_view` with these arguments stays within the
    /// machine integer range (it does whenever the stored config is one
    /// that `set_config` accepts).
    pub fn view_fits(&self, severity: &Symbol, mttr_minutes: u32) -> (b: bool)
        ensures
            b == !self@.view_overflows(severity@, mttr_minutes),
    {
        if self.check_version().is_err() {
            return true;
        }
        match self.load_config(severity) {
            Err(_) => true,
            Ok(cfg) => computable(&cfg, mttr_minutes).is_some(),
        }
    }

    /// Whether `calculate_sla` with these arguments stays within the
    /// machine integer range, for the evaluation and for the statistics.
    pub fn calculation_fits(&self, caller: &Address, severity: &Symbol, mttr_minutes: u32) -> (b:
        bool)
        ensures
            b == !self@.calculate_overflows(caller@, severity@, mttr_minutes),
    {
        let cfg = match self.calculate_guard(caller, severity) {
            Err(_) => {
                return true;
            },
            Ok(c) => c,
        };
        let amount = match computable(&cfg, mttr_minutes) {
            None => {
                return false;
            },
            Some(a) => a,
        };
        let st = match self.stats {
            Some(st) => st,
            None => SLAStats {
                total_calculations: 0,
                total_violations: 0,
                total_rewards: 0,
                total_penalties: 0,
            },
        };
        if st.total_calculations == u64::MAX {
            return false;
        }
        if mttr_minutes > cfg.threshold_minutes {
            st.total_violations < u64::MAX && st.total_penalties.checked_sub(amount).is_some()
        } else {
            st.total_rewards.checked_add(amount).is_some()
        }
    }

    fn calculate_guard(&self, caller: &Address, severity: &Symbol) -> (r: Result<SLAConfig, SLAError>)
        ensures
            r == self@.calculate_guard(caller@, severity@),
    {
        if let Err(e) = self.check_version() {
            return Err(e);
        }
        if let Err(e) = self.require_not_paused() {
            return Err(e);
        }
        if let Err(e) = self.require_operator(caller) {
            return Err(e);
        }
        self.load_config(severity)
    }

    /// Read-modify-write of the statistics (zeroed when absent).
    fn increment_stats(&mut self, met: bool, reward: i128, penalty: i128)
        requires
            old(self)@.stats_or_zero().total_calculations + 1 <= u64::MAX,
            met ==> old(self)@.stats_or_zero().total_rewards + reward <= i128::MAX,
            met ==> old(self)@.stats_or_zero().total_rewards + reward >= i128::MIN,
            !met ==> old(self)@.stats_or_zero().total_violations + 1 <= u64::MAX,
            !met ==> old(self)@.stats_or_zero().total_penalties + penalty <= i128::MAX,
            !met ==> old(self)@.stats_or_zero().total_penalties + penalty >= i128::MIN,
        ensures
            final(self)@ == (ContractView {
                stats: Some(stats_incremented(old(self)@.stats_or_zero(), met, reward as int, penalty as int)),
                ..old(self)@
            }),
    {
        let mut stats = match self.stats {
            Some(st) => st,
            None => SLAStats {
                total_calculations: 0,
                total_violations: 0,
                total_rewards: 0,
                total_penalties: 0,
            },
        };
        stats.total_calculations = stats.total_calculations + 1;
        if met {
            stats.total_rewards = stats.total_rewards + reward;
        } else {
            stats.total_violations = stats.total_violations + 1;
            stats.total_penalties = stats.total_penalties + penalty;
        }
        self.stats = Some(stats);
    }

    /// Publishes `sla_calc` for a result.
    fn publish_sla_event(&mut self, severity: Symbol, result: &SLAResult)
        ensures
            final(self)@ == old(self)@.emit(
                EventView::SlaCalculated {
                    severity: severity@,
                    outage_id: result.outage_id@,
                    status: result.status@,
                    payment_type: result.payment_type@,
                    rating: result.rating@,
                    mttr_minutes: result.mttr_minutes,
                    threshold_minutes: result.threshold_minutes,
                    amount: result.amount as int,
                },
            ),
    {
        self.emit(
            ContractEvent::SlaCalculated {
                severity,
                outage_id: result.outage_id.clone(),
                status: result.status.clone(),
                payment_type: result.payment_type.clone(),
                rating: result.rating.clone(),
                mttr_minutes: result.mttr_minutes,
                threshold_minutes: result.threshold_minutes,
                amount: result.amount,
            },
        );
    }

    /// Evaluates an outage (operator only, blocked while paused), appends
    /// the result to the history under the retention limit (dropping the
    /// oldest entry when the limit is exceeded), updates the statistics,
    /// and publishes `sla_calc` with the severity and the result.
    pub fn calculate_sla(
        &mut self,
        caller: &Address,
        outage_id: Symbol,
        severity: Symbol,
        mttr_minutes: u32,
    ) -> (r: Result<SLAResult, SLAError>)
        requires
            !old(self)@.calculate_overflows(caller@, severity@, mttr_minutes),
        ensures
            (final(self)@, result_outcome(r)) == old(self)@.calculate_sla(
                caller@,
                outage_id@,
                severity@,
                mttr_minutes,
            ),
    {
        let cfg = match self.calculate_guard(caller, &severity) {
            Err(e) => {
                return Err(e);
            },
            Ok(c) => c,
        };
        let config_version_hash = match &self.configs {
            Some(t) => compute_config_version_hash(t),
            None => {
                return Err(SLAError::NotInitialized);
            },
        };
        let result = compute_result(
            outage_id,
            mttr_minutes,
            &cfg,
            config_version_hash,
            self.ledger_timestamp,
        );
        let ghost h0 = results_view(self.history@);
        self.history.push(result.clone());
        proof {
            assert(results_view(self.history@) =~= h0.push(result@));
        }
        if self.history.len() > self.retention_limit as usize {
            let ghost h1 = self.history@;
            self.history.remove(0);
            proof {
                assert(results_view(self.history@) =~= results_view(h1).subrange(
                    1,
                    h1.len() as int,
                ));
            }
        }
        proof {
            reveal_strlit("viol");
            reveal_strlit("met");
            assert("viol"@.len() == 4);
            assert("met"@.len() == 3);
        }
        if result.status.equals(&Symbol::new("viol")) {
            self.increment_stats(false, 0, -result.amount);
        } else {
            self.increment_stats(true, result.amount, 0);
        }
        self.publish_sla_event(severity, &result);
        Ok(result)
    }

    // ---------------------------------------------------------------
    // History, compaction and retention
    // ---------------------------------------------------------------

    fn copy_range(&self, start: usize, end: usize) -> (r: Vec<SLAResult>)
        requires
            start <= end <= self.history@.len(),
        ensures
            r@ == self.history@.subrange(start as int, end as int),
    {
        let mut out: Vec<SLAResult> = Vec::new();
        let mut i = start;
        while i < end
            invariant
                start <= i <= end <= self.history@.len(),
                out@ == self.history@.subrange(start as int, i as int),
            decreases end - i,
        {
            out.push(self.history[i].clone());
            proof {
                assert(out@ =~= self.history@.subrange(start as int, i + 1));
            }
            i = i + 1;
        }
        out
    }

    /// The recorded results, oldest first.
    pub fn get_history(&self) -> (r: Result<Vec<SLAResult>, SLAError>)
        ensures
            results_outcome(r) == self@.get_history(),
    {
        if let Err(e) = self.check_version() {
            return Err(e);
        }
        let out = self.copy_range(0, self.history.len());
        proof {
            assert(self.history@.subrange(0, self.history@.len() as int) =~= self.history@);
        }
        Ok(out)
    }

    /// Keeps only the `keep_latest` most recent entries (admin only). When
    /// entries are removed, publishes `pruned` with (removed, keep_latest).
    pub fn prune_history(&mut self, caller: &Address, keep_latest: u32) -> (r: Result<
        (),
        SLAError,
    >)
        requires
            old(self).history@.len() <= u32::MAX,
        ensures
            (final(self)@, r) == old(self)@.prune_history(caller@, keep_latest),
    {
        if let Err(e) = self.admin_guard(caller) {
            return Err(e);
        }
        let len = self.history.len();
        if len > keep_latest as usize {
            let remove_count = len - keep_latest as usize;
            let ghost h0 = self.history@;
            let tail = self.history.split_off(remove_count);
            self.history = tail;
            proof {
                assert(results_view(self.history@) =~= results_view(h0).subrange(
                    remove_count as int,
                    len as int,
                ));
            }
            self.emit(
                ContractEvent::HistoryPruned {
                    caller: caller.clone(),
                    removed: remove_count as u32,
                    kept: keep_latest,
                },
            );
        }
        Ok(())
    }

    /// Removes the entries recorded before `now - min_age_seconds`
    /// (saturating at 0) (admin only). When entries are removed, publishes
    /// `pruned_a` with (removed, kept).
    pub fn prune_history_by_age(&mut self, caller: &Address, min_age_seconds: u64) -> (r: Result<
        (),
        SLAError,
    >)
        requires
            old(self).history@.len() <= u32::MAX,
        ensures
            (final(self)@, r) == old(self)@.prune_history_by_age(caller@, min_age_seconds),
    {
        if let Err(e) = self.admin_guard(caller) {
            return Err(e);
        }
        let now = self.ledger_timestamp;
        let cutoff = now.saturating_sub(min_age_seconds);
        let ghost hv = results_view(self.history@);
        let mut new_history: Vec<SLAResult> = Vec::new();
        let mut removed: u32 = 0;
        let mut i: usize = 0;
        while i < self.history.len()
            invariant
                i <= self.history@.len() <= u32::MAX,
                hv == results_view(self.history@),
                results_view(new_history@) == entries_since(hv.take(i as int), cutoff),
                removed + new_history@.len() == i,
            decreases self.history@.len() - i,
        {
            let entry = self.history[i].clone();
            proof {
                assert(hv.take(i + 1).drop_last() =~= hv.take(i as int));
                assert(hv.take(i + 1).last() == entry@);
            }
            if entry.recorded_at >= cutoff {
                let ghost before = new_history@;
                new_history.push(entry);
                proof {
                    assert(results_view(new_history@) =~= results_view(before).push(
                        new_history@.last()@,
                    ));
                }
            } else {
                removed = removed + 1;
            }
            i = i + 1;
        }
        proof {
            assert(hv.take(self.history@.len() as int) =~= hv);
            lemma_entries_since_len(hv, cutoff);
        }
        if removed > 0 {
            let kept = new_history.len() as u32;
            self.history = new_history;
            self.emit(ContractEvent::HistoryPrunedByAge { caller: caller.clone(), removed, kept });
        }
        Ok(())
    }

    /// A page of history: at most `limit` entries starting at `offset`
    /// (zero-based, oldest first); empty when `offset` is past the end or
    /// `limit` is 0.
    pub fn get_history_page(&self, offset: u32, limit: u32) -> (r: Result<Vec<SLAResult>, SLAError>)
        requires
            self@.version_check() is Ok && offset < self.history@.len() && limit > 0 ==> offset
                + limit <= u32::MAX,
        ensures
            results_outcome(r) == self@.get_history_page(offset, limit),
    {
        if let Err(e) = self.check_version() {
            return Err(e);
        }
        let len = self.history.len();
        if offset as usize >= len || limit == 0 {
            proof {
                assert(results_view(Seq::<SLAResult>::empty()) =~= Seq::<SLAResultView>::empty());
            }
            return Ok(Vec::new());
        }
        let sum = offset + limit;
        let end: usize = if (sum as usize) < len {
            sum as usize
        } else {
            len
        };
        let out = self.copy_range(offset as usize, end);
        proof {
            assert(results_view(out@) =~= results_view(self.history@).subrange(
                offset as int,
                end as int,
            ));
        }
        Ok(out)
    }

    /// Every entry for an outage, oldest first.
    pub fn get_history_by_outage(&self, outage_id: &Symbol) -> (r: Result<Vec<SLAResult>, SLAError>)
        ensures
            results_outcome(r) == self@.get_history_by_outage(outage_id@),
    {
        if let Err(e) = self.check_version() {
            return Err(e);
        }
        let ghost hv = results_view(self.history@);
        let mut matches: Vec<SLAResult> = Vec::new();
        let mut i: usize = 0;
        while i < self.history.len()
            invariant
                i <= self.history@.len(),
                hv == results_view(self.history@),
                results_view(matches@) == entries_for_outage(hv.take(i as int), outage_id@),
            decreases self.history@.len() - i,
        {
            let entry = self.history[i].clone();
            proof {
                assert(hv.take(i + 1).drop_last() =~= hv.take(i as int));
                assert(hv.take(i + 1).last() == entry@);
            }
            if entry.outage_id.equals(outage_id) {
                let ghost before = matches@;
                matches.push(entry);
                proof {
                    assert(results_view(matches@) =~= results_view(before).push(
                        matches@.last()@,
                    ));
                }
            }
            i = i + 1;
        }
        proof {
            assert(hv.take(self.history@.len() as int) =~= hv);
        }
        Ok(matches)
    }

    /// The most recent entry for an outage, if any.
    pub fn get_latest_by_outage(&self, outage_id: &Symbol) -> (r: Result<
        Option<SLAResult>,
        SLAError,
    >)
        ensures
            match r {
                Ok(None) => self@.get_latest_by_outage(outage_id@) == Ok::<
                    Option<SLAResultView>,
                    SLAError,
                >(None),
                Ok(Some(x)) => self@.get_latest_by_outage(outage_id@) == Ok::<
                    Option<SLAResultView>,
                    SLAError,
                >(Some(x@)),
                Err(e) => self@.get_latest_by_outage(outage_id@) == Err::<
                    Option<SLAResultView>,
                    SLAError,
                >(e),
            },
    {
        if let Err(e) = self.check_version() {
            return Err(e);
        }
        let ghost hv = results_view(self.history@);
        let mut latest: Option<SLAResult> = None;
        let mut i: usize = 0;
        while i < self.history.len()
            invariant
                i <= self.history@.len(),
                hv == results_view(self.history@),
                match latest {
                    None => latest_for_outage(hv.take(i as int), outage_id@) is None,
                    Some(x) => latest_for_outage(hv.take(i as int), outage_id@) == Some(x@),
                },
            decreases self.history@.len() - i,
        {
            let entry = self.history[i].clone();
            proof {
                assert(hv.take(i + 1).drop_last() =~= hv.take(i as int));
                assert(hv.take(i + 1).last() == entry@);
            }
            if entry.outage_id.equals(outage_id) {
                latest = Some(entry);
            }
            i = i + 1;
        }
        proof {
            assert(hv.take(self.history@.len() as int) =~= hv);
        }
        Ok(latest)
    }

    /// Sets the retention limit for `calculate_sla` (admin only); it must
    /// lie in 1..=1000. Existing history is not trimmed.
    pub fn set_retention_limit(&mut self, caller: &Address, limit: u32) -> (r: Result<(), SLAError>)
        ensures
            (final(self)@, r) == old(self)@.set_retention_limit(caller@, limit),
    {
        if let Err(e) = self.admin_guard(caller) {
            return Err(e);
        }
        if limit == 0 || limit > MAX_HISTORY_SIZE {
            return Err(SLAError::RetentionLimitOutOfRange);
        }
        self.retention_limit = limit;
        Ok(())
    }

    /// The retention limit (1000 unless set).
    pub fn get_retention_limit(&self) -> (r: Result<u32, SLAError>)
        ensures
            r == self@.get_retention_limit(),
    {
        if let Err(e) = self.check_version() {
            return Err(e);
        }
        Ok(self.retention_limit)
    }

    /// The stored schema version, without the version check.
    pub fn get_storage_version(&self) -> (r: Result<u32, SLAError>)
        ensures
            r == self@.get_storage_version(),
    {
        match self.storage_version {
            Some(v) => Ok(v),
            None => Err(SLAError::NotInitialized),
        }
    }

    /// The stored version and the migration posture, without the version
    /// check, so it answers even before a migration.
    pub fn get_migration_state(&self) -> (r: Result<StorageVersionInfo, SLAError>)
        ensures
            match self@.storage_version {
                None => r == Err::<StorageVersionInfo, SLAError>(SLAError::NotInitialized),
                Some(v) => r == Ok::<StorageVersionInfo, SLAError>(
                    StorageVersionInfo {
                        stored_version: v,
                        expected_version: STORAGE_VERSION,
                        needs_migration: v != STORAGE_VERSION,
                    },
                ),
            },
    {
        let stored_version = match self.storage_version {
            Some(v) => v,
            None => {
                return Err(SLAError::NotInitialized);
            },
        };
        Ok(StorageVersionInfo {
            stored_version,
            expected_version: STORAGE_VERSION,
            needs_migration: stored_version != STORAGE_VERSION,
        })
    }

    /// Permanently renounces admin authority (admin only): removes the
    /// admin and any pending admin proposal; publishes `adm_ren`.
    pub fn renounce_admin(&mut self, caller: &Address) -> (r: Result<(), SLAError>)
        ensures
            (final(self)@, r) == old(self)@.renounce_admin(caller@),
    {
        if let Err(e) = self.admin_guard(caller) {
            return Err(e);
        }
        self.admin = None;
        self.pending_admin = None;
        self.emit(ContractEvent::AdminRenounced { caller: caller.clone() });
        Ok(())
    }
}

} // verus!

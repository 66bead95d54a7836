//! The abstract state of the contract and the meaning of every entry point
//! as a transition on it.
//!
//! The state mirrors the contract's instance storage (one field per storage
//! key), the ledger timestamp the contract observes, and the log of events
//! published so far.
use vstd::prelude::*;
use crate::calc::{sla_amount, sla_computable, sla_result, sla_violated};
use crate::config::{
    default_table, severity_index, table_hash, table_lookup, table_valid, table_with,
    validation_outcome, ConfigTable, MAX_HISTORY_SIZE, STORAGE_VERSION,
};
use crate::events::EventView;
use crate::types::{PauseInfoView, SLAConfig, SLAError, SLAResultView, SLAStats};

verus! {

/// The abstract contract state.
pub struct ContractView {
    pub admin: Option<Seq<char>>,
    pub operator: Option<Seq<char>>,
    pub pending_admin: Option<Seq<char>>,
    pub pending_operator: Option<Seq<char>>,
    pub configs: Option<ConfigTable>,
    pub paused: bool,
    pub pause_info: Option<PauseInfoView>,
    pub stats: Option<SLAStats>,
    pub history: Seq<SLAResultView>,
    pub storage_version: Option<u32>,
    pub retention_limit: u32,
    pub ledger_timestamp: u64,
    pub events: Seq<EventView>,
}

/// Zeroed statistics.
pub open spec fn zero_stats() -> SLAStats {
    SLAStats { total_calculations: 0, total_violations: 0, total_rewards: 0, total_penalties: 0 }
}

/// Statistics after one more calculation: the met path adds `reward` to
/// the rewards, the violation path counts a violation and adds `penalty`
/// (stored positive) to the penalties.
pub open spec fn stats_incremented(st: SLAStats, met: bool, reward: int, penalty: int) -> SLAStats {
    if met {
        SLAStats {
            total_calculations: (st.total_calculations + 1) as u64,
            total_rewards: (st.total_rewards + reward) as i128,
            ..st
        }
    } else {
        SLAStats {
            total_calculations: (st.total_calculations + 1) as u64,
            total_violations: (st.total_violations + 1) as u64,
            total_penalties: (st.total_penalties + penalty) as i128,
            ..st
        }
    }
}

/// Statistics after recording one evaluation with the given outcome and
/// signed amount.
pub open spec fn stats_after(st: SLAStats, violated: bool, amount: int) -> SLAStats {
    if violated {
        stats_incremented(st, false, 0, -amount)
    } else {
        stats_incremented(st, true, amount, 0)
    }
}

/// Recording one evaluation keeps every counter within its machine type.
pub open spec fn stats_fit(st: SLAStats, violated: bool, amount: int) -> bool {
    &&& st.total_calculations + 1 <= u64::MAX
    &&& if violated {
        &&& st.total_violations + 1 <= u64::MAX
        &&& i128::MIN <= st.total_penalties - amount <= i128::MAX
    } else {
        i128::MIN <= st.total_rewards + amount <= i128::MAX
    }
}

/// History after appending an entry under a retention limit: when the
/// length then exceeds the limit, the oldest entry is dropped.
pub open spec fn history_after_push(
    h: Seq<SLAResultView>,
    r: SLAResultView,
    limit: u32,
) -> Seq<SLAResultView> {
    let h2 = h.push(r);
    if h2.len() > limit {
        h2.subrange(1, h2.len() as int)
    } else {
        h2
    }
}

/// The entries recorded at or after `cutoff`, in order.
pub open spec fn entries_since(h: Seq<SLAResultView>, cutoff: u64) -> Seq<SLAResultView>
    decreases h.len(),
{
    if h.len() == 0 {
        h
    } else {
        let rest = entries_since(h.drop_last(), cutoff);
        if h.last().recorded_at >= cutoff {
            rest.push(h.last())
        } else {
            rest
        }
    }
}

/// Filtering by age never lengthens the history.
pub proof fn lemma_entries_since_len(h: Seq<SLAResultView>, cutoff: u64)
    ensures
        entries_since(h, cutoff).len() <= h.len(),
    decreases h.len(),
{
    if h.len() > 0 {
        lemma_entries_since_len(h.drop_last(), cutoff);
    }
}

/// The entries for an outage, in order.
pub open spec fn entries_for_outage(h: Seq<SLAResultView>, id: Seq<char>) -> Seq<SLAResultView>
    decreases h.len(),
{
    if h.len() == 0 {
        h
    } else {
        let rest = entries_for_outage(h.drop_last(), id);
        if h.last().outage_id == id {
            rest.push(h.last())
        } else {
            rest
        }
    }
}

/// The most recent entry for an outage.
pub open spec fn latest_for_outage(h: Seq<SLAResultView>, id: Seq<char>) -> Option<SLAResultView> {
    let m = entries_for_outage(h, id);
    if m.len() == 0 {
        None
    } else {
        Some(m.last())
    }
}

/// The page of history starting at `offset` with at most `limit` entries.
pub open spec fn history_page(h: Seq<SLAResultView>, offset: u32, limit: u32) -> Seq<SLAResultView> {
    if offset >= h.len() || limit == 0 {
        Seq::empty()
    } else {
        let end = if offset + limit <= h.len() { offset + limit } else { h.len() as int };
        h.subrange(offset as int, end)
    }
}

/// `a - b` saturating at zero.
pub open spec fn saturating_sub(a: u64, b: u64) -> u64 {
    if a >= b {
        (a - b) as u64
    } else {
        0
    }
}

impl ContractView {
    /// The state with one more published event.
    pub open spec fn emit(self, e: EventView) -> ContractView {
        ContractView { events: self.events.push(e), ..self }
    }

    /// The stored schema version must be present and current.
    pub open spec fn version_check(self) -> Result<(), SLAError> {
        match self.storage_version {
            None => Err(SLAError::NotInitialized),
            Some(v) => if v != STORAGE_VERSION {
                Err(SLAError::VersionMismatch)
            } else {
                Ok(())
            },
        }
    }

    /// The caller must be the stored admin.
    pub open spec fn admin_check(self, caller: Seq<char>) -> Result<(), SLAError> {
        match self.admin {
            None => Err(SLAError::NotInitialized),
            Some(a) => if caller != a {
                Err(SLAError::Unauthorized)
            } else {
                Ok(())
            },
        }
    }

    /// The caller must be the stored operator.
    pub open spec fn operator_check(self, caller: Seq<char>) -> Result<(), SLAError> {
        match self.operator {
            None => Err(SLAError::NotInitialized),
            Some(o) => if caller != o {
                Err(SLAError::Unauthorized)
            } else {
                Ok(())
            },
        }
    }

    /// Version check followed by the admin check.
    pub open spec fn admin_guard(self, caller: Seq<char>) -> Result<(), SLAError> {
        match self.version_check() {
            Err(e) => Err(e),
            Ok(_) => self.admin_check(caller),
        }
    }

    /// The config of a severity.
    pub open spec fn config_lookup(self, sev: Seq<char>) -> Result<SLAConfig, SLAError> {
        match self.configs {
            None => Err(SLAError::NotInitialized),
            Some(t) => match table_lookup(t, sev) {
                Some(c) => Ok(c),
                None => Err(SLAError::ConfigNotFound),
            },
        }
    }

    /// Statistics as the calculation path reads them (zero when absent).
    pub open spec fn stats_or_zero(self) -> SLAStats {
        match self.stats {
            Some(st) => st,
            None => zero_stats(),
        }
    }

    // ---------------------------------------------------------------
    // Entry points
    // ---------------------------------------------------------------

    pub open spec fn initialize(self, admin: Seq<char>, operator: Seq<char>) -> (
        ContractView,
        Result<(), SLAError>,
    ) {
        if self.admin is Some || self.storage_version is Some {
            (self, Err(SLAError::AlreadyInitialized))
        } else {
            (
                ContractView {
                    admin: Some(admin),
                    operator: Some(operator),
                    paused: false,
                    stats: Some(zero_stats()),
                    history: Seq::empty(),
                    configs: Some(default_table()),
                    storage_version: Some(STORAGE_VERSION),
                    ..self
                },
                Ok(()),
            )
        }
    }

    pub open spec fn migrate(self, caller: Seq<char>) -> (ContractView, Result<(), SLAError>) {
        match self.admin_check(caller) {
            Err(e) => (self, Err(e)),
            Ok(_) => {
                let stored: u32 = match self.storage_version {
                    Some(v) => v,
                    None => 0,
                };
                if stored == STORAGE_VERSION {
                    (self, Ok(()))
                } else if stored > STORAGE_VERSION {
                    (self, Err(SLAError::VersionMismatch))
                } else {
                    (ContractView { storage_version: Some(1), ..self }, Ok(()))
                }
            },
        }
    }

    pub open spec fn get_admin(self) -> Result<Seq<char>, SLAError> {
        match self.version_check() {
            Err(e) => Err(e),
            Ok(_) => match self.admin {
                Some(a) => Ok(a),
                None => Err(SLAError::NotInitialized),
            },
        }
    }

    pub open spec fn get_operator(self) -> Result<Seq<char>, SLAError> {
        match self.version_check() {
            Err(e) => Err(e),
            Ok(_) => match self.operator {
                Some(o) => Ok(o),
                None => Err(SLAError::NotInitialized),
            },
        }
    }

    pub open spec fn set_operator(self, caller: Seq<char>, new_operator: Seq<char>) -> (
        ContractView,
        Result<(), SLAError>,
    ) {
        match self.admin_guard(caller) {
            Err(e) => (self, Err(e)),
            Ok(_) => (
                ContractView { operator: Some(new_operator), ..self }.emit(
                    EventView::OperatorSet { caller, new_operator },
                ),
                Ok(()),
            ),
        }
    }

    pub open spec fn propose_admin(self, caller: Seq<char>, new_admin: Seq<char>) -> (
        ContractView,
        Result<(), SLAError>,
    ) {
        match self.admin_guard(caller) {
            Err(e) => (self, Err(e)),
            Ok(_) => (
                ContractView { pending_admin: Some(new_admin), ..self }.emit(
                    EventView::AdminProposed { caller, new_admin },
                ),
                Ok(()),
            ),
        }
    }

    pub open spec fn accept_admin(self, caller: Seq<char>) -> (ContractView, Result<(), SLAError>) {
        match self.version_check() {
            Err(e) => (self, Err(e)),
            Ok(_) => match self.pending_admin {
                None => (self, Err(SLAError::NoPendingTransfer)),
                Some(p) => if caller != p {
                    (self, Err(SLAError::Unauthorized))
                } else {
                    (
                        ContractView { admin: Some(caller), pending_admin: None, ..self }.emit(
                            EventView::AdminAccepted { caller },
                        ),
                        Ok(()),
                    )
                },
            },
        }
    }

    pub open spec fn cancel_admin_proposal(self, caller: Seq<char>) -> (
        ContractView,
        Result<(), SLAError>,
    ) {
        match self.admin_guard(caller) {
            Err(e) => (self, Err(e)),
            Ok(_) => if self.pending_admin is None {
                (self, Err(SLAError::NoPendingTransfer))
            } else {
                (
                    ContractView { pending_admin: None, ..self }.emit(
                        EventView::AdminProposalCancelled { caller },
                    ),
                    Ok(()),
                )
            },
        }
    }

    pub open spec fn get_pending_admin(self) -> Result<Option<Seq<char>>, SLAError> {
        match self.version_check() {
            Err(e) => Err(e),
            Ok(_) => Ok(self.pending_admin),
        }
    }

    pub open spec fn propose_operator(self, caller: Seq<char>, new_operator: Seq<char>) -> (
        ContractView,
        Result<(), SLAError>,
    ) {
        match self.admin_guard(caller) {
            Err(e) => (self, Err(e)),
            Ok(_) => (
                ContractView { pending_operator: Some(new_operator), ..self }.emit(
                    EventView::OperatorProposed { caller, new_operator },
                ),
                Ok(()),
            ),
        }
    }

    pub open spec fn accept_operator(self, caller: Seq<char>) -> (
        ContractView,
        Result<(), SLAError>,
    ) {
        match self.version_check() {
            Err(e) => (self, Err(e)),
            Ok(_) => match self.pending_operator {
                None => (self, Err(SLAError::NoPendingTransfer)),
                Some(p) => if caller != p {
                    (self, Err(SLAError::Unauthorized))
                } else {
                    (
                        ContractView {
                            operator: Some(caller),
                            pending_operator: None,
                            ..self
                        }.emit(EventView::OperatorAccepted { caller }),
                        Ok(()),
                    )
                },
            },
        }
    }

    pub open spec fn cancel_operator_proposal(self, caller: Seq<char>) -> (
        ContractView,
        Result<(), SLAError>,
    ) {
        match self.admin_guard(caller) {
            Err(e) => (self, Err(e)),
            Ok(_) => if self.pending_operator is None {
                (self, Err(SLAError::NoPendingTransfer))
            } else {
                (
                    ContractView { pending_operator: None, ..self }.emit(
                        EventView::OperatorProposalCancelled { caller },
                    ),
                    Ok(()),
                )
            },
        }
    }

    pub open spec fn get_pending_operator(self) -> Result<Option<Seq<char>>, SLAError> {
        match self.version_check() {
            Err(e) => Err(e),
            Ok(_) => Ok(self.pending_operator),
        }
    }

    pub open spec fn renounce_admin(self, caller: Seq<char>) -> (
        ContractView,
        Result<(), SLAError>,
    ) {
        match self.admin_guard(caller) {
            Err(e) => (self, Err(e)),
            Ok(_) => (
                ContractView { admin: None, pending_admin: None, ..self }.emit(
                    EventView::AdminRenounced { caller },
                ),
                Ok(()),
            ),
        }
    }

    pub open spec fn pause(self, caller: Seq<char>, reason: Seq<char>) -> (
        ContractView,
        Result<(), SLAError>,
    ) {
        match self.admin_guard(caller) {
            Err(e) => (self, Err(e)),
            Ok(_) => (
                ContractView {
                    paused: true,
                    pause_info: Some(PauseInfoView { reason, paused_at: self.ledger_timestamp }),
                    ..self
                }.emit(EventView::Paused { caller }),
                Ok(()),
            ),
        }
    }

    pub open spec fn unpause(self, caller: Seq<char>) -> (ContractView, Result<(), SLAError>) {
        match self.admin_guard(caller) {
            Err(e) => (self, Err(e)),
            Ok(_) => (
                ContractView { paused: false, pause_info: None, ..self }.emit(
                    EventView::Unpaused { caller },
                ),
                Ok(()),
            ),
        }
    }

    pub open spec fn is_paused(self) -> Result<bool, SLAError> {
        match self.version_check() {
            Err(e) => Err(e),
            Ok(_) => Ok(self.paused),
        }
    }

    pub open spec fn get_pause_info(self) -> Result<Option<PauseInfoView>, SLAError> {
        match self.version_check() {
            Err(e) => Err(e),
            Ok(_) => Ok(self.pause_info),
        }
    }

    pub open spec fn set_config(
        self,
        caller: Seq<char>,
        severity: Seq<char>,
        threshold_minutes: u32,
        penalty_per_minute: i128,
        reward_base: i128,
    ) -> (ContractView, Result<(), SLAError>) {
        match self.admin_guard(caller) {
            Err(e) => (self, Err(e)),
            Ok(_) => match validation_outcome(
                severity_index(severity),
                threshold_minutes,
                penalty_per_minute,
                reward_base,
            ) {
                Err(e) => (self, Err(e)),
                Ok(_) => match self.configs {
                    None => (self, Err(SLAError::NotInitialized)),
                    Some(t) => (
                        ContractView {
                            configs: Some(
                                table_with(
                                    t,
                                    severity_index(severity).unwrap(),
                                    SLAConfig { threshold_minutes, penalty_per_minute, reward_base },
                                ),
                            ),
                            ..self
                        }.emit(
                            EventView::ConfigUpdated {
                                severity,
                                threshold_minutes,
                                penalty_per_minute,
                                reward_base,
                            },
                        ),
                        Ok(()),
                    ),
                },
            },
        }
    }

    pub open spec fn get_config(self, severity: Seq<char>) -> Result<SLAConfig, SLAError> {
        match self.version_check() {
            Err(e) => Err(e),
            Ok(_) => self.config_lookup(severity),
        }
    }

    pub open spec fn get_config_version_hash(self) -> Result<u64, SLAError> {
        match self.version_check() {
            Err(e) => Err(e),
            Ok(_) => match self.configs {
                None => Err(SLAError::NotInitialized),
                Some(t) => Ok(table_hash(t)),
            },
        }
    }

    pub open spec fn get_stats(self) -> Result<SLAStats, SLAError> {
        match self.version_check() {
            Err(e) => Err(e),
            Ok(_) => match self.stats {
                Some(st) => Ok(st),
                None => Err(SLAError::NotInitialized),
            },
        }
    }

    /// Audit-mode evaluation: no pause or role check, no state change, and
    /// the result carries `recorded_at == 0`.
    pub open spec fn calculate_sla_view(self, outage_id: Seq<char>, severity: Seq<char>, mttr: u32) -> Result<
        SLAResultView,
        SLAError,
    > {
        match self.version_check() {
            Err(e) => Err(e),
            Ok(_) => match self.config_lookup(severity) {
                Err(e) => Err(e),
                Ok(cfg) => Ok(sla_result(outage_id, mttr, cfg, table_hash(self.configs.unwrap()), 0)),
            },
        }
    }

    /// The checks of the calculation path that precede the arithmetic.
    pub open spec fn calculate_guard(self, caller: Seq<char>, severity: Seq<char>) -> Result<
        SLAConfig,
        SLAError,
    > {
        match self.version_check() {
            Err(e) => Err(e),
            Ok(_) => if self.paused {
                Err(SLAError::ContractPaused)
            } else {
                match self.operator_check(caller) {
                    Err(e) => Err(e),
                    Ok(_) => self.config_lookup(severity),
                }
            },
        }
    }

    /// The calculation path passes its checks but the arithmetic would
    /// leave the machine integer range.
    pub open spec fn calculate_overflows(self, caller: Seq<char>, severity: Seq<char>, mttr: u32) -> bool {
        match self.calculate_guard(caller, severity) {
            Err(_) => false,
            Ok(cfg) => !sla_computable(cfg, mttr) || !stats_fit(
                self.stats_or_zero(),
                sla_violated(cfg, mttr),
                sla_amount(cfg, mttr),
            ),
        }
    }

    /// The audit path passes its checks but the arithmetic would leave the
    /// machine integer range.
    pub open spec fn view_overflows(self, severity: Seq<char>, mttr: u32) -> bool {
        match self.version_check() {
            Err(_) => false,
            Ok(_) => match self.config_lookup(severity) {
                Err(_) => false,
                Ok(cfg) => !sla_computable(cfg, mttr),
            },
        }
    }

    pub open spec fn calculate_sla(
        self,
        caller: Seq<char>,
        outage_id: Seq<char>,
        severity: Seq<char>,
        mttr: u32,
    ) -> (ContractView, Result<SLAResultView, SLAError>) {
        match self.calculate_guard(caller, severity) {
            Err(e) => (self, Err(e)),
            Ok(cfg) => {
                let r = sla_result(
                    outage_id,
                    mttr,
                    cfg,
                    table_hash(self.configs.unwrap()),
                    self.ledger_timestamp,
                );
                (
                    ContractView {
                        history: history_after_push(self.history, r, self.retention_limit),
                        stats: Some(
                            stats_after(self.stats_or_zero(), sla_violated(cfg, mttr), r.amount),
                        ),
                        ..self
                    }.emit(
                        EventView::SlaCalculated {
                            severity,
                            outage_id: r.outage_id,
                            status: r.status,
                            payment_type: r.payment_type,
                            rating: r.rating,
                            mttr_minutes: r.mttr_minutes,
                            threshold_minutes: r.threshold_minutes,
                            amount: r.amount,
                        },
                    ),
                    Ok(r),
                )
            },
        }
    }

    pub open spec fn get_history(self) -> Result<Seq<SLAResultView>, SLAError> {
        match self.version_check() {
            Err(e) => Err(e),
            Ok(_) => Ok(self.history),
        }
    }

    pub open spec fn prune_history(self, caller: Seq<char>, keep_latest: u32) -> (
        ContractView,
        Result<(), SLAError>,
    ) {
        match self.admin_guard(caller) {
            Err(e) => (self, Err(e)),
            Ok(_) => {
                let len = self.history.len();
                if len > keep_latest {
                    (
                        ContractView {
                            history: self.history.subrange(len - keep_latest, len as int),
                            ..self
                        }.emit(
                            EventView::HistoryPruned {
                                caller,
                                removed: (len - keep_latest) as u32,
                                kept: keep_latest,
                            },
                        ),
                        Ok(()),
                    )
                } else {
                    (self, Ok(()))
                }
            },
        }
    }

    pub open spec fn prune_history_by_age(self, caller: Seq<char>, min_age_seconds: u64) -> (
        ContractView,
        Result<(), SLAError>,
    ) {
        match self.admin_guard(caller) {
            Err(e) => (self, Err(e)),
            Ok(_) => {
                let cutoff = saturating_sub(self.ledger_timestamp, min_age_seconds);
                let kept = entries_since(self.history, cutoff);
                if kept.len() < self.history.len() {
                    (
                        ContractView { history: kept, ..self }.emit(
                            EventView::HistoryPrunedByAge {
                                caller,
                                removed: (self.history.len() - kept.len()) as u32,
                                kept: kept.len() as u32,
                            },
                        ),
                        Ok(()),
                    )
                } else {
                    (self, Ok(()))
                }
            },
        }
    }

    pub open spec fn get_history_page(self, offset: u32, limit: u32) -> Result<
        Seq<SLAResultView>,
        SLAError,
    > {
        match self.version_check() {
            Err(e) => Err(e),
            Ok(_) => Ok(history_page(self.history, offset, limit)),
        }
    }

    pub open spec fn get_history_by_outage(self, outage_id: Seq<char>) -> Result<
        Seq<SLAResultView>,
        SLAError,
    > {
        match self.version_check() {
            Err(e) => Err(e),
            Ok(_) => Ok(entries_for_outage(self.history, outage_id)),
        }
    }

    pub open spec fn get_latest_by_outage(self, outage_id: Seq<char>) -> Result<
        Option<SLAResultView>,
        SLAError,
    > {
        match self.version_check() {
            Err(e) => Err(e),
            Ok(_) => Ok(latest_for_outage(self.history, outage_id)),
        }
    }

    pub open spec fn get_config_count(self) -> Result<u32, SLAError> {
        match self.version_check() {
            Err(e) => Err(e),
            Ok(_) => match self.configs {
                None => Err(SLAError::NotInitialized),
                Some(_) => Ok(4),
            },
        }
    }

    pub open spec fn get_storage_version(self) -> Result<u32, SLAError> {
        match self.storage_version {
            Some(v) => Ok(v),
            None => Err(SLAError::NotInitialized),
        }
    }

    pub open spec fn set_retention_limit(self, caller: Seq<char>, limit: u32) -> (
        ContractView,
        Result<(), SLAError>,
    ) {
        match self.admin_guard(caller) {
            Err(e) => (self, Err(e)),
            Ok(_) => if limit == 0 || limit > MAX_HISTORY_SIZE {
                (self, Err(SLAError::RetentionLimitOutOfRange))
            } else {
                (ContractView { retention_limit: limit, ..self }, Ok(()))
            },
        }
    }

    pub open spec fn get_retention_limit(self) -> Result<u32, SLAError> {
        match self.version_check() {
            Err(e) => Err(e),
            Ok(_) => Ok(self.retention_limit),
        }
    }
}

/// A state-changing entry-point call, with its arguments.
pub enum Op {
    Initialize { admin: Seq<char>, operator: Seq<char> },
    Migrate { caller: Seq<char> },
    SetOperator { caller: Seq<char>, new_operator: Seq<char> },
    ProposeAdmin { caller: Seq<char>, new_admin: Seq<char> },
    AcceptAdmin { caller: Seq<char> },
    CancelAdminProposal { caller: Seq<char> },
    ProposeOperator { caller: Seq<char>, new_operator: Seq<char> },
    AcceptOperator { caller: Seq<char> },
    CancelOperatorProposal { caller: Seq<char> },
    RenounceAdmin { caller: Seq<char> },
    Pause { caller: Seq<char>, reason: Seq<char> },
    Unpause { caller: Seq<char> },
    SetConfig {
        caller: Seq<char>,
        severity: Seq<char>,
        threshold_minutes: u32,
        penalty_per_minute: i128,
        reward_base: i128,
    },
    CalculateSla { caller: Seq<char>, outage_id: Seq<char>, severity: Seq<char>, mttr: u32 },
    PruneHistory { caller: Seq<char>, keep_latest: u32 },
    PruneHistoryByAge { caller: Seq<char>, min_age_seconds: u64 },
    SetRetentionLimit { caller: Seq<char>, limit: u32 },
}

/// Drops the value of a successful outcome.
pub open spec fn status_of<T>(r: Result<T, SLAError>) -> Result<(), SLAError> {
    match r {
        Ok(_) => Ok(()),
        Err(e) => Err(e),
    }
}

impl ContractView {
    /// The state after a call and whether the call succeeded.
    pub open spec fn apply(self, op: Op) -> (ContractView, Result<(), SLAError>) {
        match op {
            Op::Initialize { admin, operator } => self.initialize(admin, operator),
            Op::Migrate { caller } => self.migrate(caller),
            Op::SetOperator { caller, new_operator } => self.set_operator(caller, new_operator),
            Op::ProposeAdmin { caller, new_admin } => self.propose_admin(caller, new_admin),
            Op::AcceptAdmin { caller } => self.accept_admin(caller),
            Op::CancelAdminProposal { caller } => self.cancel_admin_proposal(caller),
            Op::ProposeOperator { caller, new_operator } => self.propose_operator(
                caller,
                new_operator,
            ),
            Op::AcceptOperator { caller } => self.accept_operator(caller),
            Op::CancelOperatorProposal { caller } => self.cancel_operator_proposal(caller),
            Op::RenounceAdmin { caller } => self.renounce_admin(caller),
            Op::Pause { caller, reason } => self.pause(caller, reason),
            Op::Unpause { caller } => self.unpause(caller),
            Op::SetConfig {
                caller,
                severity,
                threshold_minutes,
                penalty_per_minute,
                reward_base,
            } => self.set_config(caller, severity, threshold_minutes, penalty_per_minute, reward_base),
            Op::CalculateSla { caller, outage_id, severity, mttr } => {
                let (s2, r) = self.calculate_sla(caller, outage_id, severity, mttr);
                (s2, status_of(r))
            },
            Op::PruneHistory { caller, keep_latest } => self.prune_history(caller, keep_latest),
            Op::PruneHistoryByAge { caller, min_age_seconds } => self.prune_history_by_age(
                caller,
                min_age_seconds,
            ),
            Op::SetRetentionLimit { caller, limit } => self.set_retention_limit(caller, limit),
        }
    }

    /// The state after a sequence of calls, made in order (a failed call
    /// leaves the state as it was and the sequence goes on).
    pub open spec fn run(self, ops: Seq<Op>) -> ContractView
        decreases ops.len(),
    {
        if ops.len() == 0 {
            self
        } else {
            self.apply(ops[0]).0.run(ops.drop_first())
        }
    }

    /// The call stays within the machine limits its entry point requires.
    pub open spec fn admits(self, op: Op) -> bool {
        match op {
            Op::CalculateSla { caller, severity, mttr, .. } => !self.calculate_overflows(
                caller,
                severity,
                mttr,
            ),
            Op::PruneHistory { .. } => self.history.len() <= u32::MAX,
            Op::PruneHistoryByAge { .. } => self.history.len() <= u32::MAX,
            _ => true,
        }
    }

    /// Every call of the sequence, made in turn, stays within its machine
    /// limits.
    pub open spec fn admits_all(self, ops: Seq<Op>) -> bool
        decreases ops.len(),
    {
        if ops.len() == 0 {
            true
        } else {
            &&& self.admits(ops[0])
            &&& self.apply(ops[0]).0.admits_all(ops.drop_first())
        }
    }

    /// What every state reached through the entry points satisfies: every
    /// stored config is one `set_config` accepts, the retention limit lies
    /// in 1..=1000, the history holds at most 1000 entries, violations never
    /// outnumber calculations and the totals are non-negative, pause
    /// metadata is only present while paused, and a store that was never
    /// stamped with a schema version holds no pause metadata.
    pub open spec fn inv(self) -> bool {
        &&& (self.configs matches Some(t) ==> table_valid(t))
        &&& 1 <= self.retention_limit <= MAX_HISTORY_SIZE
        &&& self.history.len() <= MAX_HISTORY_SIZE
        &&& (self.stats matches Some(st) ==> {
            &&& st.total_violations <= st.total_calculations
            &&& st.total_rewards >= 0
            &&& st.total_penalties >= 0
        })
        &&& (self.pause_info is Some ==> self.paused)
        &&& (self.storage_version is None ==> self.pause_info is None)
    }
}

} // verus!

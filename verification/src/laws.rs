//! Properties of the contract as a whole, proved over the abstract model
//! that the entry points' contracts are stated in.
use vstd::prelude::*;
use crate::calc::{
    performance_ratio, reward_multiplier, sla_amount, sla_computable, sla_result, sla_violated,
};
use crate::config::{
    config_valid_for, default_table, hash_fields, hash_mix, hash_state, severity_index, table_hash,
    table_slot, table_valid, HASH_BASE, HASH_MODULUS,
    table_with,
};
use crate::model::{
    entries_for_outage, entries_since, history_after_push, saturating_sub, stats_after,
    ContractView, Op,
};
use crate::types::{SLAConfig, SLAError, SLAResultView};
use crate::events::EventView;
use crate::version_negotiation::{
    MismatchView, all_mismatches, negotiation_outcome, peer_mismatches, some_protocol_differs, NegotiationOutcome,
    VersionInfoView,
};

verus! {

// -------------------------------------------------------------------
// The evaluation rule
// -------------------------------------------------------------------

/// Every config that `set_config` accepts can be evaluated in machine
/// integers for every MTTR; a violation yields a negative amount (a
/// penalty) and a met SLA a positive one (a reward).
pub proof fn law_valid_config_amounts(i: int, cfg: SLAConfig, mttr: u32)
    requires
        0 <= i < 4,
        config_valid_for(i, cfg),
    ensures
        sla_computable(cfg, mttr),
        sla_violated(cfg, mttr) ==> sla_amount(cfg, mttr) < 0,
        !sla_violated(cfg, mttr) ==> sla_amount(cfg, mttr) > 0,
{
    let thr = cfg.threshold_minutes;
    let ppm = cfg.penalty_per_minute;
    let rb = cfg.reward_base;
    assert(1 <= thr <= 1440 && 1 <= ppm <= 10000 && 1 <= rb <= 100000);
    if mttr > thr {
        let over: int = mttr - thr;
        assert(1 <= over <= u32::MAX);
        assert(1 <= over * ppm <= u32::MAX * 10000) by (nonlinear_arith)
            requires
                1 <= over <= u32::MAX,
                1 <= ppm <= 10000,
        ;
    } else {
        assert(mttr * 100 <= 144000) by (nonlinear_arith)
            requires
                mttr <= 1440,
        ;
        let m = reward_multiplier(performance_ratio(mttr, thr));
        assert(100 <= m <= 200);
        assert(100 <= rb * m <= 20000000) by (nonlinear_arith)
            requires
                1 <= rb <= 100000,
                100 <= m <= 200,
        ;
    }
}

/// A worse (longer) repair never earns a better amount: for a config with
/// non-negative penalty and reward, `mttr1 <= mttr2` implies
/// `amount(mttr2) <= amount(mttr1)`; beyond the threshold, with a positive
/// penalty, the amount strictly decreases.
pub proof fn law_worse_mttr_never_improves_amount(cfg: SLAConfig, mttr1: u32, mttr2: u32)
    requires
        cfg.penalty_per_minute >= 0,
        cfg.reward_base >= 0,
        mttr1 <= mttr2,
    ensures
        sla_amount(cfg, mttr2) <= sla_amount(cfg, mttr1),
        cfg.penalty_per_minute > 0 && mttr1 > cfg.threshold_minutes && mttr1 < mttr2 ==> sla_amount(
            cfg,
            mttr2,
        ) < sla_amount(cfg, mttr1),
{
    let thr = cfg.threshold_minutes as int;
    let ppm = cfg.penalty_per_minute as int;
    let rb = cfg.reward_base as int;
    if mttr2 > thr {
        let o2: int = mttr2 - thr;
        assert(o2 * ppm >= 0) by (nonlinear_arith)
            requires
                o2 >= 1,
                ppm >= 0,
        ;
        if mttr1 > thr {
            let o1: int = mttr1 - thr;
            assert(o1 * ppm <= o2 * ppm) by (nonlinear_arith)
                requires
                    1 <= o1 <= o2,
                    ppm >= 0,
            ;
            if ppm > 0 && mttr1 < mttr2 {
                assert(o1 * ppm < o2 * ppm) by (nonlinear_arith)
                    requires
                        1 <= o1 < o2,
                        ppm > 0,
                ;
            }
        } else {
            let m1 = reward_multiplier(performance_ratio(mttr1, cfg.threshold_minutes));
            assert(rb * m1 >= 0) by (nonlinear_arith)
                requires
                    rb >= 0,
                    m1 >= 100,
            ;
        }
    } else {
        let r1 = performance_ratio(mttr1, cfg.threshold_minutes);
        let r2 = performance_ratio(mttr2, cfg.threshold_minutes);
        if thr > 0 {
            assert((mttr1 * 100) / thr <= (mttr2 * 100) / thr) by (nonlinear_arith)
                requires
                    0 <= mttr1 <= mttr2,
                    thr > 0,
            ;
        }
        assert(r1 <= r2);
        let m1 = reward_multiplier(r1);
        let m2 = reward_multiplier(r2);
        assert(m2 <= m1);
        assert(0 <= rb * m2 <= rb * m1) by (nonlinear_arith)
            requires
                rb >= 0,
                100 <= m2 <= m1,
        ;
        assert((rb * m2) / 100 <= (rb * m1) / 100) by (nonlinear_arith)
            requires
                0 <= rb * m2 <= rb * m1,
        ;
    }
}

/// Repairing in exactly the threshold always meets the SLA (with rating
/// "good" for a positive threshold); one minute more always violates it.
pub proof fn law_threshold_is_met_one_more_is_violated(cfg: SLAConfig)
    ensures
        !sla_violated(cfg, cfg.threshold_minutes),
        cfg.threshold_minutes > 0 ==> sla_result(
            Seq::empty(),
            cfg.threshold_minutes,
            cfg,
            0,
            0,
        ).rating == "good"@,
        cfg.threshold_minutes < u32::MAX ==> sla_violated(cfg, (cfg.threshold_minutes + 1) as u32),
{
    let t = cfg.threshold_minutes as int;
    if t > 0 {
        assert((t * 100) / t == 100) by (nonlinear_arith)
            requires
                t > 0,
        ;
    }
}

/// The penalty is linear in the overtime: `k` minutes over costs `k` times
/// the per-minute penalty, so doubling the overtime doubles the penalty.
pub proof fn law_penalty_is_linear(cfg: SLAConfig, k: u32)
    requires
        k >= 1,
        cfg.threshold_minutes + 2 * k <= u32::MAX,
    ensures
        sla_amount(cfg, (cfg.threshold_minutes + k) as u32) == -(k * cfg.penalty_per_minute),
        sla_amount(cfg, (cfg.threshold_minutes + 2 * k) as u32) == 2 * sla_amount(
            cfg,
            (cfg.threshold_minutes + k) as u32,
        ),
{
    let p = cfg.penalty_per_minute as int;
    assert((2 * k) * p == 2 * (k * p)) by (nonlinear_arith);
}

// -------------------------------------------------------------------
// Audit mode
// -------------------------------------------------------------------

/// Audit mode agrees with the recording path: whenever `calculate_sla`
/// succeeds, `calculate_sla_view` on the same state and inputs succeeds
/// with the same result except `recorded_at`, which is 0 instead of the
/// ledger timestamp.
pub proof fn law_audit_matches_calculation(
    s: ContractView,
    caller: Seq<char>,
    outage_id: Seq<char>,
    severity: Seq<char>,
    mttr: u32,
)
    requires
        (s.calculate_sla(caller, outage_id, severity, mttr).1 is Ok),
    ensures
        ({
            let r = s.calculate_sla(caller, outage_id, severity, mttr).1->Ok_0;
            &&& r.recorded_at == s.ledger_timestamp
            &&& s.calculate_sla_view(outage_id, severity, mttr) == Ok::<SLAResultView, SLAError>(
                SLAResultView { recorded_at: 0, ..r },
            )
        }),
{
}

/// Audit mode ignores the pause flag and the caller: it answers the same
/// in a paused contract.
pub proof fn law_audit_ignores_pause(
    s: ContractView,
    outage_id: Seq<char>,
    severity: Seq<char>,
    mttr: u32,
)
    ensures
        (ContractView { paused: true, ..s }.calculate_sla_view(outage_id, severity, mttr)
            == s.calculate_sla_view(outage_id, severity, mttr)),
{
}


// -------------------------------------------------------------------
// Every entry point
// -------------------------------------------------------------------

/// A call that fails changes nothing: no storage key, no event.
pub proof fn law_failed_calls_change_nothing(s: ContractView, op: Op)
    requires
        (s.apply(op).1 is Err),
    ensures
        s.apply(op).0 == s,
{
}

/// The outcome is the error `e`.
pub open spec fn fails_with<T>(r: Result<T, SLAError>, e: SLAError) -> bool {
    r matches Err(x) && x == e
}

/// The schema version is checked first: while it is missing
/// (`NotInitialized`) or not the current one (`VersionMismatch`), every
/// versioned entry point answers with that error, whatever its arguments,
/// and changes nothing. Only `initialize`, `migrate`,
/// `get_storage_version` and `get_migration_state` skip the check;
/// `list_configs`, `get_config_snapshot`, `get_result_schema` and
/// `get_contract_metadata` state the same in their own `ensures`.
pub proof fn law_version_check_comes_first(
    s: ContractView,
    op: Op,
    severity: Seq<char>,
    outage_id: Seq<char>,
    mttr: u32,
    offset: u32,
    limit: u32,
)
    requires
        s.version_check() is Err,
        !(op is Initialize),
        !(op is Migrate),
    ensures
        ({
            let e = s.version_check()->Err_0;
            &&& s.apply(op).0 == s
            &&& fails_with(s.apply(op).1, e)
            &&& fails_with(s.get_admin(), e)
            &&& fails_with(s.get_operator(), e)
            &&& fails_with(s.get_pending_admin(), e)
            &&& fails_with(s.get_pending_operator(), e)
            &&& fails_with(s.is_paused(), e)
            &&& fails_with(s.get_pause_info(), e)
            &&& fails_with(s.get_config(severity), e)
            &&& fails_with(s.get_config_version_hash(), e)
            &&& fails_with(s.get_stats(), e)
            &&& fails_with(s.calculate_sla_view(outage_id, severity, mttr), e)
            &&& fails_with(s.get_history(), e)
            &&& fails_with(s.get_history_page(offset, limit), e)
            &&& fails_with(s.get_history_by_outage(outage_id), e)
            &&& fails_with(s.get_latest_by_outage(outage_id), e)
            &&& fails_with(s.get_config_count(), e)
            &&& fails_with(s.get_retention_limit(), e)
        }),
{
}

/// The event log is append-only and every call publishes at most one
/// event; the ledger time is never changed by a call.
pub proof fn law_events_are_append_only(s: ContractView, op: Op)
    ensures
        s.events.is_prefix_of(s.apply(op).0.events),
        s.apply(op).0.events.len() <= s.events.len() + 1,
        s.apply(op).0.ledger_timestamp == s.ledger_timestamp,
{
    let s2 = s.apply(op).0;
    assert(forall|e: crate::events::EventView|
        #![trigger s.events.push(e)]
        s.events.is_prefix_of(s.events.push(e)));
    if s2.events.len() == s.events.len() {
        assert(s2.events =~= s.events);
    }
}

/// Over any sequence of calls the event log only grows: the events
/// published before stay in place and in order, each call adding at most
/// one after them.
pub proof fn law_event_log_only_grows(s: ContractView, ops: Seq<Op>)
    ensures
        s.events.is_prefix_of(s.run(ops).events),
        s.run(ops).events.len() <= s.events.len() + ops.len(),
    decreases ops.len(),
{
    if ops.len() > 0 {
        let s1 = s.apply(ops[0]).0;
        law_events_are_append_only(s, ops[0]);
        law_event_log_only_grows(s1, ops.drop_first());
        let e = s1.run(ops.drop_first()).events;
        assert forall|i: int| 0 <= i < s.events.len() implies #[trigger] e[i] == s.events[i] by {
            assert(s1.events[i] == s.events[i]);
        }
    }
}

/// The invariant of reachable states (see `ContractView::inv`) is kept by
/// every entry point, within its machine limits.
#[verifier::rlimit(50)]
pub proof fn law_entry_points_keep_invariant(s: ContractView, op: Op)
    requires
        s.inv(),
        s.admits(op),
    ensures
        s.apply(op).0.inv(),
{
    match op {
        Op::Initialize { .. } => {
            lemma_default_table_valid();
        },
        Op::SetConfig { caller, severity, threshold_minutes, penalty_per_minute, reward_base } => {
            lemma_set_config_keeps_invariant(
                s,
                caller,
                severity,
                threshold_minutes,
                penalty_per_minute,
                reward_base,
            );
        },
        Op::CalculateSla { caller, outage_id, severity, mttr } => {
            lemma_calculate_keeps_invariant(s, caller, outage_id, severity, mttr);
        },
        Op::PruneHistoryByAge { caller, min_age_seconds } => {
            let cutoff = saturating_sub(s.ledger_timestamp, min_age_seconds);
            crate::model::lemma_entries_since_len(s.history, cutoff);
        },
        _ => {},
    }
}

/// The invariant holds in every state reached from one that satisfies it
/// (such as a freshly deployed contract) through a sequence of calls, each
/// within its machine limits.
pub proof fn law_reachable_states_keep_invariant(s: ContractView, ops: Seq<Op>)
    requires
        s.inv(),
        s.admits_all(ops),
    ensures
        s.run(ops).inv(),
    decreases ops.len(),
{
    if ops.len() > 0 {
        law_entry_points_keep_invariant(s, ops[0]);
        law_reachable_states_keep_invariant(s.apply(ops[0]).0, ops.drop_first());
    }
}

proof fn lemma_set_config_keeps_invariant(
    s: ContractView,
    caller: Seq<char>,
    severity: Seq<char>,
    threshold_minutes: u32,
    penalty_per_minute: i128,
    reward_base: i128,
)
    requires
        s.inv(),
    ensures
        s.set_config(caller, severity, threshold_minutes, penalty_per_minute, reward_base).0.inv(),
{
    let (s2, r) = s.set_config(caller, severity, threshold_minutes, penalty_per_minute, reward_base);
    if r is Ok {
        let i = severity_index(severity).unwrap();
        let t = s.configs.unwrap();
        let c = SLAConfig { threshold_minutes, penalty_per_minute, reward_base };
        assert(config_valid_for(i, c));
        assert(table_valid(table_with(t, i, c)));
    }
}

#[verifier::rlimit(50)]
proof fn lemma_calculate_keeps_invariant(
    s: ContractView,
    caller: Seq<char>,
    outage_id: Seq<char>,
    severity: Seq<char>,
    mttr: u32,
)
    requires
        s.inv(),
        !s.calculate_overflows(caller, severity, mttr),
    ensures
        s.calculate_sla(caller, outage_id, severity, mttr).0.inv(),
{
    let (s2, r) = s.calculate_sla(caller, outage_id, severity, mttr);
    if r is Ok {
        let cfg = s.calculate_guard(caller, severity)->Ok_0;
        let t = s.configs.unwrap();
        let i = severity_index(severity).unwrap();
        assert(cfg == table_slot(t, i));
        law_valid_config_amounts(i, cfg, mttr);
        let res = sla_result(outage_id, mttr, cfg, table_hash(t), s.ledger_timestamp);
        let h2 = history_after_push(s.history, res, s.retention_limit);
        assert(h2.len() <= 1000);
        let st = s.stats_or_zero();
        let st2 = stats_after(st, sla_violated(cfg, mttr), res.amount);
        assert(st2.total_violations <= st2.total_calculations);
        assert(st2.total_rewards >= 0);
        assert(st2.total_penalties >= 0);
        assert(s2.stats == Some(st2));
    }
}

/// The initial configs are all acceptable to `set_config`.
pub proof fn lemma_default_table_valid()
    ensures
        table_valid(default_table()),
{
}

// -------------------------------------------------------------------
// Role management
// -------------------------------------------------------------------

/// Two-step admin transfer: after the admin proposes `new_admin` and
/// `new_admin` accepts, `new_admin` is the admin, no proposal is pending,
/// and (when different) the old admin has lost its authority.
pub proof fn law_admin_transfer_completes(s: ContractView, admin: Seq<char>, new_admin: Seq<char>)
    requires
        (s.admin_guard(admin) is Ok),
    ensures
        ({
            let s1 = s.propose_admin(admin, new_admin).0;
            let (s2, r) = s1.accept_admin(new_admin);
            &&& r is Ok
            &&& s2.admin == Some(new_admin)
            &&& s2.pending_admin is None
            &&& s2.get_admin() == Ok::<Seq<char>, SLAError>(new_admin)
            &&& (admin != new_admin ==> s2.admin_guard(admin) == Err::<(), SLAError>(
                SLAError::Unauthorized,
            ))
        }),
{
}

/// A newer proposal supersedes an older one: the superseded candidate
/// cannot accept, and the newest candidate stays pending.
pub proof fn law_admin_proposal_superseded(
    s: ContractView,
    admin: Seq<char>,
    first: Seq<char>,
    second: Seq<char>,
)
    requires
        (s.admin_guard(admin) is Ok),
        first != second,
    ensures
        ({
            let s1 = s.propose_admin(admin, first).0;
            let s2 = s1.propose_admin(admin, second).0;
            let (s3, r) = s2.accept_admin(first);
            &&& r == Err::<(), SLAError>(SLAError::Unauthorized)
            &&& s3 == s2
            &&& s2.pending_admin == Some(second)
        }),
{
}

/// Two-step operator handoff: after the admin proposes `new_operator` and
/// `new_operator` accepts, `new_operator` is the operator, no proposal is
/// pending, and (when different) the old operator can no longer calculate.
pub proof fn law_operator_handoff_completes(
    s: ContractView,
    admin: Seq<char>,
    old_operator: Seq<char>,
    new_operator: Seq<char>,
    severity: Seq<char>,
)
    requires
        (s.admin_guard(admin) is Ok),
        !s.paused,
        old_operator != new_operator,
    ensures
        ({
            let s1 = s.propose_operator(admin, new_operator).0;
            let (s2, r) = s1.accept_operator(new_operator);
            &&& r is Ok
            &&& s2.operator == Some(new_operator)
            &&& s2.pending_operator is None
            &&& s2.calculate_guard(old_operator, severity) == Err::<SLAConfig, SLAError>(
                SLAError::Unauthorized,
            )
        }),
{
}

/// A newer operator proposal supersedes an older one.
pub proof fn law_operator_proposal_superseded(
    s: ContractView,
    admin: Seq<char>,
    first: Seq<char>,
    second: Seq<char>,
)
    requires
        (s.admin_guard(admin) is Ok),
        first != second,
    ensures
        ({
            let s1 = s.propose_operator(admin, first).0;
            let s2 = s1.propose_operator(admin, second).0;
            let (s3, r) = s2.accept_operator(first);
            &&& r == Err::<(), SLAError>(SLAError::Unauthorized)
            &&& s3 == s2
            &&& s2.pending_operator == Some(second)
        }),
{
}

/// Renouncing removes admin authority: right afterwards no admin and no
/// pending admin proposal exist, every admin-gated entry point fails with
/// `NotInitialized` for every caller, `get_admin` fails, and the operator
/// role is untouched (see `law_renounced_authority_stays_renounced` for
/// the calls that follow).
pub proof fn law_renounce_locks_admin_entry_points(s: ContractView, admin: Seq<char>, caller: Seq<char>)
    requires
        (s.admin_guard(admin) is Ok),
    ensures
        ({
            let (s2, r) = s.renounce_admin(admin);
            &&& r is Ok
            &&& s2.admin is None
            &&& s2.pending_admin is None
            &&& s2.operator == s.operator
            &&& s2.admin_guard(caller) == Err::<(), SLAError>(SLAError::NotInitialized)
            &&& s2.get_admin() == Err::<Seq<char>, SLAError>(SLAError::NotInitialized)
            &&& s2.accept_admin(caller).1 == Err::<(), SLAError>(SLAError::NoPendingTransfer)
        }),
{
}

/// Once the admin has renounced, every admin-gated call fails with
/// `NotInitialized` and changes nothing (`initialize` fails too, with
/// `AlreadyInitialized`: see `law_renounced_authority_stays_renounced`).
pub proof fn law_no_admin_gated_call_succeeds_without_admin(s: ContractView, op: Op)
    requires
        s.admin is None,
        s.version_check() is Ok,
        !(op is Initialize),
        !(op is AcceptAdmin),
        !(op is AcceptOperator),
        !(op is CalculateSla),
    ensures
        s.apply(op) == (s, Err::<(), SLAError>(SLAError::NotInitialized)),
{
}

/// With a schema version but no admin and no admin proposal stored, no
/// call installs either, and the schema version stays stored.
proof fn lemma_no_admin_step(s: ContractView, op: Op)
    requires
        s.admin is None,
        s.pending_admin is None,
        s.storage_version is Some,
    ensures
        s.apply(op).0.admin is None,
        s.apply(op).0.pending_admin is None,
        s.apply(op).0.storage_version is Some,
{
}

/// In a state with a schema version but no admin and no admin proposal,
/// every call other than `accept_operator` and `calculate_sla` (which need
/// no admin) fails: `initialize` with `AlreadyInitialized`, the others
/// with the version error, `NotInitialized` or `NoPendingTransfer`.
proof fn lemma_renounced_state_refuses(s: ContractView, op: Op)
    requires
        s.admin is None,
        s.pending_admin is None,
        s.storage_version is Some,
        !(op is AcceptOperator),
        !(op is CalculateSla),
    ensures
        s.apply(op).1 is Err,
        op is Initialize ==> s.apply(op).1 == Err::<(), SLAError>(SLAError::AlreadyInitialized),
{
}

/// Renouncing is irreversible: from the state a successful
/// `renounce_admin` leaves, no sequence of calls whatever installs an
/// admin or an admin proposal again, and after any such sequence every
/// admin-gated call (and `initialize`) still fails.
pub proof fn law_renounced_authority_stays_renounced(
    s: ContractView,
    admin: Seq<char>,
    ops: Seq<Op>,
    op: Op,
)
    requires
        s.renounce_admin(admin).1 is Ok,
        !(op is AcceptOperator),
        !(op is CalculateSla),
    ensures
        s.renounce_admin(admin).0.run(ops).admin is None,
        s.renounce_admin(admin).0.run(ops).pending_admin is None,
        s.renounce_admin(admin).0.run(ops).apply(op).1 is Err,
{
    lemma_no_admin_run(s.renounce_admin(admin).0, ops);
    lemma_renounced_state_refuses(s.renounce_admin(admin).0.run(ops), op);
}

proof fn lemma_no_admin_run(s: ContractView, ops: Seq<Op>)
    requires
        s.admin is None,
        s.pending_admin is None,
        s.storage_version is Some,
    ensures
        s.run(ops).admin is None,
        s.run(ops).pending_admin is None,
        s.run(ops).storage_version is Some,
    decreases ops.len(),
{
    if ops.len() > 0 {
        lemma_no_admin_step(s, ops[0]);
        lemma_no_admin_run(s.apply(ops[0]).0, ops.drop_first());
    }
}

// -------------------------------------------------------------------
// Pause
// -------------------------------------------------------------------

/// Pausing blocks calculation with `ContractPaused` (recording the reason
/// and the ledger time); unpausing clears the flag and the metadata and
/// lets calculation through the same checks as an unpaused contract. From
/// an unpaused contract the round trip changes nothing but the event log,
/// which gains `paused` then `unpause`.
pub proof fn law_pause_blocks_calculation(
    s: ContractView,
    admin: Seq<char>,
    reason: Seq<char>,
    caller: Seq<char>,
    outage_id: Seq<char>,
    severity: Seq<char>,
    mttr: u32,
)
    requires
        (s.admin_guard(admin) is Ok),
    ensures
        ({
            let s1 = s.pause(admin, reason).0;
            let s2 = s1.unpause(admin).0;
            &&& s1.paused
            &&& s1.pause_info == Some(
                crate::types::PauseInfoView { reason, paused_at: s.ledger_timestamp },
            )
            &&& s1.calculate_sla(caller, outage_id, severity, mttr) == (
                s1,
                Err::<SLAResultView, SLAError>(SLAError::ContractPaused),
            )
            &&& !s2.paused
            &&& s2.pause_info is None
            &&& s2.events == s.events.push(crate::events::EventView::Paused { caller: admin }).push(
                crate::events::EventView::Unpaused { caller: admin },
            )
            &&& s2.calculate_guard(caller, severity) == (ContractView { paused: false, ..s }).calculate_guard(caller, severity)
            &&& (!s.paused && s.pause_info is None ==> s2 == ContractView { events: s2.events, ..s })
        }),
{
}

// -------------------------------------------------------------------
// Migration and configuration
// -------------------------------------------------------------------

/// Migration is idempotent: migrating a second time changes nothing.
pub proof fn law_migrate_is_idempotent(s: ContractView, caller: Seq<char>)
    requires
        (s.migrate(caller).1 is Ok),
    ensures
        s.migrate(caller).0.migrate(caller) == (s.migrate(caller).0, Ok::<(), SLAError>(())),
        s.migrate(caller).0.version_check() is Ok,
{
}

/// Writing back a severity's current values leaves the config table, and
/// so the config version hash, unchanged.
pub proof fn law_rewriting_config_keeps_hash(
    s: ContractView,
    admin: Seq<char>,
    severity: Seq<char>,
)
    requires
        (s.config_lookup(severity) is Ok),
        (s.set_config(
            admin,
            severity,
            s.config_lookup(severity)->Ok_0.threshold_minutes,
            s.config_lookup(severity)->Ok_0.penalty_per_minute,
            s.config_lookup(severity)->Ok_0.reward_base,
        ).1 is Ok),
    ensures
        ({
            let c = s.config_lookup(severity)->Ok_0;
            let s2 = s.set_config(
                admin,
                severity,
                c.threshold_minutes,
                c.penalty_per_minute,
                c.reward_base,
            ).0;
            &&& s2.configs == s.configs
            &&& s2.get_config_version_hash() == s.get_config_version_hash()
        }),
{
    let c = s.config_lookup(severity)->Ok_0;
    let t = s.configs.unwrap();
    let i = severity_index(severity).unwrap();
    assert(table_with(t, i, c) == t);
}

/// A config update touches only its own severity: every other severity
/// keeps its config, and the updated one reads back as written.
pub proof fn law_config_update_is_isolated(
    s: ContractView,
    admin: Seq<char>,
    severity: Seq<char>,
    other: Seq<char>,
    threshold_minutes: u32,
    penalty_per_minute: i128,
    reward_base: i128,
)
    requires
        (s.set_config(admin, severity, threshold_minutes, penalty_per_minute, reward_base).1 is Ok),
    ensures
        ({
            let s2 = s.set_config(
                admin,
                severity,
                threshold_minutes,
                penalty_per_minute,
                reward_base,
            ).0;
            &&& s2.config_lookup(severity) == Ok::<SLAConfig, SLAError>(
                SLAConfig { threshold_minutes, penalty_per_minute, reward_base },
            )
            &&& (severity_index(other) != severity_index(severity) ==> s2.config_lookup(other)
                == s.config_lookup(other))
        }),
{
}

// -------------------------------------------------------------------
// History
// -------------------------------------------------------------------

#[verifier::rlimit(50)]
/// Each successful calculation appends its result as the newest history
/// entry; the history grows by one until it would exceed the retention
/// limit, and then keeps its length by dropping the oldest entry. The
/// statistics count the calculation (and the violation, if any) and the
/// newest event is `sla_calc` carrying the result.
pub proof fn law_calculation_records_result(
    s: ContractView,
    caller: Seq<char>,
    outage_id: Seq<char>,
    severity: Seq<char>,
    mttr: u32,
)
    requires
        (s.calculate_sla(caller, outage_id, severity, mttr).1 is Ok),
        !s.calculate_overflows(caller, severity, mttr),
        s.retention_limit >= 1,
    ensures
        ({
            let (s2, res) = s.calculate_sla(caller, outage_id, severity, mttr);
            let r = res->Ok_0;
            let dropped: int = if s.history.len() + 1 > s.retention_limit { 1 } else { 0 };
            &&& s2.history.last() == r
            &&& s2.history.drop_last() == s.history.subrange(dropped, s.history.len() as int)
            &&& s2.history.len() == if s.history.len() + 1 > s.retention_limit {
                s.history.len()
            } else {
                s.history.len() + 1
            }
            &&& s2.stats.unwrap().total_calculations == s.stats_or_zero().total_calculations + 1
            &&& s2.stats.unwrap().total_violations == s.stats_or_zero().total_violations + (
            if r.status == "viol"@ {
                1int
            } else {
                0int
            })
            &&& s2.stats.unwrap().total_rewards == s.stats_or_zero().total_rewards + (
            if r.status == "viol"@ {
                0int
            } else {
                r.amount
            })
            &&& s2.stats.unwrap().total_penalties == s.stats_or_zero().total_penalties + (
            if r.status == "viol"@ {
                -r.amount
            } else {
                0int
            })
            &&& s2.events.last() == crate::events::EventView::SlaCalculated {
                severity,
                outage_id: r.outage_id,
                status: r.status,
                payment_type: r.payment_type,
                rating: r.rating,
                mttr_minutes: r.mttr_minutes,
                threshold_minutes: r.threshold_minutes,
                amount: r.amount,
            }
        }),
{
    let cfg = s.calculate_guard(caller, severity)->Ok_0;
    let r = sla_result(outage_id, mttr, cfg, table_hash(s.configs.unwrap()), s.ledger_timestamp);
    assert(s.calculate_sla(caller, outage_id, severity, mttr).1 == Ok::<SLAResultView, SLAError>(r));
    lemma_status_names_differ();
    assert(r.status == "viol"@ <==> sla_violated(cfg, mttr));
    let h2 = s.history.push(r);
    assert(h2.last() == r);
    if h2.len() > s.retention_limit {
        assert(h2.subrange(1, h2.len() as int).last() == r);
    }
}

/// The two status names are different texts.
pub proof fn lemma_status_names_differ()
    ensures
        "viol"@ != "met"@,
{
    reveal_strlit("viol");
    reveal_strlit("met");
    assert("viol"@.len() == 4);
    assert("met"@.len() == 3);
}

/// Pruning keeps exactly the `keep_latest` most recent entries (all of them
/// when there are no more).
pub proof fn law_prune_keeps_latest(s: ContractView, admin: Seq<char>, keep_latest: u32)
    requires
        (s.admin_guard(admin) is Ok),
    ensures
        ({
            let s2 = s.prune_history(admin, keep_latest).0;
            let n = if s.history.len() > keep_latest {
                keep_latest as int
            } else {
                s.history.len() as int
            };
            &&& s2.history.len() == n
            &&& s2.history == s.history.subrange(s.history.len() - n, s.history.len() as int)
        }),
{
    if s.history.len() <= keep_latest {
        assert(s.history.subrange(0, s.history.len() as int) =~= s.history);
    }
}

/// Every entry kept by age-based pruning was recorded at or after the
/// cutoff, and every entry recorded at or after the cutoff is kept.
pub proof fn law_prune_by_age_keeps_exactly_recent(h: Seq<SLAResultView>, cutoff: u64)
    ensures
        forall|j: int|
            0 <= j < entries_since(h, cutoff).len() ==> #[trigger] entries_since(
                h,
                cutoff,
            )[j].recorded_at >= cutoff,
        forall|j: int|
            0 <= j < h.len() && h[j].recorded_at >= cutoff ==> entries_since(h, cutoff).contains(
                #[trigger] h[j],
            ),
    decreases h.len(),
{
    if h.len() > 0 {
        law_prune_by_age_keeps_exactly_recent(h.drop_last(), cutoff);
        let rest = entries_since(h.drop_last(), cutoff);
        assert forall|j: int| 0 <= j < h.len() && h[j].recorded_at >= cutoff implies entries_since(
            h,
            cutoff,
        ).contains(#[trigger] h[j]) by {
            if j < h.len() - 1 {
                assert(h[j] == h.drop_last()[j]);
                let k = choose|k: int| 0 <= k < rest.len() && rest[k] == h[j];
                if h.last().recorded_at >= cutoff {
                    assert(rest.push(h.last())[k] == h[j]);
                }
            } else {
                assert(rest.push(h.last())[rest.len() as int] == h[j]);
            }
        }
    }
}

/// Every entry returned for an outage carries that outage id.
pub proof fn law_entries_for_outage_match(h: Seq<SLAResultView>, id: Seq<char>)
    ensures
        forall|j: int|
            0 <= j < entries_for_outage(h, id).len() ==> #[trigger] entries_for_outage(
                h,
                id,
            )[j].outage_id == id,
    decreases h.len(),
{
    if h.len() > 0 {
        law_entries_for_outage_match(h.drop_last(), id);
        let rest = entries_for_outage(h.drop_last(), id);
        if h.last().outage_id == id {
            assert forall|j: int| 0 <= j < rest.push(h.last()).len() implies #[trigger] rest.push(
                h.last(),
            )[j].outage_id == id by {
                if j < rest.len() {
                    assert(rest.push(h.last())[j] == rest[j]);
                }
            }
        }
    }
}

/// The latest result for an outage is the last of its entries, and there
/// is none exactly when the outage has no entry.
pub proof fn law_latest_is_last_of_outage_entries(s: ContractView, id: Seq<char>)
    ensures
        s.get_latest_by_outage(id) == (match s.get_history_by_outage(id) {
            Ok(m) => Ok(
                if m.len() == 0 {
                    None
                } else {
                    Some(m.last())
                },
            ),
            Err(e) => Err::<Option<SLAResultView>, SLAError>(e),
        }),
{
}


/// A freshly deployed contract (nothing stored, default retention limit)
/// satisfies the invariant of reachable states.
pub proof fn law_fresh_contract_satisfies_invariant(s: ContractView)
    requires
        s.configs is None,
        s.stats is None,
        s.history.len() == 0,
        s.retention_limit == crate::config::MAX_HISTORY_SIZE,
        s.pause_info is None,
    ensures
        s.inv(),
{
}

// -------------------------------------------------------------------
// Version negotiation
// -------------------------------------------------------------------

/// Negotiation looks only at names and protocol versions: two reports of
/// ours that differ only in storage version, pause or migration status
/// negotiate identically against the same peers.
pub proof fn law_negotiation_ignores_status(
    our1: VersionInfoView,
    our2: VersionInfoView,
    peers: Seq<VersionInfoView>,
)
    requires
        our1.contract_name == our2.contract_name,
        our1.protocol_version == our2.protocol_version,
        our1.min_compatible_protocol == our2.min_compatible_protocol,
    ensures
        all_mismatches(our1, peers) == all_mismatches(our2, peers),
        negotiation_outcome(our1, peers) == negotiation_outcome(our2, peers),
    decreases peers.len(),
{
    if peers.len() > 0 {
        law_negotiation_ignores_status(our1, our2, peers.drop_last());
        assert(peer_mismatches(our1, peers.last()) == peer_mismatches(our2, peers.last()));
    }
}

/// Negotiation looks only at the peers' names and protocol versions: two
/// peer lists that differ only in the peers' storage version, pause or
/// migration status negotiate identically (same mismatches, outcome and
/// so summary).
pub proof fn law_negotiation_ignores_peer_status(
    our: VersionInfoView,
    peers1: Seq<VersionInfoView>,
    peers2: Seq<VersionInfoView>,
)
    requires
        peers1.len() == peers2.len(),
        forall|j: int|
            0 <= j < peers1.len() ==> {
                &&& (#[trigger] peers1[j]).contract_name == peers2[j].contract_name
                &&& peers1[j].protocol_version == peers2[j].protocol_version
                &&& peers1[j].min_compatible_protocol == peers2[j].min_compatible_protocol
            },
    ensures
        all_mismatches(our, peers1) == all_mismatches(our, peers2),
        negotiation_outcome(our, peers1) == negotiation_outcome(our, peers2),
    decreases peers1.len(),
{
    if peers1.len() > 0 {
        let n = peers1.len() - 1;
        assert(peers1[n].contract_name == peers2[n].contract_name);
        law_negotiation_ignores_peer_status(our, peers1.drop_last(), peers2.drop_last());
        assert(peer_mismatches(our, peers1.last()) == peer_mismatches(our, peers2.last()));
    }
    if some_protocol_differs(our, peers1) {
        let j = choose|j: int|
            0 <= j < peers1.len() && #[trigger] peers1[j].protocol_version != our.protocol_version;
        assert(peers1[j].protocol_version == peers2[j].protocol_version);
    }
    if some_protocol_differs(our, peers2) {
        let j = choose|j: int|
            0 <= j < peers2.len() && #[trigger] peers2[j].protocol_version != our.protocol_version;
        assert(peers1[j].protocol_version == peers2[j].protocol_version);
    }
}

/// Removing one peer from the list removes exactly its own mismatches.
proof fn lemma_mismatches_without_peer(our: VersionInfoView, p: Seq<VersionInfoView>, k: int)
    requires
        0 <= k < p.len(),
    ensures
        all_mismatches(our, p).to_multiset() == all_mismatches(our, p.remove(k)).to_multiset().add(
            peer_mismatches(our, p[k]).to_multiset(),
        ),
    decreases p.len(),
{
    broadcast use vstd::seq_lib::lemma_multiset_commutative;
    broadcast use vstd::multiset::group_multiset_axioms;

    if k == p.len() - 1 {
        assert(p.remove(k) =~= p.drop_last());
    } else {
        let q = p.drop_last();
        lemma_mismatches_without_peer(our, q, k);
        assert(p.remove(k).drop_last() =~= q.remove(k));
        assert(p.remove(k).last() == p.last());
        let a = all_mismatches(our, q.remove(k)).to_multiset();
        let b = peer_mismatches(our, p[k]).to_multiset();
        let c = peer_mismatches(our, p.last()).to_multiset();
        assert(all_mismatches(our, p).to_multiset() =~= a.add(b).add(c));
        assert(all_mismatches(our, p.remove(k)).to_multiset() =~= a.add(c));
        assert(a.add(b).add(c) =~= a.add(c).add(b));
    }
}

/// Negotiation does not depend on the order of the peers: a permutation
/// of the peer list gives the same outcome (and so summary) and the same
/// mismatches, counted as a multiset.
pub proof fn law_negotiation_ignores_peer_order(
    our: VersionInfoView,
    peers1: Seq<VersionInfoView>,
    peers2: Seq<VersionInfoView>,
)
    requires
        peers1.to_multiset() == peers2.to_multiset(),
    ensures
        all_mismatches(our, peers1).to_multiset() == all_mismatches(our, peers2).to_multiset(),
        negotiation_outcome(our, peers1) == negotiation_outcome(our, peers2),
    decreases peers1.len(),
{
    broadcast use vstd::seq_lib::group_to_multiset_ensures;
    broadcast use vstd::seq_lib::lemma_multiset_commutative;
    broadcast use vstd::multiset::group_multiset_axioms;

    if peers1.len() == 0 {
        assert(peers1.to_multiset().len() == 0);
        assert(peers2.to_multiset().len() == peers2.len());
        assert(peers2.len() == 0);
        assert(peers2 =~= peers1);
    } else {
        let n = peers1.len() - 1;
        let x = peers1[n];
        let q1 = peers1.drop_last();
        assert(peers1.contains(x));
        assert(peers2.to_multiset().count(x) > 0);
        assert(peers2.contains(x));
        let k = choose|k: int| 0 <= k < peers2.len() && peers2[k] == x;
        let q2 = peers2.remove(k);
        assert(peers1.remove(n) =~= q1);
        assert(q1.to_multiset() == q2.to_multiset());
        law_negotiation_ignores_peer_order(our, q1, q2);
        lemma_mismatches_without_peer(our, peers2, k);
        assert(all_mismatches(our, peers1).to_multiset() =~= all_mismatches(our, q1).to_multiset().add(
            peer_mismatches(our, x).to_multiset(),
        ));
    }
    assert(all_mismatches(our, peers1).len() == all_mismatches(our, peers1).to_multiset().len());
    assert(all_mismatches(our, peers2).len() == all_mismatches(our, peers2).to_multiset().len());
    if some_protocol_differs(our, peers1) {
        let j = choose|j: int|
            0 <= j < peers1.len() && #[trigger] peers1[j].protocol_version != our.protocol_version;
        let y = peers1[j];
        assert(peers1.contains(y));
        assert(peers1.to_multiset().count(y) > 0);
        assert(peers2.contains(y));
        let k = choose|k: int| 0 <= k < peers2.len() && peers2[k] == y;
        assert(peers2[k].protocol_version != our.protocol_version);
    }
    if some_protocol_differs(our, peers2) {
        let j = choose|j: int|
            0 <= j < peers2.len() && #[trigger] peers2[j].protocol_version != our.protocol_version;
        let y = peers2[j];
        assert(peers2.contains(y));
        assert(peers2.to_multiset().count(y) > 0);
        assert(peers1.contains(y));
        let k = choose|k: int| 0 <= k < peers1.len() && peers1[k] == y;
        assert(peers1[k].protocol_version != our.protocol_version);
    }
}

/// The group is fully compatible exactly when no mismatch was found and
/// every peer runs our protocol version; it is incompatible exactly when
/// some mismatch was found.
pub proof fn law_negotiation_outcomes(our: VersionInfoView, peers: Seq<VersionInfoView>)
    ensures
        (negotiation_outcome(our, peers) == NegotiationOutcome::Compatible) <==> (all_mismatches(
            our,
            peers,
        ).len() == 0 && forall|j: int|
            0 <= j < peers.len() ==> #[trigger] peers[j].protocol_version
                == our.protocol_version),
        (negotiation_outcome(our, peers) == NegotiationOutcome::Incompatible) <==> (all_mismatches(
            our,
            peers,
        ).len() > 0),
        peers.len() == 0 ==> negotiation_outcome(our, peers) == NegotiationOutcome::Compatible,
{
}

// -------------------------------------------------------------------
// Relations that bind results to their inputs
// -------------------------------------------------------------------

/// A history page is the run of entries starting at `offset`, oldest
/// first: with `offset` inside the history and a positive `limit` it holds
/// `min(limit, len - offset)` entries and its `j`-th entry is history entry
/// `offset + j`; otherwise it is empty.
pub proof fn law_history_page_starts_at_offset(s: ContractView, offset: u32, limit: u32)
    requires
        s.version_check() is Ok,
    ensures
        s.get_history_page(offset, limit) is Ok,
        ({
            let page = s.get_history_page(offset, limit)->Ok_0;
            let len = s.history.len();
            &&& (offset < len && limit > 0) ==> page.len() == (if offset + limit <= len {
                limit as int
            } else {
                len - offset
            })
            &&& !(offset < len && limit > 0) ==> page.len() == 0
            &&& forall|j: int| 0 <= j < page.len() ==> #[trigger] page[j] == s.history[offset + j]
        }),
{
}

/// Every result, recorded or audited, carries the config version hash
/// that `get_config_version_hash` reports in the same state (the hash of
/// the config table it was evaluated against), and is the evaluation of
/// the config that `get_config` reports for its severity, stamped with the
/// ledger time (0 in audit mode).
pub proof fn law_results_carry_config_hash(
    s: ContractView,
    caller: Seq<char>,
    outage_id: Seq<char>,
    severity: Seq<char>,
    mttr: u32,
)
    ensures
        s.calculate_sla(caller, outage_id, severity, mttr).1 matches Ok(r) ==> s.get_config_version_hash()
            == Ok::<u64, SLAError>(r.config_version_hash),
        s.calculate_sla_view(outage_id, severity, mttr) matches Ok(r) ==> s.get_config_version_hash()
            == Ok::<u64, SLAError>(r.config_version_hash),
        s.calculate_sla(caller, outage_id, severity, mttr).1 matches Ok(r) ==> r == sla_result(
            outage_id,
            mttr,
            s.get_config(severity)->Ok_0,
            r.config_version_hash,
            s.ledger_timestamp,
        ),
        s.calculate_sla_view(outage_id, severity, mttr) matches Ok(r) ==> r == sla_result(
            outage_id,
            mttr,
            s.get_config(severity)->Ok_0,
            r.config_version_hash,
            0,
        ),
{
}

/// Each role call changes its own role fields and nothing else but the
/// event log, which gains exactly its one event. In particular cancelling a
/// proposal leaves the active admin and operator as they were.
pub proof fn law_role_calls_touch_only_their_role(s: ContractView, caller: Seq<char>, who: Seq<char>)
    ensures
        (s.set_operator(caller, who).1 is Ok ==> (s.set_operator(caller, who).0 == (ContractView {
            operator: Some(who),
            events: s.events.push(EventView::OperatorSet { caller, new_operator: who }),
            ..s
        }))),
        (s.propose_admin(caller, who).1 is Ok ==> (s.propose_admin(caller, who).0 == (ContractView {
            pending_admin: Some(who),
            events: s.events.push(EventView::AdminProposed { caller, new_admin: who }),
            ..s
        }))),
        (s.accept_admin(caller).1 is Ok ==> (s.accept_admin(caller).0 == (ContractView {
            admin: Some(caller),
            pending_admin: None,
            events: s.events.push(EventView::AdminAccepted { caller }),
            ..s
        }))),
        (s.cancel_admin_proposal(caller).1 is Ok ==> (s.cancel_admin_proposal(caller).0 == (ContractView {
            pending_admin: None,
            events: s.events.push(EventView::AdminProposalCancelled { caller }),
            ..s
        }))),
        (s.propose_operator(caller, who).1 is Ok ==> (s.propose_operator(caller, who).0 == (ContractView {
            pending_operator: Some(who),
            events: s.events.push(EventView::OperatorProposed { caller, new_operator: who }),
            ..s
        }))),
        (s.accept_operator(caller).1 is Ok ==> (s.accept_operator(caller).0 == (ContractView {
            operator: Some(caller),
            pending_operator: None,
            events: s.events.push(EventView::OperatorAccepted { caller }),
            ..s
        }))),
        (s.cancel_operator_proposal(caller).1 is Ok ==> (s.cancel_operator_proposal(caller).0 == (ContractView {
            pending_operator: None,
            events: s.events.push(EventView::OperatorProposalCancelled { caller }),
            ..s
        }))),
        (s.renounce_admin(caller).1 is Ok ==> (s.renounce_admin(caller).0 == (ContractView {
            admin: None,
            pending_admin: None,
            events: s.events.push(EventView::AdminRenounced { caller }),
            ..s
        }))),
        s.cancel_operator_proposal(caller).0.operator == s.operator,
        s.cancel_admin_proposal(caller).0.admin == s.admin,
        s.propose_operator(caller, who).0.operator == s.operator,
        s.propose_admin(caller, who).0.admin == s.admin,
{
}

/// The detail reported for a peer below our minimum: the peer, its
/// protocol, and our minimum.
pub open spec fn peer_too_old(our: VersionInfoView, peer: VersionInfoView) -> MismatchView {
    MismatchView {
        contract_name: peer.contract_name,
        reported_protocol: peer.protocol_version,
        required_min: our.min_compatible_protocol,
    }
}

/// The detail reported when we are below a peer's minimum: us, our
/// protocol, and the peer's minimum.
pub open spec fn ours_too_old(our: VersionInfoView, peer: VersionInfoView) -> MismatchView {
    MismatchView {
        contract_name: our.contract_name,
        reported_protocol: our.protocol_version,
        required_min: peer.min_compatible_protocol,
    }
}

/// A mismatch detail describes a real violation in the group: its protocol
/// is below its minimum, and it is the detail of a peer below our minimum
/// or of us below some peer's minimum.
pub open spec fn mismatch_is_real(
    our: VersionInfoView,
    peers: Seq<VersionInfoView>,
    d: MismatchView,
) -> bool {
    &&& d.reported_protocol < d.required_min
    &&& exists|j: int|
        0 <= j < peers.len() && (d == peer_too_old(our, #[trigger] peers[j]) || d == ours_too_old(
            our,
            peers[j],
        ))
}

/// The mismatches are exactly the violations: every reported detail is a
/// real violation (the protocol it reports is below the minimum it
/// reports, and a detail naming a peer carries our minimum), and every
/// violation is reported, a peer below our minimum as well as us below a
/// peer's minimum.
pub proof fn law_mismatches_are_exactly_the_violations(
    our: VersionInfoView,
    peers: Seq<VersionInfoView>,
)
    ensures
        forall|i: int|
            0 <= i < all_mismatches(our, peers).len() ==> mismatch_is_real(
                our,
                peers,
                #[trigger] all_mismatches(our, peers)[i],
            ),
        forall|j: int|
            0 <= j < peers.len() && (#[trigger] peers[j]).protocol_version
                < our.min_compatible_protocol ==> all_mismatches(our, peers).contains(
                peer_too_old(our, peers[j]),
            ),
        forall|j: int|
            0 <= j < peers.len() && our.protocol_version
                < (#[trigger] peers[j]).min_compatible_protocol ==> all_mismatches(
                our,
                peers,
            ).contains(ours_too_old(our, peers[j])),
    decreases peers.len(),
{
    if peers.len() > 0 {
        let n = peers.len() - 1;
        let q = peers.drop_last();
        let x = peers[n];
        law_mismatches_are_exactly_the_violations(our, q);
        let m = all_mismatches(our, peers);
        let mq = all_mismatches(our, q);
        let pm = peer_mismatches(our, x);
        assert(m == mq + pm);
        let a_len: int = if x.protocol_version < our.min_compatible_protocol { 1 } else { 0 };
        assert forall|i: int| 0 <= i < m.len() implies mismatch_is_real(
            our,
            peers,
            #[trigger] m[i],
        ) by {
            if i < mq.len() {
                assert(m[i] == mq[i]);
                assert(mismatch_is_real(our, q, mq[i]));
                let j = choose|j: int|
                    0 <= j < q.len() && (mq[i] == peer_too_old(our, #[trigger] q[j]) || mq[i]
                        == ours_too_old(our, q[j]));
                assert(q[j] == peers[j]);
            } else {
                assert(m[i] == pm[i - mq.len()]);
                if i - mq.len() < a_len {
                    assert(pm[i - mq.len()] == peer_too_old(our, peers[n]));
                } else {
                    assert(pm[i - mq.len()] == ours_too_old(our, peers[n]));
                }
            }
        }
        assert forall|j: int|
            0 <= j < peers.len() && (#[trigger] peers[j]).protocol_version
                < our.min_compatible_protocol implies m.contains(peer_too_old(our, peers[j])) by {
            if j < n {
                assert(q[j] == peers[j]);
                let i = choose|i: int| 0 <= i < mq.len() && mq[i] == peer_too_old(our, q[j]);
                assert(m[i] == mq[i]);
            } else {
                assert(m[mq.len() as int] == pm[0]);
            }
        }
        assert forall|j: int|
            0 <= j < peers.len() && our.protocol_version
                < (#[trigger] peers[j]).min_compatible_protocol implies m.contains(
            ours_too_old(our, peers[j]),
        ) by {
            if j < n {
                assert(q[j] == peers[j]);
                let i = choose|i: int| 0 <= i < mq.len() && mq[i] == ours_too_old(our, q[j]);
                assert(m[i] == mq[i]);
            } else {
                assert(m[mq.len() + a_len] == pm[a_len]);
            }
        }
    }
}

/// Whether a result belongs to an outage.
pub open spec fn for_outage(id: Seq<char>) -> spec_fn(SLAResultView) -> bool {
    |r: SLAResultView| r.outage_id == id
}

/// Whether a result was recorded at or after a time.
pub open spec fn recorded_since(cutoff: u64) -> spec_fn(SLAResultView) -> bool {
    |r: SLAResultView| r.recorded_at >= cutoff
}

proof fn lemma_outage_entries_filter(h: Seq<SLAResultView>, id: Seq<char>)
    ensures
        entries_for_outage(h, id) == h.filter(for_outage(id)),
        (entries_for_outage(h, id).len() == 0) <==> (forall|k: int|
            0 <= k < h.len() ==> #[trigger] h[k].outage_id != id),
        entries_for_outage(h, id).len() > 0 ==> exists|k: int|
            0 <= k < h.len() && #[trigger] h[k] == entries_for_outage(h, id).last()
                && h[k].outage_id == id && forall|k2: int|
                k < k2 < h.len() ==> (#[trigger] h[k2]).outage_id != id,
    decreases h.len(),
{
    reveal(Seq::filter);
    if h.len() > 0 {
        let q = h.drop_last();
        let n = h.len() - 1;
        lemma_outage_entries_filter(q, id);
        assert forall|k: int| 0 <= k < q.len() implies #[trigger] q[k] == h[k] by {}
        if h[n].outage_id == id {
            assert(entries_for_outage(h, id).last() == h[n]);
        } else {
            if entries_for_outage(q, id).len() > 0 {
                let k = choose|k: int|
                    0 <= k < q.len() && #[trigger] q[k] == entries_for_outage(q, id).last()
                        && q[k].outage_id == id && forall|k2: int|
                        k < k2 < q.len() ==> (#[trigger] q[k2]).outage_id != id;
                assert(h[k] == q[k]);
                assert forall|k2: int| k < k2 < h.len() implies (#[trigger] h[k2]).outage_id != id by {
                    if k2 < n {
                        assert(h[k2] == q[k2]);
                    }
                }
            }
            if forall|k: int| 0 <= k < q.len() ==> #[trigger] q[k].outage_id != id {
                assert forall|k: int| 0 <= k < h.len() implies #[trigger] h[k].outage_id != id by {
                    if k < n {
                        assert(h[k] == q[k]);
                    }
                }
            }
        }
    }
}

/// Querying an outage returns exactly the history entries for it, in
/// history order (oldest first). The latest result for an outage is an
/// entry for it with no later entry for it, and there is none exactly when
/// no entry has that outage id.
pub proof fn law_outage_queries_filter_history(s: ContractView, id: Seq<char>)
    requires
        s.version_check() is Ok,
    ensures
        s.get_history_by_outage(id) == Ok::<Seq<SLAResultView>, SLAError>(
            s.history.filter(for_outage(id)),
        ),
        s.get_latest_by_outage(id) is Ok,
        (s.get_latest_by_outage(id)->Ok_0 is None) <==> (forall|k: int|
            0 <= k < s.history.len() ==> #[trigger] s.history[k].outage_id != id),
        s.get_latest_by_outage(id)->Ok_0 matches Some(r) ==> exists|k: int|
            0 <= k < s.history.len() && #[trigger] s.history[k] == r && r.outage_id == id
                && forall|k2: int|
                k < k2 < s.history.len() ==> (#[trigger] s.history[k2]).outage_id != id,
{
    lemma_outage_entries_filter(s.history, id);
}

proof fn lemma_entries_since_filter(h: Seq<SLAResultView>, cutoff: u64)
    ensures
        entries_since(h, cutoff) == h.filter(recorded_since(cutoff)),
        entries_since(h, cutoff).len() == h.len() ==> entries_since(h, cutoff) == h,
    decreases h.len(),
{
    reveal(Seq::filter);
    if h.len() > 0 {
        lemma_entries_since_filter(h.drop_last(), cutoff);
        crate::model::lemma_entries_since_len(h.drop_last(), cutoff);
        if entries_since(h, cutoff).len() == h.len() {
            assert(h.drop_last().push(h.last()) =~= h);
        }
    }
}

/// Pruning by age keeps exactly the entries recorded at or after the
/// cutoff (the ledger time minus the minimum age, floored at zero), in
/// order, and changes nothing else but the event log.
pub proof fn law_prune_by_age_filters_history(s: ContractView, admin: Seq<char>, min_age: u64)
    requires
        (s.admin_guard(admin) is Ok),
    ensures
        ({
            let cutoff: u64 = if s.ledger_timestamp >= min_age {
                (s.ledger_timestamp - min_age) as u64
            } else {
                0
            };
            let s2 = s.prune_history_by_age(admin, min_age).0;
            &&& s.prune_history_by_age(admin, min_age).1 is Ok
            &&& s2.history == s.history.filter(recorded_since(cutoff))
            &&& s2 == (ContractView { history: s2.history, events: s2.events, ..s })
        }),
{
    let cutoff = saturating_sub(s.ledger_timestamp, min_age);
    lemma_entries_since_filter(s.history, cutoff);
    crate::model::lemma_entries_since_len(s.history, cutoff);
}

/// The evaluation rule in terms of the repair time and the config: beyond
/// the threshold the SLA is violated ("viol", "pen", "poor") and the amount
/// is minus the overtime times the per-minute penalty; otherwise it is met
/// ("met", "rew") and pays twice the reward base (rating "top") when the
/// repair took under half the threshold, one and a half times it (rounded
/// down, "excel") under three quarters, and the base ("good") otherwise.
pub proof fn law_reward_tiers(
    outage_id: Seq<char>,
    mttr: u32,
    cfg: SLAConfig,
    hash: u64,
    at: u64,
)
    requires
        cfg.threshold_minutes > 0,
        cfg.reward_base >= 0,
    ensures
        ({
            let r = sla_result(outage_id, mttr, cfg, hash, at);
            let t = cfg.threshold_minutes as int;
            let b = cfg.reward_base as int;
            &&& r.outage_id == outage_id && r.mttr_minutes == mttr && r.threshold_minutes == t
            &&& r.config_version_hash == hash && r.recorded_at == at
            &&& mttr > t ==> {
                &&& r.status == "viol"@ && r.payment_type == "pen"@ && r.rating == "poor"@
                &&& r.amount == -((mttr - t) * cfg.penalty_per_minute)
            }
            &&& mttr <= t ==> r.status == "met"@ && r.payment_type == "rew"@
            &&& mttr <= t && mttr * 100 < 50 * t ==> r.amount == 2 * b && r.rating == "top"@
            &&& mttr <= t && 50 * t <= mttr * 100 < 75 * t ==> r.amount == (3 * b) / 2
                && r.rating == "excel"@
            &&& mttr <= t && 75 * t <= mttr * 100 ==> r.amount == b && r.rating == "good"@
        }),
{
    let t = cfg.threshold_minutes as int;
    let m = mttr as int;
    let ratio = (m * 100) / t;
    assert(ratio < 50 <==> m * 100 < 50 * t) by (nonlinear_arith)
        requires
            t > 0,
            m >= 0,
            ratio == (m * 100) / t,
    ;
    assert(ratio < 75 <==> m * 100 < 75 * t) by (nonlinear_arith)
        requires
            t > 0,
            m >= 0,
            ratio == (m * 100) / t,
    ;
    let b = cfg.reward_base as int;
    assert((b * 150) / 100 == (3 * b) / 2) by (nonlinear_arith)
        requires
            b >= 0,
    ;
    assert((b * 200) / 100 == 2 * b) by (nonlinear_arith);
    assert((b * 100) / 100 == b) by (nonlinear_arith);
}

/// The documented bounds of an acceptable config for tier `i` (0
/// critical, 1 high, 2 medium, 3 low): every tier needs a threshold in
/// 1..=1440, a penalty in 1..=10000 and a reward in 1..=100000; critical
/// further needs threshold <= 60 and penalty >= 50, high threshold <= 120
/// and penalty >= 25, medium threshold <= 240 and penalty >= 10, and low
/// penalty <= 100.
pub open spec fn within_documented_bounds(i: int, threshold: u32, penalty: i128, reward: i128) -> bool {
    &&& 1 <= threshold <= 1440
    &&& 1 <= penalty <= 10000
    &&& 1 <= reward <= 100000
    &&& i == 0 ==> threshold <= 60 && penalty >= 50
    &&& i == 1 ==> threshold <= 120 && penalty >= 25
    &&& i == 2 ==> threshold <= 240 && penalty >= 10
    &&& i == 3 ==> penalty <= 100
}

/// What `set_config` accepts: called by the admin on a current store, it
/// succeeds exactly for one of the four severities with a config within
/// the documented bounds, and any other severity is refused with
/// `InvalidSeverity`.
pub proof fn law_config_acceptance_bounds(
    s: ContractView,
    admin: Seq<char>,
    severity: Seq<char>,
    threshold: u32,
    penalty: i128,
    reward: i128,
)
    requires
        (s.admin_guard(admin) is Ok),
        s.configs is Some,
    ensures
        severity_index(severity) is None ==> s.set_config(admin, severity, threshold, penalty, reward).1
            == Err::<(), SLAError>(SLAError::InvalidSeverity),
        severity_index(severity) matches Some(i) ==> ((s.set_config(
            admin,
            severity,
            threshold,
            penalty,
            reward,
        ).1 is Ok) <==> within_documented_bounds(i, threshold, penalty, reward)),
{
}

/// Each severity name reads and writes its own tier: `get_config` on
/// "critical", "high", "medium" and "low" returns the critical, high,
/// medium and low config, and a successful `set_config` on one of them
/// replaces that tier alone with the given values.
pub proof fn law_severity_names_select_tiers(
    s: ContractView,
    admin: Seq<char>,
    threshold: u32,
    penalty: i128,
    reward: i128,
)
    requires
        s.version_check() is Ok,
        s.configs is Some,
    ensures
        ({
            let t = s.configs.unwrap();
            let c = SLAConfig {
                threshold_minutes: threshold,
                penalty_per_minute: penalty,
                reward_base: reward,
            };
            &&& s.get_config("critical"@) == Ok::<SLAConfig, SLAError>(t.critical)
            &&& s.get_config("high"@) == Ok::<SLAConfig, SLAError>(t.high)
            &&& s.get_config("medium"@) == Ok::<SLAConfig, SLAError>(t.medium)
            &&& s.get_config("low"@) == Ok::<SLAConfig, SLAError>(t.low)
            &&& s.set_config(admin, "critical"@, threshold, penalty, reward).1 is Ok ==> s.set_config(
                admin,
                "critical"@,
                threshold,
                penalty,
                reward,
            ).0.configs == Some(crate::config::ConfigTable { critical: c, ..t })
            &&& s.set_config(admin, "high"@, threshold, penalty, reward).1 is Ok ==> s.set_config(
                admin,
                "high"@,
                threshold,
                penalty,
                reward,
            ).0.configs == Some(crate::config::ConfigTable { high: c, ..t })
            &&& s.set_config(admin, "medium"@, threshold, penalty, reward).1 is Ok ==> s.set_config(
                admin,
                "medium"@,
                threshold,
                penalty,
                reward,
            ).0.configs == Some(crate::config::ConfigTable { medium: c, ..t })
            &&& s.set_config(admin, "low"@, threshold, penalty, reward).1 is Ok ==> s.set_config(
                admin,
                "low"@,
                threshold,
                penalty,
                reward,
            ).0.configs == Some(crate::config::ConfigTable { low: c, ..t })
        }),
{
    crate::config::lemma_severity_indices();
}

} // verus!

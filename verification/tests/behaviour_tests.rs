use sla_calculator::{Address, SLACalculatorContract, SLAConfig, SLAError, Symbol};

fn sym(v: &str) -> Symbol {
    Symbol::new(v)
}

fn addr(v: &str) -> Address {
    Address::new(v)
}

/// A contract initialised with an admin and an operator.
fn setup() -> (SLACalculatorContract, Address, Address) {
    let mut c = SLACalculatorContract::new();
    let admin = addr("GADMIN");
    let operator = addr("GOPERATOR");
    c.initialize(admin.clone(), operator.clone()).unwrap();
    (c, admin, operator)
}

fn event_names(c: &SLACalculatorContract) -> Vec<String> {
    c.events.iter().map(|e| e.name().as_str().to_string()).collect()
}

fn positions(names: &[String], target: &str) -> Vec<usize> {
    names.iter().enumerate().filter(|(_, n)| n.as_str() == target).map(|(i, _)| i).collect()
}

fn calc(
    c: &mut SLACalculatorContract,
    caller: &Address,
    outage: &str,
    severity: &str,
    mttr: u32,
) -> Result<sla_calculator::SLAResult, SLAError> {
    assert!(c.calculation_fits(caller, &sym(severity), mttr));
    c.calculate_sla(caller, sym(outage), sym(severity), mttr)
}

// ── ordering of published events ──────────────────────────────────────

#[test]
fn test_cfg_upd_event_precedes_sla_calc() {
    let (mut c, admin, operator) = setup();
    c.set_config(&admin, sym("critical"), 20, 200, 1000).unwrap();
    calc(&mut c, &operator, "ORD001", "critical", 10).unwrap();

    let names = event_names(&c);
    let cfg = positions(&names, "cfg_upd");
    let sla = positions(&names, "sla_calc");
    assert!(!cfg.is_empty(), "Expected cfg_upd event");
    assert!(!sla.is_empty(), "Expected sla_calc event");
    assert!(cfg[0] < sla[0], "cfg_upd event must precede sla_calc event");
}

#[test]
fn test_pause_and_unpause_events_in_correct_order() {
    let (mut c, admin, _) = setup();
    c.pause(&admin, "maintenance".to_string()).unwrap();
    c.unpause(&admin).unwrap();

    let names = event_names(&c);
    let p = positions(&names, "paused");
    let u = positions(&names, "unpause");
    assert_eq!(p.len(), 1, "Expected 1 paused event");
    assert_eq!(u.len(), 1, "Expected 1 unpause event");
    assert!(p[0] < u[0], "paused event must precede unpause event");
}

#[test]
fn test_each_calculation_appends_one_sla_calc_event_in_call_order() {
    let (mut c, _, operator) = setup();
    for i in 0..5u32 {
        calc(&mut c, &operator, "CNT", "critical", 5 + i).unwrap();
    }
    let names = event_names(&c);
    assert_eq!(positions(&names, "sla_calc").len(), 5);
    let mttrs: Vec<u32> = c
        .history
        .iter()
        .map(|r| r.mttr_minutes)
        .collect();
    assert_eq!(mttrs, vec![5, 6, 7, 8, 9]);
}

// ── error codes and error paths ───────────────────────────────────────

#[test]
fn test_error_codes_are_stable() {
    let all = [
        (SLAError::AlreadyInitialized, 1),
        (SLAError::NotInitialized, 2),
        (SLAError::Unauthorized, 3),
        (SLAError::ConfigNotFound, 4),
        (SLAError::VersionMismatch, 5),
        (SLAError::ContractPaused, 6),
        (SLAError::NoPendingTransfer, 7),
        (SLAError::InvalidThreshold, 8),
        (SLAError::InvalidPenalty, 9),
        (SLAError::InvalidReward, 10),
        (SLAError::InvalidSeverity, 11),
        (SLAError::RetentionLimitOutOfRange, 12),
    ];
    for (e, code) in all.iter() {
        assert_eq!(e.code(), *code);
    }
}

#[test]
fn test_fresh_contract_reports_not_initialized() {
    let c = SLACalculatorContract::new();
    assert_eq!(c.get_admin(), Err(SLAError::NotInitialized));
    assert_eq!(c.get_stats().err(), Some(SLAError::NotInitialized));
    assert_eq!(c.get_history().err(), Some(SLAError::NotInitialized));
    assert_eq!(c.is_paused(), Err(SLAError::NotInitialized));
}

#[test]
fn test_second_initialize_returns_already_initialized_and_changes_nothing() {
    let (mut c, admin, operator) = setup();
    let before = c.events.len();
    assert_eq!(
        c.initialize(addr("GOTHER"), addr("GOTHER2")),
        Err(SLAError::AlreadyInitialized)
    );
    assert_eq!(c.get_admin(), Ok(admin));
    assert_eq!(c.get_operator(), Ok(operator));
    assert_eq!(c.events.len(), before);
}

#[test]
fn test_paused_contract_rejects_calculation_with_contract_paused() {
    let (mut c, admin, operator) = setup();
    c.pause(&admin, "incident".to_string()).unwrap();
    let before = c.history.len();
    assert_eq!(calc(&mut c, &operator, "P1", "high", 10).err(), Some(SLAError::ContractPaused));
    assert_eq!(c.history.len(), before);
}

#[test]
fn test_accept_without_proposal_returns_no_pending_transfer() {
    let (mut c, admin, operator) = setup();
    assert_eq!(c.accept_admin(&admin), Err(SLAError::NoPendingTransfer));
    assert_eq!(c.accept_operator(&operator), Err(SLAError::NoPendingTransfer));
    assert_eq!(c.cancel_admin_proposal(&admin), Err(SLAError::NoPendingTransfer));
    assert_eq!(c.cancel_operator_proposal(&admin), Err(SLAError::NoPendingTransfer));
}

#[test]
fn test_set_config_validation_errors() {
    let (mut c, admin, _) = setup();
    assert_eq!(c.set_config(&admin, sym("urgent"), 10, 1, 1), Err(SLAError::InvalidSeverity));
    assert_eq!(c.set_config(&admin, sym("high"), 0, 1, 1), Err(SLAError::InvalidThreshold));
    assert_eq!(c.set_config(&admin, sym("high"), 10, -1, 1), Err(SLAError::InvalidPenalty));
    assert_eq!(c.set_config(&admin, sym("high"), 10, 1, -1), Err(SLAError::InvalidReward));
    assert_eq!(c.set_config(&addr("GSTRANGER"), sym("high"), 10, 1, 1), Err(SLAError::Unauthorized));
}

#[test]
fn test_unknown_severity_returns_config_not_found() {
    let (mut c, _, operator) = setup();
    assert_eq!(c.get_config(&sym("urgent")).err(), Some(SLAError::ConfigNotFound));
    assert_eq!(calc(&mut c, &operator, "X", "urgent", 10).err(), Some(SLAError::ConfigNotFound));
}

#[test]
fn test_retention_limit_bounds() {
    let (mut c, admin, _) = setup();
    assert_eq!(c.get_retention_limit(), Ok(1000));
    assert_eq!(c.set_retention_limit(&admin, 0), Err(SLAError::RetentionLimitOutOfRange));
    assert_eq!(c.set_retention_limit(&admin, 1001), Err(SLAError::RetentionLimitOutOfRange));
    assert_eq!(c.set_retention_limit(&admin, 1000), Ok(()));
    assert_eq!(c.set_retention_limit(&admin, 1), Ok(()));
    assert_eq!(c.get_retention_limit(), Ok(1));
}

#[test]
fn test_migrate_from_unstamped_storage_and_refuses_newer() {
    let (mut c, admin, _) = setup();
    c.storage_version = None;
    assert_eq!(c.get_storage_version(), Err(SLAError::NotInitialized));
    assert_eq!(c.migrate(&admin), Ok(()));
    assert_eq!(c.get_storage_version(), Ok(1));
    // a second migration is a no-op
    assert_eq!(c.migrate(&admin), Ok(()));
    assert_eq!(c.get_storage_version(), Ok(1));

    c.storage_version = Some(99);
    assert_eq!(c.migrate(&admin), Err(SLAError::VersionMismatch));
    assert_eq!(c.get_admin(), Err(SLAError::VersionMismatch));
    assert_eq!(c.storage_version, Some(99));
}

// ── roles ─────────────────────────────────────────────────────────────

#[test]
fn test_cancel_proposals_publish_events_and_clear_pending() {
    let (mut c, admin, _) = setup();
    c.propose_admin(&admin, addr("GNEXT")).unwrap();
    c.cancel_admin_proposal(&admin).unwrap();
    assert_eq!(c.get_pending_admin(), Ok(None));
    c.propose_operator(&admin, addr("GNEXTOP")).unwrap();
    c.cancel_operator_proposal(&admin).unwrap();
    assert_eq!(c.get_pending_operator(), Ok(None));
    let names = event_names(&c);
    let n = names.len();
    assert_eq!(&names[n - 4..], &["adm_prop", "adm_can", "op_prop", "op_can"]);
}

#[test]
fn test_initialize_after_renounce_is_refused() {
    let (mut c, admin, operator) = setup();
    c.set_config(&admin, sym("high"), 40, 60, 700).unwrap();
    c.renounce_admin(&admin).unwrap();
    let events = c.events.len();
    assert_eq!(
        c.initialize(addr("GNEWADMIN"), addr("GNEWOP")),
        Err(SLAError::AlreadyInitialized)
    );
    assert_eq!(c.get_admin(), Err(SLAError::NotInitialized));
    assert_eq!(c.get_operator(), Ok(operator));
    assert_eq!(c.get_config(&sym("high")).unwrap().threshold_minutes, 40);
    assert_eq!(c.set_config(&addr("GNEWADMIN"), sym("high"), 30, 50, 750), Err(SLAError::NotInitialized));
    assert_eq!(c.events.len(), events);
}

#[test]
fn test_version_error_comes_before_every_other_check() {
    let (mut c, _, _) = setup();
    c.storage_version = Some(7);
    assert_eq!(c.set_config(&addr("GSTRANGER"), sym("urgent"), 0, -1, -1), Err(SLAError::VersionMismatch));
    assert_eq!(c.pause(&addr("GSTRANGER"), "x".to_string()), Err(SLAError::VersionMismatch));
    assert_eq!(c.get_history().err(), Some(SLAError::VersionMismatch));
    assert_eq!(c.get_config(&sym("urgent")).err(), Some(SLAError::VersionMismatch));
    assert_eq!(c.get_result_schema().err(), Some(SLAError::VersionMismatch));
    assert_eq!(c.get_migration_state().unwrap().stored_version, 7);
}

// ── configs and hash ──────────────────────────────────────────────────

#[test]
fn test_list_configs_order_and_count() {
    let (c, _, _) = setup();
    let list = c.list_configs().unwrap();
    let names: Vec<&str> = list.iter().map(|e| e.severity.as_str()).collect();
    assert_eq!(names, vec!["critical", "high", "low", "medium"]);
    assert_eq!(c.get_config_count(), Ok(4));
}

#[test]
fn test_config_hash_is_stable_and_tracks_changes() {
    let (mut c, admin, _) = setup();
    let h0 = c.get_config_version_hash().unwrap();
    assert_eq!(c.get_config_version_hash().unwrap(), h0);
    // rewriting a tier with its current values keeps the hash
    c.set_config(&admin, sym("high"), 30, 50, 750).unwrap();
    assert_eq!(c.get_config_version_hash().unwrap(), h0);
    c.set_config(&admin, sym("high"), 31, 50, 750).unwrap();
    let h1 = c.get_config_version_hash().unwrap();
    assert_ne!(h1, h0);
    c.set_config(&admin, sym("high"), 30, 50, 750).unwrap();
    assert_eq!(c.get_config_version_hash().unwrap(), h0);
}

#[test]
fn test_config_update_leaves_other_tiers() {
    let (mut c, admin, _) = setup();
    c.set_config(&admin, sym("medium"), 45, 17, 99).unwrap();
    assert_eq!(c.get_config(&sym("critical")).unwrap().threshold_minutes, 15);
    assert_eq!(c.get_config(&sym("high")).unwrap().threshold_minutes, 30);
    assert_eq!(c.get_config(&sym("low")).unwrap().threshold_minutes, 120);
    let m = c.get_config(&sym("medium")).unwrap();
    assert_eq!((m.threshold_minutes, m.penalty_per_minute, m.reward_base), (45, 17, 99));
}

// ── evaluation rule ───────────────────────────────────────────────────

#[test]
fn test_threshold_met_and_one_more_minute_violated() {
    let (mut c, _, operator) = setup();
    let at = calc(&mut c, &operator, "T1", "critical", 15).unwrap();
    assert_eq!(at.status.as_str(), "met");
    assert_eq!(at.payment_type.as_str(), "rew");
    let over = calc(&mut c, &operator, "T2", "critical", 16).unwrap();
    assert_eq!(over.status.as_str(), "viol");
    assert_eq!(over.payment_type.as_str(), "pen");
    assert_eq!(over.amount, -100);
}

#[test]
fn test_penalty_is_linear_in_overrun() {
    let (mut c, _, operator) = setup();
    let one = calc(&mut c, &operator, "L1", "high", 31).unwrap().amount;
    let ten = calc(&mut c, &operator, "L2", "high", 40).unwrap().amount;
    assert_eq!(one, -50);
    assert_eq!(ten, 10 * one);
}

#[test]
fn test_worse_mttr_never_improves_amount() {
    let (c, _, _) = setup();
    let mut last = i128::MAX;
    for mttr in 0..200u32 {
        assert!(c.view_fits(&sym("medium"), mttr));
        let a = c.calculate_sla_view(sym("M"), &sym("medium"), mttr).unwrap().amount;
        assert!(a <= last, "amount grew at mttr {}", mttr);
        last = a;
    }
}

#[test]
fn test_audit_view_matches_calculation_and_ignores_pause() {
    let (mut c, admin, operator) = setup();
    let view = c.calculate_sla_view(sym("A1"), &sym("low"), 90).unwrap();
    let real = calc(&mut c, &operator, "A1", "low", 90).unwrap();
    assert_eq!(view.amount, real.amount);
    assert_eq!(view.rating, real.rating);
    assert_eq!(view.status, real.status);
    c.pause(&admin, "audit".to_string()).unwrap();
    let paused_view = c.calculate_sla_view(sym("A1"), &sym("low"), 90).unwrap();
    assert_eq!(paused_view.amount, real.amount);
}

#[test]
fn test_fits_checks_reject_overflowing_configs() {
    let (mut c, admin, operator) = setup();
    // validated configs keep every evaluation in range
    c.set_config(&admin, sym("critical"), 60, 10000, 100000).unwrap();
    assert!(c.view_fits(&sym("critical"), u32::MAX));
    assert!(c.calculation_fits(&operator, &sym("critical"), u32::MAX));
    // a stored table that bypassed validation can overflow
    let mut table = c.configs.clone().unwrap();
    table.low = SLAConfig { threshold_minutes: 1, penalty_per_minute: i128::MAX, reward_base: 0 };
    c.configs = Some(table);
    assert!(!c.view_fits(&sym("low"), u32::MAX));
    assert!(!c.calculation_fits(&operator, &sym("low"), u32::MAX));
    assert!(c.view_fits(&sym("low"), 2));
    // checks that fail before the arithmetic never count as overflow
    assert!(c.calculation_fits(&addr("GSTRANGER"), &sym("low"), u32::MAX));
}

// ── history ───────────────────────────────────────────────────────────

#[test]
fn test_prune_keeps_latest_entries() {
    let (mut c, admin, operator) = setup();
    for i in 0..6u32 {
        calc(&mut c, &operator, "H", "critical", i).unwrap();
    }
    c.prune_history(&admin, 2).unwrap();
    let h = c.get_history().unwrap();
    assert_eq!(h.len(), 2);
    assert_eq!(h[0].mttr_minutes, 4);
    assert_eq!(h[1].mttr_minutes, 5);
}

#[test]
fn test_prune_by_age_keeps_recent_entries() {
    let (mut c, admin, operator) = setup();
    c.ledger_timestamp = 100;
    calc(&mut c, &operator, "OLD", "critical", 1).unwrap();
    c.ledger_timestamp = 500;
    calc(&mut c, &operator, "NEW", "critical", 2).unwrap();
    c.ledger_timestamp = 600;
    c.prune_history_by_age(&admin, 200).unwrap();
    let h = c.get_history().unwrap();
    assert_eq!(h.len(), 1);
    assert_eq!(h[0].outage_id.as_str(), "NEW");
}

#[test]
fn test_latest_by_outage_is_last_matching_entry() {
    let (mut c, _, operator) = setup();
    calc(&mut c, &operator, "X", "critical", 1).unwrap();
    calc(&mut c, &operator, "Y", "critical", 2).unwrap();
    calc(&mut c, &operator, "X", "critical", 3).unwrap();
    let all = c.get_history_by_outage(&sym("X")).unwrap();
    assert_eq!(all.len(), 2);
    let latest = c.get_latest_by_outage(&sym("X")).unwrap().unwrap();
    assert_eq!(latest.mttr_minutes, 3);
    assert_eq!(c.get_latest_by_outage(&sym("Z")).unwrap(), None);
}

#[test]
fn test_failed_call_changes_nothing() {
    let (mut c, _, _) = setup();
    let events = c.events.len();
    let hash = c.get_config_version_hash().unwrap();
    assert_eq!(c.prune_history(&addr("GSTRANGER"), 0), Err(SLAError::Unauthorized));
    assert_eq!(c.pause(&addr("GSTRANGER"), "x".to_string()), Err(SLAError::Unauthorized));
    assert_eq!(c.events.len(), events);
    assert_eq!(c.is_paused(), Ok(false));
    assert_eq!(c.get_config_version_hash().unwrap(), hash);
}

#[test]
fn test_renounced_authority_stays_renounced() {
    let (mut c, admin, operator) = setup();
    c.renounce_admin(&admin).unwrap();
    assert_eq!(c.propose_admin(&admin, addr("GNEXT")), Err(SLAError::NotInitialized));
    assert_eq!(c.accept_admin(&addr("GNEXT")), Err(SLAError::NoPendingTransfer));
    assert_eq!(c.migrate(&admin), Err(SLAError::NotInitialized));
    assert_eq!(c.set_config(&admin, sym("high"), 30, 50, 750), Err(SLAError::NotInitialized));
    // the operator keeps calculating
    calc(&mut c, &operator, "R1", "high", 10).unwrap();
    assert!(c.admin.is_none());
    assert!(c.pending_admin.is_none());
}

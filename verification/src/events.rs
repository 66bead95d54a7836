//! Events published by the contract entry points.
//!
//! Every event has the topic layout (name, "v1", context) where the context
//! is the severity for `sla_calc` and `cfg_upd`, and the calling address for
//! every other event.
use vstd::prelude::*;
use crate::types::{Address, Symbol};

verus! {

/// An event published by a successful entry-point call.
#[derive(Debug, PartialEq, Eq)]
pub enum ContractEvent {
    /// `sla_calc`: payload (outage_id, status, payment_type, rating,
    /// mttr_minutes, threshold_minutes, amount).
    SlaCalculated {
        severity: Symbol,
        outage_id: Symbol,
        status: Symbol,
        payment_type: Symbol,
        rating: Symbol,
        mttr_minutes: u32,
        threshold_minutes: u32,
        amount: i128,
    },
    /// `cfg_upd`: payload (threshold_minutes, penalty_per_minute, reward_base).
    ConfigUpdated {
        severity: Symbol,
        threshold_minutes: u32,
        penalty_per_minute: i128,
        reward_base: i128,
    },
    /// `paused`: payload (true,).
    Paused { caller: Address },
    /// `unpause`: payload (false,).
    Unpaused { caller: Address },
    /// `op_set`: payload (new_operator,).
    OperatorSet { caller: Address, new_operator: Address },
    /// `pruned`: payload (removed_count, keep_latest).
    HistoryPruned { caller: Address, removed: u32, kept: u32 },
    /// `pruned_a`: payload (removed_count, kept_count).
    HistoryPrunedByAge { caller: Address, removed: u32, kept: u32 },
    /// `adm_prop`: payload (new_admin,).
    AdminProposed { caller: Address, new_admin: Address },
    /// `adm_acc`: empty payload.
    AdminAccepted { caller: Address },
    /// `adm_can`: empty payload.
    AdminProposalCancelled { caller: Address },
    /// `adm_ren`: empty payload.
    AdminRenounced { caller: Address },
    /// `op_prop`: payload (new_operator,).
    OperatorProposed { caller: Address, new_operator: Address },
    /// `op_acc`: empty payload.
    OperatorAccepted { caller: Address },
    /// `op_can`: empty payload.
    OperatorProposalCancelled { caller: Address },
}

/// The mathematical content of a [`ContractEvent`].
pub enum EventView {
    SlaCalculated {
        severity: Seq<char>,
        outage_id: Seq<char>,
        status: Seq<char>,
        payment_type: Seq<char>,
        rating: Seq<char>,
        mttr_minutes: u32,
        threshold_minutes: u32,
        amount: int,
    },
    ConfigUpdated {
        severity: Seq<char>,
        threshold_minutes: u32,
        penalty_per_minute: i128,
        reward_base: i128,
    },
    Paused { caller: Seq<char> },
    Unpaused { caller: Seq<char> },
    OperatorSet { caller: Seq<char>, new_operator: Seq<char> },
    HistoryPruned { caller: Seq<char>, removed: u32, kept: u32 },
    HistoryPrunedByAge { caller: Seq<char>, removed: u32, kept: u32 },
    AdminProposed { caller: Seq<char>, new_admin: Seq<char> },
    AdminAccepted { caller: Seq<char> },
    AdminProposalCancelled { caller: Seq<char> },
    AdminRenounced { caller: Seq<char> },
    OperatorProposed { caller: Seq<char>, new_operator: Seq<char> },
    OperatorAccepted { caller: Seq<char> },
    OperatorProposalCancelled { caller: Seq<char> },
}

impl View for ContractEvent {
    type V = EventView;

    open spec fn view(&self) -> EventView {
        match self {
            ContractEvent::SlaCalculated {
                severity,
                outage_id,
                status,
                payment_type,
                rating,
                mttr_minutes,
                threshold_minutes,
                amount,
            } => EventView::SlaCalculated {
                severity: severity@,
                outage_id: outage_id@,
                status: status@,
                payment_type: payment_type@,
                rating: rating@,
                mttr_minutes: *mttr_minutes,
                threshold_minutes: *threshold_minutes,
                amount: *amount as int,
            },
            ContractEvent::ConfigUpdated {
                severity,
                threshold_minutes,
                penalty_per_minute,
                reward_base,
            } => EventView::ConfigUpdated {
                severity: severity@,
                threshold_minutes: *threshold_minutes,
                penalty_per_minute: *penalty_per_minute,
                reward_base: *reward_base,
            },
            ContractEvent::Paused { caller } => EventView::Paused { caller: caller@ },
            ContractEvent::Unpaused { caller } => EventView::Unpaused { caller: caller@ },
            ContractEvent::OperatorSet { caller, new_operator } => EventView::OperatorSet {
                caller: caller@,
                new_operator: new_operator@,
            },
            ContractEvent::HistoryPruned { caller, removed, kept } => EventView::HistoryPruned {
                caller: caller@,
                removed: *removed,
                kept: *kept,
            },
            ContractEvent::HistoryPrunedByAge { caller, removed, kept } =>
                EventView::HistoryPrunedByAge { caller: caller@, removed: *removed, kept: *kept },
            ContractEvent::AdminProposed { caller, new_admin } => EventView::AdminProposed {
                caller: caller@,
                new_admin: new_admin@,
            },
            ContractEvent::AdminAccepted { caller } => EventView::AdminAccepted { caller: caller@ },
            ContractEvent::AdminProposalCancelled { caller } =>
                EventView::AdminProposalCancelled { caller: caller@ },
            ContractEvent::AdminRenounced { caller } => EventView::AdminRenounced {
                caller: caller@,
            },
            ContractEvent::OperatorProposed { caller, new_operator } =>
                EventView::OperatorProposed { caller: caller@, new_operator: new_operator@ },
            ContractEvent::OperatorAccepted { caller } => EventView::OperatorAccepted {
                caller: caller@,
            },
            ContractEvent::OperatorProposalCancelled { caller } =>
                EventView::OperatorProposalCancelled { caller: caller@ },
        }
    }
}

/// The name (first topic) of an event.
pub open spec fn event_name(e: EventView) -> Seq<char> {
    match e {
        EventView::SlaCalculated { .. } => "sla_calc"@,
        EventView::ConfigUpdated { .. } => "cfg_upd"@,
        EventView::Paused { .. } => "paused"@,
        EventView::Unpaused { .. } => "unpause"@,
        EventView::OperatorSet { .. } => "op_set"@,
        EventView::HistoryPruned { .. } => "pruned"@,
        EventView::HistoryPrunedByAge { .. } => "pruned_a"@,
        EventView::AdminProposed { .. } => "adm_prop"@,
        EventView::AdminAccepted { .. } => "adm_acc"@,
        EventView::AdminProposalCancelled { .. } => "adm_can"@,
        EventView::AdminRenounced { .. } => "adm_ren"@,
        EventView::OperatorProposed { .. } => "op_prop"@,
        EventView::OperatorAccepted { .. } => "op_acc"@,
        EventView::OperatorProposalCancelled { .. } => "op_can"@,
    }
}

impl ContractEvent {
    /// The event name, published as the first topic.
    pub fn name(&self) -> (s: Symbol)
        ensures
            s@ == event_name(self@),
    {
        match self {
            ContractEvent::SlaCalculated { .. } => Symbol::new("sla_calc"),
            ContractEvent::ConfigUpdated { .. } => Symbol::new("cfg_upd"),
            ContractEvent::Paused { .. } => Symbol::new("paused"),
            ContractEvent::Unpaused { .. } => Symbol::new("unpause"),
            ContractEvent::OperatorSet { .. } => Symbol::new("op_set"),
            ContractEvent::HistoryPruned { .. } => Symbol::new("pruned"),
            ContractEvent::HistoryPrunedByAge { .. } => Symbol::new("pruned_a"),
            ContractEvent::AdminProposed { .. } => Symbol::new("adm_prop"),
            ContractEvent::AdminAccepted { .. } => Symbol::new("adm_acc"),
            ContractEvent::AdminProposalCancelled { .. } => Symbol::new("adm_can"),
            ContractEvent::AdminRenounced { .. } => Symbol::new("adm_ren"),
            ContractEvent::OperatorProposed { .. } => Symbol::new("op_prop"),
            ContractEvent::OperatorAccepted { .. } => Symbol::new("op_acc"),
            ContractEvent::OperatorProposalCancelled { .. } => Symbol::new("op_can"),
        }
    }

    /// The event layout version, published as the second topic.
    pub fn version(&self) -> (s: Symbol)
        ensures
            s@ == "v1"@,
    {
        Symbol::new("v1")
    }
}

} // verus!

//! Version negotiation across the contracts of a multi-contract deployment.
//!
//! Every participating contract reports a [`VersionNegotiationInfo`]; a
//! coordinator compares them with [`negotiate_contract_versions`]:
//! - a peer whose protocol is below our minimum, or our protocol below the
//!   peer's minimum, is a mismatch, and any mismatch makes the group
//!   incompatible (deployment must be blocked);
//! - otherwise, a peer on a different protocol makes the group negotiated;
//! - otherwise the group is fully compatible.
//! Pause and migration status do not take part in the comparison.
use vstd::prelude::*;
use crate::types::Symbol;

verus! {

/// Current protocol version of the multi-contract ecosystem.
pub const PROTOCOL_VERSION: u32 = 1;

/// Minimum protocol version this contract interoperates with.
pub const MIN_COMPATIBLE_PROTOCOL: u32 = 1;

/// Version information reported by one contract.
#[derive(Debug, PartialEq, Eq)]
pub struct VersionNegotiationInfo {
    /// Contract name, for log correlation.
    pub contract_name: Symbol,
    /// The protocol version the contract implements.
    pub protocol_version: u32,
    /// The storage schema version stamped in the contract's storage.
    pub storage_version: u32,
    /// The minimum protocol version the contract can interoperate with.
    pub min_compatible_protocol: u32,
    /// Whether the contract is paused.
    pub is_paused: bool,
    /// Whether the contract requires a storage migration.
    pub needs_migration: bool,
}

/// The mathematical content of a [`VersionNegotiationInfo`].
pub struct VersionInfoView {
    pub contract_name: Seq<char>,
    pub protocol_version: u32,
    pub storage_version: u32,
    pub min_compatible_protocol: u32,
    pub is_paused: bool,
    pub needs_migration: bool,
}

impl View for VersionNegotiationInfo {
    type V = VersionInfoView;

    open spec fn view(&self) -> VersionInfoView {
        VersionInfoView {
            contract_name: self.contract_name@,
            protocol_version: self.protocol_version,
            storage_version: self.storage_version,
            min_compatible_protocol: self.min_compatible_protocol,
            is_paused: self.is_paused,
            needs_migration: self.needs_migration,
        }
    }
}

/// The outcome of a negotiation.
#[derive(Clone, Copy, Debug, PartialEq, Eq, Structural)]
pub enum NegotiationOutcome {
    /// All contracts are fully compatible.
    Compatible,
    /// Compatible after negotiation (protocol skew within range).
    Negotiated,
    /// At least one contract is out of range; deployment must be blocked.
    Incompatible,
}

/// Which contract is out of range, and against which minimum.
#[derive(Debug, PartialEq, Eq)]
pub struct VersionMismatchDetail {
    /// The contract whose protocol is too old.
    pub contract_name: Symbol,
    /// The protocol it reported.
    pub reported_protocol: u32,
    /// The minimum required by the other side.
    pub required_min: u32,
}

/// The mathematical content of a [`VersionMismatchDetail`].
pub struct MismatchView {
    pub contract_name: Seq<char>,
    pub reported_protocol: u32,
    pub required_min: u32,
}

impl View for VersionMismatchDetail {
    type V = MismatchView;

    open spec fn view(&self) -> MismatchView {
        MismatchView {
            contract_name: self.contract_name@,
            reported_protocol: self.reported_protocol,
            required_min: self.required_min,
        }
    }
}

/// The full result of a negotiation.
#[derive(Debug, PartialEq, Eq)]
pub struct VersionNegotiationResult {
    pub outcome: NegotiationOutcome,
    /// "compat", "negoti" or "incompt".
    pub summary: Symbol,
    /// Every mismatch found, in peer order.
    pub mismatches: Vec<VersionMismatchDetail>,
}

/// The contents of a sequence of infos.
pub open spec fn infos_view(s: Seq<VersionNegotiationInfo>) -> Seq<VersionInfoView> {
    s.map_values(|i: VersionNegotiationInfo| i@)
}

/// The contents of a sequence of mismatch details.
pub open spec fn mismatches_view(s: Seq<VersionMismatchDetail>) -> Seq<MismatchView> {
    s.map_values(|d: VersionMismatchDetail| d@)
}

/// The mismatches contributed by one peer: the peer below our minimum,
/// then us below the peer's minimum.
pub open spec fn peer_mismatches(our: VersionInfoView, peer: VersionInfoView) -> Seq<MismatchView> {
    let a = if peer.protocol_version < our.min_compatible_protocol {
        seq![
            MismatchView {
                contract_name: peer.contract_name,
                reported_protocol: peer.protocol_version,
                required_min: our.min_compatible_protocol,
            },
        ]
    } else {
        Seq::empty()
    };
    let b = if our.protocol_version < peer.min_compatible_protocol {
        seq![
            MismatchView {
                contract_name: our.contract_name,
                reported_protocol: our.protocol_version,
                required_min: peer.min_compatible_protocol,
            },
        ]
    } else {
        Seq::empty()
    };
    a + b
}

/// All mismatches, peer by peer.
pub open spec fn all_mismatches(our: VersionInfoView, peers: Seq<VersionInfoView>) -> Seq<
    MismatchView,
>
    decreases peers.len(),
{
    if peers.len() == 0 {
        Seq::empty()
    } else {
        all_mismatches(our, peers.drop_last()) + peer_mismatches(our, peers.last())
    }
}

/// Some peer runs a protocol other than ours.
pub open spec fn some_protocol_differs(our: VersionInfoView, peers: Seq<VersionInfoView>) -> bool {
    exists|j: int| 0 <= j < peers.len() && #[trigger] peers[j].protocol_version != our.protocol_version
}

/// The negotiation outcome.
pub open spec fn negotiation_outcome(our: VersionInfoView, peers: Seq<VersionInfoView>) -> NegotiationOutcome {
    if all_mismatches(our, peers).len() > 0 {
        NegotiationOutcome::Incompatible
    } else if some_protocol_differs(our, peers) {
        NegotiationOutcome::Negotiated
    } else {
        NegotiationOutcome::Compatible
    }
}

/// The summary symbol of an outcome.
pub open spec fn outcome_summary(o: NegotiationOutcome) -> Seq<char> {
    match o {
        NegotiationOutcome::Compatible => "compat"@,
        NegotiationOutcome::Negotiated => "negoti"@,
        NegotiationOutcome::Incompatible => "incompt"@,
    }
}

/// Standard name of the SLA calculator contract.
pub fn contract_sla_calc() -> (s: Symbol)
    ensures
        s@ == "sla_calc"@,
{
    Symbol::new("sla_calc")
}

/// Standard name of the payment escrow contract.
pub fn contract_pay_escrow() -> (s: Symbol)
    ensures
        s@ == "pay_escro"@,
{
    Symbol::new("pay_escro")
}

/// Standard name of the settlement contract.
pub fn contract_settlement() -> (s: Symbol)
    ensures
        s@ == "settle"@,
{
    Symbol::new("settle")
}

/// The version information this contract (the SLA calculator) reports.
pub fn build_negotiation_info(storage_version: u32, expected_version: u32, is_paused: bool) -> (info:
    VersionNegotiationInfo)
    ensures
        info@ == (VersionInfoView {
            contract_name: "sla_calc"@,
            protocol_version: PROTOCOL_VERSION,
            storage_version,
            min_compatible_protocol: MIN_COMPATIBLE_PROTOCOL,
            is_paused,
            needs_migration: storage_version != expected_version,
        }),
{
    VersionNegotiationInfo {
        contract_name: contract_sla_calc(),
        protocol_version: PROTOCOL_VERSION,
        storage_version,
        min_compatible_protocol: MIN_COMPATIBLE_PROTOCOL,
        is_paused,
        needs_migration: storage_version != expected_version,
    }
}

/// Compares our version information against every peer's.
pub fn negotiate_contract_versions(
    our_info: &VersionNegotiationInfo,
    peer_infos: &Vec<VersionNegotiationInfo>,
) -> (r: VersionNegotiationResult)
    ensures
        r.outcome == negotiation_outcome(our_info@, infos_view(peer_infos@)),
        r.summary@ == outcome_summary(r.outcome),
        mismatches_view(r.mismatches@) == all_mismatches(our_info@, infos_view(peer_infos@)),
{
    let ghost our = our_info@;
    let ghost pv = infos_view(peer_infos@);
    let mut mismatches: Vec<VersionMismatchDetail> = Vec::new();
    let mut outcome = NegotiationOutcome::Compatible;
    let mut i: usize = 0;
    while i < peer_infos.len()
        invariant
            i <= peer_infos@.len(),
            our == our_info@,
            pv == infos_view(peer_infos@),
            mismatches_view(mismatches@) == all_mismatches(our, pv.take(i as int)),
            outcome == negotiation_outcome(our, pv.take(i as int)),
        decreases peer_infos@.len() - i,
    {
        let peer = &peer_infos[i];
        let ghost before = mismatches@;
        proof {
            assert(pv.take(i + 1).drop_last() =~= pv.take(i as int));
            assert(pv.take(i + 1).last() == peer@);
        }
        if peer.protocol_version < our_info.min_compatible_protocol {
            mismatches.push(
                VersionMismatchDetail {
                    contract_name: peer.contract_name.clone(),
                    reported_protocol: peer.protocol_version,
                    required_min: our_info.min_compatible_protocol,
                },
            );
            outcome = NegotiationOutcome::Incompatible;
        }
        let ghost mid = mismatches@;
        if our_info.protocol_version < peer.min_compatible_protocol {
            mismatches.push(
                VersionMismatchDetail {
                    contract_name: our_info.contract_name.clone(),
                    reported_protocol: our_info.protocol_version,
                    required_min: peer.min_compatible_protocol,
                },
            );
            outcome = NegotiationOutcome::Incompatible;
        }
        proof {
            assert(mismatches_view(mismatches@) =~= mismatches_view(before) + peer_mismatches(
                our,
                peer@,
            ));
        }
        if outcome == NegotiationOutcome::Compatible && peer.protocol_version
            != our_info.protocol_version {
            outcome = NegotiationOutcome::Negotiated;
        }
        proof {
            let ps = pv.take(i + 1);
            if some_protocol_differs(our, pv.take(i as int)) {
                let j = choose|j: int|
                    0 <= j < pv.take(i as int).len() && #[trigger] pv.take(
                        i as int,
                    )[j].protocol_version != our.protocol_version;
                assert(ps[j] == pv.take(i as int)[j]);
            }
            if peer.protocol_version != our_info.protocol_version {
                assert(ps[i as int].protocol_version != our.protocol_version);
            }
            if some_protocol_differs(our, ps) {
                let j = choose|j: int|
                    0 <= j < ps.len() && #[trigger] ps[j].protocol_version != our.protocol_version;
                if j < i {
                    assert(pv.take(i as int)[j] == ps[j]);
                }
            }
        }
        i = i + 1;
    }
    proof {
        assert(pv.take(peer_infos@.len() as int) =~= pv);
    }
    let summary = match outcome {
        NegotiationOutcome::Compatible => Symbol::new("compat"),
        NegotiationOutcome::Negotiated => Symbol::new("negoti"),
        NegotiationOutcome::Incompatible => Symbol::new("incompt"),
    };
    VersionNegotiationResult { outcome, summary, mismatches }
}

/// The interface names downstream contracts expose for version discovery.
pub fn version_discovery_interfaces() -> (v: Vec<Symbol>)
    ensures
        v@.len() == 3,
        v@[0]@ == "ver_info"@,
        v@[1]@ == "mig_state"@,
        v@[2]@ == "is_paused"@,
{
    let mut ifaces: Vec<Symbol> = Vec::new();
    ifaces.push(Symbol::new("ver_info"));
    ifaces.push(Symbol::new("mig_state"));
    ifaces.push(Symbol::new("is_paused"));
    ifaces
}

} // verus!

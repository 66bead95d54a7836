//! The SLA evaluation rule: penalty when the repair time exceeds the
//! threshold, tiered reward otherwise.
use vstd::prelude::*;
use crate::types::{SLAConfig, SLAResult, SLAResultView, Symbol};

verus! {

/// MTTR as a percentage of the threshold (0 when the threshold is 0).
pub open spec fn performance_ratio(mttr: u32, threshold: u32) -> int {
    if threshold == 0 {
        0
    } else {
        (mttr * 100) / (threshold as int)
    }
}

/// Reward multiplier (in percent) for a performance ratio.
pub open spec fn reward_multiplier(ratio: int) -> int {
    if ratio < 50 {
        200
    } else if ratio < 75 {
        150
    } else {
        100
    }
}

/// Rating for a performance ratio on the met path.
pub open spec fn met_rating(ratio: int) -> Seq<char> {
    if ratio < 50 {
        "top"@
    } else if ratio < 75 {
        "excel"@
    } else {
        "good"@
    }
}

/// Integer division rounding toward zero (by a positive divisor).
pub open spec fn div_toward_zero(a: int, d: int) -> int {
    if a >= 0 {
        a / d
    } else {
        -((-a) / d)
    }
}

/// Whether the SLA is violated: the repair took longer than the threshold.
pub open spec fn sla_violated(cfg: SLAConfig, mttr: u32) -> bool {
    mttr > cfg.threshold_minutes
}

/// The penalty owed for a violation: overtime minutes times the per-minute penalty.
pub open spec fn sla_penalty(cfg: SLAConfig, mttr: u32) -> int {
    (mttr - cfg.threshold_minutes) * cfg.penalty_per_minute
}

/// The reward earned when the SLA is met: the base scaled by the multiplier
/// for the performance ratio, in percent, rounded toward zero.
pub open spec fn sla_reward(cfg: SLAConfig, mttr: u32) -> int {
    div_toward_zero(
        cfg.reward_base * reward_multiplier(performance_ratio(mttr, cfg.threshold_minutes)),
        100,
    )
}

/// The signed amount: minus the penalty on violation, the reward otherwise.
pub open spec fn sla_amount(cfg: SLAConfig, mttr: u32) -> int {
    if sla_violated(cfg, mttr) {
        -sla_penalty(cfg, mttr)
    } else {
        sla_reward(cfg, mttr)
    }
}

/// The evaluation can be carried out in machine integers: the percentage
/// fits a u32, and the penalty (with its negation) or the scaled reward fits
/// an i128.
pub open spec fn sla_computable(cfg: SLAConfig, mttr: u32) -> bool {
    if sla_violated(cfg, mttr) {
        -i128::MAX <= sla_penalty(cfg, mttr) <= i128::MAX
    } else {
        &&& (cfg.threshold_minutes == 0 || mttr * 100 <= u32::MAX)
        &&& i128::MIN <= cfg.reward_base * reward_multiplier(
            performance_ratio(mttr, cfg.threshold_minutes),
        ) <= i128::MAX
    }
}

/// The full evaluation result.
pub open spec fn sla_result(
    outage_id: Seq<char>,
    mttr: u32,
    cfg: SLAConfig,
    config_version_hash: u64,
    recorded_at: u64,
) -> SLAResultView {
    let violated = sla_violated(cfg, mttr);
    SLAResultView {
        outage_id,
        status: if violated { "viol"@ } else { "met"@ },
        mttr_minutes: mttr,
        threshold_minutes: cfg.threshold_minutes,
        amount: sla_amount(cfg, mttr),
        payment_type: if violated { "pen"@ } else { "rew"@ },
        rating: if violated { "poor"@ } else { met_rating(performance_ratio(mttr, cfg.threshold_minutes)) },
        config_version_hash,
        recorded_at,
    }
}

/// Decides whether the evaluation fits the machine integer range, and if
/// so returns the signed amount it produces.
pub fn computable(cfg: &SLAConfig, mttr_minutes: u32) -> (r: Option<i128>)
    ensures
        r is Some <==> sla_computable(*cfg, mttr_minutes),
        r matches Some(a) ==> a == sla_amount(*cfg, mttr_minutes),
{
    let threshold = cfg.threshold_minutes;
    if mttr_minutes > threshold {
        let overtime = (mttr_minutes - threshold) as i128;
        match overtime.checked_mul(cfg.penalty_per_minute) {
            None => None,
            Some(p) => if p == i128::MIN {
                None
            } else {
                Some(-p)
            },
        }
    } else {
        let performance_ratio: u32 = if threshold == 0 {
            0
        } else {
            match mttr_minutes.checked_mul(100) {
                None => {
                    return None;
                },
                Some(m) => m / threshold,
            }
        };
        let multiplier: i128 = if performance_ratio < 50 {
            200
        } else if performance_ratio < 75 {
            150
        } else {
            100
        };
        match cfg.reward_base.checked_mul(multiplier) {
            None => None,
            Some(scaled) => if scaled >= 0 {
                Some(scaled / 100)
            } else {
                Some(-((-scaled) / 100))
            },
        }
    }
}

/// Evaluates one outage against a config.
///
/// When the MTTR exceeds the threshold the SLA is violated: the amount is
/// minus overtime times the per-minute penalty, with status "viol",
/// payment type "pen" and rating "poor". Otherwise the SLA is met: the
/// reward base is scaled by 200%, 150% or 100% for a performance ratio
/// below 50%, below 75%, or above, with rating "top", "excel" or "good".
pub fn compute_result(
    outage_id: Symbol,
    mttr_minutes: u32,
    cfg: &SLAConfig,
    config_version_hash: u64,
    recorded_at: u64,
) -> (r: SLAResult)
    requires
        sla_computable(*cfg, mttr_minutes),
    ensures
        r@ == sla_result(outage_id@, mttr_minutes, *cfg, config_version_hash, recorded_at),
        r.outage_id == outage_id,
{
    let threshold = cfg.threshold_minutes;
    if mttr_minutes > threshold {
        let overtime = (mttr_minutes - threshold) as i128;
        let penalty = overtime * cfg.penalty_per_minute;
        SLAResult {
            outage_id,
            status: Symbol::new("viol"),
            mttr_minutes,
            threshold_minutes: threshold,
            amount: -penalty,
            payment_type: Symbol::new("pen"),
            rating: Symbol::new("poor"),
            config_version_hash,
            recorded_at,
        }
    } else {
        let performance_ratio: u32 = if threshold == 0 {
            0
        } else {
            (mttr_minutes * 100) / threshold
        };
        let (multiplier, rating) = if performance_ratio < 50 {
            (200u32, Symbol::new("top"))
        } else if performance_ratio < 75 {
            (150u32, Symbol::new("excel"))
        } else {
            (100u32, Symbol::new("good"))
        };
        let scaled = cfg.reward_base * (multiplier as i128);
        let reward = if scaled >= 0 {
            scaled / 100
        } else {
            -((-scaled) / 100)
        };
        SLAResult {
            outage_id,
            status: Symbol::new("met"),
            mttr_minutes,
            threshold_minutes: threshold,
            amount: reward,
            payment_type: Symbol::new("rew"),
            rating,
            config_version_hash,
            recorded_at,
        }
    }
}

} // verus!

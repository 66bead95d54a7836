//! Severity tiers, the per-severity config table, config validation and the
//! deterministic config version hash.
use vstd::prelude::*;
use crate::types::{SLAConfig, SLAError, Symbol};

verus! {

/// The storage schema version this contract expects.
pub const STORAGE_VERSION: u32 = 1;

/// The version of the result layout published by `get_result_schema`.
pub const RESULT_SCHEMA_VERSION: u32 = 1;

/// Hard cap on the number of history entries retained.
pub const MAX_HISTORY_SIZE: u32 = 1000;

/// Prime base of the config version hash.
pub const HASH_BASE: u64 = 91138233;

/// Prime modulus of the config version hash (2^63 - 25).
pub const HASH_MODULUS: u64 = 9223372036854775783;

/// Constant mixed into the config version hash after the last field.
pub const HASH_FINAL_MIX: u64 = 11400714819323198485;

/// The four supported severity tiers, one config each.
#[derive(Clone, Copy, Debug, PartialEq, Eq, Structural)]
pub struct ConfigTable {
    pub critical: SLAConfig,
    pub high: SLAConfig,
    pub medium: SLAConfig,
    pub low: SLAConfig,
}

/// Canonical position of a severity: critical, high, medium, low.
pub open spec fn severity_index(sev: Seq<char>) -> Option<int> {
    if sev == "critical"@ {
        Some(0)
    } else if sev == "high"@ {
        Some(1)
    } else if sev == "medium"@ {
        Some(2)
    } else if sev == "low"@ {
        Some(3)
    } else {
        None
    }
}

/// The four severity names map to the four canonical slots.
pub proof fn lemma_severity_indices()
    ensures
        severity_index("critical"@) == Some(0int),
        severity_index("high"@) == Some(1int),
        severity_index("medium"@) == Some(2int),
        severity_index("low"@) == Some(3int),
{
    reveal_strlit("critical");
    reveal_strlit("high");
    reveal_strlit("medium");
    reveal_strlit("low");
    assert("critical"@.len() == 8);
    assert("high"@.len() == 4);
    assert("medium"@.len() == 6);
    assert("low"@.len() == 3);
    assert("high"@ != "critical"@);
    assert("medium"@ != "critical"@);
    assert("medium"@ != "high"@);
    assert("low"@ != "critical"@);
    assert("low"@ != "high"@);
    assert("low"@ != "medium"@);
}

/// The config stored in slot `i` of the canonical order.
pub open spec fn table_slot(t: ConfigTable, i: int) -> SLAConfig {
    if i == 0 {
        t.critical
    } else if i == 1 {
        t.high
    } else if i == 2 {
        t.medium
    } else {
        t.low
    }
}

/// The config of a severity, if the severity is one of the four tiers.
pub open spec fn table_lookup(t: ConfigTable, sev: Seq<char>) -> Option<SLAConfig> {
    match severity_index(sev) {
        Some(i) => Some(table_slot(t, i)),
        None => None,
    }
}

/// The table with slot `i` replaced.
pub open spec fn table_with(t: ConfigTable, i: int, c: SLAConfig) -> ConfigTable {
    if i == 0 {
        ConfigTable { critical: c, ..t }
    } else if i == 1 {
        ConfigTable { high: c, ..t }
    } else if i == 2 {
        ConfigTable { medium: c, ..t }
    } else {
        ConfigTable { low: c, ..t }
    }
}

/// The configs installed at initialization.
pub open spec fn default_table() -> ConfigTable {
    ConfigTable {
        critical: SLAConfig { threshold_minutes: 15, penalty_per_minute: 100, reward_base: 750 },
        high: SLAConfig { threshold_minutes: 30, penalty_per_minute: 50, reward_base: 750 },
        medium: SLAConfig { threshold_minutes: 60, penalty_per_minute: 25, reward_base: 750 },
        low: SLAConfig { threshold_minutes: 120, penalty_per_minute: 10, reward_base: 600 },
    }
}

/// The outcome of validating a proposed config for slot `i` (severity given
/// by index; `None` is an unsupported severity).
pub open spec fn validation_outcome(
    idx: Option<int>,
    threshold_minutes: u32,
    penalty_per_minute: i128,
    reward_base: i128,
) -> Result<(), SLAError> {
    match idx {
        None => Err(SLAError::InvalidSeverity),
        Some(i) => if threshold_minutes == 0 || threshold_minutes > 1440 {
            Err(SLAError::InvalidThreshold)
        } else if penalty_per_minute <= 0 || penalty_per_minute > 10000 {
            Err(SLAError::InvalidPenalty)
        } else if reward_base <= 0 || reward_base > 100000 {
            Err(SLAError::InvalidReward)
        } else if i == 0 {
            if threshold_minutes > 60 {
                Err(SLAError::InvalidThreshold)
            } else if penalty_per_minute < 50 {
                Err(SLAError::InvalidPenalty)
            } else {
                Ok(())
            }
        } else if i == 1 {
            if threshold_minutes > 120 {
                Err(SLAError::InvalidThreshold)
            } else if penalty_per_minute < 25 {
                Err(SLAError::InvalidPenalty)
            } else {
                Ok(())
            }
        } else if i == 2 {
            if threshold_minutes > 240 {
                Err(SLAError::InvalidThreshold)
            } else if penalty_per_minute < 10 {
                Err(SLAError::InvalidPenalty)
            } else {
                Ok(())
            }
        } else {
            if penalty_per_minute > 100 {
                Err(SLAError::InvalidPenalty)
            } else {
                Ok(())
            }
        },
    }
}

/// Whether a config is acceptable for slot `i`.
pub open spec fn config_valid_for(i: int, c: SLAConfig) -> bool {
    validation_outcome(Some(i), c.threshold_minutes, c.penalty_per_minute, c.reward_base) is Ok
}

/// Every slot of the table holds a config acceptable for its severity.
pub open spec fn table_valid(t: ConfigTable) -> bool {
    &&& config_valid_for(0, t.critical)
    &&& config_valid_for(1, t.high)
    &&& config_valid_for(2, t.medium)
    &&& config_valid_for(3, t.low)
}

/// Canonical severity index of a symbol (critical=0, high=1, medium=2, low=3).
pub fn canonical_severity_index(severity: &Symbol) -> (r: Option<u32>)
    ensures
        r matches Some(i) ==> severity_index(severity@) == Some(i as int),
        r is None ==> severity_index(severity@) is None,
{
    if severity.equals(&Symbol::new("critical")) {
        Some(0)
    } else if severity.equals(&Symbol::new("high")) {
        Some(1)
    } else if severity.equals(&Symbol::new("medium")) {
        Some(2)
    } else if severity.equals(&Symbol::new("low")) {
        Some(3)
    } else {
        None
    }
}

/// Whether the symbol names one of the four severity tiers.
pub fn is_canonical_severity(severity: &Symbol) -> (b: bool)
    ensures
        b == (severity_index(severity@) is Some),
{
    canonical_severity_index(severity).is_some()
}

/// The four severities in canonical order.
pub fn canonical_severities() -> (v: Vec<Symbol>)
    ensures
        v@.len() == 4,
        v@[0]@ == "critical"@,
        v@[1]@ == "high"@,
        v@[2]@ == "medium"@,
        v@[3]@ == "low"@,
{
    let mut v: Vec<Symbol> = Vec::new();
    v.push(Symbol::new("critical"));
    v.push(Symbol::new("high"));
    v.push(Symbol::new("medium"));
    v.push(Symbol::new("low"));
    v
}

/// Checks a proposed config: the severity must be one of the four tiers,
/// the global ranges must hold (threshold 1..=1440, penalty 1..=10000,
/// reward 1..=100000), and the severity-specific bounds must hold.
pub fn validate_config(
    severity: &Symbol,
    threshold_minutes: u32,
    penalty_per_minute: i128,
    reward_base: i128,
) -> (r: Result<(), SLAError>)
    ensures
        r == validation_outcome(
            severity_index(severity@),
            threshold_minutes,
            penalty_per_minute,
            reward_base,
        ),
{
    let idx = canonical_severity_index(severity);
    let i = match idx {
        None => {
            return Err(SLAError::InvalidSeverity);
        },
        Some(i) => i,
    };
    if threshold_minutes == 0 || threshold_minutes > 1440 {
        return Err(SLAError::InvalidThreshold);
    }
    if penalty_per_minute <= 0 || penalty_per_minute > 10000 {
        return Err(SLAError::InvalidPenalty);
    }
    if reward_base <= 0 || reward_base > 100000 {
        return Err(SLAError::InvalidReward);
    }
    if i == 0 {
        if threshold_minutes > 60 {
            return Err(SLAError::InvalidThreshold);
        }
        if penalty_per_minute < 50 {
            return Err(SLAError::InvalidPenalty);
        }
    } else if i == 1 {
        if threshold_minutes > 120 {
            return Err(SLAError::InvalidThreshold);
        }
        if penalty_per_minute < 25 {
            return Err(SLAError::InvalidPenalty);
        }
    } else if i == 2 {
        if threshold_minutes > 240 {
            return Err(SLAError::InvalidThreshold);
        }
        if penalty_per_minute < 10 {
            return Err(SLAError::InvalidPenalty);
        }
    } else {
        if penalty_per_minute > 100 {
            return Err(SLAError::InvalidPenalty);
        }
    }
    Ok(())
}

impl ConfigTable {
    /// The configs installed at initialization.
    pub fn defaults() -> (t: ConfigTable)
        ensures
            t == default_table(),
    {
        ConfigTable {
            critical: SLAConfig { threshold_minutes: 15, penalty_per_minute: 100, reward_base: 750 },
            high: SLAConfig { threshold_minutes: 30, penalty_per_minute: 50, reward_base: 750 },
            medium: SLAConfig { threshold_minutes: 60, penalty_per_minute: 25, reward_base: 750 },
            low: SLAConfig { threshold_minutes: 120, penalty_per_minute: 10, reward_base: 600 },
        }
    }

    /// The config in slot `i` of the canonical order.
    pub fn slot(&self, i: u32) -> (c: SLAConfig)
        requires
            i < 4,
        ensures
            c == table_slot(*self, i as int),
    {
        if i == 0 {
            self.critical
        } else if i == 1 {
            self.high
        } else if i == 2 {
            self.medium
        } else {
            self.low
        }
    }

    /// The config of a severity, if it is one of the four tiers.
    pub fn lookup(&self, severity: &Symbol) -> (c: Option<SLAConfig>)
        ensures
            c == table_lookup(*self, severity@),
    {
        match canonical_severity_index(severity) {
            Some(i) => Some(self.slot(i)),
            None => None,
        }
    }

    /// Replaces the config in slot `i`.
    pub fn set_slot(&mut self, i: u32, c: SLAConfig)
        requires
            i < 4,
        ensures
            *final(self) == table_with(*old(self), i as int, c),
    {
        if i == 0 {
            self.critical = c;
        } else if i == 1 {
            self.high = c;
        } else if i == 2 {
            self.medium = c;
        } else {
            self.low = c;
        }
    }
}

/// The twelve hashed fields of a table, in canonical severity order and
/// field order (threshold, penalty, reward), each reinterpreted as u64.
pub open spec fn hash_fields(t: ConfigTable) -> Seq<u64> {
    seq![
        t.critical.threshold_minutes as u64,
        t.critical.penalty_per_minute as u64,
        t.critical.reward_base as u64,
        t.high.threshold_minutes as u64,
        t.high.penalty_per_minute as u64,
        t.high.reward_base as u64,
        t.medium.threshold_minutes as u64,
        t.medium.penalty_per_minute as u64,
        t.medium.reward_base as u64,
        t.low.threshold_minutes as u64,
        t.low.penalty_per_minute as u64,
        t.low.reward_base as u64,
    ]
}

/// One mixing step: `((hash * BASE + field) * power) mod 2^64 mod MODULUS`.
#[verifier::opaque]
pub open spec fn hash_mix(hash: u64, field: u64, power: u64) -> u64 {
    (vstd::wrapping::u64_specs::wrapping_mul(
        vstd::wrapping::u64_specs::wrapping_add(
            vstd::wrapping::u64_specs::wrapping_mul(hash, HASH_BASE),
            field,
        ),
        power,
    ) % HASH_MODULUS) as u64
}

/// The next power: `power * BASE mod 2^64 mod MODULUS`.
#[verifier::opaque]
pub open spec fn hash_power_next(power: u64) -> u64 {
    (vstd::wrapping::u64_specs::wrapping_mul(power, HASH_BASE) % HASH_MODULUS) as u64
}

/// The (hash, power) pair after mixing the first `n` fields, starting from
/// hash 1 and power 1; the power advances by BASE after every field.
#[verifier::opaque]
pub open spec fn hash_state(fields: Seq<u64>, n: nat) -> (u64, u64)
    decreases n,
{
    if n == 0 {
        (1u64, 1u64)
    } else {
        let (h, p) = hash_state(fields, (n - 1) as nat);
        let f = fields[n - 1];
        (hash_mix(h, f, p), hash_power_next(p))
    }
}

/// The deterministic config version hash of a table.
#[verifier::opaque]
pub open spec fn table_hash(t: ConfigTable) -> u64 {
    let (h, _p) = hash_state(hash_fields(t), 12);
    (vstd::wrapping::u64_specs::wrapping_add(
        vstd::wrapping::u64_specs::wrapping_mul(h, HASH_BASE),
        HASH_FINAL_MIX,
    ) % HASH_MODULUS) as u64
}

/// Advances the hash state by one field.
fn hash_step(hash: u64, power: u64, field: u64) -> (r: (u64, u64))
    ensures
        r == (hash_mix(hash, field, power), hash_power_next(power)),
{
    proof {
        reveal(hash_mix);
        reveal(hash_power_next);
    }
    let h = hash.wrapping_mul(HASH_BASE).wrapping_add(field).wrapping_mul(power) % HASH_MODULUS;
    let p = power.wrapping_mul(HASH_BASE) % HASH_MODULUS;
    (h, p)
}

/// The deterministic config version hash: a polynomial rolling hash over
/// every config field, in canonical severity order (critical, high,
/// medium, low) and field order (threshold, penalty, reward).
pub fn compute_config_version_hash(t: &ConfigTable) -> (h: u64)
    ensures
        h == table_hash(*t),
{
    let ghost fields = hash_fields(*t);
    let mut hash: u64 = 1;
    let mut power: u64 = 1;
    let mut i: u32 = 0;
    proof {
        reveal(hash_state);
    }
    while i < 4
        invariant
            i <= 4,
            fields == hash_fields(*t),
            (hash, power) == hash_state(fields, (3 * i) as nat),
        decreases 4 - i,
    {
        let cfg = t.slot(i);
        proof {
            reveal(hash_state);
            assert(fields[3 * i as int] == cfg.threshold_minutes as u64);
            assert(fields[3 * i as int + 1] == cfg.penalty_per_minute as u64);
            assert(fields[3 * i as int + 2] == cfg.reward_base as u64);
        }
        let (h1, p1) = hash_step(hash, power, cfg.threshold_minutes as u64);
        assert((h1, p1) == hash_state(fields, (3 * i + 1) as nat));
        let (h2, p2) = hash_step(h1, p1, cfg.penalty_per_minute as u64);
        assert((h2, p2) == hash_state(fields, (3 * i + 2) as nat));
        let (h3, p3) = hash_step(h2, p2, cfg.reward_base as u64);
        assert((h3, p3) == hash_state(fields, (3 * i + 3) as nat));
        hash = h3;
        power = p3;
        i = i + 1;
    }
    proof {
        reveal(table_hash);
        assert(hash_state(fields, 12) == (hash, power));
    }
    hash.wrapping_mul(HASH_BASE).wrapping_add(HASH_FINAL_MIX) % HASH_MODULUS
}

} // verus!

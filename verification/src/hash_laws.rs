//! The config version hash depends on every config field: evaluated on
//! the default table and on each single-field change of it, the hashes
//! differ.
use vstd::prelude::*;
use crate::config::{
    default_table, hash_fields, hash_mix, hash_power_next, hash_state, table_hash, table_slot, table_with,
    ConfigTable, HASH_BASE, HASH_FINAL_MIX, HASH_MODULUS,
};
use crate::types::SLAConfig;

verus! {

/// The final mixing step applied to the hash state after all fields.
#[verifier::opaque]
pub open spec fn final_mix(h: u64) -> u64 {
    (vstd::wrapping::u64_specs::wrapping_add(
        vstd::wrapping::u64_specs::wrapping_mul(h, HASH_BASE),
        HASH_FINAL_MIX,
    ) % HASH_MODULUS) as u64
}

/// A config with one of its three fields (0 threshold, 1 penalty,
/// 2 reward) raised by one.
pub open spec fn field_raised(c: SLAConfig, k: int) -> SLAConfig {
    if k == 0 {
        SLAConfig { threshold_minutes: (c.threshold_minutes + 1) as u32, ..c }
    } else if k == 1 {
        SLAConfig { penalty_per_minute: (c.penalty_per_minute + 1) as i128, ..c }
    } else {
        SLAConfig { reward_base: (c.reward_base + 1) as i128, ..c }
    }
}

proof fn lemma_hash_state_start(f: Seq<u64>)
    ensures
        hash_state(f, 0) == (1u64, 1u64),
{
    reveal(hash_state);
}

/// One step of the hash state on given numbers: the state after `n`
/// fields follows from the state after `n - 1` by mixing field `n - 1`.
proof fn lemma_hash_state_step(f: Seq<u64>, n: nat, h: u64, p: u64, v: u64, h2: u64, p2: u64)
    requires
        1 <= n <= f.len(),
        hash_state(f, (n - 1) as nat) == (h, p),
        f[n - 1] == v,
        hash_mix(h, v, p) == h2,
        hash_power_next(p) == p2,
    ensures
        hash_state(f, n) == (h2, p2),
{
    reveal(hash_state);
}

/// The hash of a table is the final mix of its state after twelve fields.
proof fn lemma_table_hash_from_state(t: ConfigTable, h: u64, p: u64)
    requires
        hash_state(hash_fields(t), 12) == (h, p),
    ensures
        table_hash(t) == final_mix(h),
{
    reveal(table_hash);
    reveal(final_mix);
}

/// The hash of the default table.
proof fn lemma_hash_1()
    ensures
        table_hash(default_table()) == 1417728228875630226u64,
{
    let t = default_table();
    let f = hash_fields(t);
        lemma_hash_state_start(f);
        assert(hash_mix(1u64, 15u64, 1u64) == 91138248u64 && hash_power_next(1u64) == 91138233u64) by (nonlinear_arith) {
            reveal(hash_mix);
            reveal(hash_power_next);
        }
        lemma_hash_state_step(f, 1, 1u64, 1u64, 15u64, 91138248u64, 91138233u64);
        assert(hash_mix(91138248u64, 100u64, 91138233u64) == 2206311127246111397u64 && hash_power_next(91138233u64) == 8306177514362289u64) by (nonlinear_arith) {
            reveal(hash_mix);
            reveal(hash_power_next);
        }
        lemma_hash_state_step(f, 2, 91138248u64, 91138233u64, 100u64, 2206311127246111397u64, 8306177514362289u64);
        assert(hash_mix(2206311127246111397u64, 750u64, 8306177514362289u64) == 3667900532151179451u64 && hash_power_next(8306177514362289u64) == 2081718455416853762u64) by (nonlinear_arith) {
            reveal(hash_mix);
            reveal(hash_power_next);
        }
        lemma_hash_state_step(f, 3, 2206311127246111397u64, 8306177514362289u64, 750u64, 3667900532151179451u64, 2081718455416853762u64);
        assert(hash_mix(3667900532151179451u64, 30u64, 2081718455416853762u64) == 4424871061168653211u64 && hash_power_next(2081718455416853762u64) == 6021377098042277490u64) by (nonlinear_arith) {
            reveal(hash_mix);
            reveal(hash_power_next);
        }
        lemma_hash_state_step(f, 4, 3667900532151179451u64, 2081718455416853762u64, 30u64, 4424871061168653211u64, 6021377098042277490u64);
        assert(hash_mix(4424871061168653211u64, 50u64, 6021377098042277490u64) == 6493541683555083187u64 && hash_power_next(6021377098042277490u64) == 810465586973061218u64) by (nonlinear_arith) {
            reveal(hash_mix);
            reveal(hash_power_next);
        }
        lemma_hash_state_step(f, 5, 4424871061168653211u64, 6021377098042277490u64, 50u64, 6493541683555083187u64, 810465586973061218u64);
        assert(hash_mix(6493541683555083187u64, 750u64, 810465586973061218u64) == 8914489255199504907u64 && hash_power_next(810465586973061218u64) == 4224317052557215442u64) by (nonlinear_arith) {
            reveal(hash_mix);
            reveal(hash_power_next);
        }
        lemma_hash_state_step(f, 6, 6493541683555083187u64, 810465586973061218u64, 750u64, 8914489255199504907u64, 4224317052557215442u64);
        assert(hash_mix(8914489255199504907u64, 60u64, 4224317052557215442u64) == 7975948810884805774u64 && hash_power_next(4224317052557215442u64) == 7444641517954989531u64) by (nonlinear_arith) {
            reveal(hash_mix);
            reveal(hash_power_next);
        }
        lemma_hash_state_step(f, 7, 8914489255199504907u64, 4224317052557215442u64, 60u64, 7975948810884805774u64, 7444641517954989531u64);
        assert(hash_mix(7975948810884805774u64, 25u64, 7444641517954989531u64) == 3916901515635893670u64 && hash_power_next(7444641517954989531u64) == 8602313425283787587u64) by (nonlinear_arith) {
            reveal(hash_mix);
            reveal(hash_power_next);
        }
        lemma_hash_state_step(f, 8, 7975948810884805774u64, 7444641517954989531u64, 25u64, 3916901515635893670u64, 8602313425283787587u64);
        assert(hash_mix(3916901515635893670u64, 750u64, 8602313425283787587u64) == 3240715392880032940u64 && hash_power_next(8602313425283787587u64) == 7981941978457848708u64) by (nonlinear_arith) {
            reveal(hash_mix);
            reveal(hash_power_next);
        }
        lemma_hash_state_step(f, 9, 3916901515635893670u64, 8602313425283787587u64, 750u64, 3240715392880032940u64, 7981941978457848708u64);
        assert(hash_mix(3240715392880032940u64, 120u64, 7981941978457848708u64) == 5934359252896346384u64 && hash_power_next(7981941978457848708u64) == 7025025368660877924u64) by (nonlinear_arith) {
            reveal(hash_mix);
            reveal(hash_power_next);
        }
        lemma_hash_state_step(f, 10, 3240715392880032940u64, 7981941978457848708u64, 120u64, 5934359252896346384u64, 7025025368660877924u64);
        assert(hash_mix(5934359252896346384u64, 10u64, 7025025368660877924u64) == 6381249350994755649u64 && hash_power_next(7025025368660877924u64) == 4607979663854795332u64) by (nonlinear_arith) {
            reveal(hash_mix);
            reveal(hash_power_next);
        }
        lemma_hash_state_step(f, 11, 5934359252896346384u64, 7025025368660877924u64, 10u64, 6381249350994755649u64, 4607979663854795332u64);
        assert(hash_mix(6381249350994755649u64, 600u64, 4607979663854795332u64) == 5132222932157453188u64 && hash_power_next(4607979663854795332u64) == 1559174193640799037u64) by (nonlinear_arith) {
            reveal(hash_mix);
            reveal(hash_power_next);
        }
        lemma_hash_state_step(f, 12, 6381249350994755649u64, 4607979663854795332u64, 600u64, 5132222932157453188u64, 1559174193640799037u64);
        assert(final_mix(5132222932157453188u64) == 1417728228875630226u64) by (nonlinear_arith) {
            reveal(final_mix);
        }
        lemma_table_hash_from_state(t, 5132222932157453188u64, 1559174193640799037u64);
        assert(table_hash(t) == 1417728228875630226u64);
}

/// The hash of the default table with critical threshold raised by one.
proof fn lemma_hash_2()
    ensures
        table_hash(table_with(default_table(), 0, field_raised(table_slot(default_table(), 0), 0))) == 5703282662485356069u64,
{
    let t = table_with(default_table(), 0, field_raised(table_slot(default_table(), 0), 0));
    let f = hash_fields(t);
        lemma_hash_state_start(f);
        assert(hash_mix(1u64, 16u64, 1u64) == 91138249u64 && hash_power_next(1u64) == 91138233u64) by (nonlinear_arith) {
            reveal(hash_mix);
            reveal(hash_power_next);
        }
        lemma_hash_state_step(f, 1, 1u64, 1u64, 16u64, 91138249u64, 91138233u64);
        assert(hash_mix(91138249u64, 100u64, 91138233u64) == 2214617304760473686u64 && hash_power_next(91138233u64) == 8306177514362289u64) by (nonlinear_arith) {
            reveal(hash_mix);
            reveal(hash_power_next);
        }
        lemma_hash_state_step(f, 2, 91138249u64, 91138233u64, 100u64, 2214617304760473686u64, 8306177514362289u64);
        assert(hash_mix(2214617304760473686u64, 750u64, 8306177514362289u64) == 4270711681265183469u64 && hash_power_next(8306177514362289u64) == 2081718455416853762u64) by (nonlinear_arith) {
            reveal(hash_mix);
            reveal(hash_power_next);
        }
        lemma_hash_state_step(f, 3, 2214617304760473686u64, 8306177514362289u64, 750u64, 4270711681265183469u64, 2081718455416853762u64);
        assert(hash_mix(4270711681265183469u64, 30u64, 2081718455416853762u64) == 5936261426293193158u64 && hash_power_next(2081718455416853762u64) == 6021377098042277490u64) by (nonlinear_arith) {
            reveal(hash_mix);
            reveal(hash_power_next);
        }
        lemma_hash_state_step(f, 4, 4270711681265183469u64, 2081718455416853762u64, 30u64, 5936261426293193158u64, 6021377098042277490u64);
        assert(hash_mix(5936261426293193158u64, 50u64, 6021377098042277490u64) == 9198277580326039593u64 && hash_power_next(6021377098042277490u64) == 810465586973061218u64) by (nonlinear_arith) {
            reveal(hash_mix);
            reveal(hash_power_next);
        }
        lemma_hash_state_step(f, 5, 5936261426293193158u64, 6021377098042277490u64, 50u64, 9198277580326039593u64, 810465586973061218u64);
        assert(hash_mix(9198277580326039593u64, 750u64, 810465586973061218u64) == 6207934946687448791u64 && hash_power_next(810465586973061218u64) == 4224317052557215442u64) by (nonlinear_arith) {
            reveal(hash_mix);
            reveal(hash_power_next);
        }
        lemma_hash_state_step(f, 6, 9198277580326039593u64, 810465586973061218u64, 750u64, 6207934946687448791u64, 4224317052557215442u64);
        assert(hash_mix(6207934946687448791u64, 60u64, 4224317052557215442u64) == 1815603154606891839u64 && hash_power_next(4224317052557215442u64) == 7444641517954989531u64) by (nonlinear_arith) {
            reveal(hash_mix);
            reveal(hash_power_next);
        }
        lemma_hash_state_step(f, 7, 6207934946687448791u64, 4224317052557215442u64, 60u64, 1815603154606891839u64, 7444641517954989531u64);
        assert(hash_mix(1815603154606891839u64, 25u64, 7444641517954989531u64) == 2191301476367243513u64 && hash_power_next(7444641517954989531u64) == 8602313425283787587u64) by (nonlinear_arith) {
            reveal(hash_mix);
            reveal(hash_power_next);
        }
        lemma_hash_state_step(f, 8, 1815603154606891839u64, 7444641517954989531u64, 25u64, 2191301476367243513u64, 8602313425283787587u64);
        assert(hash_mix(2191301476367243513u64, 750u64, 8602313425283787587u64) == 8257942544959148406u64 && hash_power_next(8602313425283787587u64) == 7981941978457848708u64) by (nonlinear_arith) {
            reveal(hash_mix);
            reveal(hash_power_next);
        }
        lemma_hash_state_step(f, 9, 2191301476367243513u64, 8602313425283787587u64, 750u64, 8257942544959148406u64, 7981941978457848708u64);
        assert(hash_mix(8257942544959148406u64, 120u64, 7981941978457848708u64) == 4447530775792935953u64 && hash_power_next(7981941978457848708u64) == 7025025368660877924u64) by (nonlinear_arith) {
            reveal(hash_mix);
            reveal(hash_power_next);
        }
        lemma_hash_state_step(f, 10, 8257942544959148406u64, 7981941978457848708u64, 120u64, 4447530775792935953u64, 7025025368660877924u64);
        assert(hash_mix(4447530775792935953u64, 10u64, 7025025368660877924u64) == 1867734453159495276u64 && hash_power_next(7025025368660877924u64) == 4607979663854795332u64) by (nonlinear_arith) {
            reveal(hash_mix);
            reveal(hash_power_next);
        }
        lemma_hash_state_step(f, 11, 4447530775792935953u64, 7025025368660877924u64, 10u64, 1867734453159495276u64, 4607979663854795332u64);
        assert(hash_mix(1867734453159495276u64, 600u64, 4607979663854795332u64) == 7080251595271920272u64 && hash_power_next(4607979663854795332u64) == 1559174193640799037u64) by (nonlinear_arith) {
            reveal(hash_mix);
            reveal(hash_power_next);
        }
        lemma_hash_state_step(f, 12, 1867734453159495276u64, 4607979663854795332u64, 600u64, 7080251595271920272u64, 1559174193640799037u64);
        assert(final_mix(7080251595271920272u64) == 5703282662485356069u64) by (nonlinear_arith) {
            reveal(final_mix);
        }
        lemma_table_hash_from_state(t, 7080251595271920272u64, 1559174193640799037u64);
        assert(table_hash(t) == 5703282662485356069u64);
}

/// The hash of the default table with critical penalty raised by one.
proof fn lemma_hash_3()
    ensures
        table_hash(table_with(default_table(), 0, field_raised(table_slot(default_table(), 0), 1))) == 4536153643207319010u64,
{
    let t = table_with(default_table(), 0, field_raised(table_slot(default_table(), 0), 1));
    let f = hash_fields(t);
        lemma_hash_state_start(f);
        assert(hash_mix(1u64, 15u64, 1u64) == 91138248u64 && hash_power_next(1u64) == 91138233u64) by (nonlinear_arith) {
            reveal(hash_mix);
            reveal(hash_power_next);
        }
        lemma_hash_state_step(f, 1, 1u64, 1u64, 15u64, 91138248u64, 91138233u64);
        assert(hash_mix(91138248u64, 101u64, 91138233u64) == 2206311127337249630u64 && hash_power_next(91138233u64) == 8306177514362289u64) by (nonlinear_arith) {
            reveal(hash_mix);
            reveal(hash_power_next);
        }
        lemma_hash_state_step(f, 2, 91138248u64, 91138233u64, 101u64, 2206311127337249630u64, 8306177514362289u64);
        assert(hash_mix(2206311127337249630u64, 750u64, 8306177514362289u64) == 465905591060225308u64 && hash_power_next(8306177514362289u64) == 2081718455416853762u64) by (nonlinear_arith) {
            reveal(hash_mix);
            reveal(hash_power_next);
        }
        lemma_hash_state_step(f, 3, 2206311127337249630u64, 8306177514362289u64, 750u64, 465905591060225308u64, 2081718455416853762u64);
        assert(hash_mix(465905591060225308u64, 30u64, 2081718455416853762u64) == 3803812447319209165u64 && hash_power_next(2081718455416853762u64) == 6021377098042277490u64) by (nonlinear_arith) {
            reveal(hash_mix);
            reveal(hash_power_next);
        }
        lemma_hash_state_step(f, 4, 465905591060225308u64, 2081718455416853762u64, 30u64, 3803812447319209165u64, 6021377098042277490u64);
        assert(hash_mix(3803812447319209165u64, 50u64, 6021377098042277490u64) == 1363527594945894590u64 && hash_power_next(6021377098042277490u64) == 810465586973061218u64) by (nonlinear_arith) {
            reveal(hash_mix);
            reveal(hash_power_next);
        }
        lemma_hash_state_step(f, 5, 3803812447319209165u64, 6021377098042277490u64, 50u64, 1363527594945894590u64, 810465586973061218u64);
        assert(hash_mix(1363527594945894590u64, 750u64, 810465586973061218u64) == 972729762746892049u64 && hash_power_next(810465586973061218u64) == 4224317052557215442u64) by (nonlinear_arith) {
            reveal(hash_mix);
            reveal(hash_power_next);
        }
        lemma_hash_state_step(f, 6, 1363527594945894590u64, 810465586973061218u64, 750u64, 972729762746892049u64, 4224317052557215442u64);
        assert(hash_mix(972729762746892049u64, 60u64, 4224317052557215442u64) == 5533607727606837555u64 && hash_power_next(4224317052557215442u64) == 7444641517954989531u64) by (nonlinear_arith) {
            reveal(hash_mix);
            reveal(hash_power_next);
        }
        lemma_hash_state_step(f, 7, 972729762746892049u64, 4224317052557215442u64, 60u64, 5533607727606837555u64, 7444641517954989531u64);
        assert(hash_mix(5533607727606837555u64, 25u64, 7444641517954989531u64) == 6069306183659404220u64 && hash_power_next(7444641517954989531u64) == 8602313425283787587u64) by (nonlinear_arith) {
            reveal(hash_mix);
            reveal(hash_power_next);
        }
        lemma_hash_state_step(f, 8, 5533607727606837555u64, 7444641517954989531u64, 25u64, 6069306183659404220u64, 8602313425283787587u64);
        assert(hash_mix(6069306183659404220u64, 750u64, 8602313425283787587u64) == 8608110811186104823u64 && hash_power_next(8602313425283787587u64) == 7981941978457848708u64) by (nonlinear_arith) {
            reveal(hash_mix);
            reveal(hash_power_next);
        }
        lemma_hash_state_step(f, 9, 6069306183659404220u64, 8602313425283787587u64, 750u64, 8608110811186104823u64, 7981941978457848708u64);
        assert(hash_mix(8608110811186104823u64, 120u64, 7981941978457848708u64) == 3825351575000127605u64 && hash_power_next(7981941978457848708u64) == 7025025368660877924u64) by (nonlinear_arith) {
            reveal(hash_mix);
            reveal(hash_power_next);
        }
        lemma_hash_state_step(f, 10, 8608110811186104823u64, 7981941978457848708u64, 120u64, 3825351575000127605u64, 7025025368660877924u64);
        assert(hash_mix(3825351575000127605u64, 10u64, 7025025368660877924u64) == 205192743677204757u64 && hash_power_next(7025025368660877924u64) == 4607979663854795332u64) by (nonlinear_arith) {
            reveal(hash_mix);
            reveal(hash_power_next);
        }
        lemma_hash_state_step(f, 11, 3825351575000127605u64, 7025025368660877924u64, 10u64, 205192743677204757u64, 4607979663854795332u64);
        assert(hash_mix(205192743677204757u64, 600u64, 4607979663854795332u64) == 3431453015089687892u64 && hash_power_next(4607979663854795332u64) == 1559174193640799037u64) by (nonlinear_arith) {
            reveal(hash_mix);
            reveal(hash_power_next);
        }
        lemma_hash_state_step(f, 12, 205192743677204757u64, 4607979663854795332u64, 600u64, 3431453015089687892u64, 1559174193640799037u64);
        assert(final_mix(3431453015089687892u64) == 4536153643207319010u64) by (nonlinear_arith) {
            reveal(final_mix);
        }
        lemma_table_hash_from_state(t, 3431453015089687892u64, 1559174193640799037u64);
        assert(table_hash(t) == 4536153643207319010u64);
}

/// The hash of the default table with critical reward raised by one.
proof fn lemma_hash_4()
    ensures
        table_hash(table_with(default_table(), 0, field_raised(table_slot(default_table(), 0), 2))) == 5523122119097914495u64,
{
    let t = table_with(default_table(), 0, field_raised(table_slot(default_table(), 0), 2));
    let f = hash_fields(t);
        lemma_hash_state_start(f);
        assert(hash_mix(1u64, 15u64, 1u64) == 91138248u64 && hash_power_next(1u64) == 91138233u64) by (nonlinear_arith) {
            reveal(hash_mix);
            reveal(hash_power_next);
        }
        lemma_hash_state_step(f, 1, 1u64, 1u64, 15u64, 91138248u64, 91138233u64);
        assert(hash_mix(91138248u64, 100u64, 91138233u64) == 2206311127246111397u64 && hash_power_next(91138233u64) == 8306177514362289u64) by (nonlinear_arith) {
            reveal(hash_mix);
            reveal(hash_power_next);
        }
        lemma_hash_state_step(f, 2, 91138248u64, 91138233u64, 100u64, 2206311127246111397u64, 8306177514362289u64);
        assert(hash_mix(2206311127246111397u64, 751u64, 8306177514362289u64) == 3676206709665541740u64 && hash_power_next(8306177514362289u64) == 2081718455416853762u64) by (nonlinear_arith) {
            reveal(hash_mix);
            reveal(hash_power_next);
        }
        lemma_hash_state_step(f, 3, 2206311127246111397u64, 8306177514362289u64, 751u64, 3676206709665541740u64, 2081718455416853762u64);
        assert(hash_mix(3676206709665541740u64, 30u64, 2081718455416853762u64) == 8649188113725868653u64 && hash_power_next(2081718455416853762u64) == 6021377098042277490u64) by (nonlinear_arith) {
            reveal(hash_mix);
            reveal(hash_power_next);
        }
        lemma_hash_state_step(f, 4, 3676206709665541740u64, 2081718455416853762u64, 30u64, 8649188113725868653u64, 6021377098042277490u64);
        assert(hash_mix(8649188113725868653u64, 50u64, 6021377098042277490u64) == 1630298795750367255u64 && hash_power_next(6021377098042277490u64) == 810465586973061218u64) by (nonlinear_arith) {
            reveal(hash_mix);
            reveal(hash_power_next);
        }
        lemma_hash_state_step(f, 5, 8649188113725868653u64, 6021377098042277490u64, 50u64, 1630298795750367255u64, 810465586973061218u64);
        assert(hash_mix(1630298795750367255u64, 750u64, 810465586973061218u64) == 3985433309226556435u64 && hash_power_next(810465586973061218u64) == 4224317052557215442u64) by (nonlinear_arith) {
            reveal(hash_mix);
            reveal(hash_power_next);
        }
        lemma_hash_state_step(f, 6, 1630298795750367255u64, 810465586973061218u64, 750u64, 3985433309226556435u64, 4224317052557215442u64);
        assert(hash_mix(3985433309226556435u64, 60u64, 4224317052557215442u64) == 6108606219961443998u64 && hash_power_next(4224317052557215442u64) == 7444641517954989531u64) by (nonlinear_arith) {
            reveal(hash_mix);
            reveal(hash_power_next);
        }
        lemma_hash_state_step(f, 7, 3985433309226556435u64, 4224317052557215442u64, 60u64, 6108606219961443998u64, 7444641517954989531u64);
        assert(hash_mix(6108606219961443998u64, 25u64, 7444641517954989531u64) == 5418085275276046269u64 && hash_power_next(7444641517954989531u64) == 8602313425283787587u64) by (nonlinear_arith) {
            reveal(hash_mix);
            reveal(hash_power_next);
        }
        lemma_hash_state_step(f, 8, 6108606219961443998u64, 7444641517954989531u64, 25u64, 5418085275276046269u64, 8602313425283787587u64);
        assert(hash_mix(5418085275276046269u64, 750u64, 8602313425283787587u64) == 4055925589171503433u64 && hash_power_next(8602313425283787587u64) == 7981941978457848708u64) by (nonlinear_arith) {
            reveal(hash_mix);
            reveal(hash_power_next);
        }
        lemma_hash_state_step(f, 9, 5418085275276046269u64, 8602313425283787587u64, 750u64, 4055925589171503433u64, 7981941978457848708u64);
        assert(hash_mix(4055925589171503433u64, 120u64, 7981941978457848708u64) == 3312681098936817764u64 && hash_power_next(7981941978457848708u64) == 7025025368660877924u64) by (nonlinear_arith) {
            reveal(hash_mix);
            reveal(hash_power_next);
        }
        lemma_hash_state_step(f, 10, 4055925589171503433u64, 7981941978457848708u64, 120u64, 3312681098936817764u64, 7025025368660877924u64);
        assert(hash_mix(3312681098936817764u64, 10u64, 7025025368660877924u64) == 5525778152338389624u64 && hash_power_next(7025025368660877924u64) == 4607979663854795332u64) by (nonlinear_arith) {
            reveal(hash_mix);
            reveal(hash_power_next);
        }
        lemma_hash_state_step(f, 11, 3312681098936817764u64, 7025025368660877924u64, 10u64, 5525778152338389624u64, 4607979663854795332u64);
        assert(hash_mix(5525778152338389624u64, 600u64, 4607979663854795332u64) == 4708714237763219545u64 && hash_power_next(4607979663854795332u64) == 1559174193640799037u64) by (nonlinear_arith) {
            reveal(hash_mix);
            reveal(hash_power_next);
        }
        lemma_hash_state_step(f, 12, 5525778152338389624u64, 4607979663854795332u64, 600u64, 4708714237763219545u64, 1559174193640799037u64);
        assert(final_mix(4708714237763219545u64) == 5523122119097914495u64) by (nonlinear_arith) {
            reveal(final_mix);
        }
        lemma_table_hash_from_state(t, 4708714237763219545u64, 1559174193640799037u64);
        assert(table_hash(t) == 5523122119097914495u64);
}

/// The hash of the default table with high threshold raised by one.
proof fn lemma_hash_5()
    ensures
        table_hash(table_with(default_table(), 1, field_raised(table_slot(default_table(), 1), 0))) == 3572102006329098233u64,
{
    let t = table_with(default_table(), 1, field_raised(table_slot(default_table(), 1), 0));
    let f = hash_fields(t);
        lemma_hash_state_start(f);
        assert(hash_mix(1u64, 15u64, 1u64) == 91138248u64 && hash_power_next(1u64) == 91138233u64) by (nonlinear_arith) {
            reveal(hash_mix);
            reveal(hash_power_next);
        }
        lemma_hash_state_step(f, 1, 1u64, 1u64, 15u64, 91138248u64, 91138233u64);
        assert(hash_mix(91138248u64, 100u64, 91138233u64) == 2206311127246111397u64 && hash_power_next(91138233u64) == 8306177514362289u64) by (nonlinear_arith) {
            reveal(hash_mix);
            reveal(hash_power_next);
        }
        lemma_hash_state_step(f, 2, 91138248u64, 91138233u64, 100u64, 2206311127246111397u64, 8306177514362289u64);
        assert(hash_mix(2206311127246111397u64, 750u64, 8306177514362289u64) == 3667900532151179451u64 && hash_power_next(8306177514362289u64) == 2081718455416853762u64) by (nonlinear_arith) {
            reveal(hash_mix);
            reveal(hash_power_next);
        }
        lemma_hash_state_step(f, 3, 2206311127246111397u64, 8306177514362289u64, 750u64, 3667900532151179451u64, 2081718455416853762u64);
        assert(hash_mix(3667900532151179451u64, 31u64, 2081718455416853762u64) == 6506589516585506973u64 && hash_power_next(2081718455416853762u64) == 6021377098042277490u64) by (nonlinear_arith) {
            reveal(hash_mix);
            reveal(hash_power_next);
        }
        lemma_hash_state_step(f, 4, 3667900532151179451u64, 2081718455416853762u64, 31u64, 6506589516585506973u64, 6021377098042277490u64);
        assert(hash_mix(6506589516585506973u64, 50u64, 6021377098042277490u64) == 7687378670322617975u64 && hash_power_next(6021377098042277490u64) == 810465586973061218u64) by (nonlinear_arith) {
            reveal(hash_mix);
            reveal(hash_power_next);
        }
        lemma_hash_state_step(f, 5, 6506589516585506973u64, 6021377098042277490u64, 50u64, 7687378670322617975u64, 810465586973061218u64);
        assert(hash_mix(7687378670322617975u64, 750u64, 810465586973061218u64) == 8776753987768362707u64 && hash_power_next(810465586973061218u64) == 4224317052557215442u64) by (nonlinear_arith) {
            reveal(hash_mix);
            reveal(hash_power_next);
        }
        lemma_hash_state_step(f, 6, 7687378670322617975u64, 810465586973061218u64, 750u64, 8776753987768362707u64, 4224317052557215442u64);
        assert(hash_mix(8776753987768362707u64, 60u64, 4224317052557215442u64) == 8005734090604186679u64 && hash_power_next(4224317052557215442u64) == 7444641517954989531u64) by (nonlinear_arith) {
            reveal(hash_mix);
            reveal(hash_power_next);
        }
        lemma_hash_state_step(f, 7, 8776753987768362707u64, 4224317052557215442u64, 60u64, 8005734090604186679u64, 7444641517954989531u64);
        assert(hash_mix(8005734090604186679u64, 25u64, 7444641517954989531u64) == 3262193667566189000u64 && hash_power_next(7444641517954989531u64) == 8602313425283787587u64) by (nonlinear_arith) {
            reveal(hash_mix);
            reveal(hash_power_next);
        }
        lemma_hash_state_step(f, 8, 8005734090604186679u64, 7444641517954989531u64, 25u64, 3262193667566189000u64, 8602313425283787587u64);
        assert(hash_mix(3262193667566189000u64, 750u64, 8602313425283787587u64) == 1176186900363902178u64 && hash_power_next(8602313425283787587u64) == 7981941978457848708u64) by (nonlinear_arith) {
            reveal(hash_mix);
            reveal(hash_power_next);
        }
        lemma_hash_state_step(f, 9, 3262193667566189000u64, 8602313425283787587u64, 750u64, 1176186900363902178u64, 7981941978457848708u64);
        assert(hash_mix(1176186900363902178u64, 120u64, 7981941978457848708u64) == 7960647201251242536u64 && hash_power_next(7981941978457848708u64) == 7025025368660877924u64) by (nonlinear_arith) {
            reveal(hash_mix);
            reveal(hash_power_next);
        }
        lemma_hash_state_step(f, 10, 1176186900363902178u64, 7981941978457848708u64, 120u64, 7960647201251242536u64, 7025025368660877924u64);
        assert(hash_mix(7960647201251242536u64, 10u64, 7025025368660877924u64) == 3883923098253834913u64 && hash_power_next(7025025368660877924u64) == 4607979663854795332u64) by (nonlinear_arith) {
            reveal(hash_mix);
            reveal(hash_power_next);
        }
        lemma_hash_state_step(f, 11, 7960647201251242536u64, 7025025368660877924u64, 10u64, 3883923098253834913u64, 4607979663854795332u64);
        assert(hash_mix(3883923098253834913u64, 600u64, 4607979663854795332u64) == 750792501282613508u64 && hash_power_next(4607979663854795332u64) == 1559174193640799037u64) by (nonlinear_arith) {
            reveal(hash_mix);
            reveal(hash_power_next);
        }
        lemma_hash_state_step(f, 12, 3883923098253834913u64, 4607979663854795332u64, 600u64, 750792501282613508u64, 1559174193640799037u64);
        assert(final_mix(750792501282613508u64) == 3572102006329098233u64) by (nonlinear_arith) {
            reveal(final_mix);
        }
        lemma_table_hash_from_state(t, 750792501282613508u64, 1559174193640799037u64);
        assert(table_hash(t) == 3572102006329098233u64);
}

/// The hash of the default table with high penalty raised by one.
proof fn lemma_hash_6()
    ensures
        table_hash(table_with(default_table(), 1, field_raised(table_slot(default_table(), 1), 1))) == 6475717985470072307u64,
{
    let t = table_with(default_table(), 1, field_raised(table_slot(default_table(), 1), 1));
    let f = hash_fields(t);
        lemma_hash_state_start(f);
        assert(hash_mix(1u64, 15u64, 1u64) == 91138248u64 && hash_power_next(1u64) == 91138233u64) by (nonlinear_arith) {
            reveal(hash_mix);
            reveal(hash_power_next);
        }
        lemma_hash_state_step(f, 1, 1u64, 1u64, 15u64, 91138248u64, 91138233u64);
        assert(hash_mix(91138248u64, 100u64, 91138233u64) == 2206311127246111397u64 && hash_power_next(91138233u64) == 8306177514362289u64) by (nonlinear_arith) {
            reveal(hash_mix);
            reveal(hash_power_next);
        }
        lemma_hash_state_step(f, 2, 91138248u64, 91138233u64, 100u64, 2206311127246111397u64, 8306177514362289u64);
        assert(hash_mix(2206311127246111397u64, 750u64, 8306177514362289u64) == 3667900532151179451u64 && hash_power_next(8306177514362289u64) == 2081718455416853762u64) by (nonlinear_arith) {
            reveal(hash_mix);
            reveal(hash_power_next);
        }
        lemma_hash_state_step(f, 3, 2206311127246111397u64, 8306177514362289u64, 750u64, 3667900532151179451u64, 2081718455416853762u64);
        assert(hash_mix(3667900532151179451u64, 30u64, 2081718455416853762u64) == 4424871061168653211u64 && hash_power_next(2081718455416853762u64) == 6021377098042277490u64) by (nonlinear_arith) {
            reveal(hash_mix);
            reveal(hash_power_next);
        }
        lemma_hash_state_step(f, 4, 3667900532151179451u64, 2081718455416853762u64, 30u64, 4424871061168653211u64, 6021377098042277490u64);
        assert(hash_mix(4424871061168653211u64, 51u64, 6021377098042277490u64) == 3291546744742584844u64 && hash_power_next(6021377098042277490u64) == 810465586973061218u64) by (nonlinear_arith) {
            reveal(hash_mix);
            reveal(hash_power_next);
        }
        lemma_hash_state_step(f, 5, 4424871061168653211u64, 6021377098042277490u64, 51u64, 3291546744742584844u64, 810465586973061218u64);
        assert(hash_mix(3291546744742584844u64, 750u64, 810465586973061218u64) == 7511176723685831949u64 && hash_power_next(810465586973061218u64) == 4224317052557215442u64) by (nonlinear_arith) {
            reveal(hash_mix);
            reveal(hash_power_next);
        }
        lemma_hash_state_step(f, 6, 3291546744742584844u64, 810465586973061218u64, 750u64, 7511176723685831949u64, 4224317052557215442u64);
        assert(hash_mix(7511176723685831949u64, 60u64, 4224317052557215442u64) == 2170036564174710315u64 && hash_power_next(4224317052557215442u64) == 7444641517954989531u64) by (nonlinear_arith) {
            reveal(hash_mix);
            reveal(hash_power_next);
        }
        lemma_hash_state_step(f, 7, 7511176723685831949u64, 4224317052557215442u64, 60u64, 2170036564174710315u64, 7444641517954989531u64);
        assert(hash_mix(2170036564174710315u64, 25u64, 7444641517954989531u64) == 6933148629592506532u64 && hash_power_next(7444641517954989531u64) == 8602313425283787587u64) by (nonlinear_arith) {
            reveal(hash_mix);
            reveal(hash_power_next);
        }
        lemma_hash_state_step(f, 8, 2170036564174710315u64, 7444641517954989531u64, 25u64, 6933148629592506532u64, 8602313425283787587u64);
        assert(hash_mix(6933148629592506532u64, 750u64, 8602313425283787587u64) == 2063377242445434607u64 && hash_power_next(8602313425283787587u64) == 7981941978457848708u64) by (nonlinear_arith) {
            reveal(hash_mix);
            reveal(hash_power_next);
        }
        lemma_hash_state_step(f, 9, 6933148629592506532u64, 8602313425283787587u64, 750u64, 2063377242445434607u64, 7981941978457848708u64);
        assert(hash_mix(2063377242445434607u64, 120u64, 7981941978457848708u64) == 7903748492142639445u64 && hash_power_next(7981941978457848708u64) == 7025025368660877924u64) by (nonlinear_arith) {
            reveal(hash_mix);
            reveal(hash_power_next);
        }
        lemma_hash_state_step(f, 10, 2063377242445434607u64, 7981941978457848708u64, 120u64, 7903748492142639445u64, 7025025368660877924u64);
        assert(hash_mix(7903748492142639445u64, 10u64, 7025025368660877924u64) == 6074841614199592085u64 && hash_power_next(7025025368660877924u64) == 4607979663854795332u64) by (nonlinear_arith) {
            reveal(hash_mix);
            reveal(hash_power_next);
        }
        lemma_hash_state_step(f, 11, 7903748492142639445u64, 7025025368660877924u64, 10u64, 6074841614199592085u64, 4607979663854795332u64);
        assert(hash_mix(6074841614199592085u64, 600u64, 4607979663854795332u64) == 1861383249873144685u64 && hash_power_next(4607979663854795332u64) == 1559174193640799037u64) by (nonlinear_arith) {
            reveal(hash_mix);
            reveal(hash_power_next);
        }
        lemma_hash_state_step(f, 12, 6074841614199592085u64, 4607979663854795332u64, 600u64, 1861383249873144685u64, 1559174193640799037u64);
        assert(final_mix(1861383249873144685u64) == 6475717985470072307u64) by (nonlinear_arith) {
            reveal(final_mix);
        }
        lemma_table_hash_from_state(t, 1861383249873144685u64, 1559174193640799037u64);
        assert(table_hash(t) == 6475717985470072307u64);
}

/// The hash of the default table with high reward raised by one.
proof fn lemma_hash_7()
    ensures
        table_hash(table_with(default_table(), 1, field_raised(table_slot(default_table(), 1), 2))) == 755280851178817830u64,
{
    let t = table_with(default_table(), 1, field_raised(table_slot(default_table(), 1), 2));
    let f = hash_fields(t);
        lemma_hash_state_start(f);
        assert(hash_mix(1u64, 15u64, 1u64) == 91138248u64 && hash_power_next(1u64) == 91138233u64) by (nonlinear_arith) {
            reveal(hash_mix);
            reveal(hash_power_next);
        }
        lemma_hash_state_step(f, 1, 1u64, 1u64, 15u64, 91138248u64, 91138233u64);
        assert(hash_mix(91138248u64, 100u64, 91138233u64) == 2206311127246111397u64 && hash_power_next(91138233u64) == 8306177514362289u64) by (nonlinear_arith) {
            reveal(hash_mix);
            reveal(hash_power_next);
        }
        lemma_hash_state_step(f, 2, 91138248u64, 91138233u64, 100u64, 2206311127246111397u64, 8306177514362289u64);
        assert(hash_mix(2206311127246111397u64, 750u64, 8306177514362289u64) == 3667900532151179451u64 && hash_power_next(8306177514362289u64) == 2081718455416853762u64) by (nonlinear_arith) {
            reveal(hash_mix);
            reveal(hash_power_next);
        }
        lemma_hash_state_step(f, 3, 2206311127246111397u64, 8306177514362289u64, 750u64, 3667900532151179451u64, 2081718455416853762u64);
        assert(hash_mix(3667900532151179451u64, 30u64, 2081718455416853762u64) == 4424871061168653211u64 && hash_power_next(2081718455416853762u64) == 6021377098042277490u64) by (nonlinear_arith) {
            reveal(hash_mix);
            reveal(hash_power_next);
        }
        lemma_hash_state_step(f, 4, 3667900532151179451u64, 2081718455416853762u64, 30u64, 4424871061168653211u64, 6021377098042277490u64);
        assert(hash_mix(4424871061168653211u64, 50u64, 6021377098042277490u64) == 6493541683555083187u64 && hash_power_next(6021377098042277490u64) == 810465586973061218u64) by (nonlinear_arith) {
            reveal(hash_mix);
            reveal(hash_power_next);
        }
        lemma_hash_state_step(f, 5, 4424871061168653211u64, 6021377098042277490u64, 50u64, 6493541683555083187u64, 810465586973061218u64);
        assert(hash_mix(6493541683555083187u64, 751u64, 810465586973061218u64) == 501582805317790292u64 && hash_power_next(810465586973061218u64) == 4224317052557215442u64) by (nonlinear_arith) {
            reveal(hash_mix);
            reveal(hash_power_next);
        }
        lemma_hash_state_step(f, 6, 6493541683555083187u64, 810465586973061218u64, 751u64, 501582805317790292u64, 4224317052557215442u64);
        assert(hash_mix(501582805317790292u64, 60u64, 4224317052557215442u64) == 6003265678477865184u64 && hash_power_next(4224317052557215442u64) == 7444641517954989531u64) by (nonlinear_arith) {
            reveal(hash_mix);
            reveal(hash_power_next);
        }
        lemma_hash_state_step(f, 7, 501582805317790292u64, 4224317052557215442u64, 60u64, 6003265678477865184u64, 7444641517954989531u64);
        assert(hash_mix(6003265678477865184u64, 25u64, 7444641517954989531u64) == 4481358376956441859u64 && hash_power_next(7444641517954989531u64) == 8602313425283787587u64) by (nonlinear_arith) {
            reveal(hash_mix);
            reveal(hash_power_next);
        }
        lemma_hash_state_step(f, 8, 6003265678477865184u64, 7444641517954989531u64, 25u64, 4481358376956441859u64, 8602313425283787587u64);
        assert(hash_mix(4481358376956441859u64, 750u64, 8602313425283787587u64) == 2007741139308058532u64 && hash_power_next(8602313425283787587u64) == 7981941978457848708u64) by (nonlinear_arith) {
            reveal(hash_mix);
            reveal(hash_power_next);
        }
        lemma_hash_state_step(f, 9, 4481358376956441859u64, 8602313425283787587u64, 750u64, 2007741139308058532u64, 7981941978457848708u64);
        assert(hash_mix(2007741139308058532u64, 120u64, 7981941978457848708u64) == 2237420199675095536u64 && hash_power_next(7981941978457848708u64) == 7025025368660877924u64) by (nonlinear_arith) {
            reveal(hash_mix);
            reveal(hash_power_next);
        }
        lemma_hash_state_step(f, 10, 2007741139308058532u64, 7981941978457848708u64, 120u64, 2237420199675095536u64, 7025025368660877924u64);
        assert(hash_mix(2237420199675095536u64, 10u64, 7025025368660877924u64) == 5206773108256463784u64 && hash_power_next(7025025368660877924u64) == 4607979663854795332u64) by (nonlinear_arith) {
            reveal(hash_mix);
            reveal(hash_power_next);
        }
        lemma_hash_state_step(f, 11, 2237420199675095536u64, 7025025368660877924u64, 10u64, 5206773108256463784u64, 4607979663854795332u64);
        assert(hash_mix(5206773108256463784u64, 600u64, 4607979663854795332u64) == 2129966936293059353u64 && hash_power_next(4607979663854795332u64) == 1559174193640799037u64) by (nonlinear_arith) {
            reveal(hash_mix);
            reveal(hash_power_next);
        }
        lemma_hash_state_step(f, 12, 5206773108256463784u64, 4607979663854795332u64, 600u64, 2129966936293059353u64, 1559174193640799037u64);
        assert(final_mix(2129966936293059353u64) == 755280851178817830u64) by (nonlinear_arith) {
            reveal(final_mix);
        }
        lemma_table_hash_from_state(t, 2129966936293059353u64, 1559174193640799037u64);
        assert(table_hash(t) == 755280851178817830u64);
}

/// The hash of the default table with medium threshold raised by one.
proof fn lemma_hash_8()
    ensures
        table_hash(table_with(default_table(), 2, field_raised(table_slot(default_table(), 2), 0))) == 1399730824165293731u64,
{
    let t = table_with(default_table(), 2, field_raised(table_slot(default_table(), 2), 0));
    let f = hash_fields(t);
        lemma_hash_state_start(f);
        assert(hash_mix(1u64, 15u64, 1u64) == 91138248u64 && hash_power_next(1u64) == 91138233u64) by (nonlinear_arith) {
            reveal(hash_mix);
            reveal(hash_power_next);
        }
        lemma_hash_state_step(f, 1, 1u64, 1u64, 15u64, 91138248u64, 91138233u64);
        assert(hash_mix(91138248u64, 100u64, 91138233u64) == 2206311127246111397u64 && hash_power_next(91138233u64) == 8306177514362289u64) by (nonlinear_arith) {
            reveal(hash_mix);
            reveal(hash_power_next);
        }
        lemma_hash_state_step(f, 2, 91138248u64, 91138233u64, 100u64, 2206311127246111397u64, 8306177514362289u64);
        assert(hash_mix(2206311127246111397u64, 750u64, 8306177514362289u64) == 3667900532151179451u64 && hash_power_next(8306177514362289u64) == 2081718455416853762u64) by (nonlinear_arith) {
            reveal(hash_mix);
            reveal(hash_power_next);
        }
        lemma_hash_state_step(f, 3, 2206311127246111397u64, 8306177514362289u64, 750u64, 3667900532151179451u64, 2081718455416853762u64);
        assert(hash_mix(3667900532151179451u64, 30u64, 2081718455416853762u64) == 4424871061168653211u64 && hash_power_next(2081718455416853762u64) == 6021377098042277490u64) by (nonlinear_arith) {
            reveal(hash_mix);
            reveal(hash_power_next);
        }
        lemma_hash_state_step(f, 4, 3667900532151179451u64, 2081718455416853762u64, 30u64, 4424871061168653211u64, 6021377098042277490u64);
        assert(hash_mix(4424871061168653211u64, 50u64, 6021377098042277490u64) == 6493541683555083187u64 && hash_power_next(6021377098042277490u64) == 810465586973061218u64) by (nonlinear_arith) {
            reveal(hash_mix);
            reveal(hash_power_next);
        }
        lemma_hash_state_step(f, 5, 4424871061168653211u64, 6021377098042277490u64, 50u64, 6493541683555083187u64, 810465586973061218u64);
        assert(hash_mix(6493541683555083187u64, 750u64, 810465586973061218u64) == 8914489255199504907u64 && hash_power_next(810465586973061218u64) == 4224317052557215442u64) by (nonlinear_arith) {
            reveal(hash_mix);
            reveal(hash_power_next);
        }
        lemma_hash_state_step(f, 6, 6493541683555083187u64, 810465586973061218u64, 750u64, 8914489255199504907u64, 4224317052557215442u64);
        assert(hash_mix(8914489255199504907u64, 61u64, 4224317052557215442u64) == 2976893826587245433u64 && hash_power_next(4224317052557215442u64) == 7444641517954989531u64) by (nonlinear_arith) {
            reveal(hash_mix);
            reveal(hash_power_next);
        }
        lemma_hash_state_step(f, 7, 8914489255199504907u64, 4224317052557215442u64, 61u64, 2976893826587245433u64, 7444641517954989531u64);
        assert(hash_mix(2976893826587245433u64, 25u64, 7444641517954989531u64) == 801905923569856014u64 && hash_power_next(7444641517954989531u64) == 8602313425283787587u64) by (nonlinear_arith) {
            reveal(hash_mix);
            reveal(hash_power_next);
        }
        lemma_hash_state_step(f, 8, 2976893826587245433u64, 7444641517954989531u64, 25u64, 801905923569856014u64, 8602313425283787587u64);
        assert(hash_mix(801905923569856014u64, 750u64, 8602313425283787587u64) == 3746265153387739172u64 && hash_power_next(8602313425283787587u64) == 7981941978457848708u64) by (nonlinear_arith) {
            reveal(hash_mix);
            reveal(hash_power_next);
        }
        lemma_hash_state_step(f, 9, 801905923569856014u64, 8602313425283787587u64, 750u64, 3746265153387739172u64, 7981941978457848708u64);
        assert(hash_mix(3746265153387739172u64, 120u64, 7981941978457848708u64) == 7674428539592678384u64 && hash_power_next(7981941978457848708u64) == 7025025368660877924u64) by (nonlinear_arith) {
            reveal(hash_mix);
            reveal(hash_power_next);
        }
        lemma_hash_state_step(f, 10, 3746265153387739172u64, 7981941978457848708u64, 120u64, 7674428539592678384u64, 7025025368660877924u64);
        assert(hash_mix(7674428539592678384u64, 10u64, 7025025368660877924u64) == 7642559710715847617u64 && hash_power_next(7025025368660877924u64) == 4607979663854795332u64) by (nonlinear_arith) {
            reveal(hash_mix);
            reveal(hash_power_next);
        }
        lemma_hash_state_step(f, 11, 7674428539592678384u64, 7025025368660877924u64, 10u64, 7642559710715847617u64, 4607979663854795332u64);
        assert(hash_mix(7642559710715847617u64, 600u64, 4607979663854795332u64) == 7402542797212307869u64 && hash_power_next(4607979663854795332u64) == 1559174193640799037u64) by (nonlinear_arith) {
            reveal(hash_mix);
            reveal(hash_power_next);
        }
        lemma_hash_state_step(f, 12, 7642559710715847617u64, 4607979663854795332u64, 600u64, 7402542797212307869u64, 1559174193640799037u64);
        assert(final_mix(7402542797212307869u64) == 1399730824165293731u64) by (nonlinear_arith) {
            reveal(final_mix);
        }
        lemma_table_hash_from_state(t, 7402542797212307869u64, 1559174193640799037u64);
        assert(table_hash(t) == 1399730824165293731u64);
}

/// The hash of the default table with medium penalty raised by one.
proof fn lemma_hash_9()
    ensures
        table_hash(table_with(default_table(), 2, field_raised(table_slot(default_table(), 2), 1))) == 3243230737212793443u64,
{
    let t = table_with(default_table(), 2, field_raised(table_slot(default_table(), 2), 1));
    let f = hash_fields(t);
        lemma_hash_state_start(f);
        assert(hash_mix(1u64, 15u64, 1u64) == 91138248u64 && hash_power_next(1u64) == 91138233u64) by (nonlinear_arith) {
            reveal(hash_mix);
            reveal(hash_power_next);
        }
        lemma_hash_state_step(f, 1, 1u64, 1u64, 15u64, 91138248u64, 91138233u64);
        assert(hash_mix(91138248u64, 100u64, 91138233u64) == 2206311127246111397u64 && hash_power_next(91138233u64) == 8306177514362289u64) by (nonlinear_arith) {
            reveal(hash_mix);
            reveal(hash_power_next);
        }
        lemma_hash_state_step(f, 2, 91138248u64, 91138233u64, 100u64, 2206311127246111397u64, 8306177514362289u64);
        assert(hash_mix(2206311127246111397u64, 750u64, 8306177514362289u64) == 3667900532151179451u64 && hash_power_next(8306177514362289u64) == 2081718455416853762u64) by (nonlinear_arith) {
            reveal(hash_mix);
            reveal(hash_power_next);
        }
        lemma_hash_state_step(f, 3, 2206311127246111397u64, 8306177514362289u64, 750u64, 3667900532151179451u64, 2081718455416853762u64);
        assert(hash_mix(3667900532151179451u64, 30u64, 2081718455416853762u64) == 4424871061168653211u64 && hash_power_next(2081718455416853762u64) == 6021377098042277490u64) by (nonlinear_arith) {
            reveal(hash_mix);
            reveal(hash_power_next);
        }
        lemma_hash_state_step(f, 4, 3667900532151179451u64, 2081718455416853762u64, 30u64, 4424871061168653211u64, 6021377098042277490u64);
        assert(hash_mix(4424871061168653211u64, 50u64, 6021377098042277490u64) == 6493541683555083187u64 && hash_power_next(6021377098042277490u64) == 810465586973061218u64) by (nonlinear_arith) {
            reveal(hash_mix);
            reveal(hash_power_next);
        }
        lemma_hash_state_step(f, 5, 4424871061168653211u64, 6021377098042277490u64, 50u64, 6493541683555083187u64, 810465586973061218u64);
        assert(hash_mix(6493541683555083187u64, 750u64, 810465586973061218u64) == 8914489255199504907u64 && hash_power_next(810465586973061218u64) == 4224317052557215442u64) by (nonlinear_arith) {
            reveal(hash_mix);
            reveal(hash_power_next);
        }
        lemma_hash_state_step(f, 6, 6493541683555083187u64, 810465586973061218u64, 750u64, 8914489255199504907u64, 4224317052557215442u64);
        assert(hash_mix(8914489255199504907u64, 60u64, 4224317052557215442u64) == 7975948810884805774u64 && hash_power_next(4224317052557215442u64) == 7444641517954989531u64) by (nonlinear_arith) {
            reveal(hash_mix);
            reveal(hash_power_next);
        }
        lemma_hash_state_step(f, 7, 8914489255199504907u64, 4224317052557215442u64, 60u64, 7975948810884805774u64, 7444641517954989531u64);
        assert(hash_mix(7975948810884805774u64, 26u64, 7444641517954989531u64) == 2138170996736107368u64 && hash_power_next(7444641517954989531u64) == 8602313425283787587u64) by (nonlinear_arith) {
            reveal(hash_mix);
            reveal(hash_power_next);
        }
        lemma_hash_state_step(f, 8, 7975948810884805774u64, 7444641517954989531u64, 26u64, 2138170996736107368u64, 8602313425283787587u64);
        assert(hash_mix(2138170996736107368u64, 750u64, 8602313425283787587u64) == 3935211557826790107u64 && hash_power_next(8602313425283787587u64) == 7981941978457848708u64) by (nonlinear_arith) {
            reveal(hash_mix);
            reveal(hash_power_next);
        }
        lemma_hash_state_step(f, 9, 2138170996736107368u64, 8602313425283787587u64, 750u64, 3935211557826790107u64, 7981941978457848708u64);
        assert(hash_mix(3935211557826790107u64, 120u64, 7981941978457848708u64) == 237188761090824556u64 && hash_power_next(7981941978457848708u64) == 7025025368660877924u64) by (nonlinear_arith) {
            reveal(hash_mix);
            reveal(hash_power_next);
        }
        lemma_hash_state_step(f, 10, 3935211557826790107u64, 7981941978457848708u64, 120u64, 237188761090824556u64, 7025025368660877924u64);
        assert(hash_mix(237188761090824556u64, 10u64, 7025025368660877924u64) == 4195515250860921009u64 && hash_power_next(7025025368660877924u64) == 4607979663854795332u64) by (nonlinear_arith) {
            reveal(hash_mix);
            reveal(hash_power_next);
        }
        lemma_hash_state_step(f, 11, 237188761090824556u64, 7025025368660877924u64, 10u64, 4195515250860921009u64, 4607979663854795332u64);
        assert(hash_mix(4195515250860921009u64, 600u64, 4607979663854795332u64) == 1625163563250611037u64 && hash_power_next(4607979663854795332u64) == 1559174193640799037u64) by (nonlinear_arith) {
            reveal(hash_mix);
            reveal(hash_power_next);
        }
        lemma_hash_state_step(f, 12, 4195515250860921009u64, 4607979663854795332u64, 600u64, 1625163563250611037u64, 1559174193640799037u64);
        assert(final_mix(1625163563250611037u64) == 3243230737212793443u64) by (nonlinear_arith) {
            reveal(final_mix);
        }
        lemma_table_hash_from_state(t, 1625163563250611037u64, 1559174193640799037u64);
        assert(table_hash(t) == 3243230737212793443u64);
}

/// The hash of the default table with medium reward raised by one.
proof fn lemma_hash_10()
    ensures
        table_hash(table_with(default_table(), 2, field_raised(table_slot(default_table(), 2), 2))) == 1783114254032676217u64,
{
    let t = table_with(default_table(), 2, field_raised(table_slot(default_table(), 2), 2));
    let f = hash_fields(t);
        lemma_hash_state_start(f);
        assert(hash_mix(1u64, 15u64, 1u64) == 91138248u64 && hash_power_next(1u64) == 91138233u64) by (nonlinear_arith) {
            reveal(hash_mix);
            reveal(hash_power_next);
        }
        lemma_hash_state_step(f, 1, 1u64, 1u64, 15u64, 91138248u64, 91138233u64);
        assert(hash_mix(91138248u64, 100u64, 91138233u64) == 2206311127246111397u64 && hash_power_next(91138233u64) == 8306177514362289u64) by (nonlinear_arith) {
            reveal(hash_mix);
            reveal(hash_power_next);
        }
        lemma_hash_state_step(f, 2, 91138248u64, 91138233u64, 100u64, 2206311127246111397u64, 8306177514362289u64);
        assert(hash_mix(2206311127246111397u64, 750u64, 8306177514362289u64) == 3667900532151179451u64 && hash_power_next(8306177514362289u64) == 2081718455416853762u64) by (nonlinear_arith) {
            reveal(hash_mix);
            reveal(hash_power_next);
        }
        lemma_hash_state_step(f, 3, 2206311127246111397u64, 8306177514362289u64, 750u64, 3667900532151179451u64, 2081718455416853762u64);
        assert(hash_mix(3667900532151179451u64, 30u64, 2081718455416853762u64) == 4424871061168653211u64 && hash_power_next(2081718455416853762u64) == 6021377098042277490u64) by (nonlinear_arith) {
            reveal(hash_mix);
            reveal(hash_power_next);
        }
        lemma_hash_state_step(f, 4, 3667900532151179451u64, 2081718455416853762u64, 30u64, 4424871061168653211u64, 6021377098042277490u64);
        assert(hash_mix(4424871061168653211u64, 50u64, 6021377098042277490u64) == 6493541683555083187u64 && hash_power_next(6021377098042277490u64) == 810465586973061218u64) by (nonlinear_arith) {
            reveal(hash_mix);
            reveal(hash_power_next);
        }
        lemma_hash_state_step(f, 5, 4424871061168653211u64, 6021377098042277490u64, 50u64, 6493541683555083187u64, 810465586973061218u64);
        assert(hash_mix(6493541683555083187u64, 750u64, 810465586973061218u64) == 8914489255199504907u64 && hash_power_next(810465586973061218u64) == 4224317052557215442u64) by (nonlinear_arith) {
            reveal(hash_mix);
            reveal(hash_power_next);
        }
        lemma_hash_state_step(f, 6, 6493541683555083187u64, 810465586973061218u64, 750u64, 8914489255199504907u64, 4224317052557215442u64);
        assert(hash_mix(8914489255199504907u64, 60u64, 4224317052557215442u64) == 7975948810884805774u64 && hash_power_next(4224317052557215442u64) == 7444641517954989531u64) by (nonlinear_arith) {
            reveal(hash_mix);
            reveal(hash_power_next);
        }
        lemma_hash_state_step(f, 7, 8914489255199504907u64, 4224317052557215442u64, 60u64, 7975948810884805774u64, 7444641517954989531u64);
        assert(hash_mix(7975948810884805774u64, 25u64, 7444641517954989531u64) == 3916901515635893670u64 && hash_power_next(7444641517954989531u64) == 8602313425283787587u64) by (nonlinear_arith) {
            reveal(hash_mix);
            reveal(hash_power_next);
        }
        lemma_hash_state_step(f, 8, 7975948810884805774u64, 7444641517954989531u64, 25u64, 3916901515635893670u64, 8602313425283787587u64);
        assert(hash_mix(3916901515635893670u64, 751u64, 8602313425283787587u64) == 2619656781309044744u64 && hash_power_next(8602313425283787587u64) == 7981941978457848708u64) by (nonlinear_arith) {
            reveal(hash_mix);
            reveal(hash_power_next);
        }
        lemma_hash_state_step(f, 9, 3916901515635893670u64, 8602313425283787587u64, 751u64, 2619656781309044744u64, 7981941978457848708u64);
        assert(hash_mix(2619656781309044744u64, 120u64, 7981941978457848708u64) == 5015571792859339008u64 && hash_power_next(7981941978457848708u64) == 7025025368660877924u64) by (nonlinear_arith) {
            reveal(hash_mix);
            reveal(hash_power_next);
        }
        lemma_hash_state_step(f, 10, 2619656781309044744u64, 7981941978457848708u64, 120u64, 5015571792859339008u64, 7025025368660877924u64);
        assert(hash_mix(5015571792859339008u64, 10u64, 7025025368660877924u64) == 2375495455214337025u64 && hash_power_next(7025025368660877924u64) == 4607979663854795332u64) by (nonlinear_arith) {
            reveal(hash_mix);
            reveal(hash_power_next);
        }
        lemma_hash_state_step(f, 11, 5015571792859339008u64, 7025025368660877924u64, 10u64, 2375495455214337025u64, 4607979663854795332u64);
        assert(hash_mix(2375495455214337025u64, 600u64, 4607979663854795332u64) == 3824922641184881284u64 && hash_power_next(4607979663854795332u64) == 1559174193640799037u64) by (nonlinear_arith) {
            reveal(hash_mix);
            reveal(hash_power_next);
        }
        lemma_hash_state_step(f, 12, 2375495455214337025u64, 4607979663854795332u64, 600u64, 3824922641184881284u64, 1559174193640799037u64);
        assert(final_mix(3824922641184881284u64) == 1783114254032676217u64) by (nonlinear_arith) {
            reveal(final_mix);
        }
        lemma_table_hash_from_state(t, 3824922641184881284u64, 1559174193640799037u64);
        assert(table_hash(t) == 1783114254032676217u64);
}

/// The hash of the default table with low threshold raised by one.
proof fn lemma_hash_11()
    ensures
        table_hash(table_with(default_table(), 3, field_raised(table_slot(default_table(), 3), 0))) == 7153445019748508645u64,
{
    let t = table_with(default_table(), 3, field_raised(table_slot(default_table(), 3), 0));
    let f = hash_fields(t);
        lemma_hash_state_start(f);
        assert(hash_mix(1u64, 15u64, 1u64) == 91138248u64 && hash_power_next(1u64) == 91138233u64) by (nonlinear_arith) {
            reveal(hash_mix);
            reveal(hash_power_next);
        }
        lemma_hash_state_step(f, 1, 1u64, 1u64, 15u64, 91138248u64, 91138233u64);
        assert(hash_mix(91138248u64, 100u64, 91138233u64) == 2206311127246111397u64 && hash_power_next(91138233u64) == 8306177514362289u64) by (nonlinear_arith) {
            reveal(hash_mix);
            reveal(hash_power_next);
        }
        lemma_hash_state_step(f, 2, 91138248u64, 91138233u64, 100u64, 2206311127246111397u64, 8306177514362289u64);
        assert(hash_mix(2206311127246111397u64, 750u64, 8306177514362289u64) == 3667900532151179451u64 && hash_power_next(8306177514362289u64) == 2081718455416853762u64) by (nonlinear_arith) {
            reveal(hash_mix);
            reveal(hash_power_next);
        }
        lemma_hash_state_step(f, 3, 2206311127246111397u64, 8306177514362289u64, 750u64, 3667900532151179451u64, 2081718455416853762u64);
        assert(hash_mix(3667900532151179451u64, 30u64, 2081718455416853762u64) == 4424871061168653211u64 && hash_power_next(2081718455416853762u64) == 6021377098042277490u64) by (nonlinear_arith) {
            reveal(hash_mix);
            reveal(hash_power_next);
        }
        lemma_hash_state_step(f, 4, 3667900532151179451u64, 2081718455416853762u64, 30u64, 4424871061168653211u64, 6021377098042277490u64);
        assert(hash_mix(4424871061168653211u64, 50u64, 6021377098042277490u64) == 6493541683555083187u64 && hash_power_next(6021377098042277490u64) == 810465586973061218u64) by (nonlinear_arith) {
            reveal(hash_mix);
            reveal(hash_power_next);
        }
        lemma_hash_state_step(f, 5, 4424871061168653211u64, 6021377098042277490u64, 50u64, 6493541683555083187u64, 810465586973061218u64);
        assert(hash_mix(6493541683555083187u64, 750u64, 810465586973061218u64) == 8914489255199504907u64 && hash_power_next(810465586973061218u64) == 4224317052557215442u64) by (nonlinear_arith) {
            reveal(hash_mix);
            reveal(hash_power_next);
        }
        lemma_hash_state_step(f, 6, 6493541683555083187u64, 810465586973061218u64, 750u64, 8914489255199504907u64, 4224317052557215442u64);
        assert(hash_mix(8914489255199504907u64, 60u64, 4224317052557215442u64) == 7975948810884805774u64 && hash_power_next(4224317052557215442u64) == 7444641517954989531u64) by (nonlinear_arith) {
            reveal(hash_mix);
            reveal(hash_power_next);
        }
        lemma_hash_state_step(f, 7, 8914489255199504907u64, 4224317052557215442u64, 60u64, 7975948810884805774u64, 7444641517954989531u64);
        assert(hash_mix(7975948810884805774u64, 25u64, 7444641517954989531u64) == 3916901515635893670u64 && hash_power_next(7444641517954989531u64) == 8602313425283787587u64) by (nonlinear_arith) {
            reveal(hash_mix);
            reveal(hash_power_next);
        }
        lemma_hash_state_step(f, 8, 7975948810884805774u64, 7444641517954989531u64, 25u64, 3916901515635893670u64, 8602313425283787587u64);
        assert(hash_mix(3916901515635893670u64, 750u64, 8602313425283787587u64) == 3240715392880032940u64 && hash_power_next(8602313425283787587u64) == 7981941978457848708u64) by (nonlinear_arith) {
            reveal(hash_mix);
            reveal(hash_power_next);
        }
        lemma_hash_state_step(f, 9, 3916901515635893670u64, 8602313425283787587u64, 750u64, 3240715392880032940u64, 7981941978457848708u64);
        assert(hash_mix(3240715392880032940u64, 121u64, 7981941978457848708u64) == 4692929194499419309u64 && hash_power_next(7981941978457848708u64) == 7025025368660877924u64) by (nonlinear_arith) {
            reveal(hash_mix);
            reveal(hash_power_next);
        }
        lemma_hash_state_step(f, 10, 3240715392880032940u64, 7981941978457848708u64, 121u64, 4692929194499419309u64, 7025025368660877924u64);
        assert(hash_mix(4692929194499419309u64, 10u64, 7025025368660877924u64) == 8338538449809188828u64 && hash_power_next(7025025368660877924u64) == 4607979663854795332u64) by (nonlinear_arith) {
            reveal(hash_mix);
            reveal(hash_power_next);
        }
        lemma_hash_state_step(f, 11, 4692929194499419309u64, 7025025368660877924u64, 10u64, 8338538449809188828u64, 4607979663854795332u64);
        assert(hash_mix(8338538449809188828u64, 600u64, 4607979663854795332u64) == 4960237775411928656u64 && hash_power_next(4607979663854795332u64) == 1559174193640799037u64) by (nonlinear_arith) {
            reveal(hash_mix);
            reveal(hash_power_next);
        }
        lemma_hash_state_step(f, 12, 8338538449809188828u64, 4607979663854795332u64, 600u64, 4960237775411928656u64, 1559174193640799037u64);
        assert(final_mix(4960237775411928656u64) == 7153445019748508645u64) by (nonlinear_arith) {
            reveal(final_mix);
        }
        lemma_table_hash_from_state(t, 4960237775411928656u64, 1559174193640799037u64);
        assert(table_hash(t) == 7153445019748508645u64);
}

/// The hash of the default table with low penalty raised by one.
proof fn lemma_hash_12()
    ensures
        table_hash(table_with(default_table(), 3, field_raised(table_slot(default_table(), 3), 1))) == 7690022751381323429u64,
{
    let t = table_with(default_table(), 3, field_raised(table_slot(default_table(), 3), 1));
    let f = hash_fields(t);
        lemma_hash_state_start(f);
        assert(hash_mix(1u64, 15u64, 1u64) == 91138248u64 && hash_power_next(1u64) == 91138233u64) by (nonlinear_arith) {
            reveal(hash_mix);
            reveal(hash_power_next);
        }
        lemma_hash_state_step(f, 1, 1u64, 1u64, 15u64, 91138248u64, 91138233u64);
        assert(hash_mix(91138248u64, 100u64, 91138233u64) == 2206311127246111397u64 && hash_power_next(91138233u64) == 8306177514362289u64) by (nonlinear_arith) {
            reveal(hash_mix);
            reveal(hash_power_next);
        }
        lemma_hash_state_step(f, 2, 91138248u64, 91138233u64, 100u64, 2206311127246111397u64, 8306177514362289u64);
        assert(hash_mix(2206311127246111397u64, 750u64, 8306177514362289u64) == 3667900532151179451u64 && hash_power_next(8306177514362289u64) == 2081718455416853762u64) by (nonlinear_arith) {
            reveal(hash_mix);
            reveal(hash_power_next);
        }
        lemma_hash_state_step(f, 3, 2206311127246111397u64, 8306177514362289u64, 750u64, 3667900532151179451u64, 2081718455416853762u64);
        assert(hash_mix(3667900532151179451u64, 30u64, 2081718455416853762u64) == 4424871061168653211u64 && hash_power_next(2081718455416853762u64) == 6021377098042277490u64) by (nonlinear_arith) {
            reveal(hash_mix);
            reveal(hash_power_next);
        }
        lemma_hash_state_step(f, 4, 3667900532151179451u64, 2081718455416853762u64, 30u64, 4424871061168653211u64, 6021377098042277490u64);
        assert(hash_mix(4424871061168653211u64, 50u64, 6021377098042277490u64) == 6493541683555083187u64 && hash_power_next(6021377098042277490u64) == 810465586973061218u64) by (nonlinear_arith) {
            reveal(hash_mix);
            reveal(hash_power_next);
        }
        lemma_hash_state_step(f, 5, 4424871061168653211u64, 6021377098042277490u64, 50u64, 6493541683555083187u64, 810465586973061218u64);
        assert(hash_mix(6493541683555083187u64, 750u64, 810465586973061218u64) == 8914489255199504907u64 && hash_power_next(810465586973061218u64) == 4224317052557215442u64) by (nonlinear_arith) {
            reveal(hash_mix);
            reveal(hash_power_next);
        }
        lemma_hash_state_step(f, 6, 6493541683555083187u64, 810465586973061218u64, 750u64, 8914489255199504907u64, 4224317052557215442u64);
        assert(hash_mix(8914489255199504907u64, 60u64, 4224317052557215442u64) == 7975948810884805774u64 && hash_power_next(4224317052557215442u64) == 7444641517954989531u64) by (nonlinear_arith) {
            reveal(hash_mix);
            reveal(hash_power_next);
        }
        lemma_hash_state_step(f, 7, 8914489255199504907u64, 4224317052557215442u64, 60u64, 7975948810884805774u64, 7444641517954989531u64);
        assert(hash_mix(7975948810884805774u64, 25u64, 7444641517954989531u64) == 3916901515635893670u64 && hash_power_next(7444641517954989531u64) == 8602313425283787587u64) by (nonlinear_arith) {
            reveal(hash_mix);
            reveal(hash_power_next);
        }
        lemma_hash_state_step(f, 8, 7975948810884805774u64, 7444641517954989531u64, 25u64, 3916901515635893670u64, 8602313425283787587u64);
        assert(hash_mix(3916901515635893670u64, 750u64, 8602313425283787587u64) == 3240715392880032940u64 && hash_power_next(8602313425283787587u64) == 7981941978457848708u64) by (nonlinear_arith) {
            reveal(hash_mix);
            reveal(hash_power_next);
        }
        lemma_hash_state_step(f, 9, 3916901515635893670u64, 8602313425283787587u64, 750u64, 3240715392880032940u64, 7981941978457848708u64);
        assert(hash_mix(3240715392880032940u64, 120u64, 7981941978457848708u64) == 5934359252896346384u64 && hash_power_next(7981941978457848708u64) == 7025025368660877924u64) by (nonlinear_arith) {
            reveal(hash_mix);
            reveal(hash_power_next);
        }
        lemma_hash_state_step(f, 10, 3240715392880032940u64, 7981941978457848708u64, 120u64, 5934359252896346384u64, 7025025368660877924u64);
        assert(hash_mix(5934359252896346384u64, 11u64, 7025025368660877924u64) == 4182902682800857740u64 && hash_power_next(7025025368660877924u64) == 4607979663854795332u64) by (nonlinear_arith) {
            reveal(hash_mix);
            reveal(hash_power_next);
        }
        lemma_hash_state_step(f, 11, 5934359252896346384u64, 7025025368660877924u64, 11u64, 4182902682800857740u64, 4607979663854795332u64);
        assert(hash_mix(4182902682800857740u64, 600u64, 4607979663854795332u64) == 878933717318807312u64 && hash_power_next(4607979663854795332u64) == 1559174193640799037u64) by (nonlinear_arith) {
            reveal(hash_mix);
            reveal(hash_power_next);
        }
        lemma_hash_state_step(f, 12, 4182902682800857740u64, 4607979663854795332u64, 600u64, 878933717318807312u64, 1559174193640799037u64);
        assert(final_mix(878933717318807312u64) == 7690022751381323429u64) by (nonlinear_arith) {
            reveal(final_mix);
        }
        lemma_table_hash_from_state(t, 878933717318807312u64, 1559174193640799037u64);
        assert(table_hash(t) == 7690022751381323429u64);
}

/// The hash of the default table with low reward raised by one.
proof fn lemma_hash_13()
    ensures
        table_hash(table_with(default_table(), 3, field_raised(table_slot(default_table(), 3), 2))) == 2976902424794885063u64,
{
    let t = table_with(default_table(), 3, field_raised(table_slot(default_table(), 3), 2));
    let f = hash_fields(t);
        lemma_hash_state_start(f);
        assert(hash_mix(1u64, 15u64, 1u64) == 91138248u64 && hash_power_next(1u64) == 91138233u64) by (nonlinear_arith) {
            reveal(hash_mix);
            reveal(hash_power_next);
        }
        lemma_hash_state_step(f, 1, 1u64, 1u64, 15u64, 91138248u64, 91138233u64);
        assert(hash_mix(91138248u64, 100u64, 91138233u64) == 2206311127246111397u64 && hash_power_next(91138233u64) == 8306177514362289u64) by (nonlinear_arith) {
            reveal(hash_mix);
            reveal(hash_power_next);
        }
        lemma_hash_state_step(f, 2, 91138248u64, 91138233u64, 100u64, 2206311127246111397u64, 8306177514362289u64);
        assert(hash_mix(2206311127246111397u64, 750u64, 8306177514362289u64) == 3667900532151179451u64 && hash_power_next(8306177514362289u64) == 2081718455416853762u64) by (nonlinear_arith) {
            reveal(hash_mix);
            reveal(hash_power_next);
        }
        lemma_hash_state_step(f, 3, 2206311127246111397u64, 8306177514362289u64, 750u64, 3667900532151179451u64, 2081718455416853762u64);
        assert(hash_mix(3667900532151179451u64, 30u64, 2081718455416853762u64) == 4424871061168653211u64 && hash_power_next(2081718455416853762u64) == 6021377098042277490u64) by (nonlinear_arith) {
            reveal(hash_mix);
            reveal(hash_power_next);
        }
        lemma_hash_state_step(f, 4, 3667900532151179451u64, 2081718455416853762u64, 30u64, 4424871061168653211u64, 6021377098042277490u64);
        assert(hash_mix(4424871061168653211u64, 50u64, 6021377098042277490u64) == 6493541683555083187u64 && hash_power_next(6021377098042277490u64) == 810465586973061218u64) by (nonlinear_arith) {
            reveal(hash_mix);
            reveal(hash_power_next);
        }
        lemma_hash_state_step(f, 5, 4424871061168653211u64, 6021377098042277490u64, 50u64, 6493541683555083187u64, 810465586973061218u64);
        assert(hash_mix(6493541683555083187u64, 750u64, 810465586973061218u64) == 8914489255199504907u64 && hash_power_next(810465586973061218u64) == 4224317052557215442u64) by (nonlinear_arith) {
            reveal(hash_mix);
            reveal(hash_power_next);
        }
        lemma_hash_state_step(f, 6, 6493541683555083187u64, 810465586973061218u64, 750u64, 8914489255199504907u64, 4224317052557215442u64);
        assert(hash_mix(8914489255199504907u64, 60u64, 4224317052557215442u64) == 7975948810884805774u64 && hash_power_next(4224317052557215442u64) == 7444641517954989531u64) by (nonlinear_arith) {
            reveal(hash_mix);
            reveal(hash_power_next);
        }
        lemma_hash_state_step(f, 7, 8914489255199504907u64, 4224317052557215442u64, 60u64, 7975948810884805774u64, 7444641517954989531u64);
        assert(hash_mix(7975948810884805774u64, 25u64, 7444641517954989531u64) == 3916901515635893670u64 && hash_power_next(7444641517954989531u64) == 8602313425283787587u64) by (nonlinear_arith) {
            reveal(hash_mix);
            reveal(hash_power_next);
        }
        lemma_hash_state_step(f, 8, 7975948810884805774u64, 7444641517954989531u64, 25u64, 3916901515635893670u64, 8602313425283787587u64);
        assert(hash_mix(3916901515635893670u64, 750u64, 8602313425283787587u64) == 3240715392880032940u64 && hash_power_next(8602313425283787587u64) == 7981941978457848708u64) by (nonlinear_arith) {
            reveal(hash_mix);
            reveal(hash_power_next);
        }
        lemma_hash_state_step(f, 9, 3916901515635893670u64, 8602313425283787587u64, 750u64, 3240715392880032940u64, 7981941978457848708u64);
        assert(hash_mix(3240715392880032940u64, 120u64, 7981941978457848708u64) == 5934359252896346384u64 && hash_power_next(7981941978457848708u64) == 7025025368660877924u64) by (nonlinear_arith) {
            reveal(hash_mix);
            reveal(hash_power_next);
        }
        lemma_hash_state_step(f, 10, 3240715392880032940u64, 7981941978457848708u64, 120u64, 5934359252896346384u64, 7025025368660877924u64);
        assert(hash_mix(5934359252896346384u64, 10u64, 7025025368660877924u64) == 6381249350994755649u64 && hash_power_next(7025025368660877924u64) == 4607979663854795332u64) by (nonlinear_arith) {
            reveal(hash_mix);
            reveal(hash_power_next);
        }
        lemma_hash_state_step(f, 11, 5934359252896346384u64, 7025025368660877924u64, 10u64, 6381249350994755649u64, 4607979663854795332u64);
        assert(hash_mix(6381249350994755649u64, 601u64, 4607979663854795332u64) == 516830559157472737u64 && hash_power_next(4607979663854795332u64) == 1559174193640799037u64) by (nonlinear_arith) {
            reveal(hash_mix);
            reveal(hash_power_next);
        }
        lemma_hash_state_step(f, 12, 6381249350994755649u64, 4607979663854795332u64, 601u64, 516830559157472737u64, 1559174193640799037u64);
        assert(final_mix(516830559157472737u64) == 2976902424794885063u64) by (nonlinear_arith) {
            reveal(final_mix);
        }
        lemma_table_hash_from_state(t, 516830559157472737u64, 1559174193640799037u64);
        assert(table_hash(t) == 2976902424794885063u64);
}

/// The hash of the default table with low set to (240, 15, 900).
proof fn lemma_hash_14()
    ensures
        table_hash(table_with(default_table(), 3, SLAConfig { threshold_minutes: 240, penalty_per_minute: 15, reward_base: 900 })) == 2289255242508303142u64,
{
    let t = table_with(default_table(), 3, SLAConfig { threshold_minutes: 240, penalty_per_minute: 15, reward_base: 900 });
    let f = hash_fields(t);
        lemma_hash_state_start(f);
        assert(hash_mix(1u64, 15u64, 1u64) == 91138248u64 && hash_power_next(1u64) == 91138233u64) by (nonlinear_arith) {
            reveal(hash_mix);
            reveal(hash_power_next);
        }
        lemma_hash_state_step(f, 1, 1u64, 1u64, 15u64, 91138248u64, 91138233u64);
        assert(hash_mix(91138248u64, 100u64, 91138233u64) == 2206311127246111397u64 && hash_power_next(91138233u64) == 8306177514362289u64) by (nonlinear_arith) {
            reveal(hash_mix);
            reveal(hash_power_next);
        }
        lemma_hash_state_step(f, 2, 91138248u64, 91138233u64, 100u64, 2206311127246111397u64, 8306177514362289u64);
        assert(hash_mix(2206311127246111397u64, 750u64, 8306177514362289u64) == 3667900532151179451u64 && hash_power_next(8306177514362289u64) == 2081718455416853762u64) by (nonlinear_arith) {
            reveal(hash_mix);
            reveal(hash_power_next);
        }
        lemma_hash_state_step(f, 3, 2206311127246111397u64, 8306177514362289u64, 750u64, 3667900532151179451u64, 2081718455416853762u64);
        assert(hash_mix(3667900532151179451u64, 30u64, 2081718455416853762u64) == 4424871061168653211u64 && hash_power_next(2081718455416853762u64) == 6021377098042277490u64) by (nonlinear_arith) {
            reveal(hash_mix);
            reveal(hash_power_next);
        }
        lemma_hash_state_step(f, 4, 3667900532151179451u64, 2081718455416853762u64, 30u64, 4424871061168653211u64, 6021377098042277490u64);
        assert(hash_mix(4424871061168653211u64, 50u64, 6021377098042277490u64) == 6493541683555083187u64 && hash_power_next(6021377098042277490u64) == 810465586973061218u64) by (nonlinear_arith) {
            reveal(hash_mix);
            reveal(hash_power_next);
        }
        lemma_hash_state_step(f, 5, 4424871061168653211u64, 6021377098042277490u64, 50u64, 6493541683555083187u64, 810465586973061218u64);
        assert(hash_mix(6493541683555083187u64, 750u64, 810465586973061218u64) == 8914489255199504907u64 && hash_power_next(810465586973061218u64) == 4224317052557215442u64) by (nonlinear_arith) {
            reveal(hash_mix);
            reveal(hash_power_next);
        }
        lemma_hash_state_step(f, 6, 6493541683555083187u64, 810465586973061218u64, 750u64, 8914489255199504907u64, 4224317052557215442u64);
        assert(hash_mix(8914489255199504907u64, 60u64, 4224317052557215442u64) == 7975948810884805774u64 && hash_power_next(4224317052557215442u64) == 7444641517954989531u64) by (nonlinear_arith) {
            reveal(hash_mix);
            reveal(hash_power_next);
        }
        lemma_hash_state_step(f, 7, 8914489255199504907u64, 4224317052557215442u64, 60u64, 7975948810884805774u64, 7444641517954989531u64);
        assert(hash_mix(7975948810884805774u64, 25u64, 7444641517954989531u64) == 3916901515635893670u64 && hash_power_next(7444641517954989531u64) == 8602313425283787587u64) by (nonlinear_arith) {
            reveal(hash_mix);
            reveal(hash_power_next);
        }
        lemma_hash_state_step(f, 8, 7975948810884805774u64, 7444641517954989531u64, 25u64, 3916901515635893670u64, 8602313425283787587u64);
        assert(hash_mix(3916901515635893670u64, 750u64, 8602313425283787587u64) == 3240715392880032940u64 && hash_power_next(8602313425283787587u64) == 7981941978457848708u64) by (nonlinear_arith) {
            reveal(hash_mix);
            reveal(hash_power_next);
        }
        lemma_hash_state_step(f, 9, 3916901515635893670u64, 8602313425283787587u64, 750u64, 3240715392880032940u64, 7981941978457848708u64);
        assert(hash_mix(3240715392880032940u64, 240u64, 7981941978457848708u64) == 4536704834941507312u64 && hash_power_next(7981941978457848708u64) == 7025025368660877924u64) by (nonlinear_arith) {
            reveal(hash_mix);
            reveal(hash_power_next);
        }
        lemma_hash_state_step(f, 10, 3240715392880032940u64, 7981941978457848708u64, 240u64, 4536704834941507312u64, 7025025368660877924u64);
        assert(hash_mix(4536704834941507312u64, 15u64, 7025025368660877924u64) == 1575598627310795676u64 && hash_power_next(7025025368660877924u64) == 4607979663854795332u64) by (nonlinear_arith) {
            reveal(hash_mix);
            reveal(hash_power_next);
        }
        lemma_hash_state_step(f, 11, 4536704834941507312u64, 7025025368660877924u64, 15u64, 1575598627310795676u64, 4607979663854795332u64);
        assert(hash_mix(1575598627310795676u64, 900u64, 4607979663854795332u64) == 5357031560646176025u64 && hash_power_next(4607979663854795332u64) == 1559174193640799037u64) by (nonlinear_arith) {
            reveal(hash_mix);
            reveal(hash_power_next);
        }
        lemma_hash_state_step(f, 12, 1575598627310795676u64, 4607979663854795332u64, 900u64, 5357031560646176025u64, 1559174193640799037u64);
        assert(final_mix(5357031560646176025u64) == 2289255242508303142u64) by (nonlinear_arith) {
            reveal(final_mix);
        }
        lemma_table_hash_from_state(t, 5357031560646176025u64, 1559174193640799037u64);
        assert(table_hash(t) == 2289255242508303142u64);
}

/// Every one of the twelve config fields enters the config version hash:
/// for each severity (critical, high, medium, low) and each of its fields
/// (threshold, penalty, reward), raising that field alone in the default
/// table changes the hash. In particular an update of the low tier to
/// (240, 15, 900) is detected.
pub proof fn law_hash_depends_on_every_field()
    ensures
        forall|i: int, k: int|
            0 <= i < 4 && 0 <= k < 3 ==> #[trigger] table_hash(
                table_with(default_table(), i, field_raised(table_slot(default_table(), i), k)),
            ) != table_hash(default_table()),
        table_hash(
            table_with(
                default_table(),
                3,
                SLAConfig { threshold_minutes: 240, penalty_per_minute: 15, reward_base: 900 },
            ),
        ) != table_hash(default_table()),
{
    lemma_hash_1();
    lemma_hash_2();
    lemma_hash_3();
    lemma_hash_4();
    lemma_hash_5();
    lemma_hash_6();
    lemma_hash_7();
    lemma_hash_8();
    lemma_hash_9();
    lemma_hash_10();
    lemma_hash_11();
    lemma_hash_12();
    lemma_hash_13();
    lemma_hash_14();
    assert forall|i: int, k: int| 0 <= i < 4 && 0 <= k < 3 implies #[trigger] table_hash(
        table_with(default_table(), i, field_raised(table_slot(default_table(), i), k)),
    ) != table_hash(default_table()) by {
        if i == 0 {
            if k == 0 {} else if k == 1 {} else {}
        } else if i == 1 {
            if k == 0 {} else if k == 1 {} else {}
        } else if i == 2 {
            if k == 0 {} else if k == 1 {} else {}
        } else {
            if k == 0 {} else if k == 1 {} else {}
        }
    }
}

} // verus!

//! The risk aggregator: fixed severity-weight tables, an additive,
//! saturating score over findings, and the laws that the score is bounded
//! and monotone in the findings.
//!
//! Scores and confidences are in hundredths: a weight of 40 with a
//! confidence of 85 contributes 3400, which stands for 34.00 points.

use vstd::prelude::*;
use crate::models::{ExploitV, Severity, StateChangeV, VulnerabilityV};

verus! {

/// Upper bound of the risk score, in hundredths: 100.00 points.
pub const MAX_RISK_SCORE: u32 = 10_000;

/// Points, in hundredths, one suspicious state change adds: 5.00 points.
pub const SUSPICIOUS_CHANGE_POINTS: u32 = 500;

/// Severity weight for transaction exploits.
pub open spec fn tx_weight(s: Severity) -> u32 {
    match s {
        Severity::Critical => 40,
        Severity::High => 25,
        Severity::Medium => 15,
        Severity::Low => 5,
        Severity::Info => 1,
    }
}

/// Severity weight for contract vulnerabilities.
pub open spec fn contract_weight(s: Severity) -> u32 {
    match s {
        Severity::Critical => 35,
        Severity::High => 20,
        Severity::Medium => 12,
        Severity::Low => 5,
        Severity::Info => 1,
    }
}

/// Executable twin of `tx_weight`.
pub fn exec_tx_weight(s: Severity) -> (r: u32)
    ensures
        r == tx_weight(s),
{
    match s {
        Severity::Critical => 40,
        Severity::High => 25,
        Severity::Medium => 15,
        Severity::Low => 5,
        Severity::Info => 1,
    }
}

/// Executable twin of `contract_weight`.
pub fn exec_contract_weight(s: Severity) -> (r: u32)
    ensures
        r == contract_weight(s),
{
    match s {
        Severity::Critical => 35,
        Severity::High => 20,
        Severity::Medium => 12,
        Severity::Low => 5,
        Severity::Info => 1,
    }
}

/// Points, in hundredths, one exploit contributes: weight times confidence.
pub open spec fn exploit_points(e: ExploitV) -> int {
    tx_weight(e.severity) * e.confidence
}

/// Points, in hundredths, one vulnerability contributes.
pub open spec fn vuln_points(v: VulnerabilityV) -> int {
    contract_weight(v.severity) * v.confidence
}

/// Sum of the points of all exploits.
pub open spec fn sum_exploit_points(s: Seq<ExploitV>) -> int
    decreases s.len(),
{
    if s.len() == 0 {
        0
    } else {
        sum_exploit_points(s.drop_last()) + exploit_points(s.last())
    }
}

/// Sum of the points of all vulnerabilities.
pub open spec fn sum_vuln_points(s: Seq<VulnerabilityV>) -> int
    decreases s.len(),
{
    if s.len() == 0 {
        0
    } else {
        sum_vuln_points(s.drop_last()) + vuln_points(s.last())
    }
}

/// Number of suspicious state changes.
pub open spec fn count_suspicious(s: Seq<StateChangeV>) -> int
    decreases s.len(),
{
    if s.len() == 0 {
        0
    } else {
        count_suspicious(s.drop_last()) + (if s.last().suspicious {
            1int
        } else {
            0int
        })
    }
}

/// The transaction risk score, in hundredths: severity-weighted confidence
/// over exploits, plus a fixed amount per suspicious state change, clamped.
pub open spec fn spec_risk_score(exploits: Seq<ExploitV>, changes: Seq<StateChangeV>) -> int {
    vstd::math::min(
        sum_exploit_points(exploits) + (SUSPICIOUS_CHANGE_POINTS as int) * count_suspicious(
            changes,
        ),
        MAX_RISK_SCORE as int,
    )
}

/// The contract risk score, in hundredths.
pub open spec fn spec_contract_risk_score(vulns: Seq<VulnerabilityV>) -> int {
    vstd::math::min(sum_vuln_points(vulns), MAX_RISK_SCORE as int)
}

/// Every confidence lies in [0, 100] hundredths, that is in [0, 1].
pub open spec fn exploit_confidences_valid(s: Seq<ExploitV>) -> bool {
    forall|i: int| 0 <= i < s.len() ==> #[trigger] s[i].confidence <= 100
}

/// Every confidence lies in [0, 100] hundredths.
pub open spec fn vuln_confidences_valid(s: Seq<VulnerabilityV>) -> bool {
    forall|i: int| 0 <= i < s.len() ==> #[trigger] s[i].confidence <= 100
}

pub proof fn lemma_sum_exploit_points_nonneg(s: Seq<ExploitV>)
    ensures
        sum_exploit_points(s) >= 0,
    decreases s.len(),
{
    if s.len() > 0 {
        lemma_sum_exploit_points_nonneg(s.drop_last());
    }
}

pub proof fn lemma_sum_vuln_points_nonneg(s: Seq<VulnerabilityV>)
    ensures
        sum_vuln_points(s) >= 0,
    decreases s.len(),
{
    if s.len() > 0 {
        lemma_sum_vuln_points_nonneg(s.drop_last());
    }
}

pub proof fn lemma_count_suspicious_nonneg(s: Seq<StateChangeV>)
    ensures
        count_suspicious(s) >= 0,
    decreases s.len(),
{
    if s.len() > 0 {
        lemma_count_suspicious_nonneg(s.drop_last());
    }
}

/// For any finite input set, the risk score lies in [0, 100.00] points.
pub proof fn lemma_risk_score_in_range(exploits: Seq<ExploitV>, changes: Seq<StateChangeV>)
    ensures
        0 <= spec_risk_score(exploits, changes) <= MAX_RISK_SCORE,
{
    lemma_sum_exploit_points_nonneg(exploits);
    lemma_count_suspicious_nonneg(changes);
}

/// For any finite input set, the contract risk score lies in [0, 100.00].
pub proof fn lemma_contract_risk_score_in_range(vulns: Seq<VulnerabilityV>)
    ensures
        0 <= spec_contract_risk_score(vulns) <= MAX_RISK_SCORE,
{
    lemma_sum_vuln_points_nonneg(vulns);
}

/// The risk score never decreases when one more exploit is found.
pub proof fn lemma_risk_score_monotone_in_count(
    exploits: Seq<ExploitV>,
    extra: ExploitV,
    changes: Seq<StateChangeV>,
)
    ensures
        spec_risk_score(exploits.push(extra), changes) >= spec_risk_score(exploits, changes),
{
    assert(exploits.push(extra).drop_last() =~= exploits);
}

/// The risk score never decreases when one more state change is suspicious.
pub proof fn lemma_risk_score_monotone_in_changes(
    exploits: Seq<ExploitV>,
    changes: Seq<StateChangeV>,
    extra: StateChangeV,
)
    ensures
        spec_risk_score(exploits, changes.push(extra)) >= spec_risk_score(exploits, changes),
{
    assert(changes.push(extra).drop_last() =~= changes);
}

proof fn lemma_sum_points_dominated(s1: Seq<ExploitV>, s2: Seq<ExploitV>)
    requires
        s1.len() == s2.len(),
        forall|i: int|
            0 <= i < s1.len() ==> #[trigger] s1[i].severity == s2[i].severity && s1[i].confidence
                <= s2[i].confidence,
    ensures
        sum_exploit_points(s1) <= sum_exploit_points(s2),
    decreases s1.len(),
{
    if s1.len() > 0 {
        assert(forall|i: int|
            0 <= i < s1.drop_last().len() ==> #[trigger] s1.drop_last()[i].severity
                == s2.drop_last()[i].severity && s1.drop_last()[i].confidence
                <= s2.drop_last()[i].confidence);
        lemma_sum_points_dominated(s1.drop_last(), s2.drop_last());
        let a = s1.last();
        let b = s2.last();
        assert(s1[s1.len() - 1].severity == s2[s2.len() - 1].severity);
        assert(exploit_points(a) <= exploit_points(b)) by (nonlinear_arith)
            requires
                a.confidence <= b.confidence,
                exploit_points(a) == tx_weight(a.severity) * a.confidence,
                exploit_points(b) == tx_weight(b.severity) * b.confidence,
                tx_weight(a.severity) == tx_weight(b.severity),
                tx_weight(a.severity) >= 0,
        {}
    }
}

/// The risk score never decreases when any exploit's confidence grows while
/// everything else stays the same.
pub proof fn lemma_risk_score_monotone_in_confidence(
    lower: Seq<ExploitV>,
    higher: Seq<ExploitV>,
    changes: Seq<StateChangeV>,
)
    requires
        lower.len() == higher.len(),
        forall|i: int|
            0 <= i < lower.len() ==> #[trigger] lower[i].severity == higher[i].severity
                && lower[i].confidence <= higher[i].confidence,
    ensures
        spec_risk_score(lower, changes) <= spec_risk_score(higher, changes),
{
    lemma_sum_points_dominated(lower, higher);
}

} // verus!

//! The analysis orchestrator: sequences normalize, detect, diff, score and
//! cache for transaction analysis, and fetch-check-scan-aggregate for
//! contract audits. Per request key the orchestrator keeps at most one
//! computation in flight: concurrent requests for a key either take the
//! cached result, or start the one computation, or wait for it.
//!
//! The external fetches themselves (chain data, the clock) happen outside
//! this crate; the orchestrator receives fetched records and timestamps as
//! plain values and decides everything else.

use vstd::prelude::*;
use crate::bytecode::{lemma_scan_confidences, spec_analyze_bytecode, BYTECODE_CHECK_COUNT};
use crate::cache::{spec_lookup, LruCache};
use crate::decimal::{account_label, dec_str, u64_to_string};
use crate::detector::{
    lemma_registry_confidences, spec_detect_exploits, ExploitDetector, PATTERN_COUNT,
};
use crate::models::{
    clone_response, AnalysisError, AnalysisMetadata, AnalysisMetadataV, AnalysisRequest,
    AnalysisResponse, AnalysisResponseV, AuditDepth, AuditMetadata, CodeQuality,
    ContractAuditRequest, ContractAuditResponse, Exploit, StateChange, StateChangeV,
    TransactionMetaV, TransactionRecord, TransactionRecordV, Vulnerability, VulnerabilityV,
};
use crate::scan::str_eq;
use crate::scoring::{
    count_suspicious, exec_contract_weight, exec_tx_weight, exploit_confidences_valid,
    spec_contract_risk_score, spec_risk_score, sum_exploit_points, sum_vuln_points,
    vuln_confidences_valid, MAX_RISK_SCORE, SUSPICIOUS_CHANGE_POINTS,
};
use crate::simulator::{spec_simulate, StateSimulator};

verus! {

/// Entry bound of the result cache.
pub const CACHE_CAPACITY: usize = 1000;

/// Version tag stamped into response metadata.
pub open spec fn analyzer_version() -> Seq<char> {
    "1.0.0"@
}

// ---------------------------------------------------------------------------
// State-change differ.
// ---------------------------------------------------------------------------

/// A differing balance pair is suspicious exactly when the account was
/// drained (a positive balance fell to zero) or grew more than tenfold
/// against its previous balance, with a previous balance of zero counted
/// as one to keep the ratio defined.
pub open spec fn spec_suspicious(pre: u64, post: u64) -> bool {
    ||| (post == 0 && pre > 0)
    ||| (post > pre && post - pre > 10 * (if pre > 1 {
        pre as int
    } else {
        1int
    }))
}

/// The state change reported for the differing pair at index `i`.
pub open spec fn change_at(m: TransactionMetaV, i: int) -> StateChangeV {
    StateChangeV {
        account: "account_"@ + dec_str(i),
        field: "lamports"@,
        before: dec_str(m.pre_balances[i] as int),
        after: dec_str(m.post_balances[i] as int),
        suspicious: spec_suspicious(m.pre_balances[i], m.post_balances[i]),
    }
}

/// State changes of the first `k` index-aligned balance pairs: one change
/// per pair whose values differ.
pub open spec fn changes_upto(m: TransactionMetaV, k: int) -> Seq<StateChangeV>
    decreases k,
{
    if k <= 0 {
        Seq::empty()
    } else {
        changes_upto(m, k - 1) + (if m.pre_balances[k - 1] != m.post_balances[k - 1] {
            seq![change_at(m, k - 1)]
        } else {
            Seq::empty()
        })
    }
}

/// All state changes of a record: its balance pairs compared by position.
pub open spec fn spec_state_changes(tx: TransactionRecordV) -> Seq<StateChangeV> {
    match tx.meta {
        Some(m) => changes_upto(
            m,
            vstd::math::min(m.pre_balances.len() as int, m.post_balances.len() as int),
        ),
        None => Seq::empty(),
    }
}

// ---------------------------------------------------------------------------
// Recommendations.
// ---------------------------------------------------------------------------

/// The recommendation a vulnerability kind maps to, if any.
pub open spec fn rec_for(v: VulnerabilityV) -> Option<Seq<char>> {
    if v.vulnerability_type == "missing_owner_check"@ {
        Some("Add owner validation checks before performing privileged operations"@)
    } else if v.vulnerability_type == "missing_signer_check"@ {
        Some("Ensure all critical accounts are marked as signers and validated"@)
    } else if v.vulnerability_type == "integer_overflow"@ {
        Some("Use checked arithmetic operations to prevent overflow vulnerabilities"@)
    } else {
        None
    }
}

/// Recommendations of all vulnerabilities, in order, before deduplication.
pub open spec fn raw_recommendations(s: Seq<VulnerabilityV>) -> Seq<Seq<char>>
    decreases s.len(),
{
    if s.len() == 0 {
        Seq::empty()
    } else {
        raw_recommendations(s.drop_last()) + (match rec_for(s.last()) {
            Some(r) => seq![r],
            None => Seq::empty(),
        })
    }
}

/// `s` with adjacent duplicates collapsed to their first occurrence.
pub open spec fn dedup_adjacent(s: Seq<Seq<char>>) -> Seq<Seq<char>>
    decreases s.len(),
{
    if s.len() <= 1 {
        s
    } else if s.last() == s[s.len() - 2] {
        dedup_adjacent(s.drop_last())
    } else {
        dedup_adjacent(s.drop_last()).push(s.last())
    }
}

/// The recommendation list of an audit: per-kind texts with adjacent
/// duplicates collapsed.
pub open spec fn spec_recommendations(s: Seq<VulnerabilityV>) -> Seq<Seq<char>> {
    dedup_adjacent(raw_recommendations(s))
}

/// Collapsing adjacent duplicates keeps the last element.
proof fn lemma_dedup_last(s: Seq<Seq<char>>)
    requires
        s.len() > 0,
    ensures
        dedup_adjacent(s).len() > 0,
        dedup_adjacent(s).last() == s.last(),
    decreases s.len(),
{
    if s.len() > 1 {
        lemma_dedup_last(s.drop_last());
        if s.last() == s[s.len() - 2] {
            assert(s.drop_last().last() == s[s.len() - 2]);
        }
    }
}

// ---------------------------------------------------------------------------
// Response shapes.
// ---------------------------------------------------------------------------

/// The network tag of a response: the request's, or the default.
pub open spec fn spec_network_tag(net: Option<Seq<char>>) -> Seq<char> {
    match net {
        Some(n) => n,
        None => "mainnet-beta"@,
    }
}

/// The audit depth tag of a response.
pub open spec fn spec_depth_tag(d: Option<AuditDepth>) -> Seq<char> {
    match d {
        Some(AuditDepth::Deep) => "Deep"@,
        _ => "Shallow"@,
    }
}

/// The one analysis response a fetched record determines: its normalized
/// trace, the registry's findings, the balance diff, and the clamped score.
pub open spec fn spec_analysis_response(
    rec: TransactionRecordV,
    net: Option<Seq<char>>,
    timestamp: i64,
    duration_ms: u64,
) -> AnalysisResponseV {
    let sim = spec_simulate(rec);
    let exploits = spec_detect_exploits(rec, sim);
    let changes = spec_state_changes(rec);
    AnalysisResponseV {
        risk_score: spec_risk_score(exploits, changes) as u32,
        exploits,
        state_changes: changes,
        simulation_result: sim,
        metadata: AnalysisMetadataV {
            timestamp,
            analysis_duration_ms: duration_ms,
            analyzer_version: analyzer_version(),
            network: spec_network_tag(net),
        },
    }
}

// ---------------------------------------------------------------------------
// In-flight bookkeeping.
// ---------------------------------------------------------------------------

/// Some listed signature reads `k`.
pub open spec fn sig_listed(s: Seq<String>, k: Seq<char>) -> bool {
    exists|i: int| 0 <= i < s.len() && #[trigger] s[i]@ == k
}

/// `s` with its first signature reading `k` taken out.
pub open spec fn remove_sig(s: Seq<String>, k: Seq<char>) -> Seq<String>
    decreases s.len(),
{
    if s.len() == 0 {
        s
    } else if s[0]@ == k {
        s.drop_first()
    } else {
        seq![s[0]] + remove_sig(s.drop_first(), k)
    }
}

/// No two listed signatures read alike.
pub open spec fn sigs_unique(s: Seq<String>) -> bool {
    forall|i: int, j: int| 0 <= i < j < s.len() ==> s[i]@ != s[j]@
}

/// Removing a signature keeps every other signature listed or not as it was.
proof fn lemma_remove_sig_others(s: Seq<String>, k: Seq<char>, k2: Seq<char>)
    requires
        k2 != k,
    ensures
        sig_listed(remove_sig(s, k), k2) == sig_listed(s, k2),
    decreases s.len(),
{
    let r = remove_sig(s, k);
    if s.len() > 0 {
        if s[0]@ == k {
            assert forall|i: int| 0 <= i < s.len() && #[trigger] s[i]@ == k2 implies sig_listed(
                r,
                k2,
            ) by {
                assert(r[i - 1]@ == k2);
            }
            assert forall|i: int| 0 <= i < r.len() && #[trigger] r[i]@ == k2 implies sig_listed(
                s,
                k2,
            ) by {
                assert(s[i + 1]@ == k2);
            }
        } else {
            lemma_remove_sig_others(s.drop_first(), k, k2);
            let rr = remove_sig(s.drop_first(), k);
            assert(r =~= seq![s[0]] + rr);
            if sig_listed(s, k2) {
                let i = choose|i: int| 0 <= i < s.len() && s[i]@ == k2;
                if i == 0 {
                    assert(r[0]@ == k2);
                } else {
                    assert(sig_listed(s.drop_first(), k2)) by {
                        assert(s.drop_first()[i - 1]@ == k2);
                    }
                    let w = choose|w: int| 0 <= w < rr.len() && rr[w]@ == k2;
                    assert(r[w + 1]@ == k2);
                }
            }
            if sig_listed(r, k2) {
                let i = choose|i: int| 0 <= i < r.len() && r[i]@ == k2;
                if i == 0 {
                    assert(s[0]@ == k2);
                } else {
                    assert(sig_listed(s.drop_first(), k2)) by {
                        lemma_remove_sig_membership(s.drop_first(), k);
                        assert(rr[i - 1]@ == k2);
                        let w = choose|w: int|
                            0 <= w < s.drop_first().len() && rr[i - 1] == s.drop_first()[w];
                        assert(s.drop_first()[w]@ == k2);
                    }
                    let w = choose|w: int| 0 <= w < s.drop_first().len() && s.drop_first()[w]@ == k2;
                    assert(s[w + 1]@ == k2);
                }
            }
        }
    }
}

/// Every signature kept by a removal was listed before it.
proof fn lemma_remove_sig_membership(s: Seq<String>, k: Seq<char>)
    ensures
        forall|i: int|
            0 <= i < remove_sig(s, k).len() ==> exists|j: int|
                0 <= j < s.len() && #[trigger] remove_sig(s, k)[i] == s[j],
    decreases s.len(),
{
    let r = remove_sig(s, k);
    if s.len() > 0 {
        if s[0]@ == k {
            assert forall|i: int| 0 <= i < r.len() implies exists|j: int|
                0 <= j < s.len() && #[trigger] r[i] == s[j] by {
                assert(r[i] == s[i + 1]);
            }
        } else {
            lemma_remove_sig_membership(s.drop_first(), k);
            let rr = remove_sig(s.drop_first(), k);
            assert forall|i: int| 0 <= i < r.len() implies exists|j: int|
                0 <= j < s.len() && #[trigger] r[i] == s[j] by {
                if i == 0 {
                    assert(r[0] == s[0]);
                } else {
                    let w = choose|w: int|
                        0 <= w < s.drop_first().len() && rr[i - 1] == s.drop_first()[w];
                    assert(r[i] == s[w + 1]);
                }
            }
        }
    }
}

/// Removing a signature from a uniquely listed sequence leaves it uniquely
/// listed and without the removed signature.
proof fn lemma_remove_sig_shape(s: Seq<String>, k: Seq<char>)
    requires
        sigs_unique(s),
    ensures
        sigs_unique(remove_sig(s, k)),
        sig_listed(s, k) ==> !sig_listed(remove_sig(s, k), k),
    decreases s.len(),
{
    let r = remove_sig(s, k);
    if s.len() > 0 {
        if s[0]@ == k {
            assert(forall|i: int| 0 <= i < r.len() ==> r[i] == s[i + 1]);
            assert forall|i: int| 0 <= i < r.len() implies #[trigger] r[i]@ != k by {
                assert(s[0]@ != s[i + 1]@);
            }
        } else {
            assert(sigs_unique(s.drop_first()));
            lemma_remove_sig_shape(s.drop_first(), k);
            lemma_remove_sig_membership(s.drop_first(), k);
            let rr = remove_sig(s.drop_first(), k);
            assert(r[0] == s[0]);
            assert(forall|i: int| 1 <= i < r.len() ==> r[i] == rr[i - 1]);
            assert forall|i: int, j: int| 0 <= i < j < r.len() implies r[i]@ != r[j]@ by {
                if i == 0 {
                    let w = choose|w: int|
                        0 <= w < s.drop_first().len() && rr[j - 1] == s.drop_first()[w];
                    assert(s[0]@ != s[w + 1]@);
                }
            }
            if sig_listed(s, k) {
                assert(sig_listed(s.drop_first(), k)) by {
                    let i = choose|i: int| 0 <= i < s.len() && s[i]@ == k;
                    assert(s.drop_first()[i - 1]@ == k);
                }
                assert forall|i: int| 0 <= i < r.len() implies #[trigger] r[i]@ != k by {
                    if i > 0 {
                        assert(r[i] == rr[i - 1]);
                    }
                }
            }
        }
    }
}

/// What the orchestrator decides for one request key.
pub enum AnalysisStep {
    /// The key is cached: this is the stored result, unchanged.
    Cached(AnalysisResponse),
    /// The key is neither cached nor being computed: the caller must fetch
    /// and complete (or abort) the one computation now in flight.
    Fetch,
    /// Another computation for this key is in flight: wait for it.
    Wait,
}

/// The analysis orchestrator.
pub struct ChainAnalyzer {
    pub detector: ExploitDetector,
    pub simulator: StateSimulator,
    pub cache: LruCache,
    pub in_flight: Vec<String>,
}

impl ChainAnalyzer {
    /// Structural invariant: a well-formed cache and uniquely listed
    /// in-flight keys.
    pub open spec fn wf(&self) -> bool {
        &&& self.cache.wf()
        &&& sigs_unique(self.in_flight@)
    }

    /// The cached result for key `k`, if one is stored.
    pub open spec fn spec_cached(&self, k: Seq<char>) -> Option<AnalysisResponseV> {
        spec_lookup(self.cache.entries@, k)
    }

    /// Whether a computation for key `k` is in flight.
    pub open spec fn computing(&self, k: Seq<char>) -> bool {
        sig_listed(self.in_flight@, k)
    }

    /// Whether a request for key `k` must trigger the one external fetch.
    pub open spec fn must_fetch(&self, k: Seq<char>) -> bool {
        self.spec_cached(k) is None && !self.computing(k)
    }

    pub fn new() -> (a: ChainAnalyzer)
        ensures
            a.wf(),
            a.cache.entries@ == Seq::<(String, AnalysisResponse)>::empty(),
            a.cache.spec_capacity() == CACHE_CAPACITY,
            a.in_flight@ == Seq::<String>::empty(),
    {
        let a = ChainAnalyzer {
            detector: ExploitDetector::new(),
            simulator: StateSimulator::new(),
            cache: LruCache::new(CACHE_CAPACITY),
            in_flight: Vec::new(),
        };
        proof {
            assert(a.in_flight@ =~= Seq::<String>::empty());
        }
        a
    }

    /// Whether a computation for `signature` is in flight.
    fn flight_listed(&self, signature: &String) -> (r: bool)
        ensures
            r == self.computing(signature@),
    {
        let n = self.in_flight.len();
        let mut i: usize = 0;
        while i < n
            invariant
                n == self.in_flight@.len(),
                i <= n,
                forall|j: int| 0 <= j < i ==> self.in_flight@[j]@ != signature@,
            decreases n - i,
        {
            if str_eq(self.in_flight[i].as_str(), signature.as_str()) {
                proof {
                    assert(self.in_flight@[i as int]@ == signature@);
                    assert(sig_listed(self.in_flight@, signature@));
                }
                return true;
            }
            i += 1;
        }
        false
    }

    /// Takes the first in-flight entry for `signature` out of the list.
    fn flight_remove(&mut self, signature: &String)
        requires
            sigs_unique(old(self).in_flight@),
        ensures
            final(self).in_flight@ == remove_sig(old(self).in_flight@, signature@),
            sigs_unique(final(self).in_flight@),
            !final(self).computing(signature@),
            forall|k2: Seq<char>|
                k2 != signature@ ==> #[trigger] final(self).computing(k2) == old(self).computing(
                    k2,
                ),
            final(self).cache == old(self).cache,
            final(self).detector == old(self).detector,
            final(self).simulator == old(self).simulator,
    {
        let ghost s0 = self.in_flight@;
        let n = self.in_flight.len();
        let mut i: usize = 0;
        while i < n
            invariant
                n == self.in_flight@.len(),
                i <= n,
                self.in_flight@ == s0,
                sigs_unique(s0),
                s0 == old(self).in_flight@,
                self.cache == old(self).cache,
                self.detector == old(self).detector,
                self.simulator == old(self).simulator,
                forall|j: int| 0 <= j < i ==> s0[j]@ != signature@,
            decreases n - i,
        {
            if str_eq(self.in_flight[i].as_str(), signature.as_str()) {
                proof {
                    assert(s0[i as int]@ == signature@);
                    assert(sig_listed(s0, signature@));
                }
                self.in_flight.remove(i);
                proof {
                    lemma_remove_sig_at(s0, signature@, i as int);
                    lemma_remove_sig_shape(s0, signature@);
                    assert(self.in_flight@ == remove_sig(s0, signature@));
                    assert forall|k2: Seq<char>| k2 != signature@ implies #[trigger] sig_listed(
                        self.in_flight@,
                        k2,
                    ) == sig_listed(s0, k2) by {
                        lemma_remove_sig_others(s0, signature@, k2);
                    }
                }
                return ;
            }
            i += 1;
        }
        proof {
            lemma_remove_sig_absent(s0, signature@);
            assert(self.in_flight@ =~= remove_sig(s0, signature@));
            assert forall|k2: Seq<char>| k2 != signature@ implies #[trigger] sig_listed(
                self.in_flight@,
                k2,
            ) == sig_listed(s0, k2) by {
                lemma_remove_sig_others(s0, signature@, k2);
            }
            if sig_listed(s0, signature@) {
                let w = choose|w: int| 0 <= w < s0.len() && s0[w]@ == signature@;
            }
        }
    }

    /// Decides one request: return the cached result, start the single
    /// computation, or wait for the one already in flight. What any key is
    /// cached as is unchanged; only a `Fetch` decision marks the key as
    /// being computed.
    pub fn begin_analysis(&mut self, signature: &String) -> (r: AnalysisStep)
        requires
            old(self).wf(),
        ensures
            final(self).wf(),
            final(self).cache.spec_capacity() == old(self).cache.spec_capacity(),
            forall|k2: Seq<char>|
                #[trigger] final(self).spec_cached(k2) == old(self).spec_cached(k2),
            match r {
                AnalysisStep::Cached(v) => {
                    &&& old(self).spec_cached(signature@) matches Some(w) && v@ == w
                    &&& final(self).in_flight@ == old(self).in_flight@
                },
                AnalysisStep::Fetch => {
                    &&& old(self).must_fetch(signature@)
                    &&& final(self).computing(signature@)
                    &&& final(self).in_flight@.drop_last() == old(self).in_flight@
                    &&& final(self).in_flight@.last()@ == signature@
                },
                AnalysisStep::Wait => {
                    &&& old(self).spec_cached(signature@) is None
                    &&& old(self).computing(signature@)
                    &&& final(self).in_flight@ == old(self).in_flight@
                },
            },
    {
        match self.cache.get(signature) {
            Some(v) => AnalysisStep::Cached(v),
            None => {
                if self.flight_listed(signature) {
                    AnalysisStep::Wait
                } else {
                    let ghost s0 = self.in_flight@;
                    self.in_flight.push(signature.clone());
                    proof {
                        assert(self.in_flight@.drop_last() =~= s0);
                        assert(self.in_flight@.last()@ == signature@);
                        assert(sig_listed(self.in_flight@, signature@));
                        assert forall|i: int, j: int|
                            0 <= i < j < self.in_flight@.len() implies self.in_flight@[i]@
                            != self.in_flight@[j]@ by {
                            if j == self.in_flight@.len() - 1 {
                                assert(!sig_listed(s0, signature@));
                                assert(s0[i]@ != signature@);
                            }
                        }
                    }
                    AnalysisStep::Fetch
                }
            },
        }
    }

    /// Drops the in-flight mark for a computation that failed; nothing is
    /// cached.
    pub fn abort_analysis(&mut self, signature: &String)
        requires
            old(self).wf(),
        ensures
            final(self).wf(),
            final(self).cache == old(self).cache,
            !final(self).computing(signature@),
            forall|k2: Seq<char>|
                k2 != signature@ ==> #[trigger] final(self).computing(k2) == old(self).computing(
                    k2,
                ),
    {
        self.flight_remove(signature);
    }
}

/// The recommendation for one vulnerability, if its kind maps to one.
fn recommendation_for(v: &Vulnerability) -> (r: Option<String>)
    ensures
        match rec_for(v@) {
            Some(t) => r matches Some(x) && x@ == t,
            None => r is None,
        },
{
    if str_eq(v.vulnerability_type.as_str(), "missing_owner_check") {
        Some("Add owner validation checks before performing privileged operations".to_owned())
    } else if str_eq(v.vulnerability_type.as_str(), "missing_signer_check") {
        Some("Ensure all critical accounts are marked as signers and validated".to_owned())
    } else if str_eq(v.vulnerability_type.as_str(), "integer_overflow") {
        Some("Use checked arithmetic operations to prevent overflow vulnerabilities".to_owned())
    } else {
        None
    }
}

/// Best-effort total of per-transaction instruction counts, saturating at
/// the machine bound.
pub open spec fn sum_counts(s: Seq<usize>) -> int
    decreases s.len(),
{
    if s.len() == 0 {
        0
    } else {
        sum_counts(s.drop_last()) + s.last()
    }
}

/// At most this many recent signatures are sampled per audit.
pub const SIGNATURE_SAMPLE_LIMIT: usize = 100;

/// Adds up the instruction counts of at most the first
/// `SIGNATURE_SAMPLE_LIMIT` sampled signatures, saturating at the machine
/// bound.
pub fn total_instruction_count(counts: &Vec<usize>) -> (r: usize)
    ensures
        r == vstd::math::min(
            sum_counts(
                counts@.take(
                    vstd::math::min(counts@.len() as int, SIGNATURE_SAMPLE_LIMIT as int),
                ),
            ),
            usize::MAX as int,
        ),
{
    let mut total: usize = 0;
    let n = if counts.len() < SIGNATURE_SAMPLE_LIMIT {
        counts.len()
    } else {
        SIGNATURE_SAMPLE_LIMIT
    };
    let mut i: usize = 0;
    while i < n
        invariant
            n == vstd::math::min(counts@.len() as int, SIGNATURE_SAMPLE_LIMIT as int),
            i <= n,
            total == vstd::math::min(sum_counts(counts@.take(i as int)), usize::MAX as int),
        decreases n - i,
    {
        proof {
            assert(counts@.take(i + 1).drop_last() =~= counts@.take(i as int));
            lemma_sum_counts_nonneg(counts@.take(i as int));
        }
        let c = counts[i];
        total = if usize::MAX - total < c {
            usize::MAX
        } else {
            total + c
        };
        i += 1;
    }
    total
}

proof fn lemma_sum_counts_nonneg(s: Seq<usize>)
    ensures
        sum_counts(s) >= 0,
    decreases s.len(),
{
    if s.len() > 0 {
        lemma_sum_counts_nonneg(s.drop_last());
    }
}

impl ChainAnalyzer {
    /// Whether one differing balance pair counts as suspicious: a drain to
    /// zero, or a more-than-tenfold increase.
    pub fn is_suspicious_balance_change(&self, pre: u64, post: u64) -> (r: bool)
        ensures
            r == spec_suspicious(pre, post),
    {
        if post == 0 && pre > 0 {
            return true;
        }
        if post > pre {
            let base: u64 = if pre > 1 {
                pre
            } else {
                1
            };
            let diff = post - pre;
            return (diff as u128) > 10u128 * (base as u128);
        }
        false
    }

    /// Pairs the pre and post balance snapshots by position and reports
    /// every pair whose values differ, flagged per `spec_suspicious`.
    pub fn analyze_state_changes(&self, transaction: &TransactionRecord) -> (r: Vec<StateChange>)
        ensures
            r.deep_view() == spec_state_changes(transaction@),
    {
        let mut changes: Vec<StateChange> = Vec::new();
        match &transaction.meta {
            Some(m) => {
                let np = m.pre_balances.len();
                let nq = m.post_balances.len();
                let n = if np < nq {
                    np
                } else {
                    nq
                };
                let ghost mv = m@;
                let mut i: usize = 0;
                while i < n
                    invariant
                        n <= m.pre_balances@.len(),
                        n <= m.post_balances@.len(),
                        n == vstd::math::min(
                            m.pre_balances@.len() as int,
                            m.post_balances@.len() as int,
                        ),
                        i <= n,
                        mv == m@,
                        changes.deep_view() =~~= changes_upto(mv, i as int),
                    decreases n - i,
                {
                    let pre = m.pre_balances[i];
                    let post = m.post_balances[i];
                    if pre != post {
                        let suspicious = self.is_suspicious_balance_change(pre, post);
                        let c = StateChange {
                            account: account_label(i as u64),
                            field: "lamports".to_owned(),
                            before: u64_to_string(pre),
                            after: u64_to_string(post),
                            suspicious,
                        };
                        proof {
                            assert(c@ =~~= change_at(mv, i as int));
                        }
                        changes.push(c);
                    }
                    proof {
                        assert(changes.deep_view() =~~= changes_upto(mv, i as int + 1));
                    }
                    i += 1;
                }
                proof {
                    assert(changes.deep_view() =~~= spec_state_changes(transaction@));
                }
            },
            None => {
                proof {
                    assert(changes.deep_view() =~~= spec_state_changes(transaction@));
                }
            },
        }
        changes
    }

    /// The transaction risk score, in hundredths: severity-weighted
    /// confidence over exploits plus a fixed amount per suspicious state
    /// change, clamped to [0, 10000].
    pub fn calculate_risk_score(
        &self,
        exploits: &Vec<Exploit>,
        state_changes: &Vec<StateChange>,
    ) -> (r: u32)
        requires
            exploit_confidences_valid(exploits.deep_view()),
        ensures
            r == spec_risk_score(exploits.deep_view(), state_changes.deep_view()),
            r <= MAX_RISK_SCORE,
    {
        let ghost edv = exploits.deep_view();
        let ghost cdv = state_changes.deep_view();
        let mut score: u32 = 0;
        let ne = exploits.len();
        let mut i: usize = 0;
        while i < ne
            invariant
                ne == exploits@.len(),
                edv == exploits.deep_view(),
                exploit_confidences_valid(edv),
                i <= ne,
                score == vstd::math::min(sum_exploit_points(edv.take(i as int)), MAX_RISK_SCORE as int),
            decreases ne - i,
        {
            proof {
                assert(edv.take(i + 1).drop_last() =~= edv.take(i as int));
                assert(edv[i as int] == exploits@[i as int]@);
                assert(edv[i as int].confidence <= 100);
                crate::scoring::lemma_sum_exploit_points_nonneg(edv.take(i as int));
            }
            let e = &exploits[i];
            let term: u32 = exec_tx_weight(e.severity) * e.confidence;
            score = if score > MAX_RISK_SCORE - term {
                MAX_RISK_SCORE
            } else {
                score + term
            };
            i += 1;
        }
        proof {
            assert(edv.take(ne as int) =~= edv);
        }
        let nc = state_changes.len();
        let mut j: usize = 0;
        while j < nc
            invariant
                nc == state_changes@.len(),
                cdv == state_changes.deep_view(),
                j <= nc,
                score == vstd::math::min(
                    sum_exploit_points(edv) + (SUSPICIOUS_CHANGE_POINTS as int) * count_suspicious(
                        cdv.take(j as int),
                    ),
                    MAX_RISK_SCORE as int,
                ),
            decreases nc - j,
        {
            proof {
                assert(cdv.take(j + 1).drop_last() =~= cdv.take(j as int));
                assert(cdv[j as int] == state_changes@[j as int]@);
                crate::scoring::lemma_sum_exploit_points_nonneg(edv);
                crate::scoring::lemma_count_suspicious_nonneg(cdv.take(j as int));
            }
            if state_changes[j].suspicious {
                score = if score > MAX_RISK_SCORE - SUSPICIOUS_CHANGE_POINTS {
                    MAX_RISK_SCORE
                } else {
                    score + SUSPICIOUS_CHANGE_POINTS
                };
            }
            j += 1;
        }
        proof {
            assert(cdv.take(nc as int) =~= cdv);
        }
        score
    }

    /// The contract risk score, in hundredths, clamped to [0, 10000].
    pub fn calculate_contract_risk_score(&self, vulnerabilities: &Vec<Vulnerability>) -> (r: u32)
        requires
            vuln_confidences_valid(vulnerabilities.deep_view()),
        ensures
            r == spec_contract_risk_score(vulnerabilities.deep_view()),
            r <= MAX_RISK_SCORE,
    {
        let ghost vdv = vulnerabilities.deep_view();
        let mut score: u32 = 0;
        let n = vulnerabilities.len();
        let mut i: usize = 0;
        while i < n
            invariant
                n == vulnerabilities@.len(),
                vdv == vulnerabilities.deep_view(),
                vuln_confidences_valid(vdv),
                i <= n,
                score == vstd::math::min(sum_vuln_points(vdv.take(i as int)), MAX_RISK_SCORE as int),
            decreases n - i,
        {
            proof {
                assert(vdv.take(i + 1).drop_last() =~= vdv.take(i as int));
                assert(vdv[i as int] == vulnerabilities@[i as int]@);
                assert(vdv[i as int].confidence <= 100);
                crate::scoring::lemma_sum_vuln_points_nonneg(vdv.take(i as int));
            }
            let v = &vulnerabilities[i];
            let term: u32 = exec_contract_weight(v.severity) * v.confidence;
            score = if score > MAX_RISK_SCORE - term {
                MAX_RISK_SCORE
            } else {
                score + term
            };
            i += 1;
        }
        proof {
            assert(vdv.take(n as int) =~= vdv);
        }
        score
    }

    /// Fixed illustrative code-quality metrics, in hundredths, and their
    /// average.
    pub fn calculate_code_quality(&self, bytecode: &[u8]) -> (r: CodeQuality)
        ensures
            r.score == 75,
            r.metrics@.len() == 3,
            r.metrics@[0].0@ == "complexity"@ && r.metrics@[0].1 == 75,
            r.metrics@[1].0@ == "maintainability"@ && r.metrics@[1].1 == 82,
            r.metrics@[2].0@ == "security"@ && r.metrics@[2].1 == 68,
    {
        let mut metrics: Vec<(String, u32)> = Vec::new();
        metrics.push(("complexity".to_owned(), 75));
        metrics.push(("maintainability".to_owned(), 82));
        metrics.push(("security".to_owned(), 68));
        let score: u32 = (75 + 82 + 68) / 3;
        CodeQuality { score, metrics }
    }

    /// One recommendation per vulnerability whose kind maps to one, in
    /// order, with adjacent duplicates collapsed.
    pub fn generate_recommendations(&self, vulnerabilities: &Vec<Vulnerability>) -> (r: Vec<
        String,
    >)
        ensures
            r.deep_view() == spec_recommendations(vulnerabilities.deep_view()),
    {
        let ghost vdv = vulnerabilities.deep_view();
        let mut out: Vec<String> = Vec::new();
        let n = vulnerabilities.len();
        let mut i: usize = 0;
        while i < n
            invariant
                n == vulnerabilities@.len(),
                vdv == vulnerabilities.deep_view(),
                i <= n,
                out.deep_view() =~~= dedup_adjacent(raw_recommendations(vdv.take(i as int))),
                out@.len() > 0 ==> raw_recommendations(vdv.take(i as int)).len() > 0,
                out@.len() == 0 ==> raw_recommendations(vdv.take(i as int)).len() == 0,
            decreases n - i,
        {
            let ghost raw0 = raw_recommendations(vdv.take(i as int));
            proof {
                assert(vdv.take(i + 1).drop_last() =~= vdv.take(i as int));
                assert(vdv[i as int] == vulnerabilities@[i as int]@);
            }
            match recommendation_for(&vulnerabilities[i]) {
                Some(rec) => {
                    let ghost raw1 = raw_recommendations(vdv.take(i + 1));
                    proof {
                        assert(raw1 =~= raw0.push(rec@));
                        if raw0.len() > 0 {
                            lemma_dedup_last(raw0);
                        }
                    }
                    if out.len() == 0 {
                        out.push(rec);
                        proof {
                            assert(raw0.len() == 0);
                            assert(raw1 =~= seq![rec@]);
                            assert(out.deep_view() =~~= dedup_adjacent(raw1));
                        }
                    } else {
                        let last = out.len() - 1;
                        if str_eq(out[last].as_str(), rec.as_str()) {
                            proof {
                                assert(out.deep_view().last() == out@[last as int]@);
                                assert(raw0.last() == rec@);
                                assert(raw1.drop_last() =~= raw0);
                                assert(raw1[raw1.len() - 2] == raw0.last());
                                assert(dedup_adjacent(raw1) == dedup_adjacent(raw0));
                            }
                        } else {
                            proof {
                                assert(out.deep_view().last() == out@[last as int]@);
                                assert(raw0.last() != rec@);
                                assert(raw1.drop_last() =~= raw0);
                                assert(raw1[raw1.len() - 2] == raw0.last());
                                assert(dedup_adjacent(raw1) == dedup_adjacent(raw0).push(rec@));
                            }
                            out.push(rec);
                            proof {
                                assert(out.deep_view() =~~= dedup_adjacent(raw1));
                            }
                        }
                    }
                },
                None => {
                    proof {
                        assert(raw_recommendations(vdv.take(i + 1)) =~= raw0);
                    }
                },
            }
            i += 1;
        }
        proof {
            assert(vdv.take(n as int) =~= vdv);
        }
        out
    }
}

impl ChainAnalyzer {
    /// Computes the full analysis of one fetched record, caches it under
    /// the request's signature, clears the signature's in-flight mark, and
    /// returns it. The response is exactly the one the record determines;
    /// the cache afterwards holds it under the signature.
    pub fn analyze_transaction(
        &mut self,
        request: &AnalysisRequest,
        record: &TransactionRecord,
        timestamp: i64,
        duration_ms: u64,
    ) -> (r: AnalysisResponse)
        requires
            old(self).wf(),
        ensures
            final(self).wf(),
            r@ == spec_analysis_response(
                record@,
                request.network.deep_view(),
                timestamp,
                duration_ms,
            ),
            final(self).spec_cached(request.signature@) == Some(r@),
            final(self).cache.spec_capacity() == old(self).cache.spec_capacity(),
            forall|k2: Seq<char>|
                k2 != request.signature@ && #[trigger] final(self).spec_cached(k2) is Some
                    ==> final(self).spec_cached(k2) == old(self).spec_cached(k2),
            !final(self).computing(request.signature@),
            forall|k2: Seq<char>|
                k2 != request.signature@ ==> #[trigger] final(self).computing(k2) == old(
                    self,
                ).computing(k2),
    {
        let ghost rec = record@;
        let simulation_result = self.simulator.simulate_transaction(record);
        let exploits = self.detector.detect_exploits(record, &simulation_result);
        proof {
            lemma_registry_confidences(rec, spec_simulate(rec), PATTERN_COUNT as int);
        }
        let state_changes = self.analyze_state_changes(record);
        let risk_score = self.calculate_risk_score(&exploits, &state_changes);
        let network = match &request.network {
            Some(n) => n.clone(),
            None => "mainnet-beta".to_owned(),
        };
        let response = AnalysisResponse {
            risk_score,
            exploits,
            state_changes,
            simulation_result,
            metadata: AnalysisMetadata {
                timestamp,
                analysis_duration_ms: duration_ms,
                analyzer_version: "1.0.0".to_owned(),
                network,
            },
        };
        proof {
            assert(response@ =~~= spec_analysis_response(
                rec,
                request.network.deep_view(),
                timestamp,
                duration_ms,
            ));
        }
        let result = clone_response(&response);
        self.cache.put(request.signature.clone(), response);
        self.flight_remove(&request.signature);
        result
    }

    /// Audits one fetched program account: rejects a non-executable account
    /// outright; otherwise scans the bytecode, aggregates the score, and
    /// reports quality metrics and recommendations. Nothing is cached.
    pub fn audit_contract(
        &self,
        request: &ContractAuditRequest,
        account_executable: bool,
        bytecode: &[u8],
        instruction_count: usize,
        timestamp: i64,
        duration_ms: u64,
    ) -> (r: Result<ContractAuditResponse, AnalysisError>)
        ensures
            !account_executable ==> (r matches Err(e) && e == AnalysisError::NotExecutable),
            account_executable ==> (r matches Ok(resp) && {
                &&& resp.program_id@ == request.program_id@
                &&& resp.vulnerabilities.deep_view() == spec_analyze_bytecode(bytecode@)
                &&& resp.risk_score == spec_contract_risk_score(spec_analyze_bytecode(bytecode@))
                &&& resp.recommendations.deep_view() == spec_recommendations(
                    spec_analyze_bytecode(bytecode@),
                )
                &&& resp.code_quality.score == 75
                &&& resp.code_quality.metrics@.len() == 3
                &&& resp.metadata.timestamp == timestamp
                &&& resp.metadata.audit_duration_ms == duration_ms
                &&& resp.metadata.instructions_analyzed == instruction_count
                &&& resp.metadata.depth@ == spec_depth_tag(request.depth)
            }),
    {
        if !account_executable {
            return Err(AnalysisError::NotExecutable);
        }
        let vulnerabilities = self.detector.analyze_program_bytecode(bytecode);
        proof {
            lemma_scan_confidences(bytecode@, BYTECODE_CHECK_COUNT as int);
        }
        let code_quality = self.calculate_code_quality(bytecode);
        let risk_score = self.calculate_contract_risk_score(&vulnerabilities);
        let recommendations = self.generate_recommendations(&vulnerabilities);
        let depth = match request.depth {
            Some(AuditDepth::Deep) => "Deep".to_owned(),
            _ => "Shallow".to_owned(),
        };
        Ok(ContractAuditResponse {
            program_id: request.program_id.clone(),
            risk_score,
            vulnerabilities,
            code_quality,
            recommendations,
            metadata: AuditMetadata {
                timestamp,
                audit_duration_ms: duration_ms,
                instructions_analyzed: instruction_count,
                depth,
            },
        })
    }
}

/// A key that is cached never triggers a fetch: a request for it is
/// answered from the cache.
pub proof fn lemma_cached_key_never_fetches(a: ChainAnalyzer, k: Seq<char>)
    requires
        a.spec_cached(k) is Some,
    ensures
        !a.must_fetch(k),
{
}

/// A key whose computation is in flight never triggers a second fetch:
/// concurrent requests for one key coalesce into the one computation.
pub proof fn lemma_in_flight_key_never_fetches(a: ChainAnalyzer, k: Seq<char>)
    requires
        a.computing(k),
    ensures
        !a.must_fetch(k),
{
}

/// Removal at the position of the first match.
proof fn lemma_remove_sig_at(s: Seq<String>, k: Seq<char>, idx: int)
    requires
        0 <= idx < s.len(),
        s[idx]@ == k,
        forall|j: int| 0 <= j < idx ==> s[j]@ != k,
    ensures
        remove_sig(s, k) == s.remove(idx),
    decreases idx,
{
    if idx == 0 {
        assert(remove_sig(s, k) =~= s.remove(0));
    } else {
        assert(s.drop_first()[idx - 1] == s[idx]);
        assert(forall|j: int| 0 <= j < idx - 1 ==> s.drop_first()[j]@ != k);
        lemma_remove_sig_at(s.drop_first(), k, idx - 1);
        assert(remove_sig(s, k) =~= s.remove(idx));
    }
}

/// Removal of an unlisted signature changes nothing.
proof fn lemma_remove_sig_absent(s: Seq<String>, k: Seq<char>)
    requires
        forall|i: int| 0 <= i < s.len() ==> s[i]@ != k,
    ensures
        remove_sig(s, k) == s,
    decreases s.len(),
{
    if s.len() > 0 {
        assert(forall|i: int| 0 <= i < s.drop_first().len() ==> s.drop_first()[i]@ != k);
        lemma_remove_sig_absent(s.drop_first(), k);
        assert(remove_sig(s, k) =~= s);
    }
}

} // verus!

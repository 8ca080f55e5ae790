//! Data model of the analysis pipeline.
//!
//! Confidence values and risk scores are carried in hundredths (a confidence
//! of 85 stands for 0.85; a risk score of 3400 stands for 34.00 points), so
//! that scoring arithmetic is exact.

use vstd::prelude::*;

verus! {

/// Category of a detected exploit.
#[derive(Clone, Copy, Debug, PartialEq, Eq, Structural)]
pub enum ExploitType {
    Reentrancy,
    IntegerOverflow,
    IntegerUnderflow,
    AuthorityBypass,
    UnauthorizedAccess,
    AccountConfusion,
    SignerBypass,
    PdaMismatch,
    MissingOwnerCheck,
    MissingSignerCheck,
    ArbitraryCodeExecution,
    FlashLoanAttack,
    PriceManipulation,
    FrontRunning,
    Sandwich,
    TypeConfusion,
    InsufficientRentExemption,
    OracleManipulation,
    DosAttack,
    ArbitraryCpi,
    BumpSeedCanonical,
    AccountDataMismatch,
    MissingRentCheck,
    UncheckedAccountOwnership,
    TokenAccountValidation,
    MintAuthorityBypass,
    FreezeAuthorityBypass,
    DuplicateAccountMutable,
    AccountReinitialization,
    ClosedAccountRevival,
    Unknown,
}

/// Severity of a finding. Weighting is done through explicit weight tables,
/// never through this enum's declaration order.
#[derive(Clone, Copy, Debug, PartialEq, Eq, Structural)]
pub enum Severity {
    Critical,
    High,
    Medium,
    Low,
    Info,
}

/// Depth of a contract audit request.
#[derive(Clone, Copy, Debug, PartialEq, Eq, Structural)]
pub enum AuditDepth {
    Shallow,
    Deep,
}

/// Typed failure of an analysis or audit request.
#[derive(Clone, Copy, Debug, PartialEq, Eq, Structural)]
pub enum AnalysisError {
    /// Malformed signature or program id, rejected before any fetch.
    InputValidation,
    /// The external data source failed; not retried here.
    UpstreamFetch,
    /// Audit requested on an account that is not executable.
    NotExecutable,
}

/// A transaction-analysis request key: the transaction signature, and an
/// optional network tag.
#[derive(Debug)]
pub struct AnalysisRequest {
    pub signature: String,
    pub network: Option<String>,
}

/// A contract-audit request: the program id, and optional network and depth.
#[derive(Debug)]
pub struct ContractAuditRequest {
    pub program_id: String,
    pub network: Option<String>,
    pub depth: Option<AuditDepth>,
}

/// Execution metadata of a fetched transaction, reduced to plain values:
/// the error (already rendered to text), metered resource consumption, log
/// lines, and the pre/post balance snapshots paired by account index.
#[derive(Debug)]
pub struct TransactionMeta {
    pub err: Option<String>,
    pub compute_units_consumed: Option<u64>,
    pub log_messages: Option<Vec<String>>,
    pub pre_balances: Vec<u64>,
    pub post_balances: Vec<u64>,
}

/// A fetched transaction record, reduced to plain values. `meta` is absent
/// when the chain returned no execution metadata; `account_keys` is empty
/// when the transaction could not be decoded.
#[derive(Debug)]
pub struct TransactionRecord {
    pub meta: Option<TransactionMeta>,
    pub account_keys: Vec<String>,
}

/// Ghost shape of a `TransactionMeta`.
#[verifier::ext_equal]
pub struct TransactionMetaV {
    pub err: Option<Seq<char>>,
    pub compute_units_consumed: Option<u64>,
    pub log_messages: Option<Seq<Seq<char>>>,
    pub pre_balances: Seq<u64>,
    pub post_balances: Seq<u64>,
}

/// Ghost shape of a `TransactionRecord`.
#[verifier::ext_equal]
pub struct TransactionRecordV {
    pub meta: Option<TransactionMetaV>,
    pub account_keys: Seq<Seq<char>>,
}

impl View for TransactionMeta {
    type V = TransactionMetaV;

    open spec fn view(&self) -> TransactionMetaV {
        TransactionMetaV {
            err: self.err.deep_view(),
            compute_units_consumed: self.compute_units_consumed,
            log_messages: self.log_messages.deep_view(),
            pre_balances: self.pre_balances@,
            post_balances: self.post_balances@,
        }
    }
}

impl View for TransactionRecord {
    type V = TransactionRecordV;

    open spec fn view(&self) -> TransactionRecordV {
        TransactionRecordV {
            meta: match self.meta {
                Some(m) => Some(m@),
                None => None,
            },
            account_keys: self.account_keys.deep_view(),
        }
    }
}

/// The normalized execution trace of one transaction.
#[derive(Debug)]
pub struct SimulationResult {
    pub success: bool,
    pub error: Option<String>,
    pub compute_units_consumed: u64,
    pub logs: Vec<String>,
    pub accounts_accessed: Vec<String>,
}

/// Ghost shape of a `SimulationResult`.
#[verifier::ext_equal]
pub struct SimulationResultV {
    pub success: bool,
    pub error: Option<Seq<char>>,
    pub compute_units_consumed: u64,
    pub logs: Seq<Seq<char>>,
    pub accounts_accessed: Seq<Seq<char>>,
}

impl View for SimulationResult {
    type V = SimulationResultV;

    open spec fn view(&self) -> SimulationResultV {
        SimulationResultV {
            success: self.success,
            error: self.error.deep_view(),
            compute_units_consumed: self.compute_units_consumed,
            logs: self.logs.deep_view(),
            accounts_accessed: self.accounts_accessed.deep_view(),
        }
    }
}

/// One detected exploit. `confidence` is in hundredths and lies in [0, 100].
#[derive(Debug)]
pub struct Exploit {
    pub exploit_type: ExploitType,
    pub severity: Severity,
    pub description: String,
    pub location: String,
    pub confidence: u32,
    pub remediation: Option<String>,
}

/// Ghost shape of an `Exploit`.
#[verifier::ext_equal]
pub struct ExploitV {
    pub exploit_type: ExploitType,
    pub severity: Severity,
    pub description: Seq<char>,
    pub location: Seq<char>,
    pub confidence: u32,
    pub remediation: Option<Seq<char>>,
}

impl View for Exploit {
    type V = ExploitV;

    open spec fn view(&self) -> ExploitV {
        ExploitV {
            exploit_type: self.exploit_type,
            severity: self.severity,
            description: self.description@,
            location: self.location@,
            confidence: self.confidence,
            remediation: self.remediation.deep_view(),
        }
    }
}

impl DeepView for Exploit {
    type V = ExploitV;

    open spec fn deep_view(&self) -> ExploitV {
        self.view()
    }
}

/// One vulnerability found in program bytecode. `confidence` is in
/// hundredths and lies in [0, 100].
#[derive(Debug)]
pub struct Vulnerability {
    pub vulnerability_type: String,
    pub severity: Severity,
    pub description: String,
    pub affected_instructions: Vec<String>,
    pub confidence: u32,
}

/// Ghost shape of a `Vulnerability`.
#[verifier::ext_equal]
pub struct VulnerabilityV {
    pub vulnerability_type: Seq<char>,
    pub severity: Severity,
    pub description: Seq<char>,
    pub affected_instructions: Seq<Seq<char>>,
    pub confidence: u32,
}

impl View for Vulnerability {
    type V = VulnerabilityV;

    open spec fn view(&self) -> VulnerabilityV {
        VulnerabilityV {
            vulnerability_type: self.vulnerability_type@,
            severity: self.severity,
            description: self.description@,
            affected_instructions: self.affected_instructions.deep_view(),
            confidence: self.confidence,
        }
    }
}

impl DeepView for Vulnerability {
    type V = VulnerabilityV;

    open spec fn deep_view(&self) -> VulnerabilityV {
        self.view()
    }
}

/// One observed state change: a balance that differs between the pre and
/// post snapshots of a transaction.
#[derive(Debug)]
pub struct StateChange {
    pub account: String,
    pub field: String,
    pub before: String,
    pub after: String,
    pub suspicious: bool,
}

/// Ghost shape of a `StateChange`.
#[verifier::ext_equal]
pub struct StateChangeV {
    pub account: Seq<char>,
    pub field: Seq<char>,
    pub before: Seq<char>,
    pub after: Seq<char>,
    pub suspicious: bool,
}

impl View for StateChange {
    type V = StateChangeV;

    open spec fn view(&self) -> StateChangeV {
        StateChangeV {
            account: self.account@,
            field: self.field@,
            before: self.before@,
            after: self.after@,
            suspicious: self.suspicious,
        }
    }
}

impl DeepView for StateChange {
    type V = StateChangeV;

    open spec fn deep_view(&self) -> StateChangeV {
        self.view()
    }
}

/// Bookkeeping attached to one analysis response.
#[derive(Debug)]
pub struct AnalysisMetadata {
    pub timestamp: i64,
    pub analysis_duration_ms: u64,
    pub analyzer_version: String,
    pub network: String,
}

/// A full transaction-analysis result. `risk_score` is in hundredths of a
/// point and lies in [0, 10000].
#[derive(Debug)]
pub struct AnalysisResponse {
    pub risk_score: u32,
    pub exploits: Vec<Exploit>,
    pub state_changes: Vec<StateChange>,
    pub simulation_result: SimulationResult,
    pub metadata: AnalysisMetadata,
}

/// Aggregate code-quality metrics of an audited program. `score` and each
/// metric value are in hundredths.
#[derive(Debug)]
pub struct CodeQuality {
    pub score: u32,
    pub metrics: Vec<(String, u32)>,
}

/// Bookkeeping attached to one contract-audit response.
#[derive(Debug)]
pub struct AuditMetadata {
    pub timestamp: i64,
    pub audit_duration_ms: u64,
    pub instructions_analyzed: usize,
    pub depth: String,
}

/// A full contract-audit result. `risk_score` is in hundredths of a point
/// and lies in [0, 10000].
#[derive(Debug)]
pub struct ContractAuditResponse {
    pub program_id: String,
    pub risk_score: u32,
    pub vulnerabilities: Vec<Vulnerability>,
    pub code_quality: CodeQuality,
    pub recommendations: Vec<String>,
    pub metadata: AuditMetadata,
}

/// Liveness report of the service.
#[derive(Debug)]
pub struct HealthResponse {
    pub status: String,
    pub version: String,
    pub uptime_seconds: u64,
}

/// Ghost shape of an `AnalysisMetadata`.
#[verifier::ext_equal]
pub struct AnalysisMetadataV {
    pub timestamp: i64,
    pub analysis_duration_ms: u64,
    pub analyzer_version: Seq<char>,
    pub network: Seq<char>,
}

impl View for AnalysisMetadata {
    type V = AnalysisMetadataV;

    open spec fn view(&self) -> AnalysisMetadataV {
        AnalysisMetadataV {
            timestamp: self.timestamp,
            analysis_duration_ms: self.analysis_duration_ms,
            analyzer_version: self.analyzer_version@,
            network: self.network@,
        }
    }
}

/// Ghost shape of an `AnalysisResponse`.
#[verifier::ext_equal]
pub struct AnalysisResponseV {
    pub risk_score: u32,
    pub exploits: Seq<ExploitV>,
    pub state_changes: Seq<StateChangeV>,
    pub simulation_result: SimulationResultV,
    pub metadata: AnalysisMetadataV,
}

impl View for AnalysisResponse {
    type V = AnalysisResponseV;

    open spec fn view(&self) -> AnalysisResponseV {
        AnalysisResponseV {
            risk_score: self.risk_score,
            exploits: self.exploits.deep_view(),
            state_changes: self.state_changes.deep_view(),
            simulation_result: self.simulation_result@,
            metadata: self.metadata@,
        }
    }
}

// ---------------------------------------------------------------------------
// Deep copies. Every helper states exactly how the copy relates to the
// original, so that callers can reason about what a returned copy holds.
// ---------------------------------------------------------------------------

/// Copies a vector of strings; the copy equals the original.
pub fn clone_strings(v: &Vec<String>) -> (out: Vec<String>)
    ensures
        out@ == v@,
        out.deep_view() == v.deep_view(),
{
    let mut out: Vec<String> = Vec::new();
    let n = v.len();
    let mut i: usize = 0;
    while i < n
        invariant
            n == v@.len(),
            i <= n,
            out@ =~= v@.take(i as int),
        decreases n - i,
    {
        out.push(v[i].clone());
        i += 1;
    }
    proof {
        assert(out@ =~= v@);
        assert(out.deep_view() =~~= v.deep_view());
    }
    out
}

/// Copies an optional string; the copy equals the original.
pub fn clone_opt_string(o: &Option<String>) -> (r: Option<String>)
    ensures
        r == *o,
{
    match o {
        Some(s) => Some(s.clone()),
        None => None,
    }
}

/// Copies one exploit; the copy equals the original.
pub fn clone_exploit(e: &Exploit) -> (c: Exploit)
    ensures
        c@ == e@,
{
    Exploit {
        exploit_type: e.exploit_type,
        severity: e.severity,
        description: e.description.clone(),
        location: e.location.clone(),
        confidence: e.confidence,
        remediation: clone_opt_string(&e.remediation),
    }
}

/// Copies a vector of exploits; the copy's view equals the original's.
pub fn clone_exploits(v: &Vec<Exploit>) -> (out: Vec<Exploit>)
    ensures
        out.deep_view() == v.deep_view(),
{
    let mut out: Vec<Exploit> = Vec::new();
    let n = v.len();
    let mut i: usize = 0;
    while i < n
        invariant
            n == v@.len(),
            i <= n,
            out@.len() == i,
            forall|j: int| 0 <= j < i ==> out@[j]@ == v@[j]@,
        decreases n - i,
    {
        out.push(clone_exploit(&v[i]));
        i += 1;
    }
    proof {
        assert forall|j: int| 0 <= j < n implies out.deep_view()[j] == v.deep_view()[j] by {
            assert(out.deep_view()[j] == out@[j]@);
            assert(v.deep_view()[j] == v@[j]@);
        }
        assert(out.deep_view() =~~= v.deep_view());
    }
    out
}

/// Copies one state change; the copy equals the original.
pub fn clone_state_change(c: &StateChange) -> (r: StateChange)
    ensures
        r@ == c@,
{
    StateChange {
        account: c.account.clone(),
        field: c.field.clone(),
        before: c.before.clone(),
        after: c.after.clone(),
        suspicious: c.suspicious,
    }
}

/// Copies a vector of state changes; the copy's view equals the original's.
pub fn clone_state_changes(v: &Vec<StateChange>) -> (out: Vec<StateChange>)
    ensures
        out.deep_view() == v.deep_view(),
{
    let mut out: Vec<StateChange> = Vec::new();
    let n = v.len();
    let mut i: usize = 0;
    while i < n
        invariant
            n == v@.len(),
            i <= n,
            out@.len() == i,
            forall|j: int| 0 <= j < i ==> out@[j]@ == v@[j]@,
        decreases n - i,
    {
        out.push(clone_state_change(&v[i]));
        i += 1;
    }
    proof {
        assert forall|j: int| 0 <= j < n implies out.deep_view()[j] == v.deep_view()[j] by {
            assert(out.deep_view()[j] == out@[j]@);
            assert(v.deep_view()[j] == v@[j]@);
        }
        assert(out.deep_view() =~~= v.deep_view());
    }
    out
}

/// Copies an execution trace; the copy's view equals the original's.
pub fn clone_simulation_result(s: &SimulationResult) -> (c: SimulationResult)
    ensures
        c@ == s@,
{
    let c = SimulationResult {
        success: s.success,
        error: clone_opt_string(&s.error),
        compute_units_consumed: s.compute_units_consumed,
        logs: clone_strings(&s.logs),
        accounts_accessed: clone_strings(&s.accounts_accessed),
    };
    proof {
        assert(c@ =~~= s@);
    }
    c
}

/// Copies analysis metadata; the copy's view equals the original's.
pub fn clone_analysis_metadata(m: &AnalysisMetadata) -> (c: AnalysisMetadata)
    ensures
        c@ == m@,
{
    AnalysisMetadata {
        timestamp: m.timestamp,
        analysis_duration_ms: m.analysis_duration_ms,
        analyzer_version: m.analyzer_version.clone(),
        network: m.network.clone(),
    }
}

/// Copies a full analysis response; the copy's view equals the original's.
pub fn clone_response(r: &AnalysisResponse) -> (c: AnalysisResponse)
    ensures
        c@ == r@,
{
    let c = AnalysisResponse {
        risk_score: r.risk_score,
        exploits: clone_exploits(&r.exploits),
        state_changes: clone_state_changes(&r.state_changes),
        simulation_result: clone_simulation_result(&r.simulation_result),
        metadata: clone_analysis_metadata(&r.metadata),
    };
    proof {
        assert(c@ =~~= r@);
    }
    c
}

} // verus!

//! The detector registry: a fixed, ordered set of independent detection
//! rules, each a pure predicate over the fetched transaction record and its
//! normalized execution trace. Every rule runs on every analysis, in
//! registration order, with no early exit. Each rule that fires yields one
//! exploit with a fixed confidence and a remediation looked up by category.
//!
//! All detections are heuristic correlations over log text and balance
//! snapshots, not semantic proofs of exploitability.

use vstd::prelude::*;
use crate::models::{
    Exploit, ExploitType, ExploitV, Severity, SimulationResult, SimulationResultV,
    TransactionMetaV, TransactionRecord, TransactionRecordV,
};
use crate::scan::{contains_seq, contains_str};

verus! {

// ---------------------------------------------------------------------------
// Per-line predicates: what one log line must contain for a rule to notice it.
// ---------------------------------------------------------------------------

/// A log line that records a program invocation.
pub open spec fn line_is_invoke(l: Seq<char>) -> bool {
    contains_seq(l, "Program"@) && contains_seq(l, "invoke"@)
}

fn exec_line_is_invoke(l: &str) -> (r: bool)
    ensures
        r == line_is_invoke(l@),
{
    contains_str(l, "Program") && contains_str(l, "invoke")
}

/// A log line that reports arithmetic overflow or underflow.
pub open spec fn line_flags_overflow(l: Seq<char>) -> bool {
    contains_seq(l, "overflow"@) || contains_seq(l, "underflow"@)
}

fn exec_line_flags_overflow(l: &str) -> (r: bool)
    ensures
        r == line_flags_overflow(l@),
{
    contains_str(l, "overflow") || contains_str(l, "underflow")
}

/// A log line that reports a missing signer.
pub open spec fn line_flags_missing_signer(l: Seq<char>) -> bool {
    contains_seq(l, "missing"@) && contains_seq(l, "signer"@)
}

fn exec_line_flags_missing_signer(l: &str) -> (r: bool)
    ensures
        r == line_flags_missing_signer(l@),
{
    contains_str(l, "missing") && contains_str(l, "signer")
}

/// A log line that mentions program-derived addresses or their seeds.
pub open spec fn line_flags_pda(l: Seq<char>) -> bool {
    contains_seq(l, "PDA"@) || contains_seq(l, "seeds"@)
}

fn exec_line_flags_pda(l: &str) -> (r: bool)
    ensures
        r == line_flags_pda(l@),
{
    contains_str(l, "PDA") || contains_str(l, "seeds")
}

/// A log line that reports an account mismatch or confusion.
pub open spec fn line_flags_account_confusion(l: Seq<char>) -> bool {
    contains_seq(l, "account"@) && (contains_seq(l, "mismatch"@) || contains_seq(l, "confusion"@))
}

fn exec_line_flags_account_confusion(l: &str) -> (r: bool)
    ensures
        r == line_flags_account_confusion(l@),
{
    contains_str(l, "account") && (contains_str(l, "mismatch") || contains_str(l, "confusion"))
}

/// A log line that reports an unauthorized or unsigned privileged action.
pub open spec fn line_flags_signer_bypass(l: Seq<char>) -> bool {
    contains_seq(l, "unauthorized"@) || (contains_seq(l, "signer"@) && contains_seq(
        l,
        "required"@,
    ))
}

fn exec_line_flags_signer_bypass(l: &str) -> (r: bool)
    ensures
        r == line_flags_signer_bypass(l@),
{
    contains_str(l, "unauthorized") || (contains_str(l, "signer") && contains_str(l, "required"))
}

/// A log line that reports an account-type discriminator problem.
pub open spec fn line_flags_type_confusion(l: Seq<char>) -> bool {
    contains_seq(l, "discriminator"@) || contains_seq(l, "invalid account type"@)
}

fn exec_line_flags_type_confusion(l: &str) -> (r: bool)
    ensures
        r == line_flags_type_confusion(l@),
{
    contains_str(l, "discriminator") || contains_str(l, "invalid account type")
}

/// A log line that suggests stale or manipulated oracle data.
pub open spec fn line_flags_oracle(l: Seq<char>) -> bool {
    contains_seq(l, "oracle"@) || (contains_seq(l, "price"@) && contains_seq(l, "stale"@))
}

fn exec_line_flags_oracle(l: &str) -> (r: bool)
    ensures
        r == line_flags_oracle(l@),
{
    contains_str(l, "oracle") || (contains_str(l, "price") && contains_str(l, "stale"))
}

/// An invocation log line not attributable to the known system programs.
pub open spec fn line_flags_arbitrary_cpi(l: Seq<char>) -> bool {
    contains_seq(l, "invoke"@) && !contains_seq(l, "System"@) && !contains_seq(l, "Token"@)
}

fn exec_line_flags_arbitrary_cpi(l: &str) -> (r: bool)
    ensures
        r == line_flags_arbitrary_cpi(l@),
{
    contains_str(l, "invoke") && !contains_str(l, "System") && !contains_str(l, "Token")
}

/// A log line that reports a non-canonical bump seed.
pub open spec fn line_flags_bump_seed(l: Seq<char>) -> bool {
    contains_seq(l, "bump"@) && contains_seq(l, "invalid"@)
}

fn exec_line_flags_bump_seed(l: &str) -> (r: bool)
    ensures
        r == line_flags_bump_seed(l@),
{
    contains_str(l, "bump") && contains_str(l, "invalid")
}

/// A log line that reports malformed or mismatched account data.
pub open spec fn line_flags_data_mismatch(l: Seq<char>) -> bool {
    contains_seq(l, "deserialization"@) || contains_seq(l, "data mismatch"@)
}

fn exec_line_flags_data_mismatch(l: &str) -> (r: bool)
    ensures
        r == line_flags_data_mismatch(l@),
{
    contains_str(l, "deserialization") || contains_str(l, "data mismatch")
}

/// A log line that reports an invalid or mismatched account owner.
pub open spec fn line_flags_ownership(l: Seq<char>) -> bool {
    contains_seq(l, "owner"@) && (contains_seq(l, "invalid"@) || contains_seq(l, "mismatch"@))
}

fn exec_line_flags_ownership(l: &str) -> (r: bool)
    ensures
        r == line_flags_ownership(l@),
{
    contains_str(l, "owner") && (contains_str(l, "invalid") || contains_str(l, "mismatch"))
}

/// A log line that reports an invalid token account or mint.
pub open spec fn line_flags_token(l: Seq<char>) -> bool {
    contains_seq(l, "token"@) && (contains_seq(l, "invalid"@) || contains_seq(l, "mint"@))
}

fn exec_line_flags_token(l: &str) -> (r: bool)
    ensures
        r == line_flags_token(l@),
{
    contains_str(l, "token") && (contains_str(l, "invalid") || contains_str(l, "mint"))
}

/// A log line that reports reinitialization of an initialized account.
pub open spec fn line_flags_reinit(l: Seq<char>) -> bool {
    contains_seq(l, "already initialized"@) || contains_seq(l, "reinitialization"@)
}

fn exec_line_flags_reinit(l: &str) -> (r: bool)
    ensures
        r == line_flags_reinit(l@),
{
    contains_str(l, "already initialized") || contains_str(l, "reinitialization")
}

/// A log line that mentions a closed account.
pub open spec fn line_mentions_closed(l: Seq<char>) -> bool {
    contains_seq(l, "closed"@)
}

fn exec_line_mentions_closed(l: &str) -> (r: bool)
    ensures
        r == line_mentions_closed(l@),
{
    contains_str(l, "closed")
}

// ---------------------------------------------------------------------------
// Detection rules: pure predicates over (record, trace).
// ---------------------------------------------------------------------------

/// Number of log lines that record a program invocation.
pub open spec fn count_invoke_lines(logs: Seq<Seq<char>>) -> nat
    decreases logs.len(),
{
    if logs.len() == 0 {
        0
    } else {
        count_invoke_lines(logs.drop_last()) + (if line_is_invoke(logs.last()) {
            1nat
        } else {
            0nat
        })
    }
}

/// More than three nested invocation log lines within one transaction.
pub open spec fn spec_detect_reentrancy(s: SimulationResultV) -> bool {
    count_invoke_lines(s.logs) > 3
}

pub fn detect_reentrancy(tx: &TransactionRecord, simulation: &SimulationResult) -> (r: bool)
    ensures
        r == spec_detect_reentrancy(simulation@),
{
    let n = simulation.logs.len();
    let mut count: usize = 0;
    let mut i: usize = 0;
    while i < n
        invariant
            n == simulation.logs@.len(),
            i <= n,
            count <= i,
            count == count_invoke_lines(simulation@.logs.take(i as int)),
        decreases n - i,
    {
        proof {
            assert(simulation@.logs.take(i + 1).drop_last() =~= simulation@.logs.take(i as int));
            assert(simulation@.logs.take(i + 1).last() == simulation@.logs[i as int]);
        }
        if exec_line_is_invoke(simulation.logs[i].as_str()) {
            count += 1;
        }
        i += 1;
    }
    proof {
        assert(simulation@.logs.take(n as int) =~= simulation@.logs);
    }
    count > 3
}

/// Some log line reports arithmetic overflow or underflow.
pub open spec fn spec_detect_integer_overflow(s: SimulationResultV) -> bool {
    exists|i: int| 0 <= i < s.logs.len() && #[trigger] line_flags_overflow(s.logs[i])
}

pub fn detect_integer_overflow(tx: &TransactionRecord, simulation: &SimulationResult) -> (r: bool)
    ensures
        r == spec_detect_integer_overflow(simulation@),
{
    let n = simulation.logs.len();
    let mut i: usize = 0;
    while i < n
        invariant
            n == simulation.logs@.len(),
            i <= n,
            forall|k: int| 0 <= k < i ==> !line_flags_overflow(simulation@.logs[k]),
        decreases n - i,
    {
        if exec_line_flags_overflow(simulation.logs[i].as_str()) {
            assert(line_flags_overflow(simulation@.logs[i as int]));
            return true;
        }
        i += 1;
    }
    false
}

/// The authority-bypass rule has no textual signal to key on and never
/// fires; it keeps its registry position so that the rule order stays fixed.
pub open spec fn spec_detect_authority_bypass() -> bool {
    false
}

pub fn detect_authority_bypass(tx: &TransactionRecord, simulation: &SimulationResult) -> (r: bool)
    ensures
        r == spec_detect_authority_bypass(),
{
    false
}

/// Some log line reports a missing signer.
pub open spec fn spec_detect_missing_signer(s: SimulationResultV) -> bool {
    exists|i: int| 0 <= i < s.logs.len() && #[trigger] line_flags_missing_signer(s.logs[i])
}

pub fn detect_missing_signer(tx: &TransactionRecord, simulation: &SimulationResult) -> (r: bool)
    ensures
        r == spec_detect_missing_signer(simulation@),
{
    let n = simulation.logs.len();
    let mut i: usize = 0;
    while i < n
        invariant
            n == simulation.logs@.len(),
            i <= n,
            forall|k: int| 0 <= k < i ==> !line_flags_missing_signer(simulation@.logs[k]),
        decreases n - i,
    {
        if exec_line_flags_missing_signer(simulation.logs[i].as_str()) {
            assert(line_flags_missing_signer(simulation@.logs[i as int]));
            return true;
        }
        i += 1;
    }
    false
}

/// Some log line mentions program-derived addresses or seeds.
pub open spec fn spec_detect_pda_mismatch(s: SimulationResultV) -> bool {
    exists|i: int| 0 <= i < s.logs.len() && #[trigger] line_flags_pda(s.logs[i])
}

pub fn detect_pda_mismatch(tx: &TransactionRecord, simulation: &SimulationResult) -> (r: bool)
    ensures
        r == spec_detect_pda_mismatch(simulation@),
{
    let n = simulation.logs.len();
    let mut i: usize = 0;
    while i < n
        invariant
            n == simulation.logs@.len(),
            i <= n,
            forall|k: int| 0 <= k < i ==> !line_flags_pda(simulation@.logs[k]),
        decreases n - i,
    {
        if exec_line_flags_pda(simulation.logs[i].as_str()) {
            assert(line_flags_pda(simulation@.logs[i as int]));
            return true;
        }
        i += 1;
    }
    false
}

/// A balance movement above the flash-loan threshold, in lamports.
pub const FLASH_LOAN_THRESHOLD: u64 = 1_000_000_000_000;

/// Index `i` pairs a pre and a post balance whose distance exceeds the
/// flash-loan threshold.
pub open spec fn large_balance_shift(m: TransactionMetaV, i: int) -> bool {
    &&& 0 <= i < m.pre_balances.len()
    &&& i < m.post_balances.len()
    &&& (if m.post_balances[i] > m.pre_balances[i] {
        m.post_balances[i] - m.pre_balances[i]
    } else {
        m.pre_balances[i] - m.post_balances[i]
    }) > FLASH_LOAN_THRESHOLD
}

/// Some index-aligned balance pair moved by more than the threshold.
pub open spec fn spec_detect_flash_loan(tx: TransactionRecordV) -> bool {
    match tx.meta {
        Some(m) => exists|i: int| #[trigger] large_balance_shift(m, i),
        None => false,
    }
}

pub fn detect_flash_loan(tx: &TransactionRecord, simulation: &SimulationResult) -> (r: bool)
    ensures
        r == spec_detect_flash_loan(tx@),
{
    match &tx.meta {
        Some(m) => {
            let np = m.pre_balances.len();
            let nq = m.post_balances.len();
            let n = if np < nq {
                np
            } else {
                nq
            };
            let mut i: usize = 0;
            while i < n
                invariant
                    n <= m.pre_balances@.len(),
                    n <= m.post_balances@.len(),
                    n == vstd::math::min(m.pre_balances@.len() as int, m.post_balances@.len() as int),
                    i <= n,
                    tx@.meta == Some(m@),
                    forall|k: int| 0 <= k < i ==> !large_balance_shift(m@, k),
                decreases n - i,
            {
                let pre = m.pre_balances[i];
                let post = m.post_balances[i];
                let diff = if post > pre {
                    post - pre
                } else {
                    pre - post
                };
                if diff > FLASH_LOAN_THRESHOLD {
                    assert(large_balance_shift(m@, i as int));
                    return true;
                }
                i += 1;
            }
            assert forall|k: int| !large_balance_shift(m@, k) by {}
            false
        },
        None => false,
    }
}

/// Some log line reports an account mismatch or confusion.
pub open spec fn spec_detect_account_confusion(s: SimulationResultV) -> bool {
    exists|i: int| 0 <= i < s.logs.len() && #[trigger] line_flags_account_confusion(s.logs[i])
}

pub fn detect_account_confusion(tx: &TransactionRecord, simulation: &SimulationResult) -> (r: bool)
    ensures
        r == spec_detect_account_confusion(simulation@),
{
    let n = simulation.logs.len();
    let mut i: usize = 0;
    while i < n
        invariant
            n == simulation.logs@.len(),
            i <= n,
            forall|k: int| 0 <= k < i ==> !line_flags_account_confusion(simulation@.logs[k]),
        decreases n - i,
    {
        if exec_line_flags_account_confusion(simulation.logs[i].as_str()) {
            assert(line_flags_account_confusion(simulation@.logs[i as int]));
            return true;
        }
        i += 1;
    }
    false
}

/// Some log line reports an unauthorized or unsigned privileged action.
pub open spec fn spec_detect_signer_bypass(s: SimulationResultV) -> bool {
    exists|i: int| 0 <= i < s.logs.len() && #[trigger] line_flags_signer_bypass(s.logs[i])
}

pub fn detect_signer_bypass(tx: &TransactionRecord, simulation: &SimulationResult) -> (r: bool)
    ensures
        r == spec_detect_signer_bypass(simulation@),
{
    let n = simulation.logs.len();
    let mut i: usize = 0;
    while i < n
        invariant
            n == simulation.logs@.len(),
            i <= n,
            forall|k: int| 0 <= k < i ==> !line_flags_signer_bypass(simulation@.logs[k]),
        decreases n - i,
    {
        if exec_line_flags_signer_bypass(simulation.logs[i].as_str()) {
            assert(line_flags_signer_bypass(simulation@.logs[i as int]));
            return true;
        }
        i += 1;
    }
    false
}

/// Some log line reports an account-type discriminator problem.
pub open spec fn spec_detect_type_confusion(s: SimulationResultV) -> bool {
    exists|i: int| 0 <= i < s.logs.len() && #[trigger] line_flags_type_confusion(s.logs[i])
}

pub fn detect_type_confusion(tx: &TransactionRecord, simulation: &SimulationResult) -> (r: bool)
    ensures
        r == spec_detect_type_confusion(simulation@),
{
    let n = simulation.logs.len();
    let mut i: usize = 0;
    while i < n
        invariant
            n == simulation.logs@.len(),
            i <= n,
            forall|k: int| 0 <= k < i ==> !line_flags_type_confusion(simulation@.logs[k]),
        decreases n - i,
    {
        if exec_line_flags_type_confusion(simulation.logs[i].as_str()) {
            assert(line_flags_type_confusion(simulation@.logs[i as int]));
            return true;
        }
        i += 1;
    }
    false
}

/// Minimum balance, in lamports, that exempts a small account from rent.
pub const RENT_EXEMPT_MINIMUM: u64 = 890_880;

/// Index `i` holds a nonzero post balance below the rent-exemption minimum.
pub open spec fn rent_starved(m: TransactionMetaV, i: int) -> bool {
    &&& 0 <= i < m.post_balances.len()
    &&& m.post_balances[i] > 0
    &&& m.post_balances[i] < RENT_EXEMPT_MINIMUM
}

/// Some post balance is positive yet below the rent-exemption minimum.
pub open spec fn spec_detect_rent_exemption(tx: TransactionRecordV) -> bool {
    match tx.meta {
        Some(m) => exists|i: int| #[trigger] rent_starved(m, i),
        None => false,
    }
}

pub fn detect_rent_exemption(tx: &TransactionRecord, simulation: &SimulationResult) -> (r: bool)
    ensures
        r == spec_detect_rent_exemption(tx@),
{
    match &tx.meta {
        Some(m) => {
            let n = m.post_balances.len();
            let mut i: usize = 0;
            while i < n
                invariant
                    n == m.post_balances@.len(),
                    i <= n,
                    tx@.meta == Some(m@),
                    forall|k: int| 0 <= k < i ==> !rent_starved(m@, k),
                decreases n - i,
            {
                let b = m.post_balances[i];
                if b > 0 && b < RENT_EXEMPT_MINIMUM {
                    assert(rent_starved(m@, i as int));
                    return true;
                }
                i += 1;
            }
            assert forall|k: int| !rent_starved(m@, k) by {}
            false
        },
        None => false,
    }
}

/// Some log line suggests stale or manipulated oracle data.
pub open spec fn spec_detect_oracle_manipulation(s: SimulationResultV) -> bool {
    exists|i: int| 0 <= i < s.logs.len() && #[trigger] line_flags_oracle(s.logs[i])
}

pub fn detect_oracle_manipulation(tx: &TransactionRecord, simulation: &SimulationResult) -> (r:
    bool)
    ensures
        r == spec_detect_oracle_manipulation(simulation@),
{
    let n = simulation.logs.len();
    let mut i: usize = 0;
    while i < n
        invariant
            n == simulation.logs@.len(),
            i <= n,
            forall|k: int| 0 <= k < i ==> !line_flags_oracle(simulation@.logs[k]),
        decreases n - i,
    {
        if exec_line_flags_oracle(simulation.logs[i].as_str()) {
            assert(line_flags_oracle(simulation@.logs[i as int]));
            return true;
        }
        i += 1;
    }
    false
}

/// Ceiling on metered resource units before a transaction counts as abusive.
pub const DOS_COMPUTE_CEILING: u64 = 1_000_000;

/// Ceiling on the number of accessed accounts.
pub const DOS_ACCOUNT_CEILING: usize = 50;

/// Log volume above which a failed transaction counts as abusive.
pub const DOS_LOG_CEILING: usize = 100;

/// Excessive resource consumption, excessive account access, or a failed
/// transaction with an unusually large log volume.
pub open spec fn spec_detect_dos_attack(tx: TransactionRecordV, s: SimulationResultV) -> bool {
    ||| s.compute_units_consumed > DOS_COMPUTE_CEILING
    ||| s.accounts_accessed.len() > DOS_ACCOUNT_CEILING
    ||| (match tx.meta {
        Some(m) => m.err is Some && s.logs.len() > DOS_LOG_CEILING,
        None => false,
    })
}

pub fn detect_dos_attack(tx: &TransactionRecord, simulation: &SimulationResult) -> (r: bool)
    ensures
        r == spec_detect_dos_attack(tx@, simulation@),
{
    if simulation.compute_units_consumed > DOS_COMPUTE_CEILING {
        return true;
    }
    if simulation.accounts_accessed.len() > DOS_ACCOUNT_CEILING {
        return true;
    }
    match &tx.meta {
        Some(m) => m.err.is_some() && simulation.logs.len() > DOS_LOG_CEILING,
        None => false,
    }
}

/// Some invocation log line is not attributable to the known system programs.
pub open spec fn spec_detect_arbitrary_cpi(s: SimulationResultV) -> bool {
    exists|i: int| 0 <= i < s.logs.len() && #[trigger] line_flags_arbitrary_cpi(s.logs[i])
}

pub fn detect_arbitrary_cpi(tx: &TransactionRecord, simulation: &SimulationResult) -> (r: bool)
    ensures
        r == spec_detect_arbitrary_cpi(simulation@),
{
    let n = simulation.logs.len();
    let mut i: usize = 0;
    while i < n
        invariant
            n == simulation.logs@.len(),
            i <= n,
            forall|k: int| 0 <= k < i ==> !line_flags_arbitrary_cpi(simulation@.logs[k]),
        decreases n - i,
    {
        if exec_line_flags_arbitrary_cpi(simulation.logs[i].as_str()) {
            assert(line_flags_arbitrary_cpi(simulation@.logs[i as int]));
            return true;
        }
        i += 1;
    }
    false
}

/// Some log line reports a non-canonical bump seed.
pub open spec fn spec_detect_bump_seed(s: SimulationResultV) -> bool {
    exists|i: int| 0 <= i < s.logs.len() && #[trigger] line_flags_bump_seed(s.logs[i])
}

pub fn detect_bump_seed(tx: &TransactionRecord, simulation: &SimulationResult) -> (r: bool)
    ensures
        r == spec_detect_bump_seed(simulation@),
{
    let n = simulation.logs.len();
    let mut i: usize = 0;
    while i < n
        invariant
            n == simulation.logs@.len(),
            i <= n,
            forall|k: int| 0 <= k < i ==> !line_flags_bump_seed(simulation@.logs[k]),
        decreases n - i,
    {
        if exec_line_flags_bump_seed(simulation.logs[i].as_str()) {
            assert(line_flags_bump_seed(simulation@.logs[i as int]));
            return true;
        }
        i += 1;
    }
    false
}

/// Some log line reports malformed or mismatched account data.
pub open spec fn spec_detect_account_data_mismatch(s: SimulationResultV) -> bool {
    exists|i: int| 0 <= i < s.logs.len() && #[trigger] line_flags_data_mismatch(s.logs[i])
}

pub fn detect_account_data_mismatch(tx: &TransactionRecord, simulation: &SimulationResult) -> (r:
    bool)
    ensures
        r == spec_detect_account_data_mismatch(simulation@),
{
    let n = simulation.logs.len();
    let mut i: usize = 0;
    while i < n
        invariant
            n == simulation.logs@.len(),
            i <= n,
            forall|k: int| 0 <= k < i ==> !line_flags_data_mismatch(simulation@.logs[k]),
        decreases n - i,
    {
        if exec_line_flags_data_mismatch(simulation.logs[i].as_str()) {
            assert(line_flags_data_mismatch(simulation@.logs[i as int]));
            return true;
        }
        i += 1;
    }
    false
}

/// Some log line reports an invalid or mismatched account owner.
pub open spec fn spec_detect_unchecked_ownership(s: SimulationResultV) -> bool {
    exists|i: int| 0 <= i < s.logs.len() && #[trigger] line_flags_ownership(s.logs[i])
}

pub fn detect_unchecked_ownership(tx: &TransactionRecord, simulation: &SimulationResult) -> (r:
    bool)
    ensures
        r == spec_detect_unchecked_ownership(simulation@),
{
    let n = simulation.logs.len();
    let mut i: usize = 0;
    while i < n
        invariant
            n == simulation.logs@.len(),
            i <= n,
            forall|k: int| 0 <= k < i ==> !line_flags_ownership(simulation@.logs[k]),
        decreases n - i,
    {
        if exec_line_flags_ownership(simulation.logs[i].as_str()) {
            assert(line_flags_ownership(simulation@.logs[i as int]));
            return true;
        }
        i += 1;
    }
    false
}

/// Some log line reports an invalid token account or mint.
pub open spec fn spec_detect_token_validation(s: SimulationResultV) -> bool {
    exists|i: int| 0 <= i < s.logs.len() && #[trigger] line_flags_token(s.logs[i])
}

pub fn detect_token_validation(tx: &TransactionRecord, simulation: &SimulationResult) -> (r: bool)
    ensures
        r == spec_detect_token_validation(simulation@),
{
    let n = simulation.logs.len();
    let mut i: usize = 0;
    while i < n
        invariant
            n == simulation.logs@.len(),
            i <= n,
            forall|k: int| 0 <= k < i ==> !line_flags_token(simulation@.logs[k]),
        decreases n - i,
    {
        if exec_line_flags_token(simulation.logs[i].as_str()) {
            assert(line_flags_token(simulation@.logs[i as int]));
            return true;
        }
        i += 1;
    }
    false
}

/// Two positions in the account-key list hold the same identifier.
pub open spec fn duplicate_keys_at(keys: Seq<Seq<char>>, i: int, j: int) -> bool {
    &&& 0 <= i < j < keys.len()
    &&& keys[i] == keys[j]
}

/// The transaction's account-key list repeats an identifier.
pub open spec fn spec_detect_duplicate_mutable(tx: TransactionRecordV) -> bool {
    exists|i: int, j: int| #[trigger] duplicate_keys_at(tx.account_keys, i, j)
}

pub fn detect_duplicate_mutable(tx: &TransactionRecord, simulation: &SimulationResult) -> (r: bool)
    ensures
        r == spec_detect_duplicate_mutable(tx@),
{
    let n = tx.account_keys.len();
    let mut i: usize = 0;
    while i < n
        invariant
            n == tx.account_keys@.len(),
            i <= n,
            forall|k1: int, k2: int|
                k1 < i ==> !duplicate_keys_at(tx@.account_keys, k1, k2),
        decreases n - i,
    {
        let mut j: usize = i + 1;
        while j < n
            invariant
                n == tx.account_keys@.len(),
                i < j,
                j <= n,
                i < n,
                forall|k2: int| i < k2 < j ==> !duplicate_keys_at(tx@.account_keys, i as int, k2),
        decreases n - j,
        {
            if tx.account_keys[i] == tx.account_keys[j] {
                assert(duplicate_keys_at(tx@.account_keys, i as int, j as int));
                return true;
            }
            j += 1;
        }
        i += 1;
    }
    assert forall|k1: int, k2: int| !duplicate_keys_at(tx@.account_keys, k1, k2) by {}
    false
}

/// Some log line reports reinitialization of an initialized account.
pub open spec fn spec_detect_account_reinitialization(s: SimulationResultV) -> bool {
    exists|i: int| 0 <= i < s.logs.len() && #[trigger] line_flags_reinit(s.logs[i])
}

pub fn detect_account_reinitialization(tx: &TransactionRecord, simulation: &SimulationResult) -> (r:
    bool)
    ensures
        r == spec_detect_account_reinitialization(simulation@),
{
    let n = simulation.logs.len();
    let mut i: usize = 0;
    while i < n
        invariant
            n == simulation.logs@.len(),
            i <= n,
            forall|k: int| 0 <= k < i ==> !line_flags_reinit(simulation@.logs[k]),
        decreases n - i,
    {
        if exec_line_flags_reinit(simulation.logs[i].as_str()) {
            assert(line_flags_reinit(simulation@.logs[i as int]));
            return true;
        }
        i += 1;
    }
    false
}

/// Index `i` pairs a zero pre balance with a positive post balance.
pub open spec fn revival_pair(m: TransactionMetaV, i: int) -> bool {
    &&& 0 <= i < m.pre_balances.len()
    &&& i < m.post_balances.len()
    &&& m.pre_balances[i] == 0
    &&& m.post_balances[i] > 0
}

/// A balance rose from zero while some log line mentions a closed account.
pub open spec fn spec_detect_closed_account_revival(
    tx: TransactionRecordV,
    s: SimulationResultV,
) -> bool {
    match tx.meta {
        Some(m) => (exists|i: int| #[trigger] revival_pair(m, i)) && (exists|i: int|
            0 <= i < s.logs.len() && #[trigger] line_mentions_closed(s.logs[i])),
        None => false,
    }
}

pub fn detect_closed_account_revival(tx: &TransactionRecord, simulation: &SimulationResult) -> (r:
    bool)
    ensures
        r == spec_detect_closed_account_revival(tx@, simulation@),
{
    match &tx.meta {
        Some(m) => {
            let np = m.pre_balances.len();
            let nq = m.post_balances.len();
            let n = if np < nq {
                np
            } else {
                nq
            };
            let mut found_pair = false;
            let mut i: usize = 0;
            while i < n
                invariant
                    n <= m.pre_balances@.len(),
                    n <= m.post_balances@.len(),
                    n == vstd::math::min(m.pre_balances@.len() as int, m.post_balances@.len() as int),
                    i <= n,
                    tx@.meta == Some(m@),
                    found_pair ==> exists|k: int| #[trigger] revival_pair(m@, k),
                    !found_pair ==> forall|k: int| 0 <= k < i ==> !revival_pair(m@, k),
                decreases n - i,
            {
                if m.pre_balances[i] == 0 && m.post_balances[i] > 0 {
                    assert(revival_pair(m@, i as int));
                    found_pair = true;
                }
                i += 1;
            }
            if !found_pair {
                assert forall|k: int| !revival_pair(m@, k) by {}
                return false;
            }
            let nl = simulation.logs.len();
            let mut j: usize = 0;
            while j < nl
                invariant
                    nl == simulation.logs@.len(),
                    j <= nl,
                    tx@.meta == Some(m@),
                    exists|k: int| #[trigger] revival_pair(m@, k),
                    forall|k: int| 0 <= k < j ==> !line_mentions_closed(simulation@.logs[k]),
                decreases nl - j,
            {
                if exec_line_mentions_closed(simulation.logs[j].as_str()) {
                    assert(line_mentions_closed(simulation@.logs[j as int]));
                    return true;
                }
                j += 1;
            }
            false
        },
        None => false,
    }
}

// ---------------------------------------------------------------------------
// The registry: the fixed, ordered rule table and its exhaustive evaluation.
// ---------------------------------------------------------------------------

/// Number of rules in the registry.
pub const PATTERN_COUNT: usize = 20;

/// Fixed confidence, in hundredths, of every exploit the registry reports.
pub const DETECTION_CONFIDENCE: u32 = 85;

/// Whether the rule at registry position `k` fires on the given evidence.
pub open spec fn pattern_fires(k: int, tx: TransactionRecordV, s: SimulationResultV) -> bool {
    if k == 0 {
        spec_detect_reentrancy(s)
    } else if k == 1 {
        spec_detect_integer_overflow(s)
    } else if k == 2 {
        spec_detect_authority_bypass()
    } else if k == 3 {
        spec_detect_missing_signer(s)
    } else if k == 4 {
        spec_detect_pda_mismatch(s)
    } else if k == 5 {
        spec_detect_flash_loan(tx)
    } else if k == 6 {
        spec_detect_account_confusion(s)
    } else if k == 7 {
        spec_detect_signer_bypass(s)
    } else if k == 8 {
        spec_detect_type_confusion(s)
    } else if k == 9 {
        spec_detect_rent_exemption(tx)
    } else if k == 10 {
        spec_detect_oracle_manipulation(s)
    } else if k == 11 {
        spec_detect_dos_attack(tx, s)
    } else if k == 12 {
        spec_detect_arbitrary_cpi(s)
    } else if k == 13 {
        spec_detect_bump_seed(s)
    } else if k == 14 {
        spec_detect_account_data_mismatch(s)
    } else if k == 15 {
        spec_detect_unchecked_ownership(s)
    } else if k == 16 {
        spec_detect_token_validation(s)
    } else if k == 17 {
        spec_detect_duplicate_mutable(tx)
    } else if k == 18 {
        spec_detect_account_reinitialization(s)
    } else if k == 19 {
        spec_detect_closed_account_revival(tx, s)
    } else {
        false
    }
}

/// Exploit category of the rule at registry position `k`.
pub open spec fn pattern_exploit_type(k: int) -> ExploitType {
    if k == 0 {
        ExploitType::Reentrancy
    } else if k == 1 {
        ExploitType::IntegerOverflow
    } else if k == 2 {
        ExploitType::AuthorityBypass
    } else if k == 3 {
        ExploitType::MissingSignerCheck
    } else if k == 4 {
        ExploitType::PdaMismatch
    } else if k == 5 {
        ExploitType::FlashLoanAttack
    } else if k == 6 {
        ExploitType::AccountConfusion
    } else if k == 7 {
        ExploitType::SignerBypass
    } else if k == 8 {
        ExploitType::TypeConfusion
    } else if k == 9 {
        ExploitType::InsufficientRentExemption
    } else if k == 10 {
        ExploitType::OracleManipulation
    } else if k == 11 {
        ExploitType::DosAttack
    } else if k == 12 {
        ExploitType::ArbitraryCpi
    } else if k == 13 {
        ExploitType::BumpSeedCanonical
    } else if k == 14 {
        ExploitType::AccountDataMismatch
    } else if k == 15 {
        ExploitType::UncheckedAccountOwnership
    } else if k == 16 {
        ExploitType::TokenAccountValidation
    } else if k == 17 {
        ExploitType::DuplicateAccountMutable
    } else if k == 18 {
        ExploitType::AccountReinitialization
    } else if k == 19 {
        ExploitType::ClosedAccountRevival
    } else {
        ExploitType::Unknown
    }
}

/// Severity of the rule at registry position `k`.
pub open spec fn pattern_severity(k: int) -> Severity {
    if k == 0 {
        Severity::Critical
    } else if k == 1 {
        Severity::High
    } else if k == 2 {
        Severity::Critical
    } else if k == 3 {
        Severity::High
    } else if k == 4 {
        Severity::Medium
    } else if k == 5 {
        Severity::Critical
    } else if k == 6 {
        Severity::Critical
    } else if k == 7 {
        Severity::Critical
    } else if k == 8 {
        Severity::High
    } else if k == 9 {
        Severity::Medium
    } else if k == 10 {
        Severity::Critical
    } else if k == 11 {
        Severity::High
    } else if k == 12 {
        Severity::Critical
    } else if k == 13 {
        Severity::Medium
    } else if k == 14 {
        Severity::High
    } else if k == 15 {
        Severity::Critical
    } else if k == 16 {
        Severity::High
    } else if k == 17 {
        Severity::High
    } else if k == 18 {
        Severity::Critical
    } else if k == 19 {
        Severity::Critical
    } else {
        Severity::Info
    }
}

/// Description attached to a finding of the rule at registry position `k`.
pub open spec fn pattern_description(k: int) -> Seq<char> {
    if k == 0 {
        "Detected: Reentrancy Attack"@
    } else if k == 1 {
        "Detected: Integer Overflow"@
    } else if k == 2 {
        "Detected: Authority Bypass"@
    } else if k == 3 {
        "Detected: Missing Signer Check"@
    } else if k == 4 {
        "Detected: PDA Mismatch"@
    } else if k == 5 {
        "Detected: Flash Loan Attack"@
    } else if k == 6 {
        "Detected: Account Confusion"@
    } else if k == 7 {
        "Detected: Signer Bypass"@
    } else if k == 8 {
        "Detected: Type Confusion"@
    } else if k == 9 {
        "Detected: Insufficient Rent Exemption"@
    } else if k == 10 {
        "Detected: Oracle Manipulation"@
    } else if k == 11 {
        "Detected: DoS Attack"@
    } else if k == 12 {
        "Detected: Arbitrary CPI"@
    } else if k == 13 {
        "Detected: Non-canonical Bump Seed"@
    } else if k == 14 {
        "Detected: Account Data Mismatch"@
    } else if k == 15 {
        "Detected: Unchecked Account Ownership"@
    } else if k == 16 {
        "Detected: Token Account Validation"@
    } else if k == 17 {
        "Detected: Duplicate Mutable Accounts"@
    } else if k == 18 {
        "Detected: Account Reinitialization"@
    } else if k == 19 {
        "Detected: Closed Account Revival"@
    } else {
        Seq::empty()
    }
}

/// Remediation text looked up by exploit category; categories outside the
/// static mapping get a generic recommendation.
pub open spec fn spec_remediation(t: ExploitType) -> Seq<char> {
    match t {
        ExploitType::Reentrancy => "Implement checks-effects-interactions pattern and use reentrancy guards"@,
        ExploitType::IntegerOverflow | ExploitType::IntegerUnderflow => "Use checked arithmetic operations (checked_add, checked_mul, etc.)"@,
        ExploitType::AuthorityBypass => "Validate authority signatures and implement proper access control"@,
        ExploitType::MissingSignerCheck => "Ensure critical accounts are marked as signers and validated"@,
        ExploitType::PdaMismatch => "Verify PDA derivation matches expected seeds and program ID"@,
        ExploitType::FlashLoanAttack => "Implement time-weighted average pricing and multi-block validation"@,
        ExploitType::AccountConfusion => "Implement strict account type checking and validation before operations"@,
        ExploitType::SignerBypass => "Verify signer privileges and implement proper authorization checks"@,
        ExploitType::TypeConfusion => "Add discriminator fields and validate account types before deserialization"@,
        ExploitType::InsufficientRentExemption => "Verify account has sufficient lamports for rent exemption before operations"@,
        ExploitType::OracleManipulation => "Validate oracle data freshness and use multiple oracle sources"@,
        ExploitType::DosAttack => "Implement rate limiting, account limits, and proper resource management"@,
        ExploitType::ArbitraryCpi => "Whitelist allowed programs for CPI and validate program IDs"@,
        ExploitType::BumpSeedCanonical => "Use find_program_address and verify bump seed is canonical"@,
        ExploitType::AccountDataMismatch => "Validate account data structure matches expected format before parsing"@,
        ExploitType::UncheckedAccountOwnership => "Verify account owner matches expected program ID before operations"@,
        ExploitType::TokenAccountValidation => "Validate token account owner, mint, and associated token account derivation"@,
        ExploitType::MintAuthorityBypass | ExploitType::FreezeAuthorityBypass => "Verify mint/freeze authority before allowing privileged token operations"@,
        ExploitType::DuplicateAccountMutable => "Check for duplicate mutable accounts in instruction account list"@,
        ExploitType::AccountReinitialization => "Check is_initialized flag before initialization and set flag after"@,
        ExploitType::ClosedAccountRevival => "Zero out account data on close and check discriminator on access"@,
        _ => "Review code for security best practices"@,
    }
}

/// The exploit produced when the rule at registry position `k` fires.
pub open spec fn pattern_finding(k: int) -> ExploitV {
    ExploitV {
        exploit_type: pattern_exploit_type(k),
        severity: pattern_severity(k),
        description: pattern_description(k),
        location: "transaction"@,
        confidence: DETECTION_CONFIDENCE,
        remediation: Some(spec_remediation(pattern_exploit_type(k))),
    }
}

/// Findings of the first `k` registry rules, in registration order.
pub open spec fn registry_findings_upto(tx: TransactionRecordV, s: SimulationResultV, k: int) -> Seq<ExploitV>
    decreases k,
{
    if k <= 0 {
        Seq::empty()
    } else {
        registry_findings_upto(tx, s, k - 1) + (if pattern_fires(k - 1, tx, s) {
            seq![pattern_finding(k - 1)]
        } else {
            Seq::empty()
        })
    }
}

/// Findings of the whole registry: one exploit per fired rule, in
/// registration order.
pub open spec fn spec_detect_exploits(tx: TransactionRecordV, s: SimulationResultV) -> Seq<ExploitV> {
    registry_findings_upto(tx, s, PATTERN_COUNT as int)
}

/// The detector registry. Its rule table is fixed; evaluation is exhaustive
/// and ordered, with no shared state between rules.
pub struct ExploitDetector {}

impl ExploitDetector {
    pub fn new() -> (d: ExploitDetector) {
        ExploitDetector {  }
    }

    /// Remediation string for an exploit category, from the static mapping.
    pub fn get_remediation(&self, exploit_type: &ExploitType) -> (r: String)
        ensures
            r@ == spec_remediation(*exploit_type),
    {
        match exploit_type {
            ExploitType::Reentrancy => "Implement checks-effects-interactions pattern and use reentrancy guards".to_owned(),
            ExploitType::IntegerOverflow | ExploitType::IntegerUnderflow => "Use checked arithmetic operations (checked_add, checked_mul, etc.)".to_owned(),
            ExploitType::AuthorityBypass => "Validate authority signatures and implement proper access control".to_owned(),
            ExploitType::MissingSignerCheck => "Ensure critical accounts are marked as signers and validated".to_owned(),
            ExploitType::PdaMismatch => "Verify PDA derivation matches expected seeds and program ID".to_owned(),
            ExploitType::FlashLoanAttack => "Implement time-weighted average pricing and multi-block validation".to_owned(),
            ExploitType::AccountConfusion => "Implement strict account type checking and validation before operations".to_owned(),
            ExploitType::SignerBypass => "Verify signer privileges and implement proper authorization checks".to_owned(),
            ExploitType::TypeConfusion => "Add discriminator fields and validate account types before deserialization".to_owned(),
            ExploitType::InsufficientRentExemption => "Verify account has sufficient lamports for rent exemption before operations".to_owned(),
            ExploitType::OracleManipulation => "Validate oracle data freshness and use multiple oracle sources".to_owned(),
            ExploitType::DosAttack => "Implement rate limiting, account limits, and proper resource management".to_owned(),
            ExploitType::ArbitraryCpi => "Whitelist allowed programs for CPI and validate program IDs".to_owned(),
            ExploitType::BumpSeedCanonical => "Use find_program_address and verify bump seed is canonical".to_owned(),
            ExploitType::AccountDataMismatch => "Validate account data structure matches expected format before parsing".to_owned(),
            ExploitType::UncheckedAccountOwnership => "Verify account owner matches expected program ID before operations".to_owned(),
            ExploitType::TokenAccountValidation => "Validate token account owner, mint, and associated token account derivation".to_owned(),
            ExploitType::MintAuthorityBypass | ExploitType::FreezeAuthorityBypass => "Verify mint/freeze authority before allowing privileged token operations".to_owned(),
            ExploitType::DuplicateAccountMutable => "Check for duplicate mutable accounts in instruction account list".to_owned(),
            ExploitType::AccountReinitialization => "Check is_initialized flag before initialization and set flag after".to_owned(),
            ExploitType::ClosedAccountRevival => "Zero out account data on close and check discriminator on access".to_owned(),
            _ => "Review code for security best practices".to_owned(),
        }
    }

    /// Evaluates the rule at registry position `k` on the given evidence.
    fn pattern_eval(
        &self,
        k: usize,
        transaction: &TransactionRecord,
        simulation: &SimulationResult,
    ) -> (r: bool)
        requires
            k < PATTERN_COUNT,
        ensures
            r == pattern_fires(k as int, transaction@, simulation@),
    {
        match k {
            0 => detect_reentrancy(transaction, simulation),
            1 => detect_integer_overflow(transaction, simulation),
            2 => detect_authority_bypass(transaction, simulation),
            3 => detect_missing_signer(transaction, simulation),
            4 => detect_pda_mismatch(transaction, simulation),
            5 => detect_flash_loan(transaction, simulation),
            6 => detect_account_confusion(transaction, simulation),
            7 => detect_signer_bypass(transaction, simulation),
            8 => detect_type_confusion(transaction, simulation),
            9 => detect_rent_exemption(transaction, simulation),
            10 => detect_oracle_manipulation(transaction, simulation),
            11 => detect_dos_attack(transaction, simulation),
            12 => detect_arbitrary_cpi(transaction, simulation),
            13 => detect_bump_seed(transaction, simulation),
            14 => detect_account_data_mismatch(transaction, simulation),
            15 => detect_unchecked_ownership(transaction, simulation),
            16 => detect_token_validation(transaction, simulation),
            17 => detect_duplicate_mutable(transaction, simulation),
            18 => detect_account_reinitialization(transaction, simulation),
            19 => detect_closed_account_revival(transaction, simulation),
            _ => false,
        }
    }

    /// Exploit category and severity of the rule at registry position `k`.
    fn pattern_kind(&self, k: usize) -> (r: (ExploitType, Severity))
        requires
            k < PATTERN_COUNT,
        ensures
            r.0 == pattern_exploit_type(k as int),
            r.1 == pattern_severity(k as int),
    {
        match k {
            0 => (ExploitType::Reentrancy, Severity::Critical),
            1 => (ExploitType::IntegerOverflow, Severity::High),
            2 => (ExploitType::AuthorityBypass, Severity::Critical),
            3 => (ExploitType::MissingSignerCheck, Severity::High),
            4 => (ExploitType::PdaMismatch, Severity::Medium),
            5 => (ExploitType::FlashLoanAttack, Severity::Critical),
            6 => (ExploitType::AccountConfusion, Severity::Critical),
            7 => (ExploitType::SignerBypass, Severity::Critical),
            8 => (ExploitType::TypeConfusion, Severity::High),
            9 => (ExploitType::InsufficientRentExemption, Severity::Medium),
            10 => (ExploitType::OracleManipulation, Severity::Critical),
            11 => (ExploitType::DosAttack, Severity::High),
            12 => (ExploitType::ArbitraryCpi, Severity::Critical),
            13 => (ExploitType::BumpSeedCanonical, Severity::Medium),
            14 => (ExploitType::AccountDataMismatch, Severity::High),
            15 => (ExploitType::UncheckedAccountOwnership, Severity::Critical),
            16 => (ExploitType::TokenAccountValidation, Severity::High),
            17 => (ExploitType::DuplicateAccountMutable, Severity::High),
            18 => (ExploitType::AccountReinitialization, Severity::Critical),
            19 => (ExploitType::ClosedAccountRevival, Severity::Critical),
            _ => (ExploitType::Unknown, Severity::Info),
        }
    }

    /// Description attached to a finding of the rule at position `k`.
    fn pattern_text(&self, k: usize) -> (r: String)
        requires
            k < PATTERN_COUNT,
        ensures
            r@ == pattern_description(k as int),
    {
        match k {
            0 => "Detected: Reentrancy Attack".to_owned(),
            1 => "Detected: Integer Overflow".to_owned(),
            2 => "Detected: Authority Bypass".to_owned(),
            3 => "Detected: Missing Signer Check".to_owned(),
            4 => "Detected: PDA Mismatch".to_owned(),
            5 => "Detected: Flash Loan Attack".to_owned(),
            6 => "Detected: Account Confusion".to_owned(),
            7 => "Detected: Signer Bypass".to_owned(),
            8 => "Detected: Type Confusion".to_owned(),
            9 => "Detected: Insufficient Rent Exemption".to_owned(),
            10 => "Detected: Oracle Manipulation".to_owned(),
            11 => "Detected: DoS Attack".to_owned(),
            12 => "Detected: Arbitrary CPI".to_owned(),
            13 => "Detected: Non-canonical Bump Seed".to_owned(),
            14 => "Detected: Account Data Mismatch".to_owned(),
            15 => "Detected: Unchecked Account Ownership".to_owned(),
            16 => "Detected: Token Account Validation".to_owned(),
            17 => "Detected: Duplicate Mutable Accounts".to_owned(),
            18 => "Detected: Account Reinitialization".to_owned(),
            19 => "Detected: Closed Account Revival".to_owned(),
            _ => String::new(),
        }
    }

    /// Runs every registry rule, in registration order and without early
    /// exit, and returns one exploit per fired rule.
    pub fn detect_exploits(
        &self,
        transaction: &TransactionRecord,
        simulation: &SimulationResult,
    ) -> (r: Vec<Exploit>)
        ensures
            r.deep_view() == spec_detect_exploits(transaction@, simulation@),
    {
        let ghost tx = transaction@;
        let ghost s = simulation@;
        let mut exploits: Vec<Exploit> = Vec::new();
        let mut k: usize = 0;
        while k < PATTERN_COUNT
            invariant
                k <= PATTERN_COUNT,
                exploits.deep_view() =~~= registry_findings_upto(tx, s, k as int),
                tx == transaction@,
                s == simulation@,
            decreases PATTERN_COUNT - k,
        {
            if self.pattern_eval(k, transaction, simulation) {
                let kind = self.pattern_kind(k);
                let text = self.pattern_text(k);
                let e = Exploit {
                    exploit_type: kind.0,
                    severity: kind.1,
                    description: text,
                    location: "transaction".to_owned(),
                    confidence: DETECTION_CONFIDENCE,
                    remediation: Some(self.get_remediation(&kind.0)),
                };
                proof {
                    assert(e@ =~~= pattern_finding(k as int));
                }
                exploits.push(e);
            }
            proof {
                assert(exploits.deep_view() =~~= registry_findings_upto(tx, s, k as int + 1));
            }
            k += 1;
        }
        exploits
    }
}

/// Every registry finding carries the fixed detection confidence.
pub proof fn lemma_registry_confidences(tx: TransactionRecordV, s: SimulationResultV, k: int)
    ensures
        forall|i: int|
            0 <= i < registry_findings_upto(tx, s, k).len()
                ==> #[trigger] registry_findings_upto(tx, s, k)[i].confidence
                == DETECTION_CONFIDENCE,
    decreases k,
{
    if k > 0 {
        lemma_registry_confidences(tx, s, k - 1);
        assert forall|i: int| 0 <= i < registry_findings_upto(tx, s, k).len()
            implies #[trigger] registry_findings_upto(tx, s, k)[i].confidence
            == DETECTION_CONFIDENCE by {
            let prev = registry_findings_upto(tx, s, k - 1);
            if i < prev.len() {
                assert(registry_findings_upto(tx, s, k)[i] == prev[i]);
            }
        }
    }
}

/// Detector purity: every registry rule is a function of the record and
/// trace contents alone, so identical evidence always yields identical
/// decisions and identical findings.
pub proof fn lemma_detectors_pure(
    k: int,
    tx1: TransactionRecordV,
    s1: SimulationResultV,
    tx2: TransactionRecordV,
    s2: SimulationResultV,
)
    requires
        tx1 == tx2,
        s1 == s2,
    ensures
        pattern_fires(k, tx1, s1) == pattern_fires(k, tx2, s2),
        spec_detect_exploits(tx1, s1) == spec_detect_exploits(tx2, s2),
{
}

} // verus!

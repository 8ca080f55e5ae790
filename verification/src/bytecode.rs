//! The bytecode heuristic scanner: an ordered set of independent byte-motif
//! checks over the raw executable bytes of a deployed program. Every check is
//! an exact contiguous subsequence search; patterns are ASCII literals
//! treated as raw bytes. A check that triggers yields one vulnerability with
//! a fixed confidence. Each check is a heuristic correlation over the byte
//! buffer, not a proof: no control-flow or data-flow reconstruction is done,
//! and any byte content is tolerated.

use vstd::prelude::*;
use vstd::string::StringSliceAdditionalSpecFns;
use crate::detector::ExploitDetector;
use crate::models::{Severity, Vulnerability, VulnerabilityV};
use crate::scan::{contains_bytes, contains_seq};

verus! {

/// Length, in bytes, above which a program counts as unusually large.
pub const MAX_PROGRAM_SIZE: usize = 100_000;

/// Number of checks in the scanner.
pub const BYTECODE_CHECK_COUNT: usize = 11;

/// The ASCII bytes of `pat` occur contiguously in `bytes`.
pub open spec fn has_motif(bytes: Seq<u8>, pat: &str) -> bool {
    contains_seq(bytes, pat.spec_bytes())
}

/// The repeated-byte motif of a NOP sled.
pub open spec fn nop_sled() -> Seq<u8> {
    seq![0x90u8, 0x90u8, 0x90u8]
}

/// A NOP-sled-like repeated byte motif occurs in `bytes`.
pub open spec fn spec_has_nop_sled(bytes: Seq<u8>) -> bool {
    contains_seq(bytes, nop_sled())
}

/// A transfer motif occurs with no owner motif anywhere.
pub open spec fn spec_missing_owner_check(bytes: Seq<u8>) -> bool {
    has_motif(bytes, "transfer") && !has_motif(bytes, "owner")
}

/// Some arithmetic motif occurs with no checked-arithmetic motif anywhere.
pub open spec fn spec_unchecked_math(bytes: Seq<u8>) -> bool {
    (has_motif(bytes, "add") || has_motif(bytes, "sub") || has_motif(bytes, "mul") || has_motif(
        bytes,
        "div",
    )) && !has_motif(bytes, "checked_")
}

/// Some discriminator or type-tag motif occurs.
pub open spec fn spec_has_discriminator(bytes: Seq<u8>) -> bool {
    has_motif(bytes, "discriminator") || has_motif(bytes, "account_type") || has_motif(
        bytes,
        "tag",
    )
}

/// A deserialize motif occurs with no guarded-call motif anywhere.
pub open spec fn spec_unsafe_deserialize(bytes: Seq<u8>) -> bool {
    has_motif(bytes, "deserialize") && !(has_motif(bytes, "try_") || has_motif(bytes, "checked_")
        || has_motif(bytes, "safe_"))
}

/// An account-creation motif occurs with no rent or exemption motif.
pub open spec fn spec_missing_rent_check(bytes: Seq<u8>) -> bool {
    has_motif(bytes, "create_account") && !(has_motif(bytes, "rent") || has_motif(
        bytes,
        "exemption",
    ) || has_motif(bytes, "minimum_balance"))
}

/// An invocation motif occurs with no program-id or verification motif.
pub open spec fn spec_unchecked_cpi(bytes: Seq<u8>) -> bool {
    (has_motif(bytes, "invoke") || has_motif(bytes, "invoke_signed")) && !(has_motif(
        bytes,
        "program_id",
    ) || has_motif(bytes, "key") || has_motif(bytes, "verify"))
}

/// A privileged-operation motif occurs with no signer-check motif.
pub open spec fn spec_missing_signer_validation(bytes: Seq<u8>) -> bool {
    (has_motif(bytes, "transfer") || has_motif(bytes, "mint") || has_motif(bytes, "burn")
        || has_motif(bytes, "close")) && !has_motif(bytes, "is_signer")
}

/// A close motif occurs with no zeroing or clearing motif.
pub open spec fn spec_unsafe_close(bytes: Seq<u8>) -> bool {
    has_motif(bytes, "close") && !(has_motif(bytes, "lamports") || has_motif(bytes, "zero")
        || has_motif(bytes, "clear"))
}

/// A derived-address-creation motif occurs with no canonical-bump motif.
pub open spec fn spec_bump_seed_issues(bytes: Seq<u8>) -> bool {
    (has_motif(bytes, "create_program_address") || has_motif(bytes, "find_program_address"))
        && !has_motif(bytes, "canonical")
}

/// Whether the bytecode check at position `k` fires on `bytes`.
pub open spec fn bytecode_check_fires(k: int, bytes: Seq<u8>) -> bool {
    if k == 0 {
        spec_has_nop_sled(bytes)
    } else if k == 1 {
        bytes.len() > MAX_PROGRAM_SIZE
    } else if k == 2 {
        spec_missing_owner_check(bytes)
    } else if k == 3 {
        spec_unchecked_math(bytes)
    } else if k == 4 {
        !spec_has_discriminator(bytes)
    } else if k == 5 {
        spec_unsafe_deserialize(bytes)
    } else if k == 6 {
        spec_missing_rent_check(bytes)
    } else if k == 7 {
        spec_unchecked_cpi(bytes)
    } else if k == 8 {
        spec_missing_signer_validation(bytes)
    } else if k == 9 {
        spec_unsafe_close(bytes)
    } else if k == 10 {
        spec_bump_seed_issues(bytes)
    } else {
        false
    }
}

/// Kind tag of the bytecode check at position `k`.
pub open spec fn check_tag(k: int) -> Seq<char> {
    if k == 0 {
        "suspicious_nop_pattern"@
    } else if k == 1 {
        "large_program_size"@
    } else if k == 2 {
        "missing_owner_check"@
    } else if k == 3 {
        "unchecked_arithmetic"@
    } else if k == 4 {
        "missing_discriminator"@
    } else if k == 5 {
        "unsafe_deserialization"@
    } else if k == 6 {
        "missing_rent_check"@
    } else if k == 7 {
        "unchecked_cpi"@
    } else if k == 8 {
        "missing_signer_validation"@
    } else if k == 9 {
        "unsafe_account_close"@
    } else if k == 10 {
        "bump_seed_not_canonical"@
    } else {
        Seq::empty()
    }
}

/// Severity of the bytecode check at position `k`.
pub open spec fn check_severity(k: int) -> Severity {
    if k == 0 {
        Severity::Medium
    } else if k == 1 {
        Severity::Low
    } else if k == 2 {
        Severity::High
    } else if k == 3 {
        Severity::High
    } else if k == 4 {
        Severity::Medium
    } else if k == 5 {
        Severity::High
    } else if k == 6 {
        Severity::Medium
    } else if k == 7 {
        Severity::Critical
    } else if k == 8 {
        Severity::Critical
    } else if k == 9 {
        Severity::High
    } else if k == 10 {
        Severity::Medium
    } else {
        Severity::Info
    }
}

/// Confidence, in hundredths, of the bytecode check at position `k`.
pub open spec fn check_confidence(k: int) -> u32 {
    if k == 0 {
        65u32
    } else if k == 1 {
        50u32
    } else if k == 2 {
        72u32
    } else if k == 3 {
        68u32
    } else if k == 4 {
        60u32
    } else if k == 5 {
        70u32
    } else if k == 6 {
        55u32
    } else if k == 7 {
        75u32
    } else if k == 8 {
        78u32
    } else if k == 9 {
        65u32
    } else if k == 10 {
        58u32
    } else {
        0u32
    }
}

/// Description of the bytecode check at position `k`.
pub open spec fn check_description(k: int) -> Seq<char> {
    if k == 0 {
        "Suspicious NOP sled pattern detected"@
    } else if k == 1 {
        "Program size is unusually large, may indicate obfuscation"@
    } else if k == 2 {
        "Potential missing owner validation detected"@
    } else if k == 3 {
        "Unchecked arithmetic operations detected, may lead to overflow"@
    } else if k == 4 {
        "Account type discriminator not found, may lead to type confusion"@
    } else if k == 5 {
        "Unsafe deserialization pattern detected"@
    } else if k == 6 {
        "Account creation without rent exemption verification"@
    } else if k == 7 {
        "Cross-program invocation without program ID validation"@
    } else if k == 8 {
        "Critical operations without signer validation"@
    } else if k == 9 {
        "Account closure without proper cleanup or validation"@
    } else if k == 10 {
        "PDA bump seed may not be canonical"@
    } else {
        Seq::empty()
    }
}

/// Instruction tags a finding of check `k` points at.
pub open spec fn check_affected(k: int) -> Seq<Seq<char>> {
    if k == 0 {
        seq!["unknown"@]
    } else if k == 1 {
        Seq::empty()
    } else if k == 2 {
        seq!["transfer"@]
    } else if k == 3 {
        seq!["math_ops"@]
    } else if k == 4 {
        seq!["deserialization"@]
    } else if k == 5 {
        seq!["deserialize"@]
    } else if k == 6 {
        seq!["create_account"@]
    } else if k == 7 {
        seq!["invoke"@]
    } else if k == 8 {
        seq!["privileged_ops"@]
    } else if k == 9 {
        seq!["close"@]
    } else if k == 10 {
        seq!["create_pda"@]
    } else {
        Seq::empty()
    }
}

/// The vulnerability produced when the check at position `k` triggers.
pub open spec fn check_finding(k: int) -> VulnerabilityV {
    VulnerabilityV {
        vulnerability_type: check_tag(k),
        severity: check_severity(k),
        description: check_description(k),
        affected_instructions: check_affected(k),
        confidence: check_confidence(k),
    }
}

/// Findings of the first `k` scanner checks, in order.
pub open spec fn scan_findings_upto(bytes: Seq<u8>, k: int) -> Seq<VulnerabilityV>
    decreases k,
{
    if k <= 0 {
        Seq::empty()
    } else {
        scan_findings_upto(bytes, k - 1) + (if bytecode_check_fires(k - 1, bytes) {
            seq![check_finding(k - 1)]
        } else {
            Seq::empty()
        })
    }
}

/// Findings of the whole scanner: one vulnerability per triggered check.
pub open spec fn spec_analyze_bytecode(bytes: Seq<u8>) -> Seq<VulnerabilityV> {
    scan_findings_upto(bytes, BYTECODE_CHECK_COUNT as int)
}

impl ExploitDetector {
    /// Whether `pattern` occurs contiguously anywhere in `bytecode`.
    pub fn contains_unsafe_pattern(&self, bytecode: &[u8], pattern: &[u8]) -> (r: bool)
        ensures
            r == contains_seq(bytecode@, pattern@),
    {
        contains_bytes(bytecode, pattern)
    }

    /// Whether the ASCII bytes of `pat` occur anywhere in `bytecode`.
    fn scan_for(&self, bytecode: &[u8], pat: &str) -> (r: bool)
        ensures
            r == has_motif(bytecode@, pat),
    {
        contains_bytes(bytecode, pat.as_bytes())
    }

    fn has_nop_sled(&self, bytecode: &[u8]) -> (r: bool)
        ensures
            r == spec_has_nop_sled(bytecode@),
    {
        let mut pat: Vec<u8> = Vec::new();
        pat.push(0x90);
        pat.push(0x90);
        pat.push(0x90);
        proof {
            assert(pat@ =~= nop_sled());
        }
        contains_bytes(bytecode, pat.as_slice())
    }

    pub fn has_missing_owner_check_pattern(&self, bytecode: &[u8]) -> (r: bool)
        ensures
            r == spec_missing_owner_check(bytecode@),
    {
        self.scan_for(bytecode, "transfer") && !self.scan_for(bytecode, "owner")
    }

    pub fn has_unchecked_math_pattern(&self, bytecode: &[u8]) -> (r: bool)
        ensures
            r == spec_unchecked_math(bytecode@),
    {
        (self.scan_for(bytecode, "add") || self.scan_for(bytecode, "sub") || self.scan_for(
            bytecode,
            "mul",
        ) || self.scan_for(bytecode, "div")) && !self.scan_for(bytecode, "checked_")
    }

    pub fn has_discriminator_checks(&self, bytecode: &[u8]) -> (r: bool)
        ensures
            r == spec_has_discriminator(bytecode@),
    {
        self.scan_for(bytecode, "discriminator") || self.scan_for(bytecode, "account_type")
            || self.scan_for(bytecode, "tag")
    }

    pub fn has_unsafe_deserialize_pattern(&self, bytecode: &[u8]) -> (r: bool)
        ensures
            r == spec_unsafe_deserialize(bytecode@),
    {
        self.scan_for(bytecode, "deserialize") && !(self.scan_for(bytecode, "try_")
            || self.scan_for(bytecode, "checked_") || self.scan_for(bytecode, "safe_"))
    }

    pub fn has_missing_rent_check(&self, bytecode: &[u8]) -> (r: bool)
        ensures
            r == spec_missing_rent_check(bytecode@),
    {
        self.scan_for(bytecode, "create_account") && !(self.scan_for(bytecode, "rent")
            || self.scan_for(bytecode, "exemption") || self.scan_for(bytecode, "minimum_balance"))
    }

    pub fn has_unchecked_cpi_pattern(&self, bytecode: &[u8]) -> (r: bool)
        ensures
            r == spec_unchecked_cpi(bytecode@),
    {
        (self.scan_for(bytecode, "invoke") || self.scan_for(bytecode, "invoke_signed")) && !(
        self.scan_for(bytecode, "program_id") || self.scan_for(bytecode, "key") || self.scan_for(
            bytecode,
            "verify",
        ))
    }

    pub fn has_missing_signer_validation(&self, bytecode: &[u8]) -> (r: bool)
        ensures
            r == spec_missing_signer_validation(bytecode@),
    {
        (self.scan_for(bytecode, "transfer") || self.scan_for(bytecode, "mint") || self.scan_for(
            bytecode,
            "burn",
        ) || self.scan_for(bytecode, "close")) && !self.scan_for(bytecode, "is_signer")
    }

    pub fn has_unsafe_close_pattern(&self, bytecode: &[u8]) -> (r: bool)
        ensures
            r == spec_unsafe_close(bytecode@),
    {
        self.scan_for(bytecode, "close") && !(self.scan_for(bytecode, "lamports")
            || self.scan_for(bytecode, "zero") || self.scan_for(bytecode, "clear"))
    }

    pub fn has_bump_seed_issues(&self, bytecode: &[u8]) -> (r: bool)
        ensures
            r == spec_bump_seed_issues(bytecode@),
    {
        (self.scan_for(bytecode, "create_program_address") || self.scan_for(
            bytecode,
            "find_program_address",
        )) && !self.scan_for(bytecode, "canonical")
    }

    /// Evaluates the bytecode check at position `k`.
    fn bytecode_check_eval(&self, k: usize, bytecode: &[u8]) -> (r: bool)
        requires
            k < BYTECODE_CHECK_COUNT,
        ensures
            r == bytecode_check_fires(k as int, bytecode@),
    {
        match k {
            0 => self.has_nop_sled(bytecode),
            1 => bytecode.len() > MAX_PROGRAM_SIZE,
            2 => self.has_missing_owner_check_pattern(bytecode),
            3 => self.has_unchecked_math_pattern(bytecode),
            4 => !self.has_discriminator_checks(bytecode),
            5 => self.has_unsafe_deserialize_pattern(bytecode),
            6 => self.has_missing_rent_check(bytecode),
            7 => self.has_unchecked_cpi_pattern(bytecode),
            8 => self.has_missing_signer_validation(bytecode),
            9 => self.has_unsafe_close_pattern(bytecode),
            10 => self.has_bump_seed_issues(bytecode),
            _ => false,
        }
    }

    /// Severity and confidence of the bytecode check at position `k`.
    fn bytecode_check_kind(&self, k: usize) -> (r: (Severity, u32))
        requires
            k < BYTECODE_CHECK_COUNT,
        ensures
            r.0 == check_severity(k as int),
            r.1 == check_confidence(k as int),
    {
        match k {
            0 => (Severity::Medium, 65u32),
            1 => (Severity::Low, 50u32),
            2 => (Severity::High, 72u32),
            3 => (Severity::High, 68u32),
            4 => (Severity::Medium, 60u32),
            5 => (Severity::High, 70u32),
            6 => (Severity::Medium, 55u32),
            7 => (Severity::Critical, 75u32),
            8 => (Severity::Critical, 78u32),
            9 => (Severity::High, 65u32),
            10 => (Severity::Medium, 58u32),
            _ => (Severity::Info, 0),
        }
    }

    /// Kind tag of the bytecode check at position `k`.
    fn bytecode_check_tag(&self, k: usize) -> (r: String)
        requires
            k < BYTECODE_CHECK_COUNT,
        ensures
            r@ == check_tag(k as int),
    {
        match k {
            0 => "suspicious_nop_pattern".to_owned(),
            1 => "large_program_size".to_owned(),
            2 => "missing_owner_check".to_owned(),
            3 => "unchecked_arithmetic".to_owned(),
            4 => "missing_discriminator".to_owned(),
            5 => "unsafe_deserialization".to_owned(),
            6 => "missing_rent_check".to_owned(),
            7 => "unchecked_cpi".to_owned(),
            8 => "missing_signer_validation".to_owned(),
            9 => "unsafe_account_close".to_owned(),
            10 => "bump_seed_not_canonical".to_owned(),
            _ => String::new(),
        }
    }

    /// Description of the bytecode check at position `k`.
    fn bytecode_check_text(&self, k: usize) -> (r: String)
        requires
            k < BYTECODE_CHECK_COUNT,
        ensures
            r@ == check_description(k as int),
    {
        match k {
            0 => "Suspicious NOP sled pattern detected".to_owned(),
            1 => "Program size is unusually large, may indicate obfuscation".to_owned(),
            2 => "Potential missing owner validation detected".to_owned(),
            3 => "Unchecked arithmetic operations detected, may lead to overflow".to_owned(),
            4 => "Account type discriminator not found, may lead to type confusion".to_owned(),
            5 => "Unsafe deserialization pattern detected".to_owned(),
            6 => "Account creation without rent exemption verification".to_owned(),
            7 => "Cross-program invocation without program ID validation".to_owned(),
            8 => "Critical operations without signer validation".to_owned(),
            9 => "Account closure without proper cleanup or validation".to_owned(),
            10 => "PDA bump seed may not be canonical".to_owned(),
            _ => String::new(),
        }
    }

    /// Instruction tags of the bytecode check at position `k`.
    fn bytecode_check_targets(&self, k: usize) -> (r: Vec<String>)
        requires
            k < BYTECODE_CHECK_COUNT,
        ensures
            r.deep_view() =~~= check_affected(k as int),
    {
        let r = match k {
            0 => {
                let mut v: Vec<String> = Vec::new();
                v.push("unknown".to_owned());
                v
            },
            1 => Vec::new(),
            2 => {
                let mut v: Vec<String> = Vec::new();
                v.push("transfer".to_owned());
                v
            },
            3 => {
                let mut v: Vec<String> = Vec::new();
                v.push("math_ops".to_owned());
                v
            },
            4 => {
                let mut v: Vec<String> = Vec::new();
                v.push("deserialization".to_owned());
                v
            },
            5 => {
                let mut v: Vec<String> = Vec::new();
                v.push("deserialize".to_owned());
                v
            },
            6 => {
                let mut v: Vec<String> = Vec::new();
                v.push("create_account".to_owned());
                v
            },
            7 => {
                let mut v: Vec<String> = Vec::new();
                v.push("invoke".to_owned());
                v
            },
            8 => {
                let mut v: Vec<String> = Vec::new();
                v.push("privileged_ops".to_owned());
                v
            },
            9 => {
                let mut v: Vec<String> = Vec::new();
                v.push("close".to_owned());
                v
            },
            10 => {
                let mut v: Vec<String> = Vec::new();
                v.push("create_pda".to_owned());
                v
            },
            _ => Vec::new(),
        };
        proof {
            assert(r.deep_view() =~~= check_affected(k as int));
        }
        r
    }

    /// Runs every bytecode check, in order and without early exit, and
    /// returns one vulnerability per triggered check.
    pub fn analyze_program_bytecode(&self, bytecode: &[u8]) -> (r: Vec<Vulnerability>)
        ensures
            r.deep_view() == spec_analyze_bytecode(bytecode@),
    {
        let ghost bytes = bytecode@;
        let mut vulnerabilities: Vec<Vulnerability> = Vec::new();
        let mut k: usize = 0;
        while k < BYTECODE_CHECK_COUNT
            invariant
                k <= BYTECODE_CHECK_COUNT,
                vulnerabilities.deep_view() =~~= scan_findings_upto(bytes, k as int),
                bytes == bytecode@,
            decreases BYTECODE_CHECK_COUNT - k,
        {
            if self.bytecode_check_eval(k, bytecode) {
                let kind = self.bytecode_check_kind(k);
                let v = Vulnerability {
                    vulnerability_type: self.bytecode_check_tag(k),
                    severity: kind.0,
                    description: self.bytecode_check_text(k),
                    affected_instructions: self.bytecode_check_targets(k),
                    confidence: kind.1,
                };
                proof {
                    assert(v@ =~~= check_finding(k as int));
                }
                vulnerabilities.push(v);
            }
            proof {
                assert(vulnerabilities.deep_view() =~~= scan_findings_upto(bytes, k as int + 1));
            }
            k += 1;
        }
        vulnerabilities
    }
}

/// Every scanner finding carries a confidence within [0, 100] hundredths.
pub proof fn lemma_scan_confidences(bytes: Seq<u8>, k: int)
    ensures
        forall|i: int|
            0 <= i < scan_findings_upto(bytes, k).len()
                ==> #[trigger] scan_findings_upto(bytes, k)[i].confidence <= 100,
    decreases k,
{
    if k > 0 {
        lemma_scan_confidences(bytes, k - 1);
        assert forall|i: int| 0 <= i < scan_findings_upto(bytes, k).len()
            implies #[trigger] scan_findings_upto(bytes, k)[i].confidence <= 100 by {
            let prev = scan_findings_upto(bytes, k - 1);
            if i < prev.len() {
                assert(scan_findings_upto(bytes, k)[i] == prev[i]);
            }
        }
    }
}

} // verus!

use chain_analyzer::detector::ExploitDetector;
use chain_analyzer::models::Severity;

#[test]
fn transfer_without_owner_is_flagged() {
    let detector = ExploitDetector::new();
    let bytecode = b"...transfer lamports to target...";
    let vulns = detector.analyze_program_bytecode(bytecode);
    let hit: Vec<_> = vulns
        .iter()
        .filter(|v| v.vulnerability_type == "missing_owner_check")
        .collect();
    assert_eq!(hit.len(), 1);
    assert!(matches!(hit[0].severity, Severity::High));
    assert_eq!(hit[0].confidence, 72);
    assert_eq!(hit[0].affected_instructions, vec!["transfer".to_string()]);
}

#[test]
fn transfer_with_owner_is_not_flagged() {
    let detector = ExploitDetector::new();
    let bytecode = b"...transfer after owner check...";
    let vulns = detector.analyze_program_bytecode(bytecode);
    assert!(vulns
        .iter()
        .all(|v| v.vulnerability_type != "missing_owner_check"));
}

#[test]
fn nop_sled_is_flagged() {
    let detector = ExploitDetector::new();
    let mut bytecode = vec![0u8, 1, 2];
    bytecode.extend_from_slice(&[0x90, 0x90, 0x90]);
    bytecode.push(7);
    let vulns = detector.analyze_program_bytecode(&bytecode);
    assert!(vulns
        .iter()
        .any(|v| v.vulnerability_type == "suspicious_nop_pattern"));
}

#[test]
fn unchecked_arithmetic_needs_checked_motif() {
    let detector = ExploitDetector::new();
    let with_raw = detector.analyze_program_bytecode(b"will add two numbers");
    assert!(with_raw
        .iter()
        .any(|v| v.vulnerability_type == "unchecked_arithmetic"));
    let with_checked = detector.analyze_program_bytecode(b"will checked_add two numbers");
    assert!(with_checked
        .iter()
        .all(|v| v.vulnerability_type != "unchecked_arithmetic"));
}

#[test]
fn missing_discriminator_on_arbitrary_bytes() {
    let detector = ExploitDetector::new();
    let vulns = detector.analyze_program_bytecode(&[1u8, 2, 3, 254, 255]);
    let hit: Vec<_> = vulns
        .iter()
        .filter(|v| v.vulnerability_type == "missing_discriminator")
        .collect();
    assert_eq!(hit.len(), 1);
    assert_eq!(hit[0].confidence, 60);
    let with_tag = detector.analyze_program_bytecode(b"has a tag inside");
    assert!(with_tag
        .iter()
        .all(|v| v.vulnerability_type != "missing_discriminator"));
}

#[test]
fn unchecked_cpi_is_critical() {
    let detector = ExploitDetector::new();
    let vulns = detector.analyze_program_bytecode(b"will invoke helper");
    let hit: Vec<_> = vulns
        .iter()
        .filter(|v| v.vulnerability_type == "unchecked_cpi")
        .collect();
    assert_eq!(hit.len(), 1);
    assert!(matches!(hit[0].severity, Severity::Critical));
    assert_eq!(hit[0].confidence, 75);
    let with_check = detector.analyze_program_bytecode(b"will invoke helper after verify");
    assert!(with_check
        .iter()
        .all(|v| v.vulnerability_type != "unchecked_cpi"));
}

#[test]
fn missing_signer_validation_on_privileged_ops() {
    let detector = ExploitDetector::new();
    let vulns = detector.analyze_program_bytecode(b"mint new supply");
    assert!(vulns
        .iter()
        .any(|v| v.vulnerability_type == "missing_signer_validation"));
    let with_signer = detector.analyze_program_bytecode(b"mint checks is_signer first");
    assert!(with_signer
        .iter()
        .all(|v| v.vulnerability_type != "missing_signer_validation"));
}

#[test]
fn large_program_size_is_flagged() {
    let detector = ExploitDetector::new();
    let big = vec![0u8; 100_001];
    let vulns = detector.analyze_program_bytecode(&big);
    assert!(vulns
        .iter()
        .any(|v| v.vulnerability_type == "large_program_size"));
    let small = vec![0u8; 10];
    let vulns = detector.analyze_program_bytecode(&small);
    assert!(vulns
        .iter()
        .all(|v| v.vulnerability_type != "large_program_size"));
}

#[test]
fn scanner_tolerates_arbitrary_bytes() {
    let detector = ExploitDetector::new();
    let raw: Vec<u8> = (0u8..=255).cycle().take(4096).collect();
    let vulns = detector.analyze_program_bytecode(&raw);
    // not valid text; the scan must still answer, and every confidence
    // stays within [0, 100] hundredths
    assert!(vulns.iter().all(|v| v.confidence <= 100));
}

#[test]
fn pattern_search_is_exact() {
    let detector = ExploitDetector::new();
    assert!(detector.contains_unsafe_pattern(b"abcdef", b"cde"));
    assert!(!detector.contains_unsafe_pattern(b"abcdef", b"ce"));
    assert!(detector.contains_unsafe_pattern(b"abc", b""));
    assert!(!detector.contains_unsafe_pattern(b"ab", b"abc"));
}

#[test]
fn unsafe_deserialize_needs_guard_motif() {
    let detector = ExploitDetector::new();
    let raw = detector.analyze_program_bytecode(b"will deserialize account");
    assert!(raw
        .iter()
        .any(|v| v.vulnerability_type == "unsafe_deserialization"));
    let guarded = detector.analyze_program_bytecode(b"will try_deserialize account");
    assert!(guarded
        .iter()
        .all(|v| v.vulnerability_type != "unsafe_deserialization"));
}

#[test]
fn missing_rent_check_on_account_creation() {
    let detector = ExploitDetector::new();
    let raw = detector.analyze_program_bytecode(b"calls create_account for state");
    assert!(raw
        .iter()
        .any(|v| v.vulnerability_type == "missing_rent_check"));
    let guarded = detector.analyze_program_bytecode(b"calls create_account with rent check");
    assert!(guarded
        .iter()
        .all(|v| v.vulnerability_type != "missing_rent_check"));
}

#[test]
fn unsafe_close_needs_cleanup_motif() {
    let detector = ExploitDetector::new();
    let raw = detector.analyze_program_bytecode(b"will close account");
    assert!(raw
        .iter()
        .any(|v| v.vulnerability_type == "unsafe_account_close"));
    let guarded = detector.analyze_program_bytecode(b"will close account and zero data");
    assert!(guarded
        .iter()
        .all(|v| v.vulnerability_type != "unsafe_account_close"));
}

#[test]
fn bump_seed_check_on_pda_creation() {
    let detector = ExploitDetector::new();
    let raw = detector.analyze_program_bytecode(b"uses find_program_address here");
    assert!(raw
        .iter()
        .any(|v| v.vulnerability_type == "bump_seed_not_canonical"));
    let guarded =
        detector.analyze_program_bytecode(b"uses find_program_address with canonical bump");
    assert!(guarded
        .iter()
        .all(|v| v.vulnerability_type != "bump_seed_not_canonical"));
}

#[test]
fn scan_findings_keep_check_order() {
    let detector = ExploitDetector::new();
    // triggers the transfer-without-owner check (earlier) and the
    // signer-validation check (later): reported in that order
    let vulns = detector.analyze_program_bytecode(b"transfer tag verify checked_ rent");
    let owner = vulns
        .iter()
        .position(|v| v.vulnerability_type == "missing_owner_check")
        .unwrap();
    let signer = vulns
        .iter()
        .position(|v| v.vulnerability_type == "missing_signer_validation")
        .unwrap();
    assert!(owner < signer);
}

use chain_analyzer::detector::ExploitDetector;
use chain_analyzer::models::{ExploitType, Severity, TransactionMeta, TransactionRecord};
use chain_analyzer::simulator::StateSimulator;

fn record_with_logs(logs: Vec<&str>) -> TransactionRecord {
    TransactionRecord {
        meta: Some(TransactionMeta {
            err: None,
            compute_units_consumed: Some(0),
            log_messages: Some(logs.into_iter().map(|s| s.to_string()).collect()),
            pre_balances: vec![],
            post_balances: vec![],
        }),
        account_keys: vec![],
    }
}

fn record_with_balances(pre: Vec<u64>, post: Vec<u64>, logs: Vec<&str>) -> TransactionRecord {
    TransactionRecord {
        meta: Some(TransactionMeta {
            err: None,
            compute_units_consumed: Some(0),
            log_messages: Some(logs.into_iter().map(|s| s.to_string()).collect()),
            pre_balances: pre,
            post_balances: post,
        }),
        account_keys: vec![],
    }
}

#[test]
fn reentrancy_fires_on_four_invoke_lines() {
    let record = record_with_logs(vec![
        "Program A invoke [1]",
        "Program B invoke [2]",
        "Program A invoke [3]",
        "Program B invoke [4]",
    ]);
    let simulator = StateSimulator::new();
    let simulation = simulator.simulate_transaction(&record);
    let detector = ExploitDetector::new();
    let exploits = detector.detect_exploits(&record, &simulation);
    let reentrancy: Vec<_> = exploits
        .iter()
        .filter(|e| matches!(e.exploit_type, ExploitType::Reentrancy))
        .collect();
    assert_eq!(reentrancy.len(), 1);
    assert!(matches!(reentrancy[0].severity, Severity::Critical));
    assert_eq!(reentrancy[0].confidence, 85);
    assert_eq!(reentrancy[0].description, "Detected: Reentrancy Attack");
    assert_eq!(reentrancy[0].location, "transaction");
    assert!(reentrancy[0].remediation.is_some());
}

#[test]
fn reentrancy_quiet_on_three_invoke_lines() {
    let record = record_with_logs(vec![
        "Program A invoke [1]",
        "Program B invoke [2]",
        "Program A invoke [3]",
    ]);
    let simulator = StateSimulator::new();
    let simulation = simulator.simulate_transaction(&record);
    let detector = ExploitDetector::new();
    let exploits = detector.detect_exploits(&record, &simulation);
    assert!(exploits
        .iter()
        .all(|e| !matches!(e.exploit_type, ExploitType::Reentrancy)));
}

#[test]
fn empty_trace_yields_no_exploits() {
    let record = record_with_logs(vec![]);
    let simulator = StateSimulator::new();
    let simulation = simulator.simulate_transaction(&record);
    let detector = ExploitDetector::new();
    let exploits = detector.detect_exploits(&record, &simulation);
    assert!(exploits.is_empty());
}

#[test]
fn closed_account_revival_detected() {
    let record = record_with_balances(
        vec![0],
        vec![5_000_000_000],
        vec!["Program X: account was closed"],
    );
    let simulator = StateSimulator::new();
    let simulation = simulator.simulate_transaction(&record);
    let detector = ExploitDetector::new();
    let exploits = detector.detect_exploits(&record, &simulation);
    assert!(exploits
        .iter()
        .any(|e| matches!(e.exploit_type, ExploitType::ClosedAccountRevival)));
}

#[test]
fn closed_account_revival_needs_closed_log() {
    let record = record_with_balances(vec![0], vec![5_000_000_000], vec!["Program X: fine"]);
    let simulator = StateSimulator::new();
    let simulation = simulator.simulate_transaction(&record);
    let detector = ExploitDetector::new();
    let exploits = detector.detect_exploits(&record, &simulation);
    assert!(exploits
        .iter()
        .all(|e| !matches!(e.exploit_type, ExploitType::ClosedAccountRevival)));
}

#[test]
fn integer_overflow_detected_from_log_text() {
    let record = record_with_logs(vec!["computation hit an overflow in step 3"]);
    let simulator = StateSimulator::new();
    let simulation = simulator.simulate_transaction(&record);
    let detector = ExploitDetector::new();
    let exploits = detector.detect_exploits(&record, &simulation);
    assert!(exploits
        .iter()
        .any(|e| matches!(e.exploit_type, ExploitType::IntegerOverflow)));
}

#[test]
fn flash_loan_detected_on_large_balance_move() {
    let record = record_with_balances(vec![0], vec![2_000_000_000_000], vec![]);
    let simulator = StateSimulator::new();
    let simulation = simulator.simulate_transaction(&record);
    let detector = ExploitDetector::new();
    let exploits = detector.detect_exploits(&record, &simulation);
    assert!(exploits
        .iter()
        .any(|e| matches!(e.exploit_type, ExploitType::FlashLoanAttack)));
}

#[test]
fn duplicate_mutable_accounts_detected() {
    let record = TransactionRecord {
        meta: Some(TransactionMeta {
            err: None,
            compute_units_consumed: Some(0),
            log_messages: Some(vec![]),
            pre_balances: vec![],
            post_balances: vec![],
        }),
        account_keys: vec!["alpha".to_string(), "beta".to_string(), "alpha".to_string()],
    };
    let simulator = StateSimulator::new();
    let simulation = simulator.simulate_transaction(&record);
    let detector = ExploitDetector::new();
    let exploits = detector.detect_exploits(&record, &simulation);
    assert!(exploits
        .iter()
        .any(|e| matches!(e.exploit_type, ExploitType::DuplicateAccountMutable)));
}

#[test]
fn dos_attack_detected_on_excessive_compute() {
    let record = TransactionRecord {
        meta: Some(TransactionMeta {
            err: None,
            compute_units_consumed: Some(1_000_001),
            log_messages: Some(vec![]),
            pre_balances: vec![],
            post_balances: vec![],
        }),
        account_keys: vec![],
    };
    let simulator = StateSimulator::new();
    let simulation = simulator.simulate_transaction(&record);
    let detector = ExploitDetector::new();
    let exploits = detector.detect_exploits(&record, &simulation);
    assert!(exploits
        .iter()
        .any(|e| matches!(e.exploit_type, ExploitType::DosAttack)));
}

#[test]
fn registry_order_is_stable() {
    // overflow (position 1 in the registry) must come before the PDA rule
    // (position 4) when both fire
    let record = record_with_logs(vec!["overflow while checking PDA seeds"]);
    let simulator = StateSimulator::new();
    let simulation = simulator.simulate_transaction(&record);
    let detector = ExploitDetector::new();
    let exploits = detector.detect_exploits(&record, &simulation);
    let io = exploits
        .iter()
        .position(|e| matches!(e.exploit_type, ExploitType::IntegerOverflow))
        .unwrap();
    let pda = exploits
        .iter()
        .position(|e| matches!(e.exploit_type, ExploitType::PdaMismatch))
        .unwrap();
    assert!(io < pda);
}

#[test]
fn remediation_mapping_is_per_category() {
    let detector = ExploitDetector::new();
    assert_eq!(
        detector.get_remediation(&ExploitType::Reentrancy),
        "Implement checks-effects-interactions pattern and use reentrancy guards"
    );
    assert_eq!(
        detector.get_remediation(&ExploitType::Unknown),
        "Review code for security best practices"
    );
    assert_eq!(
        detector.get_remediation(&ExploitType::FrontRunning),
        "Review code for security best practices"
    );
}

#[test]
fn simulate_without_metadata_degrades() {
    let record = TransactionRecord {
        meta: None,
        account_keys: vec!["k1".to_string()],
    };
    let simulator = StateSimulator::new();
    let simulation = simulator.simulate_transaction(&record);
    assert!(!simulation.success);
    assert_eq!(simulation.error.as_deref(), Some("No metadata available"));
    assert_eq!(simulation.compute_units_consumed, 0);
    assert!(simulation.logs.is_empty());
    assert_eq!(simulation.accounts_accessed, vec!["k1".to_string()]);
}

#[test]
fn simulate_reads_metadata() {
    let record = TransactionRecord {
        meta: Some(TransactionMeta {
            err: Some("InstructionError".to_string()),
            compute_units_consumed: Some(777),
            log_messages: Some(vec!["line".to_string()]),
            pre_balances: vec![1],
            post_balances: vec![2],
        }),
        account_keys: vec![],
    };
    let simulator = StateSimulator::new();
    let simulation = simulator.simulate_transaction(&record);
    assert!(!simulation.success);
    assert_eq!(simulation.error.as_deref(), Some("InstructionError"));
    assert_eq!(simulation.compute_units_consumed, 777);
    assert_eq!(simulation.logs, vec!["line".to_string()]);
}

fn detect_types_for_logs(logs: Vec<&str>) -> Vec<chain_analyzer::models::ExploitType> {
    let record = record_with_logs(logs);
    let simulator = StateSimulator::new();
    let simulation = simulator.simulate_transaction(&record);
    let detector = ExploitDetector::new();
    detector
        .detect_exploits(&record, &simulation)
        .into_iter()
        .map(|e| e.exploit_type)
        .collect()
}

#[test]
fn each_log_rule_keys_on_its_signal() {
    assert!(detect_types_for_logs(vec!["missing required signer for account"])
        .contains(&ExploitType::MissingSignerCheck));
    assert!(detect_types_for_logs(vec!["PDA derivation failed"])
        .contains(&ExploitType::PdaMismatch));
    assert!(detect_types_for_logs(vec!["account data mismatch while loading"])
        .contains(&ExploitType::AccountConfusion));
    assert!(detect_types_for_logs(vec!["unauthorized access attempt"])
        .contains(&ExploitType::SignerBypass));
    assert!(detect_types_for_logs(vec!["bad discriminator in account"])
        .contains(&ExploitType::TypeConfusion));
    assert!(detect_types_for_logs(vec!["oracle feed looks off"])
        .contains(&ExploitType::OracleManipulation));
    assert!(detect_types_for_logs(vec!["Program Xyz invoke [1]"])
        .contains(&ExploitType::ArbitraryCpi));
    assert!(!detect_types_for_logs(vec!["Program System invoke [1]"])
        .contains(&ExploitType::ArbitraryCpi));
    assert!(detect_types_for_logs(vec!["bump seed invalid for derivation"])
        .contains(&ExploitType::BumpSeedCanonical));
    assert!(detect_types_for_logs(vec!["deserialization error in account"])
        .contains(&ExploitType::AccountDataMismatch));
    assert!(detect_types_for_logs(vec!["owner mismatch on account"])
        .contains(&ExploitType::UncheckedAccountOwnership));
    assert!(detect_types_for_logs(vec!["token mint does not match"])
        .contains(&ExploitType::TokenAccountValidation));
    assert!(detect_types_for_logs(vec!["account already initialized"])
        .contains(&ExploitType::AccountReinitialization));
    assert!(detect_types_for_logs(vec!["all quiet"]).is_empty());
}

#[test]
fn rent_exemption_keys_on_low_positive_balance() {
    let record = record_with_balances(vec![900_000], vec![890_879], vec![]);
    let simulator = StateSimulator::new();
    let simulation = simulator.simulate_transaction(&record);
    let detector = ExploitDetector::new();
    let exploits = detector.detect_exploits(&record, &simulation);
    assert!(exploits
        .iter()
        .any(|e| matches!(e.exploit_type, ExploitType::InsufficientRentExemption)));
    // zero balances and exempt balances stay quiet
    let record = record_with_balances(vec![900_000], vec![0], vec![]);
    let simulation = simulator.simulate_transaction(&record);
    let exploits = detector.detect_exploits(&record, &simulation);
    assert!(exploits
        .iter()
        .all(|e| !matches!(e.exploit_type, ExploitType::InsufficientRentExemption)));
}

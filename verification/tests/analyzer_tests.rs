use chain_analyzer::analyzer::{AnalysisStep, ChainAnalyzer};
use chain_analyzer::models::{
    AnalysisError, AnalysisRequest, AuditDepth, ContractAuditRequest, Exploit, ExploitType,
    Severity, StateChange, TransactionMeta, TransactionRecord, Vulnerability,
};

fn request(sig: &str) -> AnalysisRequest {
    AnalysisRequest {
        signature: sig.to_string(),
        network: None,
    }
}

fn simple_record() -> TransactionRecord {
    TransactionRecord {
        meta: Some(TransactionMeta {
            err: None,
            compute_units_consumed: Some(500),
            log_messages: Some(vec!["Program A invoke [1]".to_string()]),
            pre_balances: vec![100, 0],
            post_balances: vec![0, 100],
        }),
        account_keys: vec!["a".to_string(), "b".to_string()],
    }
}

fn exploit(sev: Severity, confidence: u32) -> Exploit {
    Exploit {
        exploit_type: ExploitType::Reentrancy,
        severity: sev,
        description: "d".to_string(),
        location: "transaction".to_string(),
        confidence,
        remediation: None,
    }
}

fn change(suspicious: bool) -> StateChange {
    StateChange {
        account: "account_0".to_string(),
        field: "lamports".to_string(),
        before: "1".to_string(),
        after: "2".to_string(),
        suspicious,
    }
}

#[test]
fn suspicious_balance_rules() {
    let a = ChainAnalyzer::new();
    // drain: positive to zero
    assert!(a.is_suspicious_balance_change(5, 0));
    assert!(!a.is_suspicious_balance_change(0, 0));
    // ratio strictly above ten
    assert!(!a.is_suspicious_balance_change(100, 1100));
    assert!(a.is_suspicious_balance_change(100, 1101));
    // zero before counts as one
    assert!(!a.is_suspicious_balance_change(0, 10));
    assert!(a.is_suspicious_balance_change(0, 11));
    assert!(a.is_suspicious_balance_change(1, 12));
    // decreases short of a drain are never suspicious
    assert!(!a.is_suspicious_balance_change(100, 1));
}

#[test]
fn state_changes_pair_by_index() {
    let a = ChainAnalyzer::new();
    let record = TransactionRecord {
        meta: Some(TransactionMeta {
            err: None,
            compute_units_consumed: Some(0),
            log_messages: Some(vec![]),
            pre_balances: vec![50, 7, 3],
            post_balances: vec![50, 0, 99],
        }),
        account_keys: vec![],
    };
    let changes = a.analyze_state_changes(&record);
    assert_eq!(changes.len(), 2);
    assert_eq!(changes[0].account, "account_1");
    assert_eq!(changes[0].field, "lamports");
    assert_eq!(changes[0].before, "7");
    assert_eq!(changes[0].after, "0");
    assert!(changes[0].suspicious);
    assert_eq!(changes[1].account, "account_2");
    assert_eq!(changes[1].before, "3");
    assert_eq!(changes[1].after, "99");
    assert!(changes[1].suspicious);
}

#[test]
fn risk_score_exact_values() {
    let a = ChainAnalyzer::new();
    // 40 * 85 = 3400 hundredths = 34.00 points
    let exploits = vec![exploit(Severity::Critical, 85)];
    assert_eq!(a.calculate_risk_score(&exploits, &vec![]), 3400);
    // plus one suspicious change: + 5.00 points
    assert_eq!(a.calculate_risk_score(&exploits, &vec![change(true)]), 3900);
    // non-suspicious changes add nothing
    assert_eq!(a.calculate_risk_score(&exploits, &vec![change(false)]), 3400);
    // every severity weight
    let all = vec![
        exploit(Severity::Critical, 100),
        exploit(Severity::High, 100),
        exploit(Severity::Medium, 100),
        exploit(Severity::Low, 100),
        exploit(Severity::Info, 100),
    ];
    // (40 + 25 + 15 + 5 + 1) * 100 = 8600
    assert_eq!(a.calculate_risk_score(&all, &vec![]), 8600);
}

#[test]
fn risk_score_saturates_at_hundred_points() {
    let a = ChainAnalyzer::new();
    let exploits = vec![
        exploit(Severity::Critical, 100),
        exploit(Severity::Critical, 100),
        exploit(Severity::Critical, 100),
    ];
    // 3 * 4000 = 12000, clamped
    assert_eq!(a.calculate_risk_score(&exploits, &vec![]), 10000);
    assert_eq!(a.calculate_risk_score(&vec![], &vec![]), 0);
}

#[test]
fn contract_risk_score_uses_contract_weights() {
    let a = ChainAnalyzer::new();
    let v = Vulnerability {
        vulnerability_type: "unchecked_cpi".to_string(),
        severity: Severity::Critical,
        description: "d".to_string(),
        affected_instructions: vec![],
        confidence: 75,
    };
    // 35 * 75 = 2625
    assert_eq!(a.calculate_contract_risk_score(&vec![v]), 2625);
}

#[test]
fn recommendations_deduplicate_adjacent() {
    let a = ChainAnalyzer::new();
    let v = |t: &str| Vulnerability {
        vulnerability_type: t.to_string(),
        severity: Severity::High,
        description: "d".to_string(),
        affected_instructions: vec![],
        confidence: 50,
    };
    let recs = a.generate_recommendations(&vec![
        v("missing_owner_check"),
        v("missing_owner_check"),
        v("unrelated"),
        v("missing_signer_check"),
    ]);
    assert_eq!(
        recs,
        vec![
            "Add owner validation checks before performing privileged operations".to_string(),
            "Ensure all critical accounts are marked as signers and validated".to_string(),
        ]
    );
}

#[test]
fn analysis_response_shape() {
    let mut a = ChainAnalyzer::new();
    let req = request("sig-1");
    let record = simple_record();
    let r = a.analyze_transaction(&req, &record, 1_700_000_000, 12);
    assert_eq!(r.metadata.timestamp, 1_700_000_000);
    assert_eq!(r.metadata.analysis_duration_ms, 12);
    assert_eq!(r.metadata.analyzer_version, "1.0.0");
    assert_eq!(r.metadata.network, "mainnet-beta");
    // the 100 -> 0 drain and the 0 -> 100 hundredfold rise are both
    // suspicious: 2 * 500 hundredths on top of any exploits
    assert_eq!(r.state_changes.len(), 2);
    assert!(r.state_changes.iter().all(|c| c.suspicious));
    assert_eq!(r.simulation_result.compute_units_consumed, 500);
    assert!(r.risk_score <= 10000);
}

#[test]
fn network_tag_is_taken_from_request() {
    let mut a = ChainAnalyzer::new();
    let req = AnalysisRequest {
        signature: "sig-2".to_string(),
        network: Some("devnet".to_string()),
    };
    let r = a.analyze_transaction(&req, &simple_record(), 0, 0);
    assert_eq!(r.metadata.network, "devnet");
}

#[test]
fn second_call_is_answered_from_cache() {
    let mut a = ChainAnalyzer::new();
    let req = request("sig-cache");
    match a.begin_analysis(&req.signature) {
        AnalysisStep::Fetch => {}
        _ => panic!("fresh key must ask for a fetch"),
    }
    let first = a.analyze_transaction(&req, &simple_record(), 42, 7);
    // a second request for the same signature is served from the cache,
    // without any new fetch, and yields the identical result
    match a.begin_analysis(&req.signature) {
        AnalysisStep::Cached(second) => {
            assert_eq!(second.risk_score, first.risk_score);
            assert_eq!(second.exploits.len(), first.exploits.len());
            assert_eq!(second.state_changes.len(), first.state_changes.len());
            assert_eq!(second.metadata.timestamp, first.metadata.timestamp);
            assert_eq!(second.metadata.network, first.metadata.network);
            assert_eq!(
                second.simulation_result.logs,
                first.simulation_result.logs
            );
        }
        _ => panic!("cached key must be answered from the cache"),
    }
}

#[test]
fn concurrent_requests_coalesce_into_one_fetch() {
    let mut a = ChainAnalyzer::new();
    let sig = "sig-flight".to_string();
    match a.begin_analysis(&sig) {
        AnalysisStep::Fetch => {}
        _ => panic!("first request must fetch"),
    }
    // while that computation is in flight, further requests wait
    match a.begin_analysis(&sig) {
        AnalysisStep::Wait => {}
        _ => panic!("second request must wait, not fetch again"),
    }
    match a.begin_analysis(&sig) {
        AnalysisStep::Wait => {}
        _ => panic!("third request must wait, not fetch again"),
    }
    // an unrelated key is not serialized behind it
    match a.begin_analysis(&"other".to_string()) {
        AnalysisStep::Fetch => {}
        _ => panic!("unrelated key must fetch independently"),
    }
}

#[test]
fn aborted_analysis_is_not_cached() {
    let mut a = ChainAnalyzer::new();
    let sig = "sig-abort".to_string();
    match a.begin_analysis(&sig) {
        AnalysisStep::Fetch => {}
        _ => panic!("first request must fetch"),
    }
    a.abort_analysis(&sig);
    // nothing was cached, and the in-flight mark is gone: fetch again
    match a.begin_analysis(&sig) {
        AnalysisStep::Fetch => {}
        _ => panic!("after an abort the key must fetch again"),
    }
}

#[test]
fn audit_rejects_non_executable_account() {
    let a = ChainAnalyzer::new();
    let req = ContractAuditRequest {
        program_id: "prog-1".to_string(),
        network: None,
        depth: None,
    };
    let before = a.cache.len();
    let r = a.audit_contract(&req, false, b"transfer", 3, 0, 0);
    match r {
        Err(AnalysisError::NotExecutable) => {}
        _ => panic!("non-executable account must be rejected"),
    }
    assert_eq!(a.cache.len(), before);
}

#[test]
fn audit_success_shape() {
    let a = ChainAnalyzer::new();
    let req = ContractAuditRequest {
        program_id: "prog-2".to_string(),
        network: None,
        depth: Some(AuditDepth::Deep),
    };
    let r = a
        .audit_contract(&req, true, b"hello", 9, 1_700_000_001, 3)
        .unwrap();
    assert_eq!(r.program_id, "prog-2");
    assert_eq!(r.metadata.depth, "Deep");
    assert_eq!(r.metadata.instructions_analyzed, 9);
    assert_eq!(r.metadata.timestamp, 1_700_000_001);
    assert_eq!(r.metadata.audit_duration_ms, 3);
    assert_eq!(r.code_quality.score, 75);
    assert_eq!(r.code_quality.metrics.len(), 3);
    // "hello" carries no discriminator motif: exactly that check triggers,
    // at contract weight 12 times confidence 60 = 720 hundredths
    assert_eq!(r.vulnerabilities.len(), 1);
    assert_eq!(r.vulnerabilities[0].vulnerability_type, "missing_discriminator");
    assert_eq!(r.risk_score, 720);
    assert!(r.recommendations.is_empty());
}

#[test]
fn default_depth_is_shallow() {
    let a = ChainAnalyzer::new();
    let req = ContractAuditRequest {
        program_id: "prog-3".to_string(),
        network: None,
        depth: None,
    };
    let r = a.audit_contract(&req, true, b"tag", 0, 0, 0).unwrap();
    assert_eq!(r.metadata.depth, "Shallow");
}

#[test]
fn risk_score_is_monotone_in_findings() {
    let a = ChainAnalyzer::new();
    let one = vec![exploit(Severity::High, 50)];
    let two = vec![exploit(Severity::High, 50), exploit(Severity::Low, 10)];
    let s1 = a.calculate_risk_score(&one, &vec![]);
    let s2 = a.calculate_risk_score(&two, &vec![]);
    assert!(s2 >= s1);
    // raising one confidence never lowers the score
    let low = vec![exploit(Severity::Critical, 40)];
    let high = vec![exploit(Severity::Critical, 90)];
    assert!(a.calculate_risk_score(&high, &vec![]) >= a.calculate_risk_score(&low, &vec![]));
    // and each added suspicious change only raises it
    let with_change = a.calculate_risk_score(&one, &vec![change(true)]);
    assert!(with_change >= s1);
}

#[test]
fn error_variants_are_distinct() {
    assert_ne!(AnalysisError::InputValidation, AnalysisError::UpstreamFetch);
    assert_ne!(AnalysisError::UpstreamFetch, AnalysisError::NotExecutable);
    let a = ChainAnalyzer::new();
    let req = ContractAuditRequest {
        program_id: "p".to_string(),
        network: None,
        depth: None,
    };
    assert_eq!(
        a.audit_contract(&req, false, b"", 0, 0, 0).unwrap_err(),
        AnalysisError::NotExecutable
    );
}

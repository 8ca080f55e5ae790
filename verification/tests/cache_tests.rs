use chain_analyzer::cache::LruCache;
use chain_analyzer::models::{
    AnalysisMetadata, AnalysisResponse, SimulationResult,
};
use chain_analyzer::scan::{contains_bytes, contains_str, str_eq};
use chain_analyzer::decimal::{account_label, u64_to_string};
use chain_analyzer::analyzer::total_instruction_count;

fn response(score: u32) -> AnalysisResponse {
    AnalysisResponse {
        risk_score: score,
        exploits: vec![],
        state_changes: vec![],
        simulation_result: SimulationResult {
            success: true,
            error: None,
            compute_units_consumed: 0,
            logs: vec![],
            accounts_accessed: vec![],
        },
        metadata: AnalysisMetadata {
            timestamp: 0,
            analysis_duration_ms: 0,
            analyzer_version: "1.0.0".to_string(),
            network: "mainnet-beta".to_string(),
        },
    }
}

#[test]
fn cache_stores_and_returns_values() {
    let mut c = LruCache::new(10);
    assert_eq!(c.len(), 0);
    assert!(c.get(&"a".to_string()).is_none());
    c.put("a".to_string(), response(11));
    c.put("b".to_string(), response(22));
    assert_eq!(c.len(), 2);
    assert_eq!(c.get(&"a".to_string()).unwrap().risk_score, 11);
    assert_eq!(c.get(&"b".to_string()).unwrap().risk_score, 22);
}

#[test]
fn cache_replaces_same_key() {
    let mut c = LruCache::new(10);
    c.put("a".to_string(), response(1));
    c.put("a".to_string(), response(2));
    assert_eq!(c.len(), 1);
    assert_eq!(c.get(&"a".to_string()).unwrap().risk_score, 2);
}

#[test]
fn cache_evicts_least_recently_used() {
    let mut c = LruCache::new(2);
    c.put("a".to_string(), response(1));
    c.put("b".to_string(), response(2));
    c.put("c".to_string(), response(3));
    assert_eq!(c.len(), 2);
    assert!(c.get(&"a".to_string()).is_none());
    assert!(c.get(&"b".to_string()).is_some());
    assert!(c.get(&"c".to_string()).is_some());
}

#[test]
fn cache_lookup_refreshes_recency() {
    let mut c = LruCache::new(2);
    c.put("a".to_string(), response(1));
    c.put("b".to_string(), response(2));
    // touching "a" makes "b" the least recently used entry
    assert!(c.get(&"a".to_string()).is_some());
    c.put("c".to_string(), response(3));
    assert!(c.get(&"a".to_string()).is_some());
    assert!(c.get(&"b".to_string()).is_none());
    assert!(c.get(&"c".to_string()).is_some());
}

#[test]
fn cached_entry_is_returned_unchanged() {
    let mut c = LruCache::new(4);
    c.put("k".to_string(), response(77));
    let first = c.get(&"k".to_string()).unwrap();
    let second = c.get(&"k".to_string()).unwrap();
    assert_eq!(first.risk_score, 77);
    assert_eq!(second.risk_score, 77);
    assert_eq!(first.metadata.network, second.metadata.network);
    assert_eq!(first.metadata.analyzer_version, "1.0.0");
}

#[test]
fn substring_scan_over_bytes() {
    assert!(contains_bytes(b"xxtransferzz", b"transfer"));
    assert!(!contains_bytes(b"xxtransfezz", b"transfer"));
    assert!(contains_bytes(b"", b""));
    assert!(!contains_bytes(b"", b"a"));
}

#[test]
fn substring_scan_over_text() {
    assert!(contains_str("Program X invoke", "invoke"));
    assert!(!contains_str("Program X invoked backwards", "missing"));
    assert!(contains_str("abc", ""));
}

#[test]
fn string_equality_is_exact() {
    assert!(str_eq("abc", "abc"));
    assert!(!str_eq("abc", "abd"));
    assert!(!str_eq("abc", "abcd"));
    assert!(str_eq("", ""));
}

#[test]
fn decimal_rendering() {
    assert_eq!(u64_to_string(0), "0");
    assert_eq!(u64_to_string(7), "7");
    assert_eq!(u64_to_string(10), "10");
    assert_eq!(u64_to_string(890_880), "890880");
    assert_eq!(u64_to_string(u64::MAX), "18446744073709551615");
    assert_eq!(account_label(13), "account_13");
}

#[test]
fn instruction_totals_saturate() {
    assert_eq!(total_instruction_count(&vec![]), 0);
    assert_eq!(total_instruction_count(&vec![2, 3, 4]), 9);
    assert_eq!(
        total_instruction_count(&vec![usize::MAX, 5]),
        usize::MAX
    );
    // only the first hundred sampled signatures count
    let many = vec![1usize; 150];
    assert_eq!(total_instruction_count(&many), 100);
}

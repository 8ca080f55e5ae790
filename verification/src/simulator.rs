//! The evidence normalizer: turns a fetched transaction record into a
//! uniform execution trace. A record without execution metadata degrades to
//! a failed trace with a fixed error and empty evidence; it never raises an
//! error.

use vstd::prelude::*;
use crate::models::{
    SimulationResult, SimulationResultV, TransactionRecord, TransactionRecordV, clone_strings,
};

verus! {

/// The trace a record normalizes to: success and resource use are read from
/// the metadata when present; accessed accounts always come from the
/// decoded account-key list.
pub open spec fn spec_simulate(tx: TransactionRecordV) -> SimulationResultV {
    match tx.meta {
        Some(m) => SimulationResultV {
            success: m.err is None,
            error: m.err,
            compute_units_consumed: match m.compute_units_consumed {
                Some(u) => u,
                None => 0,
            },
            logs: match m.log_messages {
                Some(l) => l,
                None => Seq::empty(),
            },
            accounts_accessed: tx.account_keys,
        },
        None => SimulationResultV {
            success: false,
            error: Some("No metadata available"@),
            compute_units_consumed: 0,
            logs: Seq::empty(),
            accounts_accessed: tx.account_keys,
        },
    }
}

/// Normalizes fetched transaction records into execution traces.
pub struct StateSimulator {}

impl StateSimulator {
    pub fn new() -> (s: StateSimulator) {
        StateSimulator {  }
    }

    /// The account identifiers a transaction touched, in order.
    fn extract_accounts_accessed(&self, transaction: &TransactionRecord) -> (r: Vec<String>)
        ensures
            r.deep_view() == transaction@.account_keys,
    {
        clone_strings(&transaction.account_keys)
    }

    /// Builds the normalized execution trace of one fetched record.
    pub fn simulate_transaction(&self, transaction: &TransactionRecord) -> (r: SimulationResult)
        ensures
            r@ == spec_simulate(transaction@),
    {
        let r = match &transaction.meta {
            Some(m) => {
                let error = match &m.err {
                    Some(e) => Some(e.clone()),
                    None => None,
                };
                let compute_units = match m.compute_units_consumed {
                    Some(u) => u,
                    None => 0,
                };
                let logs = match &m.log_messages {
                    Some(l) => clone_strings(l),
                    None => Vec::new(),
                };
                SimulationResult {
                    success: m.err.is_none(),
                    error,
                    compute_units_consumed: compute_units,
                    logs,
                    accounts_accessed: self.extract_accounts_accessed(transaction),
                }
            },
            None => SimulationResult {
                success: false,
                error: Some("No metadata available".to_owned()),
                compute_units_consumed: 0,
                logs: Vec::new(),
                accounts_accessed: self.extract_accounts_accessed(transaction),
            },
        };
        proof {
            assert(r@ =~~= spec_simulate(transaction@));
        }
        r
    }
}

} // verus!

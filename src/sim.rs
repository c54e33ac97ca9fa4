use vstd::prelude::*;

verus! {

/// A resource-footprint record computed by the engine: its resource fee, and
/// its binary encoding.
#[derive(Clone, Debug)]
pub struct TransactionData {
    pub resource_fee: i64,
    pub xdr: Vec<u8>,
}

impl TransactionData {
    /// A record the engine produces: a fee that is never negative, and an
    /// encoding that is never empty.
    pub open spec fn wf(&self) -> bool {
        self.resource_fee >= 0 && self.xdr@.len() > 0
    }
}

/// How one ledger entry changed: both absent is a no-op, before only a
/// deletion, after only a creation, both an update.
#[derive(Clone, Debug)]
pub struct LedgerEntryDiff {
    pub state_before: Option<Vec<u8>>,
    pub state_after: Option<Vec<u8>>,
}

/// The outcome of simulating a host-function invocation, with every record
/// in its binary encoding.
#[derive(Debug)]
pub struct InvokeHostFunctionSimulationResult {
    pub auth: Vec<Vec<u8>>,
    pub invoke_result: Result<Vec<u8>, String>,
    pub transaction_data: Option<TransactionData>,
    pub diagnostic_events: Vec<Vec<u8>>,
    pub simulated_instructions: u64,
    pub simulated_memory: u64,
    pub modified_entries: Vec<LedgerEntryDiff>,
}

/// The outcome of simulating the restoration of archived entries.
#[derive(Clone, Debug)]
pub struct RestoreOpSimulationResult {
    pub transaction_data: TransactionData,
}

} // verus!

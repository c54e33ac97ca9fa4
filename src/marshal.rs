use vstd::prelude::*;

use crate::sim::{
    InvokeHostFunctionSimulationResult, LedgerEntryDiff, RestoreOpSimulationResult, TransactionData,
};

verus! {

/// An owned encoded record handed across the call boundary; an empty buffer
/// stands for null.
#[derive(Clone, Debug)]
pub struct CXdr {
    pub xdr: Vec<u8>,
}

/// An owned sequence of encoded records.
#[derive(Clone, Debug)]
pub struct CXdrVector {
    pub array: Vec<CXdr>,
}

/// The before and after states of one entry, each null when absent.
#[derive(Clone, Debug)]
pub struct CXdrDiff {
    pub before: CXdr,
    pub after: CXdr,
}

/// An owned sequence of entry diffs.
#[derive(Clone, Debug)]
pub struct CXdrDiffVector {
    pub array: Vec<CXdrDiff>,
}

pub open spec fn bytes_of_opt(v: Option<Vec<u8>>) -> Seq<u8> {
    match v {
        Some(b) => b@,
        None => Seq::empty(),
    }
}

pub open spec fn bytes_seq(v: Seq<Vec<u8>>) -> Seq<Seq<u8>> {
    v.map_values(|b: Vec<u8>| b@)
}

pub open spec fn cxdr_seq(v: CXdrVector) -> Seq<Seq<u8>> {
    v.array@.map_values(|c: CXdr| c.xdr@)
}

/// The pair of encodings a diff becomes.
pub open spec fn diff_view(d: LedgerEntryDiff) -> (Seq<u8>, Seq<u8>) {
    (bytes_of_opt(d.state_before), bytes_of_opt(d.state_after))
}

pub open spec fn cdiff_view(d: CXdrDiff) -> (Seq<u8>, Seq<u8>) {
    (d.before.xdr@, d.after.xdr@)
}

pub open spec fn diffs_seq(v: Seq<LedgerEntryDiff>) -> Seq<(Seq<u8>, Seq<u8>)> {
    v.map_values(|d: LedgerEntryDiff| diff_view(d))
}

pub open spec fn cdiffs_seq(v: CXdrDiffVector) -> Seq<(Seq<u8>, Seq<u8>)> {
    v.array@.map_values(|d: CXdrDiff| cdiff_view(d))
}

/// Copies an encoded record into an owned buffer.
pub fn xdr_to_c(v: &Vec<u8>) -> (r: CXdr)
    ensures
        r.xdr@ == v@,
{
    CXdr { xdr: v.clone() }
}

/// Turns an optional encoded record into a buffer, null when absent.
pub fn option_xdr_to_c(v: Option<&Vec<u8>>) -> (r: CXdr)
    ensures
        r.xdr@ == match v {
            Some(b) => b@,
            None => Seq::empty(),
        },
{
    match v {
        Some(b) => xdr_to_c(b),
        None => CXdr { xdr: Vec::new() },
    }
}

/// Turns a diff into its pair of buffers.
pub fn ledger_entry_diff_to_c(v: &LedgerEntryDiff) -> (r: CXdrDiff)
    ensures
        cdiff_view(r) == diff_view(*v),
{
    CXdrDiff { before: option_xdr_to_c(v.state_before.as_ref()), after: option_xdr_to_c(v.state_after.as_ref()) }
}

/// Copies a sequence of encoded records, keeping their order.
pub fn xdr_vec_to_c(v: &Vec<Vec<u8>>) -> (r: CXdrVector)
    ensures
        cxdr_seq(r) == bytes_seq(v@),
{
    let mut array: Vec<CXdr> = Vec::new();
    let mut i: usize = 0;
    while i < v.len()
        invariant
            i <= v@.len(),
            array@.len() == i,
            forall|j: int| 0 <= j < i ==> #[trigger] array@[j].xdr@ == v@[j]@,
        decreases v@.len() - i,
    {
        array.push(xdr_to_c(&v[i]));
        i = i + 1;
    }
    let r = CXdrVector { array };
    assert(cxdr_seq(r) =~= bytes_seq(v@));
    r
}

/// Copies a sequence of entry diffs, keeping their order.
pub fn ledger_entry_diff_vec_to_c(modified_entries: &Vec<LedgerEntryDiff>) -> (r: CXdrDiffVector)
    ensures
        cdiffs_seq(r) == diffs_seq(modified_entries@),
{
    let mut array: Vec<CXdrDiff> = Vec::new();
    let mut i: usize = 0;
    while i < modified_entries.len()
        invariant
            i <= modified_entries@.len(),
            array@.len() == i,
            forall|j: int|
                0 <= j < i ==> cdiff_view(#[trigger] array@[j]) == diff_view(modified_entries@[j]),
        decreases modified_entries@.len() - i,
    {
        array.push(ledger_entry_diff_to_c(&modified_entries[i]));
        i = i + 1;
    }
    let r = CXdrDiffVector { array };
    assert(cdiffs_seq(r) =~= diffs_seq(modified_entries@));
    r
}

/// The fixed-shape record a preflight call returns. An empty `error` means
/// success; absent records are empty buffers and absent counts are zero.
#[derive(Debug)]
pub struct CPreflightResult {
    pub error: String,
    pub auth: CXdrVector,
    pub result: CXdr,
    pub transaction_data: CXdr,
    pub min_fee: i64,
    pub events: CXdrVector,
    pub cpu_instructions: u64,
    pub memory_bytes: u64,
    pub ledger_entry_diff: CXdrDiffVector,
    pub pre_restore_transaction_data: CXdr,
    pub pre_restore_min_fee: i64,
}

/// The fee a primary footprint record charges: zero when there is none.
pub open spec fn fee_of(td: Option<TransactionData>) -> i64 {
    match td {
        Some(d) => d.resource_fee,
        None => 0,
    }
}

/// The encoding of an optional footprint record: empty when there is none.
pub open spec fn data_of(td: Option<TransactionData>) -> Seq<u8> {
    match td {
        Some(d) => d.xdr@,
        None => Seq::empty(),
    }
}

/// The restore-preamble fee: zero when no restore pass produced a result.
pub open spec fn pre_restore_fee_of(p: Option<RestoreOpSimulationResult>) -> i64 {
    match p {
        Some(r) => r.transaction_data.resource_fee,
        None => 0,
    }
}

/// The restore-preamble record: empty when no restore pass produced a result.
pub open spec fn pre_restore_data_of(p: Option<RestoreOpSimulationResult>) -> Seq<u8> {
    match p {
        Some(r) => r.transaction_data.xdr@,
        None => Seq::empty(),
    }
}

impl CPreflightResult {
    /// Holds the record carries nothing but its error string and the given
    /// primary and restore-preamble fields.
    pub open spec fn only_transaction_data(
        self,
        error: Seq<char>,
        td: Option<TransactionData>,
        p: Option<RestoreOpSimulationResult>,
    ) -> bool {
        &&& self.error@ == error
        &&& self.auth.array@.len() == 0
        &&& self.result.xdr@.len() == 0
        &&& self.transaction_data.xdr@ == data_of(td)
        &&& self.min_fee == fee_of(td)
        &&& self.events.array@.len() == 0
        &&& self.cpu_instructions == 0
        &&& self.memory_bytes == 0
        &&& self.ledger_entry_diff.array@.len() == 0
        &&& self.pre_restore_transaction_data.xdr@ == pre_restore_data_of(p)
        &&& self.pre_restore_min_fee == pre_restore_fee_of(p)
    }

    /// A record with the given error and every other field empty.
    pub fn from_error(error: String) -> (r: CPreflightResult)
        ensures
            r.only_transaction_data(error@, None, None),
    {
        CPreflightResult {
            error,
            auth: CXdrVector { array: Vec::new() },
            result: CXdr { xdr: Vec::new() },
            transaction_data: CXdr { xdr: Vec::new() },
            min_fee: 0,
            events: CXdrVector { array: Vec::new() },
            cpu_instructions: 0,
            memory_bytes: 0,
            ledger_entry_diff: CXdrDiffVector { array: Vec::new() },
            pre_restore_transaction_data: CXdr { xdr: Vec::new() },
            pre_restore_min_fee: 0,
        }
    }
}

/// The encoded value an invocation returned: empty when it failed.
pub open spec fn invoke_value_of(r: Result<Vec<u8>, String>) -> Seq<u8> {
    match r {
        Ok(v) => v@,
        Err(_) => Seq::empty(),
    }
}

/// Builds the record for an invocation from the engine's result, the
/// optional restore preamble, and the error string already decided on.
pub fn new_cpreflight_result_from_invoke_host_function(
    invoke_hf_result: InvokeHostFunctionSimulationResult,
    restore_preamble: Option<RestoreOpSimulationResult>,
    error: String,
) -> (r: CPreflightResult)
    ensures
        r.error@ == error@,
        cxdr_seq(r.auth) == bytes_seq(invoke_hf_result.auth@),
        r.result.xdr@ == invoke_value_of(invoke_hf_result.invoke_result),
        r.min_fee == fee_of(invoke_hf_result.transaction_data),
        r.transaction_data.xdr@ == data_of(invoke_hf_result.transaction_data),
        cxdr_seq(r.events) == bytes_seq(invoke_hf_result.diagnostic_events@),
        r.cpu_instructions == invoke_hf_result.simulated_instructions,
        r.memory_bytes == invoke_hf_result.simulated_memory,
        cdiffs_seq(r.ledger_entry_diff) == diffs_seq(invoke_hf_result.modified_entries@),
        r.pre_restore_min_fee == pre_restore_fee_of(restore_preamble),
        r.pre_restore_transaction_data.xdr@ == pre_restore_data_of(restore_preamble),
{
    let result_xdr = match &invoke_hf_result.invoke_result {
        Ok(v) => xdr_to_c(v),
        Err(_) => CXdr { xdr: Vec::new() },
    };
    let min_fee = match &invoke_hf_result.transaction_data {
        Some(d) => d.resource_fee,
        None => 0,
    };
    let transaction_data = match &invoke_hf_result.transaction_data {
        Some(d) => xdr_to_c(&d.xdr),
        None => CXdr { xdr: Vec::new() },
    };
    let mut result = CPreflightResult {
        error,
        auth: xdr_vec_to_c(&invoke_hf_result.auth),
        result: result_xdr,
        transaction_data,
        min_fee,
        events: xdr_vec_to_c(&invoke_hf_result.diagnostic_events),
        cpu_instructions: invoke_hf_result.simulated_instructions,
        memory_bytes: invoke_hf_result.simulated_memory,
        ledger_entry_diff: ledger_entry_diff_vec_to_c(&invoke_hf_result.modified_entries),
        pre_restore_transaction_data: CXdr { xdr: Vec::new() },
        pre_restore_min_fee: 0,
    };
    if let Some(p) = restore_preamble {
        result.pre_restore_min_fee = p.transaction_data.resource_fee;
        result.pre_restore_transaction_data = xdr_to_c(&p.transaction_data.xdr);
    }
    result
}

/// Builds the record for a footprint operation from its optional primary
/// footprint record, the optional restore preamble, and the error string.
pub fn new_cpreflight_result_from_transaction_data(
    transaction_data: Option<&TransactionData>,
    restore_preamble: Option<&RestoreOpSimulationResult>,
    error: String,
) -> (r: CPreflightResult)
    ensures
        r.only_transaction_data(
            error@,
            match transaction_data {
                Some(d) => Some(*d),
                None => None,
            },
            match restore_preamble {
                Some(p) => Some(*p),
                None => None,
            },
        ),
{
    let mut result = CPreflightResult::from_error(error);
    if let Some(d) = transaction_data {
        result.min_fee = d.resource_fee;
        result.transaction_data = xdr_to_c(&d.xdr);
    }
    if let Some(p) = restore_preamble {
        result.pre_restore_min_fee = p.transaction_data.resource_fee;
        result.pre_restore_transaction_data = xdr_to_c(&p.transaction_data.xdr);
    }
    result
}

} // verus!

use vstd::prelude::*;

use crate::dispatch::widened_additive_factor;
use crate::error::PreflightError;
use crate::marshal::{
    bytes_seq, cdiffs_seq, cxdr_seq, data_of, diffs_seq, fee_of, invoke_value_of, new_cpreflight_result_from_invoke_host_function,
    new_cpreflight_result_from_transaction_data, pre_restore_data_of, pre_restore_fee_of,
    CPreflightResult,
};
use crate::sim::{InvokeHostFunctionSimulationResult, RestoreOpSimulationResult, TransactionData};
use crate::storage::{failure_message, LedgerStorage};

verus! {

/// The message of a failed outcome, `None` for a success.
pub open spec fn failure_of<T>(outcome: Result<T, String>) -> Option<Seq<char>> {
    match outcome {
        Ok(_) => None,
        Err(e) => Some(e@),
    }
}

/// The message of a failed simulation: its own, or a fixed one when it has
/// none, so a failure never reads as success.
pub open spec fn simulation_failure_message(e: Seq<char>) -> Seq<char> {
    if e.len() == 0 {
        "simulation failed"@
    } else {
        e
    }
}

/// The one error string a call reports: a storage corruption first, then the
/// failure of the final outcome, else the empty string.
pub open spec fn chosen_error(internal: Option<Seq<char>>, failure: Option<Seq<char>>) -> Seq<char> {
    match internal {
        Some(m) => failure_message(m),
        None => match failure {
            Some(e) => simulation_failure_message(e),
            None => Seq::empty(),
        },
    }
}

/// The error string is empty exactly when the storage is sound and the final
/// outcome succeeded.
pub proof fn lemma_empty_error_means_success(
    internal: Option<Seq<char>>,
    failure: Option<Seq<char>>,
)
    ensures
        chosen_error(internal, failure).len() == 0 <==> (internal is None && failure is None),
{
    reveal_strlit("ledger storage is corrupt");
    reveal_strlit("simulation failed");
}

/// Decides the error string of a call from the storage's fatal-error slot
/// and the call's final outcome.
pub fn extract_error_string<T, A>(outcome: &Result<T, String>, storage: &LedgerStorage<A>) -> (r:
    String)
    ensures
        r@ == chosen_error(storage.internal_error_view(), failure_of(*outcome)),
{
    match storage.internal_error() {
        Some(m) => {
            if m.as_str().is_empty() {
                String::from_str("ledger storage is corrupt")
            } else {
                m
            }
        },
        None => match outcome {
            Ok(_) => String::new(),
            Err(e) => {
                if e.as_str().is_empty() {
                    String::from_str("simulation failed")
                } else {
                    e.clone()
                }
            },
        },
    }
}

/// The restore-pass result a caller gets to see: one that failed counts as
/// none.
pub open spec fn restore_preamble_of(
    outcome: Result<Option<RestoreOpSimulationResult>, String>,
) -> Option<RestoreOpSimulationResult> {
    match outcome {
        Ok(p) => p,
        Err(_) => None,
    }
}

/// Builds the record of a restore-footprint call from the outcome of its one
/// simulation pass; no restore preamble is ever attached.
pub fn preflight_restore_op<A>(
    simulation_result: Result<RestoreOpSimulationResult, String>,
    storage: &LedgerStorage<A>,
) -> (r: CPreflightResult)
    ensures
        r.only_transaction_data(
            chosen_error(storage.internal_error_view(), failure_of(simulation_result)),
            match simulation_result {
                Ok(p) => Some(p.transaction_data),
                Err(_) => None,
            },
            None,
        ),
{
    let error_str = extract_error_string(&simulation_result, storage);
    let transaction_data = match simulation_result {
        Ok(p) => Some(p.transaction_data),
        Err(_) => None,
    };
    new_cpreflight_result_from_transaction_data(transaction_data.as_ref(), None, error_str)
}

/// Builds the record of an extend-TTL call. `restore_result` is the outcome
/// of the restore pass, which runs only when the extension simulated; when it
/// did not, its failure is the final outcome and `restore_result` is unused.
pub fn preflight_extend_ttl_op<A>(
    simulation_result: Result<TransactionData, String>,
    restore_result: Result<Option<RestoreOpSimulationResult>, String>,
    storage: &LedgerStorage<A>,
) -> (r: CPreflightResult)
    ensures
        match simulation_result {
            Ok(td) => r.only_transaction_data(
                chosen_error(storage.internal_error_view(), failure_of(restore_result)),
                Some(td),
                restore_preamble_of(restore_result),
            ),
            Err(e) => r.only_transaction_data(
                chosen_error(storage.internal_error_view(), Some(e@)),
                None,
                None,
            ),
        },
{
    let (maybe_transaction_data, maybe_restore_result) = match simulation_result {
        Ok(td) => (Some(td), restore_result),
        Err(e) => (None, Err(e)),
    };
    let error_str = extract_error_string(&maybe_restore_result, storage);
    let preamble = match maybe_restore_result {
        Ok(p) => p,
        Err(_) => None,
    };
    new_cpreflight_result_from_transaction_data(
        maybe_transaction_data.as_ref(),
        preamble.as_ref(),
        error_str,
    )
}

/// The final outcome of an invocation: the restore pass when the invocation
/// succeeded, else the invocation's own failure.
pub open spec fn invoke_final_outcome(
    invoke_result: Result<Vec<u8>, String>,
    restore_result: Result<Option<RestoreOpSimulationResult>, String>,
) -> Result<Option<RestoreOpSimulationResult>, String> {
    match invoke_result {
        Ok(_) => restore_result,
        Err(e) => Err(e),
    }
}

/// Builds the record of an invoke-host-function call. `restore_result` is the
/// outcome of the restore pass, which runs only when the invocation itself
/// succeeded; otherwise the invocation's failure stands in its place.
pub fn preflight_invoke_hf_op<A>(
    invoke_hf_result: InvokeHostFunctionSimulationResult,
    restore_result: Result<Option<RestoreOpSimulationResult>, String>,
    storage: &LedgerStorage<A>,
) -> (r: CPreflightResult)
    ensures
        r.error@ == chosen_error(
            storage.internal_error_view(),
            failure_of(invoke_final_outcome(invoke_hf_result.invoke_result, restore_result)),
        ),
        cxdr_seq(r.auth) == bytes_seq(invoke_hf_result.auth@),
        r.result.xdr@ == invoke_value_of(invoke_hf_result.invoke_result),
        r.min_fee == fee_of(invoke_hf_result.transaction_data),
        r.transaction_data.xdr@ == data_of(invoke_hf_result.transaction_data),
        cxdr_seq(r.events) == bytes_seq(invoke_hf_result.diagnostic_events@),
        cdiffs_seq(r.ledger_entry_diff) == diffs_seq(invoke_hf_result.modified_entries@),
        r.cpu_instructions == invoke_hf_result.simulated_instructions,
        r.memory_bytes == invoke_hf_result.simulated_memory,
        r.pre_restore_min_fee == pre_restore_fee_of(
            restore_preamble_of(invoke_final_outcome(invoke_hf_result.invoke_result, restore_result)),
        ),
        r.pre_restore_transaction_data.xdr@ == pre_restore_data_of(
            restore_preamble_of(invoke_final_outcome(invoke_hf_result.invoke_result, restore_result)),
        ),
{
    let maybe_restore_result = match &invoke_hf_result.invoke_result {
        Ok(_) => restore_result,
        Err(e) => Err(e.clone()),
    };
    let error_str = extract_error_string(&maybe_restore_result, storage);
    let preamble = match maybe_restore_result {
        Ok(p) => p,
        Err(_) => None,
    };
    new_cpreflight_result_from_invoke_host_function(invoke_hf_result, preamble, error_str)
}

/// Builds the record of a call rejected for its input: it carries the
/// error's message and nothing else.
pub fn preflight_error_result(e: PreflightError) -> (r: CPreflightResult)
    ensures
        r.error@ == e.spec_message(),
        r.error@.len() > 0,
        r.only_transaction_data(e.spec_message(), None, None),
{
    CPreflightResult::from_error(e.message())
}

/// When every simulation succeeds and nothing needed restoring, no restore
/// preamble is attached to any of the three kinds of record, and the minimum
/// fee is the primary record's fee, which is never negative.
pub proof fn lemma_no_restore_no_preamble(invoke_value: Vec<u8>, td: TransactionData)
    requires
        td.wf(),
    ensures
        pre_restore_fee_of(
            restore_preamble_of(invoke_final_outcome(Ok(invoke_value), Ok(None))),
        ) == 0,
        pre_restore_data_of(
            restore_preamble_of(invoke_final_outcome(Ok(invoke_value), Ok(None))),
        ).len() == 0,
        pre_restore_fee_of(restore_preamble_of(Ok(None))) == 0,
        pre_restore_data_of(restore_preamble_of(Ok(None))).len() == 0,
        pre_restore_fee_of(None) == 0,
        pre_restore_data_of(None).len() == 0,
        fee_of(Some(td)) >= 0,
        chosen_error(None, failure_of::<Option<RestoreOpSimulationResult>>(Ok(None))).len() == 0,
{
}

/// When the primary simulation succeeds and the restore pass produces a
/// result, the record carries that result's fee and a non-null footprint
/// record as its restore preamble.
pub proof fn lemma_restore_preamble_attached(
    invoke_value: Vec<u8>,
    preamble: RestoreOpSimulationResult,
)
    requires
        preamble.transaction_data.wf(),
    ensures
        pre_restore_fee_of(
            restore_preamble_of(invoke_final_outcome(Ok(invoke_value), Ok(Some(preamble)))),
        ) == preamble.transaction_data.resource_fee,
        pre_restore_data_of(
            restore_preamble_of(invoke_final_outcome(Ok(invoke_value), Ok(Some(preamble)))),
        ).len() > 0,
        pre_restore_fee_of(restore_preamble_of(Ok(Some(preamble))))
            == preamble.transaction_data.resource_fee,
        pre_restore_data_of(restore_preamble_of(Ok(Some(preamble)))).len() > 0,
{
}

/// The charged fields of an invocation's record depend only on the primary
/// footprint record and the final outcome: two simulations that agree on
/// those, whatever their seeds made of the rest, give the same fees and
/// footprint records.
pub proof fn lemma_charged_fields_determined(
    first: InvokeHostFunctionSimulationResult,
    second: InvokeHostFunctionSimulationResult,
    restore_result: Result<Option<RestoreOpSimulationResult>, String>,
)
    requires
        first.transaction_data == second.transaction_data,
        first.invoke_result is Ok <==> second.invoke_result is Ok,
        first.invoke_result is Err ==> first.invoke_result == second.invoke_result,
    ensures
        fee_of(first.transaction_data) == fee_of(second.transaction_data),
        data_of(first.transaction_data) == data_of(second.transaction_data),
        invoke_final_outcome(first.invoke_result, restore_result) == invoke_final_outcome(
            second.invoke_result,
            restore_result,
        ),
{
}

/// A larger instruction leeway never narrows the additive factor, and no
/// leeway narrows it below the default.
pub proof fn lemma_leeway_monotone(default_additive_factor: u32, smaller: u32, larger: u32)
    requires
        smaller <= larger,
    ensures
        widened_additive_factor(default_additive_factor, smaller) <= widened_additive_factor(
            default_additive_factor,
            larger,
        ),
        widened_additive_factor(default_additive_factor, smaller) >= default_additive_factor,
        widened_additive_factor(default_additive_factor, smaller) >= smaller,
{
}

} // verus!

use vstd::prelude::*;

use crate::auth::AuthMode;
use crate::dispatch::{
    prepare_invoke_hf_op, preflight_footprint_ttl_op, CResourceConfig, FootprintTtlPlan,
    InvokeSetup, LedgerFootprint, OperationBody,
};
use crate::error::PreflightError;
use crate::ledger::{fill_ledger_info, CLedgerInfo, LedgerInfo};
use crate::marshal::CPreflightResult;
use crate::preflight::{
    preflight_error_result, preflight_extend_ttl_op, preflight_invoke_hf_op, preflight_restore_op,
};
use crate::restore::AutoRestoringSnapshot;
use crate::sim::{InvokeHostFunctionSimulationResult, RestoreOpSimulationResult, TransactionData};
use crate::storage::LedgerStorage;

verus! {

/// Relies on rand::thread_rng and rand::Rng::gen: 32 bytes from the
/// thread-local generator, of which nothing is promised.
#[verifier::external_body]
fn random_seed() -> [u8; 32] {
    rand::Rng::gen(&mut rand::thread_rng())
}


/// One release of the execution engine: its codec, its network config and its
/// simulation entry points, over ledger keys `K`, a ledger accessor `A` and
/// decoded invocations `Op`. Nothing is assumed of what it returns.
pub trait Engine<K, A, Op> {
    /// The invocation, and its authorization entries in their encoding.
    fn decode_invoke_op(&self, xdr: &Vec<u8>) -> Result<(Op, Vec<Vec<u8>>), String>;

    fn decode_footprint_op(&self, op_body: &Vec<u8>, footprint: &Vec<u8>) -> Result<
        (OperationBody, LedgerFootprint<K>),
        String,
    >;

    /// Loads the network config from the ledger at the given bucket-list size,
    /// and gives the default instruction additive factor of the adjustment.
    fn load_network_config(&self, storage: &mut LedgerStorage<A>, bucket_list_size: u64) -> Result<
        u32,
        String,
    >;

    fn simulate_invoke(
        &self,
        snapshot: &mut AutoRestoringSnapshot<K, A>,
        ledger_info: &LedgerInfo,
        op: Op,
        setup: InvokeSetup,
        source_account: &Vec<u8>,
        enable_debug: bool,
    ) -> Result<InvokeHostFunctionSimulationResult, String>;

    fn simulate_extend(
        &self,
        snapshot: &mut AutoRestoringSnapshot<K, A>,
        ledger_info: &LedgerInfo,
        keys: &Vec<K>,
        extend_to: u32,
    ) -> Result<TransactionData, String>;

    fn simulate_restore_op(
        &self,
        storage: &mut LedgerStorage<A>,
        ledger_info: &LedgerInfo,
        keys: &Vec<K>,
    ) -> Result<RestoreOpSimulationResult, String>;

    /// Simulates restoring the keys the primary pass found archived.
    fn simulate_restore_keys(
        &self,
        storage: &mut LedgerStorage<A>,
        ledger_info: &LedgerInfo,
        keys: Vec<K>,
    ) -> Result<RestoreOpSimulationResult, String>;
}

/// Runs the restore pass over the keys the primary pass found archived; it is
/// skipped, with no result, when there are none.
pub fn restore_pass<K, A, Op, En: Engine<K, A, Op>>(
    engine: &En,
    storage: &mut LedgerStorage<A>,
    ledger_info: &LedgerInfo,
    keys: Option<Vec<K>>,
) -> (r: Result<Option<RestoreOpSimulationResult>, String>)
    ensures
        keys is None ==> r == Ok::<Option<RestoreOpSimulationResult>, String>(None),
        keys is None ==> *final(storage) == *old(storage),
        keys is Some ==> r is Err || r matches Ok(Some(_)),
{
    match keys {
        None => Ok(None),
        Some(k) => match engine.simulate_restore_keys(storage, ledger_info, k) {
            Ok(p) => Ok(Some(p)),
            Err(e) => Err(e),
        },
    }
}

/// Preflights an invocation: decodes it, loads the network config, widens the
/// adjustment by the leeway, simulates, and runs the restore pass when the
/// invocation succeeded. `Err` is a call-level failure (a decoding or the
/// network config); a caller-input error is a record carrying its message.
pub fn preflight_invoke_hf<K, A, Op, En: Engine<K, A, Op>>(
    engine: &En,
    accessor: A,
    invoke_hf_op: &Vec<u8>,
    source_account: &Vec<u8>,
    c_ledger_info: &CLedgerInfo,
    resource_config: CResourceConfig,
    enable_debug: bool,
    auth_mode: u32,
) -> (r: Result<CPreflightResult, String>)
    ensures
        auth_mode > 2 ==> (r matches Ok(rec) && rec.error@ == PreflightError::InvalidAuthMode(
            auth_mode,
        ).spec_message() && rec.only_transaction_data(rec.error@, None, None)),
        auth_mode <= 2 && resource_config.instruction_leeway > u32::MAX ==> (r is Err || (r matches Ok(rec)
            && rec.error@ == PreflightError::LeewayOutOfRange(
            resource_config.instruction_leeway,
        ).spec_message() && rec.only_transaction_data(rec.error@, None, None))),
{
    let auth_mode = match AuthMode::from_u32(auth_mode) {
        Ok(m) => m,
        Err(e) => {
            return Ok(preflight_error_result(e));
        },
    };
    let (op, auth_entries) = engine.decode_invoke_op(invoke_hf_op)?;
    let mut storage = LedgerStorage::new(accessor);
    let default_additive_factor = engine.load_network_config(
        &mut storage,
        c_ledger_info.bucket_list_size,
    )?;
    let ledger_info = fill_ledger_info(c_ledger_info);
    let setup = match prepare_invoke_hf_op(
        default_additive_factor,
        resource_config,
        auth_mode,
        auth_entries,
        random_seed(),
    ) {
        Ok(s) => s,
        Err(e) => {
            return Ok(preflight_error_result(e));
        },
    };
    let mut snapshot = AutoRestoringSnapshot::new(storage, ledger_info.sequence_number);
    let invoke_hf_result = engine.simulate_invoke(
        &mut snapshot,
        &ledger_info,
        op,
        setup,
        source_account,
        enable_debug,
    )?;
    let (keys, mut storage) = snapshot.take_restore_keys();
    let restore_result = match &invoke_hf_result.invoke_result {
        Ok(_) => restore_pass(engine, &mut storage, &ledger_info, keys),
        Err(e) => Err(e.clone()),
    };
    Ok(preflight_invoke_hf_op(invoke_hf_result, restore_result, &storage))
}

/// Preflights an extend-TTL or restore-footprint operation. `Err` is a
/// call-level failure (a decoding or the network config); any other
/// operation gives a record that names it, and no record of this path
/// carries authorization entries, events, diffs or counts.
pub fn preflight_footprint_ttl<K, A, Op, En: Engine<K, A, Op>>(
    engine: &En,
    accessor: A,
    op_body: &Vec<u8>,
    footprint: &Vec<u8>,
    c_ledger_info: &CLedgerInfo,
) -> (r: Result<CPreflightResult, String>)
    ensures
        r matches Ok(rec) ==> rec.auth.array@.len() == 0 && rec.result.xdr@.len() == 0
            && rec.events.array@.len() == 0 && rec.cpu_instructions == 0 && rec.memory_bytes == 0
            && rec.ledger_entry_diff.array@.len() == 0,
{
    let (op_body, footprint) = engine.decode_footprint_op(op_body, footprint)?;
    if !op_body.is_wf() {
        return Err(String::from_str("malformed operation body"));
    }
    let mut storage = LedgerStorage::new(accessor);
    engine.load_network_config(&mut storage, c_ledger_info.bucket_list_size)?;
    let ledger_info = fill_ledger_info(c_ledger_info);
    let plan = match preflight_footprint_ttl_op(op_body, footprint) {
        Ok(p) => p,
        Err(e) => {
            return Ok(preflight_error_result(e));
        },
    };
    match plan {
        FootprintTtlPlan::Extend { keys_to_extend, extend_to } => {
            let mut snapshot = AutoRestoringSnapshot::new(storage, ledger_info.sequence_number);
            let simulation_result = engine.simulate_extend(
                &mut snapshot,
                &ledger_info,
                &keys_to_extend,
                extend_to,
            );
            let (keys, mut storage) = snapshot.take_restore_keys();
            let restore_result = match &simulation_result {
                Ok(_) => restore_pass(engine, &mut storage, &ledger_info, keys),
                Err(e) => Err(e.clone()),
            };
            Ok(preflight_extend_ttl_op(simulation_result, restore_result, &storage))
        },
        FootprintTtlPlan::Restore { keys_to_restore } => {
            let simulation_result = engine.simulate_restore_op(
                &mut storage,
                &ledger_info,
                &keys_to_restore,
            );
            Ok(preflight_restore_op(simulation_result, &storage))
        },
    }
}



} // verus!

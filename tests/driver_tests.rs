use std::collections::BTreeMap;

use preflight::dispatch::{CResourceConfig, InvokeSetup, LedgerFootprint, OperationBody};
use preflight::driver::{
    preflight_footprint_ttl, preflight_invoke_hf, Engine,
};
use preflight::error::OperationType;
use preflight::ledger::{CLedgerInfo, LedgerInfo};
use preflight::restore::AutoRestoringSnapshot;
use preflight::sim::{
    InvokeHostFunctionSimulationResult, LedgerEntryDiff, RestoreOpSimulationResult, TransactionData,
};
use preflight::storage::{LedgerAccessor, LedgerStorage};

/// Keys are single bytes; an entry whose first byte is 0xff fails to decode.
struct Ledger {
    entries: BTreeMap<u8, (Vec<u8>, Option<u32>)>,
}

impl LedgerAccessor<u8, Vec<u8>> for Ledger {
    fn encode_key(&self, key: &u8) -> Result<Vec<u8>, String> {
        Ok(vec![*key])
    }

    fn get_xdr(&self, key_xdr: &Vec<u8>) -> Option<(Vec<u8>, Option<u32>)> {
        self.entries.get(&key_xdr[0]).cloned()
    }

    fn decode_entry(&self, xdr: Vec<u8>) -> Result<Vec<u8>, String> {
        if xdr.first() == Some(&0xff) {
            Err("corrupt ledger entry".to_string())
        } else {
            Ok(xdr)
        }
    }
}

fn ledger(entries: Vec<(u8, Vec<u8>, Option<u32>)>) -> Ledger {
    Ledger { entries: entries.into_iter().map(|(k, v, t)| (k, (v, t))).collect() }
}

/// An engine whose invocation reads every key it is given and charges 100
/// per key read; restoring costs 40 per key, extending 10 per key.
struct TestEngine;

fn read_all(snapshot: &mut AutoRestoringSnapshot<u8, Ledger>, keys: &[u8]) -> Result<Vec<LedgerEntryDiff>, String> {
    let mut diffs = Vec::new();
    for k in keys {
        match snapshot.get::<Vec<u8>>(*k) {
            Ok(Some((e, _))) => diffs.push(LedgerEntryDiff { state_before: Some(e.clone()), state_after: Some(e) }),
            Ok(None) => {}
            Err(_) => return Err("storage failure".to_string()),
        }
    }
    Ok(diffs)
}

impl Engine<u8, Ledger, Vec<u8>> for TestEngine {
    fn decode_invoke_op(&self, xdr: &Vec<u8>) -> Result<(Vec<u8>, Vec<Vec<u8>>), String> {
        if xdr.is_empty() {
            Err("cannot decode invocation".to_string())
        } else {
            Ok((xdr.clone(), vec![]))
        }
    }

    fn decode_footprint_op(&self, op_body: &Vec<u8>, footprint: &Vec<u8>) -> Result<(OperationBody, LedgerFootprint<u8>), String> {
        let body = match op_body.as_slice() {
            [0, extend_to] => OperationBody::ExtendFootprintTtl { extend_to: *extend_to as u32 },
            [1] => OperationBody::RestoreFootprint,
            [2] => OperationBody::Other(OperationType::Payment),
            [3] => OperationBody::Other(OperationType::RestoreFootprint),
            _ => return Err("cannot decode operation".to_string()),
        };
        let split = footprint.iter().position(|b| *b == 0xfe).unwrap_or(footprint.len());
        let read_write = if split < footprint.len() { footprint[split + 1..].to_vec() } else { vec![] };
        Ok((body, LedgerFootprint { read_only: footprint[..split].to_vec(), read_write }))
    }

    fn load_network_config(&self, _storage: &mut LedgerStorage<Ledger>, _bucket_list_size: u64) -> Result<u32, String> {
        Ok(50_000)
    }

    fn simulate_invoke(
        &self,
        snapshot: &mut AutoRestoringSnapshot<u8, Ledger>,
        _ledger_info: &LedgerInfo,
        op: Vec<u8>,
        setup: InvokeSetup,
        _source_account: &Vec<u8>,
        _enable_debug: bool,
    ) -> Result<InvokeHostFunctionSimulationResult, String> {
        let invoke_result = read_all(snapshot, &op);
        let diffs = invoke_result.clone().unwrap_or_default();
        let fee = 100 * op.len() as i64 + setup.instruction_additive_factor as i64 / 1000;
        Ok(InvokeHostFunctionSimulationResult {
            auth: vec![],
            invoke_result: invoke_result.map(|_| vec![1]),
            transaction_data: Some(TransactionData { resource_fee: fee, xdr: vec![0xaa] }),
            diagnostic_events: vec![],
            simulated_instructions: 1000,
            simulated_memory: 2000,
            modified_entries: diffs,
        })
    }

    fn simulate_extend(&self, snapshot: &mut AutoRestoringSnapshot<u8, Ledger>, _ledger_info: &LedgerInfo, keys: &Vec<u8>, _extend_to: u32) -> Result<TransactionData, String> {
        read_all(snapshot, keys)?;
        Ok(TransactionData { resource_fee: 10 * keys.len() as i64, xdr: vec![0xbb] })
    }

    fn simulate_restore_op(&self, _storage: &mut LedgerStorage<Ledger>, _ledger_info: &LedgerInfo, keys: &Vec<u8>) -> Result<RestoreOpSimulationResult, String> {
        Ok(RestoreOpSimulationResult { transaction_data: TransactionData { resource_fee: 40 * keys.len() as i64, xdr: vec![0xcc] } })
    }

    fn simulate_restore_keys(&self, _storage: &mut LedgerStorage<Ledger>, _ledger_info: &LedgerInfo, keys: Vec<u8>) -> Result<RestoreOpSimulationResult, String> {
        assert!(!keys.is_empty());
        Ok(RestoreOpSimulationResult { transaction_data: TransactionData { resource_fee: 40 * keys.len() as i64, xdr: vec![0xdd] } })
    }
}

fn info() -> CLedgerInfo {
    CLedgerInfo {
        network_passphrase: "Standalone Network ; February 2017".to_string(),
        sequence_number: 100,
        protocol_version: 22,
        timestamp: 1,
        base_reserve: 1,
        bucket_list_size: 0,
    }
}

fn rc(leeway: u64) -> CResourceConfig {
    CResourceConfig { instruction_leeway: leeway }
}

#[test]
fn end_to_end_invoke_restores_expired_key() {
    let l = ledger(vec![(1, vec![10], None), (2, vec![20], Some(50))]);
    let r = preflight_invoke_hf(&TestEngine, l, &vec![1, 2], &vec![], &info(), rc(0), false, 1).unwrap();
    assert_eq!(r.error, "");
    assert_eq!(r.ledger_entry_diff.array.len(), 1);
    assert_eq!(r.ledger_entry_diff.array[0].before.xdr, vec![10]);
    assert!(r.pre_restore_min_fee > 0);
    assert_eq!(r.pre_restore_min_fee, 40);
    assert_eq!(r.pre_restore_transaction_data.xdr, vec![0xdd]);
    assert!(r.min_fee >= 0);
    assert_eq!(r.min_fee, 250);
}

#[test]
fn end_to_end_extend_with_empty_footprint() {
    let r = preflight_footprint_ttl(&TestEngine, ledger(vec![]), &vec![0, 30], &vec![], &info()).unwrap();
    assert_eq!(r.error, "");
    assert_eq!(r.min_fee, 0);
    assert_eq!(r.pre_restore_min_fee, 0);
    assert!(r.pre_restore_transaction_data.xdr.is_empty());
}

#[test]
fn end_to_end_restore_on_live_keys() {
    let l = ledger(vec![(1, vec![10], Some(500)), (2, vec![20], Some(600))]);
    let r = preflight_footprint_ttl(&TestEngine, l, &vec![1], &vec![0xfe, 1, 2], &info()).unwrap();
    assert_eq!(r.error, "");
    assert_eq!(r.transaction_data.xdr, vec![0xcc]);
    assert_eq!(r.min_fee, 80);
    assert_eq!(r.pre_restore_min_fee, 0);
    assert!(r.pre_restore_transaction_data.xdr.is_empty());
}

#[test]
fn end_to_end_extend_restores_archived_read_key() {
    let l = ledger(vec![(1, vec![10], Some(99)), (2, vec![20], Some(100))]);
    let r = preflight_footprint_ttl(&TestEngine, l, &vec![0, 30], &vec![1, 2], &info()).unwrap();
    assert_eq!(r.error, "");
    assert_eq!(r.min_fee, 20);
    assert_eq!(r.pre_restore_min_fee, 40);
    assert_eq!(r.pre_restore_transaction_data.xdr, vec![0xdd]);
}

#[test]
fn end_to_end_payment_is_unsupported() {
    let r = preflight_footprint_ttl(&TestEngine, ledger(vec![]), &vec![2], &vec![1], &info()).unwrap();
    assert!(!r.error.is_empty());
    assert!(r.error.contains("'Payment'"));
    assert!(r.transaction_data.xdr.is_empty());
    assert_eq!(r.min_fee, 0);
}

#[test]
fn end_to_end_corrupt_entry_is_reported() {
    let l = ledger(vec![(1, vec![0xff], None), (2, vec![20], None)]);
    let r = preflight_invoke_hf(&TestEngine, l, &vec![1, 2], &vec![], &info(), rc(0), false, 0).unwrap();
    assert_eq!(r.error, "corrupt ledger entry");
    assert_eq!(r.pre_restore_min_fee, 0);
}

#[test]
fn end_to_end_same_inputs_same_fees() {
    let run = || {
        let l = ledger(vec![(1, vec![10], None), (2, vec![20], Some(50))]);
        preflight_invoke_hf(&TestEngine, l, &vec![1, 2], &vec![], &info(), rc(0), false, 2).unwrap()
    };
    let (a, b) = (run(), run());
    assert_eq!(a.min_fee, b.min_fee);
    assert_eq!(a.transaction_data.xdr, b.transaction_data.xdr);
    assert_eq!(a.pre_restore_min_fee, b.pre_restore_min_fee);
    assert_eq!(a.pre_restore_transaction_data.xdr, b.pre_restore_transaction_data.xdr);
}

#[test]
fn end_to_end_leeway_never_lowers_the_fee() {
    let fee = |leeway: u64| {
        preflight_invoke_hf(&TestEngine, ledger(vec![]), &vec![1], &vec![], &info(), rc(leeway), false, 1).unwrap().min_fee
    };
    assert_eq!(fee(0), 150);
    assert_eq!(fee(10), 150);
    assert_eq!(fee(2_000_000), 2100);
    assert!(fee(2_000_000) >= fee(0));
}

#[test]
fn end_to_end_bad_inputs() {
    let r = preflight_invoke_hf(&TestEngine, ledger(vec![]), &vec![1], &vec![], &info(), rc(0), false, 7).unwrap();
    assert_eq!(r.error, "invalid AuthMode value");
    let r = preflight_invoke_hf(&TestEngine, ledger(vec![]), &vec![1], &vec![], &info(), rc(1 << 33), false, 0).unwrap();
    assert_eq!(r.error, "out of range integral type conversion attempted");
    let e = preflight_invoke_hf(&TestEngine, ledger(vec![]), &vec![], &vec![], &info(), rc(0), false, 0);
    assert_eq!(e.err(), Some("cannot decode invocation".to_string()));
    let e = preflight_footprint_ttl(&TestEngine, ledger(vec![]), &vec![9], &vec![], &info());
    assert_eq!(e.err(), Some("cannot decode operation".to_string()));
}

#[test]
fn end_to_end_malformed_body_is_a_call_failure() {
    let e = preflight_footprint_ttl(&TestEngine, ledger(vec![]), &vec![3], &vec![], &info());
    assert_eq!(e.err(), Some("malformed operation body".to_string()));
}

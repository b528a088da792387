use revm_ffi::adapter::StateHost;
use revm_ffi::commit::{AccountChange, SlotChange};
use revm_ffi::config::{Hardfork, RevmConfigFFI};
use revm_ffi::error::BridgeError;
use revm_ffi::instance::{ExecutionInstance, Phase, TxKind, DEFAULT_GAS_PRICE};
use revm_ffi::outcome::ExecutionOutcome;
use revm_ffi::wire::{FFIAccountInfo, FFIAddress, FFIHash, FFIU256};
use std::collections::HashMap;

/// Keeps state in maps; every call answers with `fail` when it is set.
#[derive(Default)]
struct MapHost {
    accounts: HashMap<[u8; 20], FFIAccountInfo>,
    storage: HashMap<([u8; 20], [u8; 32]), FFIU256>,
    writes: usize,
    fail: Option<i32>,
}

impl StateHost for MapHost {
    fn read_account(&self, _h: usize, a: FFIAddress) -> (FFIAccountInfo, i32) {
        if let Some(s) = self.fail {
            return (FFIAccountInfo { balance: FFIU256::zero(), nonce: 0, code_hash: FFIHash::zero() }, s);
        }
        match self.accounts.get(&a.bytes) {
            Some(i) => (*i, 0),
            None => (FFIAccountInfo { balance: FFIU256::zero(), nonce: 0, code_hash: FFIHash::zero() }, 1),
        }
    }
    fn read_storage(&self, _h: usize, a: FFIAddress, s: FFIHash) -> (FFIU256, i32) {
        (self.storage.get(&(a.bytes, s.bytes)).copied().unwrap_or(FFIU256::zero()), self.fail.unwrap_or(0))
    }
    fn read_block_hash(&self, _h: usize, _n: u64) -> (FFIHash, i32) {
        (FFIHash::zero(), 0)
    }
    fn read_code(&self, _h: usize, _c: FFIHash) -> (Vec<u8>, i32) {
        (Vec::new(), 1)
    }
    fn write_account(&mut self, _h: usize, a: FFIAddress, i: FFIAccountInfo) -> i32 {
        if let Some(s) = self.fail {
            return s;
        }
        self.writes += 1;
        self.accounts.insert(a.bytes, i);
        0
    }
    fn write_storage(&mut self, _h: usize, a: FFIAddress, s: FFIHash, v: FFIU256) -> i32 {
        if let Some(st) = self.fail {
            return st;
        }
        self.writes += 1;
        self.storage.insert((a.bytes, s.bytes), v);
        0
    }
}

const A: &str = "0x71562b71999873DB5b286dF957af199Ec94617F7";
const B: &str = "0x000000000000000000000000000000000000aaaa";

fn word(low: &[u8]) -> FFIU256 {
    let mut bytes = [0u8; 32];
    bytes[32 - low.len()..].copy_from_slice(low);
    FFIU256 { bytes }
}

fn berlin() -> ExecutionInstance {
    let cfg = RevmConfigFFI { spec_id: 11, disable_eip3607: true, ..RevmConfigFFI::default() };
    ExecutionInstance::new(7, &cfg).unwrap()
}

fn addr_bytes(s: &str) -> [u8; 20] {
    revm_ffi::hexfmt::hex_to_address(s).unwrap().bytes
}

#[test]
fn new_binds_handle_and_configuration() {
    let inst = berlin();
    assert_eq!(inst.database().handle(), 7);
    assert_eq!(inst.config().hardfork, Hardfork::Berlin);
    assert_eq!(inst.chain_id(), 1);
    assert_eq!(inst.phase(), Phase::Configured);
    assert!(inst.staged_transaction().is_none());
    assert!(inst.last_error().is_none());
}

#[test]
fn new_rejects_unknown_hardfork() {
    let cfg = RevmConfigFFI { spec_id: 77, ..RevmConfigFFI::default() };
    assert!(matches!(ExecutionInstance::new(1, &cfg), Err(BridgeError::UnsupportedHardfork(77))));
}

#[test]
fn set_transaction_stages_every_field() {
    let mut inst = berlin();
    inst.set_transaction(A, Some(B), Some("0x1"), vec![], 60000, Some("0x1"), 0).unwrap();
    assert_eq!(inst.phase(), Phase::TransactionSet);
    let tx = inst.staged_transaction().as_ref().unwrap();
    assert_eq!(tx.caller.bytes, addr_bytes(A));
    assert_eq!(tx.kind, TxKind::Call(FFIAddress { bytes: addr_bytes(B) }));
    assert_eq!(tx.value, word(&[1]));
    assert!(tx.data.is_empty());
    assert_eq!(tx.gas_limit, 60000);
    assert_eq!(tx.gas_price, 1);
    assert_eq!(tx.nonce, 0);
    assert_eq!(tx.chain_id, None);
}

#[test]
fn set_transaction_defaults() {
    let mut inst = berlin();
    inst.set_transaction(A, None, None, vec![0x60, 0x00], 100, None, 3).unwrap();
    let tx = inst.staged_transaction().as_ref().unwrap();
    assert_eq!(tx.kind, TxKind::Create);
    assert_eq!(tx.value, FFIU256::zero());
    assert_eq!(tx.data, vec![0x60, 0x00]);
    assert_eq!(tx.gas_price, DEFAULT_GAS_PRICE);
    assert_eq!(tx.nonce, 3);
    let huge = format!("0x1{}", "0".repeat(32));
    inst.set_transaction(A, None, None, vec![], 100, Some(&huge), 0).unwrap();
    assert_eq!(inst.staged_transaction().as_ref().unwrap().gas_price, DEFAULT_GAS_PRICE);
}

#[test]
fn set_transaction_rejects_bad_text_and_records_it() {
    let mut inst = berlin();
    assert_eq!(inst.set_transaction("0x12", Some(B), None, vec![], 1, None, 0), Err(BridgeError::InvalidAddressLength));
    assert_eq!(inst.last_error(), &Some(BridgeError::InvalidAddressLength));
    assert_eq!(inst.phase(), Phase::Configured);
    assert!(inst.staged_transaction().is_none());
    let bad_to = format!("0x{}", "g".repeat(40));
    assert_eq!(inst.set_transaction(A, Some(&bad_to), None, vec![], 1, None, 0), Err(BridgeError::InvalidHexEncoding));
    assert_eq!(inst.set_transaction(A, Some(B), Some("0xqq"), vec![], 1, None, 0), Err(BridgeError::InvalidIntegerEncoding));
    assert_eq!(inst.set_transaction(A, Some(B), None, vec![], 1, Some("nope"), 0), Err(BridgeError::InvalidIntegerEncoding));
    inst.set_transaction(A, Some(B), None, vec![], 1, None, 0).unwrap();
    assert!(inst.last_error().is_none());
}

#[test]
fn check_staged_requires_a_transaction() {
    let mut inst = berlin();
    assert_eq!(inst.check_staged(), Err(BridgeError::NoTransaction));
    assert_eq!(inst.last_error(), &Some(BridgeError::NoTransaction));
    inst.set_transaction(A, Some(B), None, vec![], 1, None, 0).unwrap();
    assert_eq!(inst.check_staged(), Ok(()));
}

#[test]
fn prepare_call_reads_nonce_fresh() {
    let mut host = MapHost::default();
    let mut inst = berlin();
    inst.set_nonce(&mut host, A, 5).unwrap();
    inst.prepare_call(&host, A, B, Some("0x10"), vec![1, 2], 90000, DEFAULT_GAS_PRICE).unwrap();
    let tx = inst.staged_transaction().as_ref().unwrap();
    assert_eq!(tx.nonce, 5);
    assert_eq!(tx.value, word(&[0x10]));
    assert_eq!(tx.data, vec![1, 2]);
    assert_eq!(tx.gas_limit, 90000);
    assert_eq!(tx.gas_price, DEFAULT_GAS_PRICE);
    assert_eq!(tx.chain_id, Some(1));
    inst.set_nonce(&mut host, A, 6).unwrap();
    inst.prepare_call(&host, A, B, None, vec![], 90000, DEFAULT_GAS_PRICE).unwrap();
    let tx = inst.staged_transaction().as_ref().unwrap();
    assert_eq!(tx.nonce, 6);
    assert_eq!(tx.value, FFIU256::zero());
    inst.prepare_call(&host, A, B, None, vec![], 90000, 0).unwrap();
    assert_eq!(inst.staged_transaction().as_ref().unwrap().gas_price, 0);
}

#[test]
fn prepare_call_reports_failed_read() {
    let host = MapHost { fail: Some(2), ..MapHost::default() };
    let mut inst = berlin();
    let r = inst.prepare_call(&host, A, B, None, vec![], 1, DEFAULT_GAS_PRICE);
    assert!(matches!(r, Err(BridgeError::HostCallFailure(_))));
    assert!(matches!(inst.last_error(), Some(BridgeError::HostCallFailure(_))));
    assert!(inst.staged_transaction().is_none());
    assert_eq!(inst.prepare_call(&host, "0x1", B, None, vec![], 1, DEFAULT_GAS_PRICE), Err(BridgeError::InvalidAddressLength));
}

#[test]
fn prepare_deploy_builds_creation() {
    let mut host = MapHost::default();
    let mut inst = berlin();
    inst.set_nonce(&mut host, A, 2).unwrap();
    inst.prepare_deploy(&host, A, vec![0x60, 0x80], 1_000_000).unwrap();
    let tx = inst.staged_transaction().as_ref().unwrap();
    assert_eq!(tx.kind, TxKind::Create);
    assert_eq!(tx.nonce, 2);
    assert_eq!(tx.value, FFIU256::zero());
    assert_eq!(tx.data, vec![0x60, 0x80]);
    assert_eq!(tx.gas_limit, 1_000_000);
}

#[test]
fn missing_account_reads_as_empty() {
    let host = MapHost::default();
    let mut inst = berlin();
    assert_eq!(inst.get_balance(&host, A).unwrap(), "0x0");
    assert_eq!(inst.get_nonce(&host, A).unwrap(), 0);
    assert_eq!(inst.get_storage(&host, A, "0x0").unwrap(), "0x0");
}

#[test]
fn direct_writes_reach_the_host() {
    let mut host = MapHost::default();
    let mut inst = berlin();
    inst.set_balance(&mut host, A, "0x1000000000000000").unwrap();
    assert_eq!(inst.get_balance(&host, A).unwrap(), "0x1000000000000000");
    assert_eq!(host.accounts[&addr_bytes(A)].code_hash.bytes, revm::primitives::KECCAK_EMPTY.0);
    inst.set_nonce(&mut host, A, 9).unwrap();
    assert_eq!(inst.get_nonce(&host, A).unwrap(), 9);
    assert_eq!(inst.get_balance(&host, A).unwrap(), "0x1000000000000000");
    inst.set_storage(&mut host, B, "0x1", "0xABC").unwrap();
    assert_eq!(inst.get_storage(&host, B, "1").unwrap(), "0xabc");
    assert_eq!(inst.set_balance(&mut host, A, "0xzz"), Err(BridgeError::InvalidIntegerEncoding));
    assert_eq!(inst.set_storage(&mut host, "bad", "0x1", "0x1"), Err(BridgeError::InvalidAddressLength));
}

#[test]
fn refused_direct_write_is_recorded() {
    let mut host = MapHost { fail: Some(4), ..MapHost::default() };
    let mut inst = berlin();
    assert!(matches!(inst.set_storage(&mut host, A, "0x1", "0x1"), Err(BridgeError::HostCallFailure(_))));
    assert!(matches!(inst.last_error(), Some(BridgeError::HostCallFailure(_))));
    assert!(inst.get_balance(&host, A).is_err());
}

fn transfer_diff(from_balance: u8, to_balance: u8) -> Vec<AccountChange> {
    let empty = FFIHash::zero();
    vec![
        AccountChange {
            address: FFIAddress { bytes: addr_bytes(A) },
            info: FFIAccountInfo { balance: word(&[from_balance]), nonce: 1, code_hash: empty },
            storage: vec![],
        },
        AccountChange {
            address: FFIAddress { bytes: addr_bytes(B) },
            info: FFIAccountInfo { balance: word(&[to_balance]), nonce: 0, code_hash: empty },
            storage: vec![SlotChange { slot: word(&[1]), value: word(&[2]) }],
        },
    ]
}

fn success() -> ExecutionOutcome {
    ExecutionOutcome::Success { gas_used: 21000, gas_refunded: 0, output: vec![], created: None, logs: vec![] }
}

#[test]
fn execute_without_commit_leaves_host_state() {
    let mut host = MapHost::default();
    let mut inst = berlin();
    inst.set_balance(&mut host, A, "0x64").unwrap();
    inst.prepare_call(&host, A, B, Some("0x1"), vec![], 21000, DEFAULT_GAS_PRICE).unwrap();
    let writes = host.writes;
    let r = inst.finish_execute(Ok(success())).unwrap();
    assert_eq!(r.success, 1);
    assert_eq!(r.gas_used, 21000);
    assert_eq!(inst.phase(), Phase::Discarded);
    assert_eq!(host.writes, writes);
    assert_eq!(inst.get_balance(&host, A).unwrap(), "0x64");
}

#[test]
fn execute_and_commit_applies_once() {
    let mut host = MapHost::default();
    let mut inst = berlin();
    inst.set_balance(&mut host, A, "0x64").unwrap();
    inst.prepare_call(&host, A, B, Some("0x1"), vec![], 21000, DEFAULT_GAS_PRICE).unwrap();
    let r = inst.finish_execute_and_commit(&mut host, Ok((success(), transfer_diff(0x63, 0x01)))).unwrap();
    assert_eq!(r.success, 1);
    assert_eq!(inst.phase(), Phase::Committed);
    assert!(inst.last_error().is_none());
    assert_eq!(inst.get_balance(&host, A).unwrap(), "0x63");
    assert_eq!(inst.get_balance(&host, B).unwrap(), "0x1");
    assert_eq!(inst.get_nonce(&host, A).unwrap(), 1);
    assert_eq!(inst.get_storage(&host, B, "0x1").unwrap(), "0x2");
}

#[test]
fn failed_commit_still_returns_outcome() {
    let mut host = MapHost::default();
    let mut inst = berlin();
    inst.set_transaction(A, Some(B), None, vec![], 1, None, 0).unwrap();
    host.fail = Some(3);
    let r = inst.finish_execute_and_commit(&mut host, Ok((success(), transfer_diff(1, 1)))).unwrap();
    assert_eq!(r.success, 1);
    assert!(matches!(inst.last_error(), Some(BridgeError::HostCallFailure(_))));
}

#[test]
fn engine_refusal_is_recorded() {
    let mut host = MapHost::default();
    let mut inst = berlin();
    inst.set_transaction(A, Some(B), None, vec![], 1, None, 0).unwrap();
    let e = inst.finish_execute(Err("nonce too low".to_string()));
    assert_eq!(e, Err(BridgeError::ExecutionFailure("nonce too low".to_string())));
    assert_eq!(inst.phase(), Phase::TransactionSet);
    let e = inst.finish_execute_and_commit(&mut host, Err("lack of funds".to_string()));
    assert_eq!(e, Err(BridgeError::ExecutionFailure("lack of funds".to_string())));
    assert_eq!(host.writes, 0);
    assert_eq!(inst.last_error(), &Some(BridgeError::ExecutionFailure("lack of funds".to_string())));
}

#[test]
fn deploy_commits_and_reports_address() {
    let mut host = MapHost::default();
    let mut inst = berlin();
    inst.prepare_deploy(&host, A, vec![0x00], 100000).unwrap();
    let created = FFIAddress { bytes: [0x22; 20] };
    let o = ExecutionOutcome::Success { gas_used: 53000, gas_refunded: 0, output: vec![], created: Some(created), logs: vec![] };
    let d = inst.finish_deploy(&mut host, Ok((o, transfer_diff(5, 5)))).unwrap();
    assert_eq!(d.success, 1);
    assert_eq!(d.contract_address, Some(format!("0x{}", "22".repeat(20))));
    assert_eq!(d.gas_used, 53000);
    assert!(host.writes > 0);
    let failed = inst.finish_deploy(&mut host, Ok((ExecutionOutcome::Halt { gas_used: 100000 }, vec![]))).unwrap();
    assert_eq!(failed.success, 0);
    assert_eq!(failed.contract_address, None);
}

/// Answers account reads with nonce 42 and remembers the handle it was given.
struct FortyTwoHost {
    last_handle: std::cell::Cell<usize>,
}

impl StateHost for FortyTwoHost {
    fn read_account(&self, handle: usize, _a: FFIAddress) -> (FFIAccountInfo, i32) {
        self.last_handle.set(handle);
        (FFIAccountInfo { balance: FFIU256::zero(), nonce: 42, code_hash: FFIHash::zero() }, 0)
    }
    fn read_storage(&self, _h: usize, _a: FFIAddress, _s: FFIHash) -> (FFIU256, i32) {
        (FFIU256::zero(), 0)
    }
    fn read_block_hash(&self, _h: usize, _n: u64) -> (FFIHash, i32) {
        (FFIHash::zero(), 0)
    }
    fn read_code(&self, _h: usize, _c: FFIHash) -> (Vec<u8>, i32) {
        (Vec::new(), 1)
    }
    fn write_account(&mut self, _h: usize, _a: FFIAddress, _i: FFIAccountInfo) -> i32 {
        0
    }
    fn write_storage(&mut self, _h: usize, _a: FFIAddress, _s: FFIHash, _v: FFIU256) -> i32 {
        0
    }
}

#[test]
fn test_revm_new_with_statedb_returns_instance() {
    let cfg = RevmConfigFFI::default();
    let inst = ExecutionInstance::new(12345, &cfg);
    assert!(inst.is_ok(), "Instance pointer should not be null");
    let inst = inst.unwrap();
    let host = FortyTwoHost { last_handle: std::cell::Cell::new(0) };
    let account_opt = inst.database().basic_ref(&host, FFIAddress::zero()).expect("db access ok");
    let info = account_opt.expect("account must exist");
    assert_eq!(info.nonce, 42);
    assert_eq!(host.last_handle.get(), 12345);
}

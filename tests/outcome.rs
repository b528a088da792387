use revm_ffi::outcome::{
    convert_deployment_result, convert_execution_result, saturate_u32, ExecutionOutcome, LogEntry, LogFFI,
};
use revm_ffi::wire::{FFIAddress, FFIHash};

fn log() -> LogEntry {
    let mut t = [0u8; 32];
    t[31] = 0x0f;
    LogEntry { address: FFIAddress { bytes: [0xab; 20] }, topics: vec![FFIHash { bytes: t }], data: vec![1, 2, 3] }
}

#[test]
fn gas_counters_saturate() {
    assert_eq!(saturate_u32(0), 0);
    assert_eq!(saturate_u32(21000), 21000);
    assert_eq!(saturate_u32(u32::MAX as u64), u32::MAX);
    assert_eq!(saturate_u32(u32::MAX as u64 + 1), u32::MAX);
    assert_eq!(saturate_u32(u64::MAX), u32::MAX);
}

#[test]
fn success_carries_gas_output_and_logs() {
    let o = ExecutionOutcome::Success {
        gas_used: 50_000,
        gas_refunded: 1_000,
        output: vec![0xaa, 0xbb],
        created: None,
        logs: vec![log()],
    };
    let r = convert_execution_result(&o);
    assert_eq!(r.success, 1);
    assert_eq!(r.gas_used, 50_000);
    assert_eq!(r.gas_refunded, 1_000);
    assert_eq!(r.output, vec![0xaa, 0xbb]);
    assert_eq!(r.logs.len(), 1);
    assert_eq!(r.logs[0].address, format!("0x{}", "ab".repeat(20)));
    assert_eq!(r.logs[0].topics, vec![format!("0x{}0f", "0".repeat(62))]);
    assert_eq!(r.logs[0].data, vec![1, 2, 3]);
    assert_eq!(r.created_address, None);
}

#[test]
fn success_with_huge_gas_is_clamped() {
    let o = ExecutionOutcome::Success {
        gas_used: u64::MAX,
        gas_refunded: 1 << 40,
        output: vec![],
        created: None,
        logs: vec![],
    };
    let r = convert_execution_result(&o);
    assert_eq!(r.gas_used, u32::MAX);
    assert_eq!(r.gas_refunded, u32::MAX);
    assert!(r.output.is_empty());
    assert!(r.logs.is_empty());
}

#[test]
fn revert_carries_gas_and_output_only() {
    let r = convert_execution_result(&ExecutionOutcome::Revert { gas_used: 30_000, output: vec![8, 9] });
    assert_eq!(r.success, 0);
    assert_eq!(r.gas_used, 30_000);
    assert_eq!(r.gas_refunded, 0);
    assert_eq!(r.output, vec![8, 9]);
    assert!(r.logs.is_empty());
}

#[test]
fn halt_carries_gas_only() {
    let r = convert_execution_result(&ExecutionOutcome::Halt { gas_used: 60_000 });
    assert_eq!(r.success, -1);
    assert_eq!(r.gas_used, 60_000);
    assert_eq!(r.gas_refunded, 0);
    assert!(r.output.is_empty());
    assert!(r.logs.is_empty());
}

#[test]
fn log_is_marshaled_as_text() {
    let f = LogFFI::from_revm_log(&LogEntry { address: FFIAddress::zero(), topics: vec![], data: vec![] });
    assert_eq!(f.address, format!("0x{}", "0".repeat(40)));
    assert!(f.topics.is_empty());
    assert!(f.data.is_empty());
}

#[test]
fn deployment_reports_created_address() {
    let o = ExecutionOutcome::Success {
        gas_used: 100_000,
        gas_refunded: 5,
        output: vec![0x60],
        created: Some(FFIAddress { bytes: [0x11; 20] }),
        logs: vec![],
    };
    let d = convert_deployment_result(&o);
    assert_eq!(d.success, 1);
    assert_eq!(d.contract_address, Some(format!("0x{}", "11".repeat(20))));
    assert_eq!(d.gas_used, 100_000);
    assert_eq!(d.gas_refunded, 0);
}

#[test]
fn failed_deployment_is_reported_not_raised() {
    let d = convert_deployment_result(&ExecutionOutcome::Revert { gas_used: 7, output: vec![1] });
    assert_eq!(d.success, 0);
    assert_eq!(d.contract_address, None);
    assert_eq!(d.gas_used, 0);
    let h = convert_deployment_result(&ExecutionOutcome::Halt { gas_used: 7 });
    assert_eq!(h.success, 0);
}

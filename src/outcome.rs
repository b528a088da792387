//! Result marshaling: the engine's outcome of one execution, turned into the
//! flat records handed across the boundary.

use vstd::prelude::*;
use crate::hexfmt::{address_to_hex, address_text, hash_to_hex, hex_lower, hex_prefix};
use crate::wire::{FFIAddress, FFIHash};

verus! {

/// A log emitted during execution.
#[derive(Clone, Debug, PartialEq, Eq)]
pub struct LogEntry {
    pub address: FFIAddress,
    pub topics: Vec<FFIHash>,
    pub data: Vec<u8>,
}

/// How one execution ended, as the engine reports it.
#[derive(Clone, Debug, PartialEq, Eq)]
pub enum ExecutionOutcome {
    /// It ran to the end; `created` is the new contract of a creation.
    Success {
        gas_used: u64,
        gas_refunded: u64,
        output: Vec<u8>,
        created: Option<FFIAddress>,
        logs: Vec<LogEntry>,
    },
    /// It reverted, with the revert data.
    Revert { gas_used: u64, output: Vec<u8> },
    /// It halted exceptionally.
    Halt { gas_used: u64 },
}

/// A log as it crosses the boundary: its address and topics as text.
#[derive(Clone, Debug, PartialEq, Eq)]
pub struct LogFFI {
    pub address: String,
    pub topics: Vec<String>,
    pub data: Vec<u8>,
}

/// The outcome as it crosses the boundary. `success` is 1 for success, 0 for
/// a revert, -1 for a halt; gas counters saturate at the largest `u32`.
#[derive(Clone, Debug, PartialEq, Eq)]
pub struct ExecutionResultFFI {
    pub success: i32,
    pub gas_used: u32,
    pub gas_refunded: u32,
    pub output: Vec<u8>,
    pub logs: Vec<LogFFI>,
    pub created_address: Option<String>,
}

/// The outcome of a deployment as it crosses the boundary. It reports
/// whether a contract was created, where, and the gas that creation used;
/// refunds are not part of this report (`gas_refunded` is always 0), and a
/// deployment that reverted or halted created nothing and reports no gas,
/// so a caller reads `gas_used` only together with `success == 1`.
#[derive(Clone, Debug, PartialEq, Eq)]
pub struct DeploymentResultFFI {
    pub success: i32,
    pub contract_address: Option<String>,
    pub gas_used: u32,
    pub gas_refunded: u32,
}

/// A counter clamped to the largest `u32`.
pub open spec fn clamp_u32(x: u64) -> u32 {
    if x > u32::MAX as u64 {
        u32::MAX
    } else {
        x as u32
    }
}

/// Clamps a counter to the largest `u32`: a lossy but safe narrowing.
pub fn saturate_u32(x: u64) -> (r: u32)
    ensures
        r == clamp_u32(x),
{
    if x > u32::MAX as u64 {
        u32::MAX
    } else {
        x as u32
    }
}

/// A log is marshaled faithfully: its address and each topic as "0x" and
/// lowercase digits, its data unchanged.
pub open spec fn log_marshaled(l: LogEntry, f: LogFFI) -> bool {
    &&& f.address@ == address_text(l.address.bytes@)
    &&& f.topics@.len() == l.topics@.len()
    &&& forall|i: int|
        0 <= i < l.topics@.len() ==> (#[trigger] f.topics@[i])@ == hex_prefix() + hex_lower(
            l.topics@[i].bytes@,
        )
    &&& f.data@ == l.data@
}

/// The logs are marshaled one for one, in order.
pub open spec fn logs_marshaled(ls: Seq<LogEntry>, fs: Seq<LogFFI>) -> bool {
    fs.len() == ls.len() && forall|i: int| 0 <= i < ls.len() ==> log_marshaled(ls[i], #[trigger] fs[i])
}

impl LogFFI {
    /// Marshals one log.
    pub fn from_revm_log(log: &LogEntry) -> (r: LogFFI)
        ensures
            log_marshaled(*log, r),
    {
        let mut topics: Vec<String> = Vec::new();
        let mut i: usize = 0;
        while i < log.topics.len()
            invariant
                0 <= i <= log.topics@.len(),
                topics@.len() == i,
                forall|j: int|
                    0 <= j < i ==> (#[trigger] topics@[j])@ == hex_prefix() + hex_lower(
                        log.topics@[j].bytes@,
                    ),
            decreases log.topics@.len() - i,
        {
            topics.push(hash_to_hex(log.topics[i]));
            i = i + 1;
        }
        LogFFI { address: address_to_hex(log.address), topics, data: log.data.clone() }
    }
}

/// Marshals every log, in order.
fn convert_logs(logs: &Vec<LogEntry>) -> (r: Vec<LogFFI>)
    ensures
        logs_marshaled(logs@, r@),
{
    let mut out: Vec<LogFFI> = Vec::new();
    let mut i: usize = 0;
    while i < logs.len()
        invariant
            0 <= i <= logs@.len(),
            out@.len() == i,
            forall|j: int| 0 <= j < i ==> log_marshaled(logs@[j], #[trigger] out@[j]),
        decreases logs@.len() - i,
    {
        out.push(LogFFI::from_revm_log(&logs[i]));
        i = i + 1;
    }
    out
}

/// What marshaling an outcome yields: success carries gas used and refunded,
/// output and logs; a revert carries gas used and output; a halt carries gas
/// used alone.
pub open spec fn result_marshaled(o: ExecutionOutcome, r: ExecutionResultFFI) -> bool {
    &&& r.created_address is None
    &&& match o {
        ExecutionOutcome::Success { gas_used, gas_refunded, output, created, logs } => {
            &&& r.success == 1
            &&& r.gas_used == clamp_u32(gas_used)
            &&& r.gas_refunded == clamp_u32(gas_refunded)
            &&& r.output@ == output@
            &&& logs_marshaled(logs@, r.logs@)
        },
        ExecutionOutcome::Revert { gas_used, output } => {
            &&& r.success == 0
            &&& r.gas_used == clamp_u32(gas_used)
            &&& r.gas_refunded == 0
            &&& r.output@ == output@
            &&& r.logs@.len() == 0
        },
        ExecutionOutcome::Halt { gas_used } => {
            &&& r.success == -1
            &&& r.gas_used == clamp_u32(gas_used)
            &&& r.gas_refunded == 0
            &&& r.output@.len() == 0
            &&& r.logs@.len() == 0
        },
    }
}

/// Marshals the engine's outcome of one execution.
pub fn convert_execution_result(result: &ExecutionOutcome) -> (r: ExecutionResultFFI)
    ensures
        result_marshaled(*result, r),
{
    match result {
        ExecutionOutcome::Success { gas_used, gas_refunded, output, created, logs } => {
            ExecutionResultFFI {
                success: 1,
                gas_used: saturate_u32(*gas_used),
                gas_refunded: saturate_u32(*gas_refunded),
                output: output.clone(),
                logs: convert_logs(logs),
                created_address: None,
            }
        },
        ExecutionOutcome::Revert { gas_used, output } => ExecutionResultFFI {
            success: 0,
            gas_used: saturate_u32(*gas_used),
            gas_refunded: 0,
            output: output.clone(),
            logs: Vec::new(),
            created_address: None,
        },
        ExecutionOutcome::Halt { gas_used } => ExecutionResultFFI {
            success: -1,
            gas_used: saturate_u32(*gas_used),
            gas_refunded: 0,
            output: Vec::new(),
            logs: Vec::new(),
            created_address: None,
        },
    }
}

/// What a deployment reports: on success, the created address as text and
/// the gas used; on any other outcome, a failed deployment and nothing else.
pub open spec fn deployment_marshaled(o: ExecutionOutcome, r: DeploymentResultFFI) -> bool {
    &&& r.gas_refunded == 0
    &&& match o {
        ExecutionOutcome::Success { gas_used, gas_refunded, output, created, logs } => {
            &&& r.success == 1
            &&& r.gas_used == clamp_u32(gas_used)
            &&& match created {
                Some(a) => r.contract_address is Some && r.contract_address->Some_0@ == address_text(
                    a.bytes@,
                ),
                None => r.contract_address is None,
            }
        },
        _ => r.success == 0 && r.gas_used == 0 && r.contract_address is None,
    }
}

/// Marshals the outcome of a deployment; a deployment that did not succeed
/// is a normal, reported outcome.
pub fn convert_deployment_result(result: &ExecutionOutcome) -> (r: DeploymentResultFFI)
    ensures
        deployment_marshaled(*result, r),
{
    match result {
        ExecutionOutcome::Success { gas_used, created, .. } => {
            let contract_address = match created {
                Some(a) => Some(address_to_hex(*a)),
                None => None,
            };
            DeploymentResultFFI {
                success: 1,
                contract_address,
                gas_used: saturate_u32(*gas_used),
                gas_refunded: 0,
            }
        },
        _ => DeploymentResultFFI { success: 0, contract_address: None, gas_used: 0, gas_refunded: 0 },
    }
}

} // verus!

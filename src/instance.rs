//! The execution instance: one engine configuration and one state adapter
//! bound to one host handle, with the transaction lifecycle around them.
//! The engine itself runs outside; this type stages what it runs, reads and
//! writes state through the adapter, and turns what it reports into results.

use vstd::prelude::*;
use vstd::string::StringSliceAdditionalSpecFns;
use crate::adapter::{
    GoDatabase, StateHost, account_outcome, held_account, pushed, refused_at, value_outcome, STATUS_OK,
};
use crate::commit::{AccountChange, HostWrite, commit_plan, write_key, write_value};
use crate::config::{EngineConfig, RevmConfigFFI, resolved};
use crate::error::{BridgeError, GoDBError};
use crate::hexfmt::{
    hex_to_address, hex_to_u256, hex_prefix, minimal_hex, parse_address_spec, parse_u256_spec,
    u256_to_hex,
};
use crate::outcome::{
    DeploymentResultFFI, ExecutionOutcome, ExecutionResultFFI, convert_deployment_result,
    convert_execution_result, deployment_marshaled, result_marshaled,
};
use crate::wire::{FFIAccountInfo, FFIAddress, FFIHash, FFIU256, be_value, empty_code_hash_bytes, lemma_zero_value};

verus! {

/// The gas price of a transaction that names none: one gwei.
pub const DEFAULT_GAS_PRICE: u128 = 1_000_000_000;

/// What a transaction does: call an account, or create a contract.
#[derive(Clone, Copy, Debug, PartialEq, Eq)]
pub enum TxKind {
    Call(FFIAddress),
    Create,
}

/// A transaction staged for the engine.
#[derive(Clone, Debug, PartialEq, Eq)]
pub struct TxParams {
    pub caller: FFIAddress,
    pub kind: TxKind,
    pub value: FFIU256,
    pub data: Vec<u8>,
    pub gas_limit: u64,
    pub gas_price: u128,
    pub nonce: u64,
    /// The chain id the transaction is bound to, when it names one.
    pub chain_id: Option<u64>,
}

/// Where an instance stands in the transaction lifecycle. Execution happens
/// within one call: an execution without commit ends in `Discarded`, one
/// with commit in `Committed`.
#[derive(Clone, Copy, Debug, PartialEq, Eq)]
pub enum Phase {
    Configured,
    TransactionSet,
    Committed,
    Discarded,
}

/// The state of an instance as the contracts see it.
pub struct InstanceView {
    pub handle: usize,
    pub config: EngineConfig,
    pub phase: Phase,
    pub staged: Option<TxParams>,
    pub last_error: Option<BridgeError>,
}

/// An engine configuration and a state adapter bound to one host handle.
pub struct ExecutionInstance {
    db: GoDatabase,
    config: EngineConfig,
    phase: Phase,
    staged: Option<TxParams>,
    last_error: Option<BridgeError>,
}

impl View for ExecutionInstance {
    type V = InstanceView;

    closed spec fn view(&self) -> InstanceView {
        InstanceView {
            handle: self.db.spec_handle(),
            config: self.config,
            phase: self.phase,
            staged: self.staged,
            last_error: self.last_error,
        }
    }
}

/// The text of a byte string, when there is one.
pub open spec fn opt_bytes(o: Option<&str>) -> Option<Seq<u8>> {
    match o {
        Some(s) => Some(s.spec_bytes()),
        None => None,
    }
}

/// Why an address argument is rejected, if it is.
pub open spec fn address_error(s: Seq<u8>) -> Option<BridgeError> {
    match parse_address_spec(s) {
        Ok(_) => None,
        Err(e) => Some(e),
    }
}

/// Why a number argument is rejected, if it is.
pub open spec fn word_error(s: Seq<u8>) -> Option<BridgeError> {
    match parse_u256_spec(s) {
        Ok(_) => None,
        Err(e) => Some(e),
    }
}

/// Why an optional address argument is rejected, if it is.
pub open spec fn opt_address_error(o: Option<Seq<u8>>) -> Option<BridgeError> {
    match o {
        Some(s) => address_error(s),
        None => None,
    }
}

/// Why an optional number argument is rejected, if it is.
pub open spec fn opt_word_error(o: Option<Seq<u8>>) -> Option<BridgeError> {
    match o {
        Some(s) => word_error(s),
        None => None,
    }
}

/// The first rejected argument, checked in the order: an address, an
/// optional second address, an optional number, an optional second number
/// (for a transaction: caller, recipient, value, gas price).
pub open spec fn args_error(
    caller: Seq<u8>,
    to: Option<Seq<u8>>,
    value: Option<Seq<u8>>,
    gas_price: Option<Seq<u8>>,
) -> Option<BridgeError> {
    if address_error(caller) is Some {
        address_error(caller)
    } else if opt_address_error(to) is Some {
        opt_address_error(to)
    } else if opt_word_error(value) is Some {
        opt_word_error(value)
    } else {
        opt_word_error(gas_price)
    }
}

/// A parsed address has the bytes its text denotes.
pub open spec fn address_from(a: FFIAddress, s: Seq<u8>) -> bool {
    parse_address_spec(s) == Ok::<Seq<u8>, BridgeError>(a.bytes@)
}

/// The kind a recipient argument gives: a call to it, or a creation.
pub open spec fn kind_from(k: TxKind, to: Option<Seq<u8>>) -> bool {
    match to {
        Some(s) => k is Call && address_from(k->Call_0, s),
        None => k is Create,
    }
}

/// The value an optional number argument gives: zero when absent.
pub open spec fn value_from(o: Option<Seq<u8>>) -> nat {
    match o {
        Some(s) => parse_u256_spec(s)->Ok_0,
        None => 0,
    }
}

/// The gas price an optional argument gives: the default when absent or
/// when it does not fit in 128 bits.
pub open spec fn gas_price_from(o: Option<Seq<u8>>) -> u128 {
    match o {
        Some(s) => {
            let v = parse_u256_spec(s)->Ok_0;
            if v < vstd::arithmetic::power2::pow2(128) {
                v as u128
            } else {
                DEFAULT_GAS_PRICE
            }
        },
        None => DEFAULT_GAS_PRICE,
    }
}

/// The nonce of an account read: zero when the account does not exist.
pub open spec fn nonce_or_zero(account: Option<FFIAccountInfo>) -> u64 {
    match account {
        Some(a) => a.nonce,
        None => 0,
    }
}

/// The balance of an account read as text: "0x0" when it does not exist.
pub open spec fn balance_text(account: Option<FFIAccountInfo>) -> Seq<char> {
    match account {
        Some(a) => hex_prefix() + minimal_hex(a.balance.value()),
        None => hex_prefix() + minimal_hex(0),
    }
}

/// An account the host does not hold reads as balance "0x0" and nonce 0.
pub proof fn lemma_missing_account_reads_as_zero()
    ensures
        balance_text(None) == seq!['0', 'x', '0'],
        nonce_or_zero(None) == 0,
{
    assert(minimal_hex(0) =~= seq!['0']);
    assert(balance_text(None) =~= seq!['0', 'x', '0']);
}

/// Relies on U256's conversion to u128: it succeeds exactly when the value
/// fits in 128 bits.
#[verifier::external_body]
fn word_to_u128(bytes: [u8; 32]) -> (r: Option<u128>)
    ensures
        r is Some <==> be_value(bytes@) < vstd::arithmetic::power2::pow2(128),
        r is Some ==> r->Some_0 == be_value(bytes@),
{
    u128::try_from(revm::primitives::U256::from_be_bytes(bytes)).ok()
}

fn host_failure(e: GoDBError) -> (r: BridgeError)
    ensures
        r == BridgeError::HostCallFailure(e.0),
{
    BridgeError::HostCallFailure(e.0)
}

/// Parses an optional number argument: zero when absent.
fn optional_word(o: Option<&str>) -> (r: Result<FFIU256, BridgeError>)
    ensures
        match opt_word_error(opt_bytes(o)) {
            Some(e) => r == Err::<FFIU256, BridgeError>(e),
            None => r is Ok && r->Ok_0.value() == value_from(opt_bytes(o)),
        },
{
    match o {
        Some(s) => hex_to_u256(s),
        None => {
            let z = FFIU256::zero();
            proof {
                lemma_zero_value(z.bytes@);
            }
            Ok(z)
        },
    }
}

/// The balance of an account read as text: "0x0" when it does not exist.
pub fn balance_to_hex(account: Option<FFIAccountInfo>) -> (r: String)
    ensures
        r@ == balance_text(account),
{
    match account {
        Some(a) => u256_to_hex(a.balance),
        None => {
            let z = FFIU256::zero();
            proof {
                lemma_zero_value(z.bytes@);
            }
            u256_to_hex(z)
        },
    }
}

/// The nonce of an account read: zero when the account does not exist.
pub fn nonce_of(account: Option<FFIAccountInfo>) -> (r: u64)
    ensures
        r == nonce_or_zero(account),
{
    match account {
        Some(a) => a.nonce,
        None => 0,
    }
}

/// The record a nonce write stores: the account read with its nonce
/// replaced, or, when there is none, an account with no balance and the
/// hash of empty code.
pub open spec fn is_nonce_update(account: Option<FFIAccountInfo>, nonce: u64, r: FFIAccountInfo) -> bool {
    &&& r.nonce == nonce
    &&& match account {
        Some(a) => r.balance == a.balance && r.code_hash == a.code_hash,
        None => be_value(r.balance.bytes@) == 0 && r.code_hash.bytes@ == empty_code_hash_bytes(),
    }
}

/// The record a balance write stores: the balance, nonce zero and the hash
/// of empty code.
pub open spec fn is_balance_record(r: FFIAccountInfo, balance: nat) -> bool {
    be_value(r.balance.bytes@) == balance && r.nonce == 0 && r.code_hash.bytes@ == empty_code_hash_bytes()
}

/// What the host answers to a read of an account, as an outcome.
pub open spec fn account_read<H: StateHost>(host: H, handle: usize, a: FFIAddress) -> Option<
    Option<FFIAccountInfo>,
> {
    let ans = host.account_answer(handle, a);
    account_outcome(ans.1, ans.0)
}

/// The host received exactly one more write, this one, under the handle;
/// if accepted it overwrote its key, if refused it changed nothing.
pub open spec fn wrote<H: StateHost>(before: H, after: H, handle: usize, w: HostWrite, accepted: bool) -> bool {
    &&& after.writes() == before.writes().push((handle, w))
    &&& after.held(handle) == if accepted {
        before.held(handle).insert(write_key(w), write_value(w))
    } else {
        before.held(handle)
    }
}

/// A commit either reached the host whole, leaving the last error as it
/// was, or stopped at a refused write, which is recorded as the last error.
pub open spec fn commit_reported<H: StateHost>(
    before: H,
    after: H,
    handle: usize,
    plan: Seq<HostWrite>,
    error_before: Option<BridgeError>,
    error_after: Option<BridgeError>,
) -> bool {
    ||| (pushed(before, after, handle, plan) && error_after == error_before)
    ||| ((exists|k: int| refused_at(before, after, handle, plan, k)) && error_after is Some
        && error_after->Some_0 is HostCallFailure)
}

/// Builds the record that a nonce write stores.
pub fn account_with_nonce(account: Option<FFIAccountInfo>, nonce: u64) -> (r: FFIAccountInfo)
    ensures
        is_nonce_update(account, nonce, r),
{
    match account {
        Some(a) => FFIAccountInfo { nonce, ..a },
        None => {
            let balance = FFIU256::zero();
            proof {
                lemma_zero_value(balance.bytes@);
            }
            FFIAccountInfo { balance, nonce, code_hash: FFIHash::empty_code() }
        },
    }
}

/// Builds the record that a balance write stores.
pub fn balance_record(balance: FFIU256) -> (r: FFIAccountInfo)
    ensures
        r.balance == balance,
        is_balance_record(r, balance.value()),
{
    FFIAccountInfo { balance, nonce: 0, code_hash: FFIHash::empty_code() }
}

/// Builds a call transaction whose nonce is that of the account read.
pub fn call_transaction(
    caller: FFIAddress,
    to: FFIAddress,
    value: FFIU256,
    data: Vec<u8>,
    gas_limit: u64,
    gas_price: u128,
    account: Option<FFIAccountInfo>,
    chain_id: u64,
) -> (r: TxParams)
    ensures
        r.caller == caller,
        r.kind == TxKind::Call(to),
        r.value == value,
        r.data@ == data@,
        r.gas_limit == gas_limit,
        r.gas_price == gas_price,
        r.nonce == nonce_or_zero(account),
        r.chain_id == Some(chain_id),
{
    TxParams {
        caller,
        kind: TxKind::Call(to),
        value,
        data,
        gas_limit,
        gas_price,
        nonce: nonce_of(account),
        chain_id: Some(chain_id),
    }
}

/// Builds a creation transaction whose nonce is that of the deployer's
/// account read; it transfers no value.
pub fn create_transaction(
    deployer: FFIAddress,
    bytecode: Vec<u8>,
    gas_limit: u64,
    account: Option<FFIAccountInfo>,
    chain_id: u64,
) -> (r: TxParams)
    ensures
        r.caller == deployer,
        r.kind == TxKind::Create,
        r.value.value() == 0,
        r.data@ == bytecode@,
        r.gas_limit == gas_limit,
        r.gas_price == DEFAULT_GAS_PRICE,
        r.nonce == nonce_or_zero(account),
        r.chain_id == Some(chain_id),
{
    let value = FFIU256::zero();
    proof {
        lemma_zero_value(value.bytes@);
    }
    TxParams {
        caller: deployer,
        kind: TxKind::Create,
        value,
        data: bytecode,
        gas_limit,
        gas_price: DEFAULT_GAS_PRICE,
        nonce: nonce_of(account),
        chain_id: Some(chain_id),
    }
}

impl ExecutionInstance {
    /// Binds a configuration and a host handle; an unknown hardfork ordinal
    /// is rejected.
    pub fn new(handle: usize, config: &RevmConfigFFI) -> (r: Result<ExecutionInstance, BridgeError>)
        ensures
            match resolved(*config) {
                Ok(c) => r is Ok && r->Ok_0@.handle == handle && r->Ok_0@.config == c
                    && r->Ok_0@.phase == Phase::Configured && r->Ok_0@.staged is None
                    && r->Ok_0@.last_error is None,
                Err(e) => r is Err && r->Err_0 == e,
            },
    {
        match EngineConfig::resolve(config) {
            Ok(c) => Ok(
                ExecutionInstance {
                    db: GoDatabase::new(handle),
                    config: c,
                    phase: Phase::Configured,
                    staged: None,
                    last_error: None,
                },
            ),
            Err(e) => Err(e),
        }
    }

    /// The state adapter, for the engine's reads.
    pub fn database(&self) -> (r: GoDatabase)
        ensures
            r.spec_handle() == self@.handle,
    {
        self.db
    }

    /// The resolved configuration.
    pub fn config(&self) -> (r: EngineConfig)
        ensures
            r == self@.config,
    {
        self.config
    }

    /// The chain id the instance was configured with.
    pub fn chain_id(&self) -> (r: u64)
        ensures
            r == self@.config.chain_id,
    {
        self.config.chain_id
    }

    /// Where the instance stands in the lifecycle.
    pub fn phase(&self) -> (r: Phase)
        ensures
            r == self@.phase,
    {
        self.phase
    }

    /// The staged transaction, if any.
    pub fn staged_transaction(&self) -> (r: &Option<TxParams>)
        ensures
            *r == self@.staged,
    {
        &self.staged
    }

    /// The error of the last operation that failed, until cleared.
    pub fn last_error(&self) -> (r: &Option<BridgeError>)
        ensures
            *r == self@.last_error,
    {
        &self.last_error
    }

    /// Records an error found outside the library, such as malformed text
    /// at the boundary, in the last-error slot.
    pub fn set_last_error(&mut self, e: BridgeError)
        ensures
            final(self)@ == (InstanceView { last_error: Some(e), ..old(self)@ }),
    {
        self.last_error = Some(e);
    }

    fn record(&mut self, e: BridgeError)
        ensures
            final(self)@.last_error == Some(e),
            final(self)@.handle == old(self)@.handle,
            final(self)@.config == old(self)@.config,
            final(self)@.phase == old(self)@.phase,
            final(self)@.staged == old(self)@.staged,
    {
        self.last_error = Some(e);
    }

    fn stage(&mut self, tx: TxParams)
        ensures
            final(self)@.staged == Some(tx),
            final(self)@.phase == Phase::TransactionSet,
            final(self)@.handle == old(self)@.handle,
            final(self)@.config == old(self)@.config,
            final(self)@.last_error == old(self)@.last_error,
    {
        self.staged = Some(tx);
        self.phase = Phase::TransactionSet;
    }

    /// Validates and stages a transaction given as text at the boundary.
    /// An absent recipient makes a creation, an absent value is zero, an
    /// absent gas price (or one beyond 128 bits) is the default. Clears the
    /// last error first; on a rejected argument records it and stages nothing.
    pub fn set_transaction(
        &mut self,
        caller: &str,
        to: Option<&str>,
        value: Option<&str>,
        data: Vec<u8>,
        gas_limit: u32,
        gas_price: Option<&str>,
        nonce: u32,
    ) -> (r: Result<(), BridgeError>)
        ensures
            final(self)@.handle == old(self)@.handle,
            final(self)@.config == old(self)@.config,
            match args_error(caller.spec_bytes(), opt_bytes(to), opt_bytes(value), opt_bytes(gas_price)) {
                Some(e) => r == Err::<(), BridgeError>(e) && final(self)@.last_error == Some(e)
                    && final(self)@.staged == old(self)@.staged && final(self)@.phase == old(self)@.phase,
                None => r is Ok && final(self)@.last_error is None && final(self)@.phase == Phase::TransactionSet
                    && final(self)@.staged is Some && {
                    let tx = final(self)@.staged->Some_0;
                    &&& address_from(tx.caller, caller.spec_bytes())
                    &&& kind_from(tx.kind, opt_bytes(to))
                    &&& tx.value.value() == value_from(opt_bytes(value))
                    &&& tx.data@ == data@
                    &&& tx.gas_limit == gas_limit
                    &&& tx.gas_price == gas_price_from(opt_bytes(gas_price))
                    &&& tx.nonce == nonce
                    &&& tx.chain_id is None
                },
            },
    {
        self.last_error = None;
        let caller_addr = match hex_to_address(caller) {
            Ok(a) => a,
            Err(e) => {
                self.record(e.duplicate());
                return Err(e);
            },
        };
        let kind = match to {
            Some(t) => match hex_to_address(t) {
                Ok(a) => TxKind::Call(a),
                Err(e) => {
                    self.record(e.duplicate());
                    return Err(e);
                },
            },
            None => TxKind::Create,
        };
        let v = match optional_word(value) {
            Ok(v) => v,
            Err(e) => {
                self.record(e.duplicate());
                return Err(e);
            },
        };
        let price = match gas_price {
            Some(p) => match hex_to_u256(p) {
                Ok(w) => match word_to_u128(w.bytes) {
                    Some(x) => x,
                    None => DEFAULT_GAS_PRICE,
                },
                Err(e) => {
                    self.record(e.duplicate());
                    return Err(e);
                },
            },
            None => DEFAULT_GAS_PRICE,
        };
        let tx = TxParams {
            caller: caller_addr,
            kind,
            value: v,
            data,
            gas_limit: gas_limit as u64,
            gas_price: price,
            nonce: nonce as u64,
            chain_id: None,
        };
        self.stage(tx);
        Ok(())
    }

    /// Reads an account through the adapter, recording a failure.
    fn read_account<H: StateHost>(&mut self, host: &H, address: FFIAddress) -> (r: Result<
        Option<FFIAccountInfo>,
        BridgeError,
    >)
        ensures
            final(self)@.handle == old(self)@.handle,
            final(self)@.config == old(self)@.config,
            final(self)@.phase == old(self)@.phase,
            final(self)@.staged == old(self)@.staged,
            match account_read(*host, old(self)@.handle, address) {
                Some(a) => r == Ok::<Option<FFIAccountInfo>, BridgeError>(a) && final(self)@.last_error
                    == old(self)@.last_error,
                None => r is Err && r->Err_0 is HostCallFailure && final(self)@.last_error == Some(r->Err_0),
            },
            held_account(*host, old(self)@.handle, address) is Some ==> r == Ok::<
                Option<FFIAccountInfo>,
                BridgeError,
            >(held_account(*host, old(self)@.handle, address)),
    {
        match self.db.basic_ref(host, address) {
            Ok(a) => Ok(a),
            Err(e) => {
                let err = host_failure(e);
                self.record(err.duplicate());
                Err(err)
            },
        }
    }

    /// Parses an address argument, recording a rejection.
    fn address_arg(&mut self, s: &str) -> (r: Result<FFIAddress, BridgeError>)
        ensures
            final(self)@.handle == old(self)@.handle,
            final(self)@.config == old(self)@.config,
            final(self)@.phase == old(self)@.phase,
            final(self)@.staged == old(self)@.staged,
            match address_error(s.spec_bytes()) {
                Some(e) => r == Err::<FFIAddress, BridgeError>(e) && final(self)@.last_error == Some(e),
                None => r is Ok && address_from(r->Ok_0, s.spec_bytes())
                    && final(self)@.last_error == old(self)@.last_error,
            },
    {
        match hex_to_address(s) {
            Ok(a) => Ok(a),
            Err(e) => {
                self.record(e.duplicate());
                Err(e)
            },
        }
    }

    /// Stages a call from `from` to `to` with the given value (zero when
    /// absent), payload and gas price, bound to the instance's chain id, with
    /// the sender's nonce read fresh from the host, one call with the
    /// instance's handle. A rejected argument or a failed read is recorded
    /// and stages nothing.
    pub fn prepare_call<H: StateHost>(
        &mut self,
        host: &H,
        from: &str,
        to: &str,
        value: Option<&str>,
        data: Vec<u8>,
        gas_limit: u64,
        gas_price: u128,
    ) -> (r: Result<(), BridgeError>)
        ensures
            final(self)@.handle == old(self)@.handle,
            final(self)@.config == old(self)@.config,
            match args_error(from.spec_bytes(), Some(to.spec_bytes()), opt_bytes(value), None) {
                Some(e) => r == Err::<(), BridgeError>(e),
                None => exists|a: FFIAddress|
                    #[trigger] address_from(a, from.spec_bytes()) && (r is Ok <==> account_read(
                        *host,
                        old(self)@.handle,
                        a,
                    ) is Some) && (r is Err ==> r->Err_0 is HostCallFailure),
            },
            r is Err ==> final(self)@.last_error == Some(r->Err_0) && final(self)@.staged == old(self)@.staged
                && final(self)@.phase == old(self)@.phase,
            r is Ok ==> final(self)@.last_error == old(self)@.last_error && final(self)@.phase
                == Phase::TransactionSet && final(self)@.staged is Some && {
                let tx = final(self)@.staged->Some_0;
                &&& address_from(tx.caller, from.spec_bytes())
                &&& kind_from(tx.kind, Some(to.spec_bytes()))
                &&& tx.value.value() == value_from(opt_bytes(value))
                &&& tx.data@ == data@
                &&& tx.gas_limit == gas_limit
                &&& tx.gas_price == gas_price
                &&& tx.chain_id == Some(final(self)@.config.chain_id)
                &&& account_read(*host, old(self)@.handle, tx.caller) is Some
                &&& tx.nonce == nonce_or_zero(account_read(*host, old(self)@.handle, tx.caller)->Some_0)
            },
    {
        let from_addr = match self.address_arg(from) {
            Ok(a) => a,
            Err(e) => {
                return Err(e);
            },
        };
        let to_addr = match self.address_arg(to) {
            Ok(a) => a,
            Err(e) => {
                return Err(e);
            },
        };
        let v = match optional_word(value) {
            Ok(v) => v,
            Err(e) => {
                self.record(e.duplicate());
                return Err(e);
            },
        };
        let account = match self.read_account(host, from_addr) {
            Ok(a) => a,
            Err(e) => {
                assert(address_from(from_addr, from.spec_bytes()));
                return Err(e);
            },
        };
        let tx = call_transaction(
            from_addr,
            to_addr,
            v,
            data,
            gas_limit,
            gas_price,
            account,
            self.config.chain_id,
        );
        self.stage(tx);
        assert(address_from(from_addr, from.spec_bytes()));
        Ok(())
    }

    /// Stages the creation of a contract from `bytecode`, sent by `deployer`
    /// with no value, at the default gas price, bound to the instance's chain
    /// id, with the deployer's nonce read fresh from the host.
    pub fn prepare_deploy<H: StateHost>(
        &mut self,
        host: &H,
        deployer: &str,
        bytecode: Vec<u8>,
        gas_limit: u32,
    ) -> (r: Result<(), BridgeError>)
        ensures
            final(self)@.handle == old(self)@.handle,
            final(self)@.config == old(self)@.config,
            match address_error(deployer.spec_bytes()) {
                Some(e) => r == Err::<(), BridgeError>(e),
                None => exists|a: FFIAddress|
                    #[trigger] address_from(a, deployer.spec_bytes()) && (r is Ok <==> account_read(
                        *host,
                        old(self)@.handle,
                        a,
                    ) is Some) && (r is Err ==> r->Err_0 is HostCallFailure),
            },
            r is Err ==> final(self)@.last_error == Some(r->Err_0) && final(self)@.staged == old(self)@.staged && final(self)@.phase == old(self)@.phase,
            r is Ok ==> final(self)@.last_error == old(self)@.last_error && final(self)@.phase
                == Phase::TransactionSet && final(self)@.staged is Some && {
                let tx = final(self)@.staged->Some_0;
                &&& address_from(tx.caller, deployer.spec_bytes())
                &&& tx.kind == TxKind::Create
                &&& tx.value.value() == 0
                &&& tx.data@ == bytecode@
                &&& tx.gas_limit == gas_limit
                &&& tx.gas_price == DEFAULT_GAS_PRICE
                &&& tx.chain_id == Some(final(self)@.config.chain_id)
                &&& account_read(*host, old(self)@.handle, tx.caller) is Some
                &&& tx.nonce == nonce_or_zero(account_read(*host, old(self)@.handle, tx.caller)->Some_0)
            },
    {
        let deployer_addr = match self.address_arg(deployer) {
            Ok(a) => a,
            Err(e) => {
                return Err(e);
            },
        };
        let account = match self.read_account(host, deployer_addr) {
            Ok(a) => a,
            Err(e) => {
                assert(address_from(deployer_addr, deployer.spec_bytes()));
                return Err(e);
            },
        };
        let tx = create_transaction(deployer_addr, bytecode, gas_limit as u64, account, self.config.chain_id);
        self.stage(tx);
        assert(address_from(deployer_addr, deployer.spec_bytes()));
        Ok(())
    }

    /// Takes what the engine reported for the staged transaction, run without
    /// commit. Its state changes are dropped; the outcome is marshaled. A
    /// refusal by the engine is recorded.
    pub fn finish_execute(&mut self, outcome: Result<ExecutionOutcome, String>) -> (r: Result<
        ExecutionResultFFI,
        BridgeError,
    >)
        ensures
            final(self)@.handle == old(self)@.handle,
            final(self)@.config == old(self)@.config,
            final(self)@.staged == old(self)@.staged,
            match outcome {
                Ok(o) => r is Ok && result_marshaled(o, r->Ok_0) && final(self)@.phase == Phase::Discarded
                    && final(self)@.last_error == old(self)@.last_error,
                Err(msg) => r == Err::<ExecutionResultFFI, BridgeError>(BridgeError::ExecutionFailure(msg))
                    && final(self)@.last_error == Some(BridgeError::ExecutionFailure(msg))
                    && final(self)@.phase == old(self)@.phase,
            },
    {
        match outcome {
            Ok(o) => {
                let res = convert_execution_result(&o);
                self.phase = Phase::Discarded;
                Ok(res)
            },
            Err(msg) => {
                let e = BridgeError::ExecutionFailure(msg);
                self.record(e.duplicate());
                Err(e)
            },
        }
    }

    /// Pushes a diff to the host through the adapter; a refused write is
    /// recorded as the last error.
    fn push_changes<H: StateHost>(&mut self, host: &mut H, changes: &Vec<AccountChange>)
        ensures
            final(self)@.handle == old(self)@.handle,
            final(self)@.config == old(self)@.config,
            final(self)@.staged == old(self)@.staged,
            final(self)@.phase == Phase::Committed,
            commit_reported(
                        *old(host),
                        *final(host),
                        old(self)@.handle,
                        commit_plan(changes@),
                        old(self)@.last_error,
                        final(self)@.last_error,
                    ),
    {
        match self.db.commit(host, changes) {
            Ok(_) => {},
            Err(e) => {
                self.record(host_failure(e));
            },
        }
        self.phase = Phase::Committed;
    }

    /// Takes what the engine reported for the staged transaction together
    /// with its state changes, pushes the changes to the host once, in the
    /// order of `commit_plan`, and marshals the outcome. The outcome is
    /// returned even when a write is refused; that failure is recorded as
    /// the last error, so the caller checks both. When the engine refused
    /// the transaction, nothing is written.
    pub fn finish_execute_and_commit<H: StateHost>(
        &mut self,
        host: &mut H,
        outcome: Result<(ExecutionOutcome, Vec<AccountChange>), String>,
    ) -> (r: Result<ExecutionResultFFI, BridgeError>)
        ensures
            final(self)@.handle == old(self)@.handle,
            final(self)@.config == old(self)@.config,
            final(self)@.staged == old(self)@.staged,
            match outcome {
                Ok((o, changes)) => r is Ok && result_marshaled(o, r->Ok_0) && final(self)@.phase == Phase::Committed
                    && commit_reported(
                        *old(host),
                        *final(host),
                        old(self)@.handle,
                        commit_plan(changes@),
                        old(self)@.last_error,
                        final(self)@.last_error,
                    ),
                Err(msg) => r == Err::<ExecutionResultFFI, BridgeError>(BridgeError::ExecutionFailure(msg))
                    && final(self)@.last_error == Some(BridgeError::ExecutionFailure(msg))
                    && final(self)@.phase == old(self)@.phase && *final(host) == *old(host),
            },
    {
        match outcome {
            Ok((o, changes)) => {
                self.push_changes(host, &changes);
                Ok(convert_execution_result(&o))
            },
            Err(msg) => {
                let e = BridgeError::ExecutionFailure(msg);
                self.record(e.duplicate());
                Err(e)
            },
        }
    }

    /// Takes what the engine reported for a staged creation together with its
    /// state changes, pushes the changes to the host once, and reports the
    /// deployment. A deployment that does not succeed is a normal outcome; a
    /// refused write is recorded as the last error. When the engine refused
    /// the transaction, nothing is written.
    pub fn finish_deploy<H: StateHost>(
        &mut self,
        host: &mut H,
        outcome: Result<(ExecutionOutcome, Vec<AccountChange>), String>,
    ) -> (r: Result<DeploymentResultFFI, BridgeError>)
        ensures
            final(self)@.handle == old(self)@.handle,
            final(self)@.config == old(self)@.config,
            final(self)@.staged == old(self)@.staged,
            match outcome {
                Ok((o, changes)) => r is Ok && deployment_marshaled(o, r->Ok_0) && final(self)@.phase
                    == Phase::Committed && commit_reported(
                        *old(host),
                        *final(host),
                        old(self)@.handle,
                        commit_plan(changes@),
                        old(self)@.last_error,
                        final(self)@.last_error,
                    ),
                Err(msg) => r == Err::<DeploymentResultFFI, BridgeError>(BridgeError::ExecutionFailure(msg))
                    && final(self)@.last_error == Some(BridgeError::ExecutionFailure(msg))
                    && final(self)@.phase == old(self)@.phase && *final(host) == *old(host),
            },
    {
        match outcome {
            Ok((o, changes)) => {
                self.push_changes(host, &changes);
                Ok(convert_deployment_result(&o))
            },
            Err(msg) => {
                let e = BridgeError::ExecutionFailure(msg);
                self.record(e.duplicate());
                Err(e)
            },
        }
    }

    /// Checks that a transaction is staged before the engine runs; records
    /// the error when none is.
    pub fn check_staged(&mut self) -> (r: Result<(), BridgeError>)
        ensures
            final(self)@.handle == old(self)@.handle,
            final(self)@.config == old(self)@.config,
            final(self)@.phase == old(self)@.phase,
            final(self)@.staged == old(self)@.staged,
            old(self)@.staged is Some ==> r is Ok && final(self)@.last_error == old(self)@.last_error,
            old(self)@.staged is None ==> r == Err::<(), BridgeError>(BridgeError::NoTransaction)
                && final(self)@.last_error == Some(BridgeError::NoTransaction),
    {
        if self.staged.is_some() {
            Ok(())
        } else {
            self.record(BridgeError::NoTransaction);
            Err(BridgeError::NoTransaction)
        }
    }

    /// Parses a number argument, recording a rejection.
    fn word_arg(&mut self, s: &str) -> (r: Result<FFIU256, BridgeError>)
        ensures
            final(self)@ == (InstanceView { last_error: final(self)@.last_error, ..old(self)@ }),
            match word_error(s.spec_bytes()) {
                Some(e) => r == Err::<FFIU256, BridgeError>(e) && final(self)@.last_error == Some(e),
                None => r is Ok && r->Ok_0.value() == value_from(Some(s.spec_bytes()))
                    && final(self)@.last_error == old(self)@.last_error,
            },
    {
        match hex_to_u256(s) {
            Ok(v) => Ok(v),
            Err(e) => {
                self.record(e.duplicate());
                Err(e)
            },
        }
    }

    /// Records a refused write.
    fn write_status(&mut self, status: i32, what: &str) -> (r: Result<(), BridgeError>)
        ensures
            final(self)@ == (InstanceView { last_error: final(self)@.last_error, ..old(self)@ }),
            status == STATUS_OK ==> r is Ok && final(self)@.last_error == old(self)@.last_error,
            status != STATUS_OK ==> r is Err && r->Err_0 is HostCallFailure && final(self)@.last_error
                == Some(r->Err_0),
    {
        if status == STATUS_OK {
            Ok(())
        } else {
            let e = BridgeError::HostCallFailure(String::from_str(what));
            self.record(e.duplicate());
            Err(e)
        }
    }

    /// The balance of an account as "0x" and its shortest lowercase digits,
    /// read through one host call with the instance's handle; "0x0" for an
    /// account the host does not hold.
    pub fn get_balance<H: StateHost>(&mut self, host: &H, address: &str) -> (r: Result<String, BridgeError>)
        ensures
            final(self)@ == (InstanceView { last_error: final(self)@.last_error, ..old(self)@ }),
            r is Ok ==> final(self)@.last_error == old(self)@.last_error,
            r is Err ==> final(self)@.last_error == Some(r->Err_0),
            match address_error(address.spec_bytes()) {
                Some(e) => r == Err::<String, BridgeError>(e),
                None => exists|a: FFIAddress|
                    #[trigger] address_from(a, address.spec_bytes()) && match account_read(
                        *host,
                        old(self)@.handle,
                        a,
                    ) {
                        Some(o) => r is Ok && r->Ok_0@ == balance_text(o),
                        None => r is Err && r->Err_0 is HostCallFailure,
                    } && (held_account(*host, old(self)@.handle, a) is Some ==> r is Ok && r->Ok_0@
                        == balance_text(held_account(*host, old(self)@.handle, a))),
            },
    {
        let addr = match self.address_arg(address) {
            Ok(a) => a,
            Err(e) => {
                return Err(e);
            },
        };
        assert(address_from(addr, address.spec_bytes()));
        match self.read_account(host, addr) {
            Ok(account) => Ok(balance_to_hex(account)),
            Err(e) => Err(e),
        }
    }

    /// The nonce of an account, read through one host call with the
    /// instance's handle; zero for an account the host does not hold.
    pub fn get_nonce<H: StateHost>(&mut self, host: &H, address: &str) -> (r: Result<u64, BridgeError>)
        ensures
            final(self)@ == (InstanceView { last_error: final(self)@.last_error, ..old(self)@ }),
            r is Ok ==> final(self)@.last_error == old(self)@.last_error,
            r is Err ==> final(self)@.last_error == Some(r->Err_0),
            match address_error(address.spec_bytes()) {
                Some(e) => r == Err::<u64, BridgeError>(e),
                None => exists|a: FFIAddress|
                    #[trigger] address_from(a, address.spec_bytes()) && match account_read(
                        *host,
                        old(self)@.handle,
                        a,
                    ) {
                        Some(o) => r == Ok::<u64, BridgeError>(nonce_or_zero(o)),
                        None => r is Err && r->Err_0 is HostCallFailure,
                    },
            },
    {
        let addr = match self.address_arg(address) {
            Ok(a) => a,
            Err(e) => {
                return Err(e);
            },
        };
        assert(address_from(addr, address.spec_bytes()));
        match self.read_account(host, addr) {
            Ok(account) => Ok(nonce_of(account)),
            Err(e) => Err(e),
        }
    }

    /// The value of a storage slot as "0x" and its shortest lowercase
    /// digits, read through one host call with the instance's handle.
    pub fn get_storage<H: StateHost>(&mut self, host: &H, address: &str, slot: &str) -> (r: Result<
        String,
        BridgeError,
    >)
        ensures
            final(self)@ == (InstanceView { last_error: final(self)@.last_error, ..old(self)@ }),
            r is Ok ==> final(self)@.last_error == old(self)@.last_error,
            r is Err ==> final(self)@.last_error == Some(r->Err_0),
            match args_error(address.spec_bytes(), None, Some(slot.spec_bytes()), None) {
                Some(e) => r == Err::<String, BridgeError>(e),
                None => exists|a: FFIAddress, i: FFIU256|
                    #![trigger address_from(a, address.spec_bytes()), i.value()]
                    address_from(a, address.spec_bytes()) && i.value() == value_from(Some(slot.spec_bytes()))
                        && ({
                        let ans = host.storage_answer(old(self)@.handle, a, FFIHash { bytes: i.bytes });
                        match value_outcome(ans.1, ans.0) {
                            Some(v) => r is Ok && r->Ok_0@ == hex_prefix() + minimal_hex(v.value()),
                            None => r is Err && r->Err_0 is HostCallFailure,
                        }
                    }),
            },
    {
        let addr = match self.address_arg(address) {
            Ok(a) => a,
            Err(e) => {
                return Err(e);
            },
        };
        let index = match self.word_arg(slot) {
            Ok(v) => v,
            Err(e) => {
                return Err(e);
            },
        };
        assert(address_from(addr, address.spec_bytes()));
        match self.db.storage_ref(host, addr, index) {
            Ok(v) => Ok(u256_to_hex(v)),
            Err(e) => {
                let err = host_failure(e);
                self.record(err.duplicate());
                Err(err)
            },
        }
    }

    /// Writes an account with the given balance, nonce zero and the hash of
    /// empty code straight to the host, one call with the instance's handle,
    /// bypassing the commit pipeline. A rejected argument writes nothing.
    pub fn set_balance<H: StateHost>(&mut self, host: &mut H, address: &str, balance: &str) -> (r:
        Result<(), BridgeError>)
        ensures
            final(self)@ == (InstanceView { last_error: final(self)@.last_error, ..old(self)@ }),
            r is Ok ==> final(self)@.last_error == old(self)@.last_error,
            r is Err ==> final(self)@.last_error == Some(r->Err_0),
            match args_error(address.spec_bytes(), None, Some(balance.spec_bytes()), None) {
                Some(e) => r == Err::<(), BridgeError>(e) && *final(host) == *old(host),
                None => (r is Err ==> r->Err_0 is HostCallFailure) && exists|a: FFIAddress, info: FFIAccountInfo|
                    #![trigger address_from(a, address.spec_bytes()), is_balance_record(info, value_from(Some(balance.spec_bytes())))]
                    address_from(a, address.spec_bytes()) && is_balance_record(
                        info,
                        value_from(Some(balance.spec_bytes())),
                    ) && wrote(
                        *old(host),
                        *final(host),
                        old(self)@.handle,
                        HostWrite::Account { address: a, info },
                        r is Ok,
                    ),
            },
    {
        let addr = match self.address_arg(address) {
            Ok(a) => a,
            Err(e) => {
                return Err(e);
            },
        };
        let value = match self.word_arg(balance) {
            Ok(v) => v,
            Err(e) => {
                return Err(e);
            },
        };
        let info = balance_record(value);
        let status = host.write_account(self.db.handle(), addr, info);
        let r = self.write_status(status, "write_account failed");
        assert(address_from(addr, address.spec_bytes()));
        assert(is_balance_record(info, value_from(Some(balance.spec_bytes()))));
        r
    }

    /// Writes the value of a storage slot straight to the host, one call with
    /// the instance's handle, bypassing the commit pipeline. A rejected
    /// argument writes nothing.
    pub fn set_storage<H: StateHost>(
        &mut self,
        host: &mut H,
        address: &str,
        slot: &str,
        value: &str,
    ) -> (r: Result<(), BridgeError>)
        ensures
            final(self)@ == (InstanceView { last_error: final(self)@.last_error, ..old(self)@ }),
            r is Ok ==> final(self)@.last_error == old(self)@.last_error,
            r is Err ==> final(self)@.last_error == Some(r->Err_0),
            match args_error(address.spec_bytes(), None, Some(slot.spec_bytes()), Some(value.spec_bytes())) {
                Some(e) => r == Err::<(), BridgeError>(e) && *final(host) == *old(host),
                None => (r is Err ==> r->Err_0 is HostCallFailure) && exists|a: FFIAddress, i: FFIU256, v: FFIU256|
                    #![trigger address_from(a, address.spec_bytes()), i.value(), v.value()]
                    address_from(a, address.spec_bytes()) && i.value() == value_from(Some(slot.spec_bytes()))
                        && v.value() == value_from(Some(value.spec_bytes())) && wrote(
                        *old(host),
                        *final(host),
                        old(self)@.handle,
                        HostWrite::Storage { address: a, slot: FFIHash { bytes: i.bytes }, value: v },
                        r is Ok,
                    ),
            },
    {
        let addr = match self.address_arg(address) {
            Ok(a) => a,
            Err(e) => {
                return Err(e);
            },
        };
        let index = match self.word_arg(slot) {
            Ok(v) => v,
            Err(e) => {
                return Err(e);
            },
        };
        let v = match self.word_arg(value) {
            Ok(v) => v,
            Err(e) => {
                return Err(e);
            },
        };
        let status = host.write_storage(self.db.handle(), addr, FFIHash { bytes: index.bytes }, v);
        let r = self.write_status(status, "write_storage failed");
        assert(address_from(addr, address.spec_bytes()));
        r
    }

    /// Sets the nonce of an account: reads it through one host call and
    /// writes it back with the new nonce, or writes a fresh account with no
    /// balance and the hash of empty code when the host does not hold one.
    /// Both calls carry the instance's handle. A failed read writes nothing.
    pub fn set_nonce<H: StateHost>(&mut self, host: &mut H, address: &str, nonce: u64) -> (r: Result<
        (),
        BridgeError,
    >)
        ensures
            final(self)@ == (InstanceView { last_error: final(self)@.last_error, ..old(self)@ }),
            r is Ok ==> final(self)@.last_error == old(self)@.last_error,
            r is Err ==> final(self)@.last_error == Some(r->Err_0),
            match address_error(address.spec_bytes()) {
                Some(e) => r == Err::<(), BridgeError>(e) && *final(host) == *old(host),
                None => (r is Err ==> r->Err_0 is HostCallFailure) && exists|a: FFIAddress|
                    #[trigger] address_from(a, address.spec_bytes()) && match account_read(
                        *old(host),
                        old(self)@.handle,
                        a,
                    ) {
                        None => r is Err && *final(host) == *old(host),
                        Some(o) => exists|info: FFIAccountInfo|
                            #[trigger] is_nonce_update(o, nonce, info) && wrote(
                                *old(host),
                                *final(host),
                                old(self)@.handle,
                                HostWrite::Account { address: a, info },
                                r is Ok,
                            ),
                    },
            },
    {
        let addr = match self.address_arg(address) {
            Ok(a) => a,
            Err(e) => {
                return Err(e);
            },
        };
        assert(address_from(addr, address.spec_bytes()));
        let account = match self.read_account(host, addr) {
            Ok(a) => a,
            Err(e) => {
                return Err(e);
            },
        };
        let info = account_with_nonce(account, nonce);
        let status = host.write_account(self.db.handle(), addr, info);
        let r = self.write_status(status, "write_account failed");
        assert(is_nonce_update(account, nonce, info));
        r
    }
}

} // verus!

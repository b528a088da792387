//! The state adapter: every read and write of account state becomes one call
//! to the host, and every status the host answers becomes a typed outcome.

use vstd::prelude::*;
use crate::error::GoDBError;
use crate::wire::{FFIAccountInfo, FFIAddress, FFIHash, FFIU256, all_zero};
use crate::commit::{
    AccountChange, HostWrite, StateKey, StateValue, apply_writes, commit_plan, lemma_commit_idempotent, lemma_commit_sets_accounts,
    plan_commit,
};

verus! {

/// Status of a host call that succeeded.
pub const STATUS_OK: i32 = 0;

/// Status of a read whose key the host does not hold.
pub const STATUS_NOT_FOUND: i32 = 1;

/// The calls that the host process answers. Each takes the opaque handle
/// that names one host-owned state, and answers with a status: 0 for
/// success, 1 for a key it does not hold, anything else for a failure.
///
/// The host is described by what it answers to each read, the log of the
/// writes it has received, and the state it holds under each handle: an
/// accepted write overwrites one key, a refused one changes nothing.
pub trait StateHost {
    /// What the host answers to a read of an account.
    closed spec fn account_answer(&self, handle: usize, addr: FFIAddress) -> (FFIAccountInfo, i32) {
        arbitrary()
    }

    /// What the host answers to a read of a storage slot.
    closed spec fn storage_answer(&self, handle: usize, addr: FFIAddress, slot: FFIHash) -> (FFIU256, i32) {
        arbitrary()
    }

    /// What the host answers to a read of a block hash.
    closed spec fn block_hash_answer(&self, handle: usize, number: u64) -> (FFIHash, i32) {
        arbitrary()
    }

    /// What the host answers to a read of code: the bytes and the status.
    closed spec fn code_answer(&self, handle: usize, code_hash: FFIHash) -> (Seq<u8>, i32) {
        arbitrary()
    }

    /// Every write the host has received, with the handle it named, in order.
    closed spec fn writes(&self) -> Seq<(usize, HostWrite)> {
        arbitrary()
    }

    /// The state the host holds under a handle.
    closed spec fn held(&self, handle: usize) -> Map<StateKey, StateValue> {
        arbitrary()
    }

    /// The account stored under an address.
    fn read_account(&self, handle: usize, addr: FFIAddress) -> (r: (FFIAccountInfo, i32))
        ensures
            r == self.account_answer(handle, addr),
            ({
                let k = StateKey::Account(addr);
                self.held(handle).contains_key(k) && self.held(handle)[k] is Account ==> r == (
                    self.held(handle)[k]->Account_0,
                    STATUS_OK,
                )
            }),
    ;

    /// The value of one storage slot of an account.
    fn read_storage(&self, handle: usize, addr: FFIAddress, slot: FFIHash) -> (r: (FFIU256, i32))
        ensures
            r == self.storage_answer(handle, addr, slot),
    ;

    /// The hash of a past block.
    fn read_block_hash(&self, handle: usize, number: u64) -> (r: (FFIHash, i32))
        ensures
            r == self.block_hash_answer(handle, number),
    ;

    /// The code whose hash is given, copied out of the host's buffer.
    fn read_code(&self, handle: usize, code_hash: FFIHash) -> (r: (Vec<u8>, i32))
        ensures
            r.0@ == self.code_answer(handle, code_hash).0,
            r.1 == self.code_answer(handle, code_hash).1,
    ;

    /// Stores an account under an address.
    fn write_account(&mut self, handle: usize, addr: FFIAddress, info: FFIAccountInfo) -> (r: i32)
        ensures
            final(self).writes() == old(self).writes().push(
                (handle, HostWrite::Account { address: addr, info }),
            ),
            r == STATUS_OK ==> final(self).held(handle) == old(self).held(handle).insert(
                StateKey::Account(addr),
                StateValue::Account(info),
            ),
            r != STATUS_OK ==> final(self).held(handle) == old(self).held(handle),
    ;

    /// Stores the value of one storage slot of an account.
    fn write_storage(&mut self, handle: usize, addr: FFIAddress, slot: FFIHash, value: FFIU256) -> (r: i32)
        ensures
            final(self).writes() == old(self).writes().push(
                (handle, HostWrite::Storage { address: addr, slot, value }),
            ),
            r == STATUS_OK ==> final(self).held(handle) == old(self).held(handle).insert(
                StateKey::Slot(addr, slot),
                StateValue::Word(value),
            ),
            r != STATUS_OK ==> final(self).held(handle) == old(self).held(handle),
    ;
}

/// The account record the host holds under a handle for an address, if any:
/// the host answers reads of that account from it.
pub open spec fn held_account<H: StateHost>(host: H, handle: usize, addr: FFIAddress) -> Option<FFIAccountInfo> {
    let m = host.held(handle);
    let k = StateKey::Account(addr);
    if m.contains_key(k) && m[k] is Account {
        Some(m[k]->Account_0)
    } else {
        None
    }
}

/// After a diff whose accounts are distinct has reached the host whole,
/// each of its accounts is held, and read back, as the record the diff gave
/// it: a transferred value lands exactly once, never on top of the old one.
pub proof fn lemma_committed_account_reads_back<H: StateHost>(
    h0: H,
    h1: H,
    handle: usize,
    changes: Seq<AccountChange>,
    i: int,
)
    requires
        pushed(h0, h1, handle, commit_plan(changes)),
        0 <= i < changes.len(),
        forall|j: int| 0 <= j < changes.len() && j != i ==> (#[trigger] changes[j]).address != changes[i].address,
    ensures
        held_account(h1, handle, changes[i].address) == Some(changes[i].info),
{
    lemma_commit_sets_accounts(h0.held(handle), changes, i);
}

/// Writes, each marked with the handle it was sent under.
pub open spec fn tagged(handle: usize, ws: Seq<HostWrite>) -> Seq<(usize, HostWrite)> {
    ws.map_values(|w: HostWrite| (handle, w))
}

/// The host received exactly these writes under the handle, in order, and
/// accepted each of them.
pub open spec fn pushed<H: StateHost>(before: H, after: H, handle: usize, ws: Seq<HostWrite>) -> bool {
    &&& after.writes() == before.writes() + tagged(handle, ws)
    &&& after.held(handle) == apply_writes(before.held(handle), ws)
}

/// The host received these writes in order up to and including the one at
/// index `k`, which it refused; the ones before it took effect.
pub open spec fn refused_at<H: StateHost>(
    before: H,
    after: H,
    handle: usize,
    ws: Seq<HostWrite>,
    k: int,
) -> bool {
    &&& 0 <= k < ws.len()
    &&& after.writes() == before.writes() + tagged(handle, ws.take(k + 1))
    &&& after.held(handle) == apply_writes(before.held(handle), ws.take(k))
}

/// Committing the same diff a second time, through a host that accepts
/// every write, leaves what the host holds under the handle as the first
/// commit left it.
pub proof fn lemma_host_commit_idempotent<H: StateHost>(
    h0: H,
    h1: H,
    h2: H,
    handle: usize,
    changes: Seq<AccountChange>,
)
    requires
        pushed(h0, h1, handle, commit_plan(changes)),
        pushed(h1, h2, handle, commit_plan(changes)),
    ensures
        h2.held(handle) == h1.held(handle),
{
    lemma_commit_idempotent(h0.held(handle), changes);
}

/// What a read of an account yields for a status and the record the host
/// filled in: the account, no account, or a failure.
pub open spec fn account_outcome(status: i32, info: FFIAccountInfo) -> Option<Option<FFIAccountInfo>> {
    if status == STATUS_OK {
        Some(Some(info))
    } else if status == STATUS_NOT_FOUND {
        Some(None)
    } else {
        None
    }
}

/// What a read of code yields for a status and the bytes the host handed
/// over: the code, empty code when the host does not hold it, or a failure.
pub open spec fn code_outcome(status: i32, code: Seq<u8>) -> Option<Seq<u8>> {
    if status == STATUS_OK {
        Some(code)
    } else if status == STATUS_NOT_FOUND {
        Some(Seq::empty())
    } else {
        None
    }
}

/// What a read of a storage slot or a block hash yields for a status and
/// the value the host filled in: the value, or a failure. There is no
/// not-found case: an absent slot is the host's to answer as zero.
pub open spec fn value_outcome<T>(status: i32, value: T) -> Option<T> {
    if status == STATUS_OK {
        Some(value)
    } else {
        None
    }
}

/// An account the host does not hold reads as no account, not as an error;
/// code the host does not hold reads as empty code.
pub proof fn lemma_not_found_is_empty(info: FFIAccountInfo, code: Seq<u8>)
    ensures
        account_outcome(STATUS_NOT_FOUND, info) == Some(None::<FFIAccountInfo>),
        code_outcome(STATUS_NOT_FOUND, code) == Some(Seq::<u8>::empty()),
{
}

fn failure(what: &str) -> (r: GoDBError)
    ensures
        r.0@ == what@,
{
    GoDBError(String::from_str(what))
}

/// Opaque database that forwards every request to the host.
#[derive(Clone, Copy, Debug)]
pub struct GoDatabase {
    handle: usize,
}

impl GoDatabase {
    /// The handle passed back on every host call.
    pub closed spec fn spec_handle(self) -> usize {
        self.handle
    }

    /// Wraps a handle that the host gave out; the handle is never interpreted.
    pub fn new(handle: usize) -> (r: Self)
        ensures
            r.spec_handle() == handle,
    {
        Self { handle }
    }

    /// The handle passed back on every host call.
    pub fn handle(&self) -> (r: usize)
        ensures
            r == self.spec_handle(),
    {
        self.handle
    }

    /// Turns the answer to an account read into an outcome: the account for
    /// status 0, none for status 1, an error for any other status.
    pub fn decode_basic(status: i32, info: FFIAccountInfo) -> (r: Result<Option<FFIAccountInfo>, GoDBError>)
        ensures
            match account_outcome(status, info) {
                Some(o) => r == Ok::<Option<FFIAccountInfo>, GoDBError>(o),
                None => r is Err,
            },
    {
        if status == STATUS_OK {
            Ok(Some(info))
        } else if status == STATUS_NOT_FOUND {
            Ok(None)
        } else {
            Err(failure("read_account failed"))
        }
    }

    /// Turns the answer to a code read into an outcome: the bytes for status
    /// 0, empty code for status 1, an error for any other status.
    pub fn decode_code(status: i32, code: Vec<u8>) -> (r: Result<Vec<u8>, GoDBError>)
        ensures
            match code_outcome(status, code@) {
                Some(c) => r is Ok && r->Ok_0@ == c,
                None => r is Err,
            },
    {
        if status == STATUS_OK {
            Ok(code)
        } else if status == STATUS_NOT_FOUND {
            Ok(Vec::new())
        } else {
            Err(failure("read_code failed"))
        }
    }

    /// Turns the answer to a storage read into an outcome: the value for
    /// status 0, an error for any other status.
    pub fn decode_storage(status: i32, value: FFIU256) -> (r: Result<FFIU256, GoDBError>)
        ensures
            match value_outcome(status, value) {
                Some(v) => r == Ok::<FFIU256, GoDBError>(v),
                None => r is Err,
            },
    {
        if status == STATUS_OK {
            Ok(value)
        } else {
            Err(failure("read_storage failed"))
        }
    }

    /// Turns the answer to a block-hash read into an outcome: the hash for
    /// status 0, an error for any other status.
    pub fn decode_block_hash(status: i32, hash: FFIHash) -> (r: Result<FFIHash, GoDBError>)
        ensures
            match value_outcome(status, hash) {
                Some(h) => r == Ok::<FFIHash, GoDBError>(h),
                None => r is Err,
            },
    {
        if status == STATUS_OK {
            Ok(hash)
        } else {
            Err(failure("read_block_hash failed"))
        }
    }

    /// Reads an account through one host call, with this database's handle.
    pub fn basic_ref<H: StateHost>(&self, host: &H, address: FFIAddress) -> (r: Result<
        Option<FFIAccountInfo>,
        GoDBError,
    >)
        ensures
            ({
                let a = host.account_answer(self.spec_handle(), address);
                match account_outcome(a.1, a.0) {
                    Some(o) => r == Ok::<Option<FFIAccountInfo>, GoDBError>(o),
                    None => r is Err,
                }
            }),
            held_account(*host, self.spec_handle(), address) is Some ==> r == Ok::<
                Option<FFIAccountInfo>,
                GoDBError,
            >(held_account(*host, self.spec_handle(), address)),
    {
        let (info, status) = host.read_account(self.handle, address);
        Self::decode_basic(status, info)
    }

    /// Reads code by its hash. The all-zero hash names no code: it yields
    /// empty code without a host call. Any other hash is one host call.
    pub fn code_by_hash_ref<H: StateHost>(&self, host: &H, code_hash: FFIHash) -> (r: Result<
        Vec<u8>,
        GoDBError,
    >)
        ensures
            all_zero(code_hash.bytes@) ==> r is Ok && r->Ok_0@.len() == 0,
            !all_zero(code_hash.bytes@) ==> ({
                let a = host.code_answer(self.spec_handle(), code_hash);
                match code_outcome(a.1, a.0) {
                    Some(c) => r is Ok && r->Ok_0@ == c,
                    None => r is Err,
                }
            }),
    {
        let mut i: usize = 0;
        while i < 32
            invariant
                0 <= i <= 32,
                forall|j: int| 0 <= j < i ==> code_hash.bytes@[j] == 0,
            decreases 32 - i,
        {
            if code_hash.bytes[i] != 0 {
                let (code, status) = host.read_code(self.handle, code_hash);
                return Self::decode_code(status, code);
            }
            i = i + 1;
        }
        Ok(Vec::new())
    }

    /// Reads one storage slot through one host call; the slot goes to the
    /// host as a hash with the same 32 bytes.
    pub fn storage_ref<H: StateHost>(&self, host: &H, address: FFIAddress, index: FFIU256) -> (r:
        Result<FFIU256, GoDBError>)
        ensures
            ({
                let a = host.storage_answer(self.spec_handle(), address, FFIHash { bytes: index.bytes });
                match value_outcome(a.1, a.0) {
                    Some(v) => r == Ok::<FFIU256, GoDBError>(v),
                    None => r is Err,
                }
            }),
    {
        let (value, status) = host.read_storage(self.handle, address, FFIHash { bytes: index.bytes });
        Self::decode_storage(status, value)
    }

    /// Reads the hash of a past block through one host call.
    pub fn block_hash_ref<H: StateHost>(&self, host: &H, number: u64) -> (r: Result<FFIHash, GoDBError>)
        ensures
            ({
                let a = host.block_hash_answer(self.spec_handle(), number);
                match value_outcome(a.1, a.0) {
                    Some(h) => r == Ok::<FFIHash, GoDBError>(h),
                    None => r is Err,
                }
            }),
    {
        let (hash, status) = host.read_block_hash(self.handle, number);
        Self::decode_block_hash(status, hash)
    }

    /// Issues writes in order, one host call each, with this database's
    /// handle, and stops at the first that the host refuses: the result is
    /// the number of writes, or the index of the refused one.
    pub fn push_writes<H: StateHost>(&self, host: &mut H, writes: &Vec<HostWrite>) -> (r: Result<
        usize,
        usize,
    >)
        ensures
            match r {
                Ok(n) => n == writes@.len() && pushed(*old(host), *final(host), self.spec_handle(), writes@),
                Err(k) => refused_at(*old(host), *final(host), self.spec_handle(), writes@, k as int),
            },
    {
        let ghost h0 = *host;
        let mut i: usize = 0;
        assert(writes@.take(0) =~= Seq::<HostWrite>::empty());
        assert(tagged(self.handle, writes@.take(0)) =~= Seq::<(usize, HostWrite)>::empty());
        assert(host.writes() =~= h0.writes() + tagged(self.handle, writes@.take(0)));
        while i < writes.len()
            invariant
                0 <= i <= writes@.len(),
                h0 == *old(host),
                host.writes() == h0.writes() + tagged(self.handle, writes@.take(i as int)),
                host.held(self.handle) == apply_writes(h0.held(self.handle), writes@.take(i as int)),
            decreases writes@.len() - i,
        {
            let ghost before = *host;
            let w = writes[i];
            let status = match w {
                HostWrite::Account { address, info } => host.write_account(self.handle, address, info),
                HostWrite::Storage { address, slot, value } => host.write_storage(
                    self.handle,
                    address,
                    slot,
                    value,
                ),
            };
            proof {
                assert(writes@.take(i + 1).drop_last() =~= writes@.take(i as int));
                assert(writes@.take(i + 1).last() == w);
                assert(tagged(self.handle, writes@.take(i + 1)) =~= tagged(self.handle, writes@.take(i as int)).push(
                    (self.handle, w),
                ));
                assert(host.writes() =~= h0.writes() + tagged(self.handle, writes@.take(i + 1)));
            }
            if status != STATUS_OK {
                proof {
                    assert(host.held(self.handle) == before.held(self.handle));
                    assert(refused_at(h0, *host, self.handle, writes@, i as int));
                }
                return Err(i);
            }
            i = i + 1;
        }
        assert(writes@.take(i as int) =~= writes@);
        Ok(i)
    }

    /// Pushes the state changes of one execution back to the host: for each
    /// touched account in order, its record, then each of its changed slots,
    /// as planned by `plan_commit`. Stops at the first write that the host
    /// refuses. No reads, no retries.
    pub fn commit<H: StateHost>(&self, host: &mut H, changes: &Vec<AccountChange>) -> (r: Result<
        usize,
        GoDBError,
    >)
        ensures
            changes@.len() == 0 ==> r == Ok::<usize, GoDBError>(0),
            r is Ok ==> r->Ok_0 == commit_plan(changes@).len() && pushed(
                *old(host),
                *final(host),
                self.spec_handle(),
                commit_plan(changes@),
            ),
            r is Err ==> exists|k: int|
                refused_at(*old(host), *final(host), self.spec_handle(), commit_plan(changes@), k),
    {
        let writes = plan_commit(changes);
        match self.push_writes(host, &writes) {
            Ok(n) => Ok(n),
            Err(k) => {
                assert(refused_at(*old(host), *host, self.spec_handle(), commit_plan(changes@), k as int));
                Err(failure("write to host failed during commit"))
            },
        }
    }
}

} // verus!

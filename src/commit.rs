//! The commit pipeline: the state changes of one execution, turned into the
//! ordered writes that replay them on the host.

use vstd::prelude::*;
use crate::wire::{FFIAccountInfo, FFIAddress, FFIHash, FFIU256};

verus! {

/// The new value of one storage slot.
#[derive(Clone, Copy, Debug, PartialEq, Eq)]
pub struct SlotChange {
    pub slot: FFIU256,
    pub value: FFIU256,
}

/// A touched account: its resulting record and its changed slots, in the
/// order the engine produced them.
#[derive(Clone, Debug, PartialEq, Eq)]
pub struct AccountChange {
    pub address: FFIAddress,
    pub info: FFIAccountInfo,
    pub storage: Vec<SlotChange>,
}

/// One write call to the host.
#[derive(Clone, Copy, Debug, PartialEq, Eq)]
pub enum HostWrite {
    Account { address: FFIAddress, info: FFIAccountInfo },
    Storage { address: FFIAddress, slot: FFIHash, value: FFIU256 },
}

/// A key of host-owned state: an account record or one storage slot.
#[derive(Clone, Copy, Debug, PartialEq, Eq)]
pub enum StateKey {
    Account(FFIAddress),
    Slot(FFIAddress, FFIHash),
}

/// A value of host-owned state.
#[derive(Clone, Copy, Debug, PartialEq, Eq)]
pub enum StateValue {
    Account(FFIAccountInfo),
    Word(FFIU256),
}

/// The key a write stores under.
pub open spec fn write_key(w: HostWrite) -> StateKey {
    match w {
        HostWrite::Account { address, info } => StateKey::Account(address),
        HostWrite::Storage { address, slot, value } => StateKey::Slot(address, slot),
    }
}

/// The value a write stores.
pub open spec fn write_value(w: HostWrite) -> StateValue {
    match w {
        HostWrite::Account { address, info } => StateValue::Account(info),
        HostWrite::Storage { address, slot, value } => StateValue::Word(value),
    }
}

/// The write of one changed slot of an account.
pub open spec fn slot_write(address: FFIAddress, s: SlotChange) -> HostWrite {
    HostWrite::Storage { address, slot: FFIHash { bytes: s.slot.bytes }, value: s.value }
}

/// The writes that replay one touched account: its record, then its slots.
pub open spec fn account_writes(c: AccountChange) -> Seq<HostWrite> {
    seq![HostWrite::Account { address: c.address, info: c.info }] + c.storage@.map_values(
        |s: SlotChange| slot_write(c.address, s),
    )
}

/// The writes that replay a whole diff, account after account.
pub open spec fn commit_plan(changes: Seq<AccountChange>) -> Seq<HostWrite>
    decreases changes.len(),
{
    if changes.len() == 0 {
        Seq::empty()
    } else {
        commit_plan(changes.drop_last()) + account_writes(changes.last())
    }
}

/// The host's state after a sequence of writes, each overwriting its key.
pub open spec fn apply_writes(st: Map<StateKey, StateValue>, ws: Seq<HostWrite>) -> Map<
    StateKey,
    StateValue,
>
    decreases ws.len(),
{
    if ws.len() == 0 {
        st
    } else {
        apply_writes(st, ws.drop_last()).insert(write_key(ws.last()), write_value(ws.last()))
    }
}

/// The value of the last write to a key, if any write touches it.
pub open spec fn last_write(ws: Seq<HostWrite>, k: StateKey) -> Option<StateValue>
    decreases ws.len(),
{
    if ws.len() == 0 {
        None
    } else if write_key(ws.last()) == k {
        Some(write_value(ws.last()))
    } else {
        last_write(ws.drop_last(), k)
    }
}

proof fn lemma_apply_writes_overlay(st: Map<StateKey, StateValue>, ws: Seq<HostWrite>, k: StateKey)
    ensures
        apply_writes(st, ws).contains_key(k) <==> (last_write(ws, k) is Some || st.contains_key(k)),
        last_write(ws, k) is Some ==> apply_writes(st, ws)[k] == last_write(ws, k)->Some_0,
        last_write(ws, k) is None ==> apply_writes(st, ws)[k] == st[k],
    decreases ws.len(),
{
    if ws.len() > 0 {
        lemma_apply_writes_overlay(st, ws.drop_last(), k);
    }
}

/// Replaying the same writes a second time leaves the host's state as the
/// first replay left it.
pub proof fn lemma_apply_writes_idempotent(st: Map<StateKey, StateValue>, ws: Seq<HostWrite>)
    ensures
        apply_writes(apply_writes(st, ws), ws) == apply_writes(st, ws),
{
    let once = apply_writes(st, ws);
    let twice = apply_writes(once, ws);
    assert forall|k: StateKey| #[trigger] twice.contains_key(k) == once.contains_key(k) by {
        lemma_apply_writes_overlay(st, ws, k);
        lemma_apply_writes_overlay(once, ws, k);
    }
    assert forall|k: StateKey| twice.contains_key(k) implies #[trigger] twice[k] == once[k] by {
        lemma_apply_writes_overlay(st, ws, k);
        lemma_apply_writes_overlay(once, ws, k);
    }
    assert(twice =~= once);
}

/// Committing the same diff twice leaves the host's state as committing it
/// once did.
pub proof fn lemma_commit_idempotent(st: Map<StateKey, StateValue>, changes: Seq<AccountChange>)
    ensures
        apply_writes(apply_writes(st, commit_plan(changes)), commit_plan(changes)) == apply_writes(
            st,
            commit_plan(changes),
        ),
{
    lemma_apply_writes_idempotent(st, commit_plan(changes));
}

proof fn lemma_last_write_concat(xs: Seq<HostWrite>, ys: Seq<HostWrite>, k: StateKey)
    ensures
        last_write(xs + ys, k) == (if last_write(ys, k) is Some {
            last_write(ys, k)
        } else {
            last_write(xs, k)
        }),
    decreases ys.len(),
{
    if ys.len() == 0 {
        assert(xs + ys =~= xs);
    } else {
        assert((xs + ys).drop_last() =~= xs + ys.drop_last());
        lemma_last_write_concat(xs, ys.drop_last(), k);
    }
}

proof fn lemma_slot_writes_skip_accounts(ws: Seq<HostWrite>, a: FFIAddress)
    requires
        forall|i: int| 0 <= i < ws.len() ==> (#[trigger] write_key(ws[i])) is Slot,
    ensures
        last_write(ws, StateKey::Account(a)) is None,
    decreases ws.len(),
{
    if ws.len() > 0 {
        assert(write_key(ws[ws.len() - 1]) is Slot);
        lemma_slot_writes_skip_accounts(ws.drop_last(), a);
    }
}

proof fn lemma_account_writes_last(c: AccountChange, a: FFIAddress)
    ensures
        last_write(account_writes(c), StateKey::Account(a)) == (if c.address == a {
            Some(StateValue::Account(c.info))
        } else {
            None
        }),
{
    let head = seq![HostWrite::Account { address: c.address, info: c.info }];
    let slots = c.storage@.map_values(|s: SlotChange| slot_write(c.address, s));
    assert forall|i: int| 0 <= i < slots.len() implies (#[trigger] write_key(slots[i])) is Slot by {}
    lemma_slot_writes_skip_accounts(slots, a);
    assert(account_writes(c) == head + slots);
    lemma_last_write_concat(head, slots, StateKey::Account(a));
    assert(head.drop_last() =~= Seq::<HostWrite>::empty());
    assert(last_write(head.drop_last(), StateKey::Account(a)) is None);
    assert(head.last() == HostWrite::Account { address: c.address, info: c.info });
}

proof fn lemma_plan_last_account(changes: Seq<AccountChange>, i: int)
    requires
        0 <= i < changes.len(),
        forall|j: int| 0 <= j < changes.len() && j != i ==> (#[trigger] changes[j]).address != changes[i].address,
    ensures
        last_write(commit_plan(changes), StateKey::Account(changes[i].address)) == Some(
            StateValue::Account(changes[i].info),
        ),
    decreases changes.len(),
{
    let n = changes.len() - 1;
    let a = changes[i].address;
    lemma_last_write_concat(commit_plan(changes.drop_last()), account_writes(changes.last()), StateKey::Account(a));
    lemma_account_writes_last(changes.last(), a);
    if i < n {
        assert(changes[n].address != a);
        let rest = changes.drop_last();
        assert forall|j: int| 0 <= j < rest.len() && j != i implies (#[trigger] rest[j]).address != rest[i].address by {
            assert(rest[j] == changes[j]);
        }
        lemma_plan_last_account(rest, i);
    }
}

/// Committing a diff whose accounts are distinct leaves each of them holding
/// exactly the record the diff gives it, whatever the host held before: the
/// change is applied once, as an overwrite, never on top of an earlier value.
pub proof fn lemma_commit_sets_accounts(
    st: Map<StateKey, StateValue>,
    changes: Seq<AccountChange>,
    i: int,
)
    requires
        0 <= i < changes.len(),
        forall|j: int| 0 <= j < changes.len() && j != i ==> (#[trigger] changes[j]).address != changes[i].address,
    ensures
        apply_writes(st, commit_plan(changes)).contains_key(StateKey::Account(changes[i].address)),
        apply_writes(st, commit_plan(changes))[StateKey::Account(changes[i].address)]
            == StateValue::Account(changes[i].info),
{
    lemma_plan_last_account(changes, i);
    lemma_apply_writes_overlay(st, commit_plan(changes), StateKey::Account(changes[i].address));
}

/// The writes that replay a diff: for each touched account in the order
/// given, its record, then each of its changed slots in the order given.
pub fn plan_commit(changes: &Vec<AccountChange>) -> (r: Vec<HostWrite>)
    ensures
        r@ == commit_plan(changes@),
{
    let mut out: Vec<HostWrite> = Vec::new();
    let mut i: usize = 0;
    while i < changes.len()
        invariant
            0 <= i <= changes@.len(),
            out@ == commit_plan(changes@.take(i as int)),
        decreases changes@.len() - i,
    {
        let c = &changes[i];
        let ghost before = out@;
        out.push(HostWrite::Account { address: c.address, info: c.info });
        let mut j: usize = 0;
        while j < c.storage.len()
            invariant
                0 <= j <= c.storage@.len(),
                out@ == before + seq![HostWrite::Account { address: c.address, info: c.info }]
                    + c.storage@.take(j as int).map_values(|s: SlotChange| slot_write(c.address, s)),
            decreases c.storage@.len() - j,
        {
            let s = c.storage[j];
            out.push(HostWrite::Storage { address: c.address, slot: FFIHash { bytes: s.slot.bytes }, value: s.value });
            proof {
                assert(c.storage@.take(j + 1).map_values(|s: SlotChange| slot_write(c.address, s))
                    =~= c.storage@.take(j as int).map_values(|s: SlotChange| slot_write(c.address, s))
                    .push(slot_write(c.address, s)));
            }
            j = j + 1;
        }
        proof {
            assert(c.storage@.take(j as int) =~= c.storage@);
            assert(changes@.take(i + 1).drop_last() =~= changes@.take(i as int));
            assert(out@ =~= commit_plan(changes@.take(i as int)) + account_writes(*c));
        }
        i = i + 1;
    }
    assert(changes@.take(i as int) =~= changes@);
    out
}

} // verus!

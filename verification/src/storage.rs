//! The vault's persistent storage: the operations the vault performs on it,
//! a model of what it holds, and the depositor index kept in it.
//!
//! The depositor index lists the active depositors in slots `0..count`
//! (`DepositorAt`), with the reverse lookup address -> slot (`DepositorIndex`),
//! so that a depositor is added at the end and removed by moving the last
//! one into the freed slot.
use vstd::prelude::*;

use crate::types::{opt_addr_view, Addr, EntryView, KeyView, VaultEntry, VaultKey, BPS_DENOMINATOR};

verus! {

// ----------------------------------------------------------------
//  Persistent storage TTL constants
// ----------------------------------------------------------------

/// Entries whose time-to-live falls below this many ledgers are extended.
pub const BUMP_THRESHOLD: u32 = 518_400;

/// Every entry the vault writes is extended to live this many ledgers.
pub const BUMP_TARGET: u32 = 33_000_000;

// ----------------------------------------------------------------
//  Storage operations
// ----------------------------------------------------------------

/// One operation on the vault's persistent storage. Every `Set...` also
/// extends the entry's time-to-live to `BUMP_TARGET`.
#[derive(Debug)]
pub enum StorageOp {
    SetDeposit(Addr, VaultEntry),
    RemoveDeposit(Addr),
    SetAdmin(Addr),
    RemoveAdmin,
    SetPendingAdmin(Addr),
    RemovePendingAdmin,
    SetInitialized,
    SetFeeRecipient(Addr),
    SetMaxDeposit(i128),
    SetMaxLockSecs(u64),
    SetDepositorCount(u32),
    SetDepositorAt(u32, Addr),
    RemoveDepositorAt(u32),
    SetDepositorSlot(Addr, u32),
    RemoveDepositorSlot(Addr),
    /// Append the address to the depositor index (see `add_depositor`).
    AddDepositor(Addr),
    /// Take the address out of the depositor index (see `remove_depositor`).
    RemoveDepositor(Addr),
}

/// The view of a storage operation: addresses taken by their strkeys.
pub enum OpView {
    SetDeposit(Seq<char>, EntryView),
    RemoveDeposit(Seq<char>),
    SetAdmin(Seq<char>),
    RemoveAdmin,
    SetPendingAdmin(Seq<char>),
    RemovePendingAdmin,
    SetInitialized,
    SetFeeRecipient(Seq<char>),
    SetMaxDeposit(i128),
    SetMaxLockSecs(u64),
    SetDepositorCount(u32),
    SetDepositorAt(u32, Seq<char>),
    RemoveDepositorAt(u32),
    SetDepositorSlot(Seq<char>, u32),
    RemoveDepositorSlot(Seq<char>),
    AddDepositor(Seq<char>),
    RemoveDepositor(Seq<char>),
}

impl View for StorageOp {
    type V = OpView;

    open spec fn view(&self) -> OpView {
        match self {
            StorageOp::SetDeposit(a, e) => OpView::SetDeposit(a@, e@),
            StorageOp::RemoveDeposit(a) => OpView::RemoveDeposit(a@),
            StorageOp::SetAdmin(a) => OpView::SetAdmin(a@),
            StorageOp::RemoveAdmin => OpView::RemoveAdmin,
            StorageOp::SetPendingAdmin(a) => OpView::SetPendingAdmin(a@),
            StorageOp::RemovePendingAdmin => OpView::RemovePendingAdmin,
            StorageOp::SetInitialized => OpView::SetInitialized,
            StorageOp::SetFeeRecipient(a) => OpView::SetFeeRecipient(a@),
            StorageOp::SetMaxDeposit(v) => OpView::SetMaxDeposit(*v),
            StorageOp::SetMaxLockSecs(v) => OpView::SetMaxLockSecs(*v),
            StorageOp::SetDepositorCount(n) => OpView::SetDepositorCount(*n),
            StorageOp::SetDepositorAt(i, a) => OpView::SetDepositorAt(*i, a@),
            StorageOp::RemoveDepositorAt(i) => OpView::RemoveDepositorAt(*i),
            StorageOp::SetDepositorSlot(a, i) => OpView::SetDepositorSlot(a@, *i),
            StorageOp::RemoveDepositorSlot(a) => OpView::RemoveDepositorSlot(a@),
            StorageOp::AddDepositor(a) => OpView::AddDepositor(a@),
            StorageOp::RemoveDepositor(a) => OpView::RemoveDepositor(a@),
        }
    }
}

/// The views of a sequence of operations.
pub open spec fn ops_view(ops: Seq<StorageOp>) -> Seq<OpView> {
    ops.map_values(|o: StorageOp| o@)
}

impl StorageOp {
    /// The storage key this operation writes or removes; `None` for the two
    /// index operations, which touch several keys.
    pub fn key(&self) -> (k: Option<VaultKey>)
        ensures
            match k {
                Some(key) => op_key(self@) == Some(key@),
                None => op_key(self@) is None,
            },
    {
        match self {
            StorageOp::SetDeposit(a, _) => Some(VaultKey::Deposit(a.clone())),
            StorageOp::RemoveDeposit(a) => Some(VaultKey::Deposit(a.clone())),
            StorageOp::SetAdmin(_) => Some(VaultKey::Admin),
            StorageOp::RemoveAdmin => Some(VaultKey::Admin),
            StorageOp::SetPendingAdmin(_) => Some(VaultKey::PendingAdmin),
            StorageOp::RemovePendingAdmin => Some(VaultKey::PendingAdmin),
            StorageOp::SetInitialized => Some(VaultKey::Initialized),
            StorageOp::SetFeeRecipient(_) => Some(VaultKey::FeeRecipient),
            StorageOp::SetMaxDeposit(_) => Some(VaultKey::MaxDeposit),
            StorageOp::SetMaxLockSecs(_) => Some(VaultKey::MaxLockSecs),
            StorageOp::SetDepositorCount(_) => Some(VaultKey::DepositorCount),
            StorageOp::SetDepositorAt(i, _) => Some(VaultKey::DepositorAt(*i)),
            StorageOp::RemoveDepositorAt(i) => Some(VaultKey::DepositorAt(*i)),
            StorageOp::SetDepositorSlot(a, _) => Some(VaultKey::DepositorIndex(a.clone())),
            StorageOp::RemoveDepositorSlot(a) => Some(VaultKey::DepositorIndex(a.clone())),
            StorageOp::AddDepositor(_) => None,
            StorageOp::RemoveDepositor(_) => None,
        }
    }
}

/// The key a single-key operation touches; none for the index operations.
pub open spec fn op_key(op: OpView) -> Option<KeyView> {
    match op {
        OpView::SetDeposit(a, _) => Some(KeyView::Deposit(a)),
        OpView::RemoveDeposit(a) => Some(KeyView::Deposit(a)),
        OpView::SetAdmin(_) => Some(KeyView::Admin),
        OpView::RemoveAdmin => Some(KeyView::Admin),
        OpView::SetPendingAdmin(_) => Some(KeyView::PendingAdmin),
        OpView::RemovePendingAdmin => Some(KeyView::PendingAdmin),
        OpView::SetInitialized => Some(KeyView::Initialized),
        OpView::SetFeeRecipient(_) => Some(KeyView::FeeRecipient),
        OpView::SetMaxDeposit(_) => Some(KeyView::MaxDeposit),
        OpView::SetMaxLockSecs(_) => Some(KeyView::MaxLockSecs),
        OpView::SetDepositorCount(_) => Some(KeyView::DepositorCount),
        OpView::SetDepositorAt(i, _) => Some(KeyView::DepositorAt(i)),
        OpView::RemoveDepositorAt(i) => Some(KeyView::DepositorAt(i)),
        OpView::SetDepositorSlot(a, _) => Some(KeyView::DepositorIndex(a)),
        OpView::RemoveDepositorSlot(a) => Some(KeyView::DepositorIndex(a)),
        OpView::AddDepositor(_) => None,
        OpView::RemoveDepositor(_) => None,
    }
}

// ----------------------------------------------------------------
//  Model of the persistent storage
// ----------------------------------------------------------------

/// What the vault's persistent storage holds, key by key.
pub struct VaultStorage {
    pub deposits: Map<Seq<char>, EntryView>,
    pub admin: Option<Seq<char>>,
    pub pending_admin: Option<Seq<char>>,
    pub initialized: Option<bool>,
    pub fee_recipient: Option<Seq<char>>,
    pub max_deposit: Option<i128>,
    pub max_lock_secs: Option<u64>,
    pub depositor_count: Option<u32>,
    pub depositor_at: Map<u32, Seq<char>>,
    pub depositor_slot: Map<Seq<char>, u32>,
}

/// The storage of a freshly deployed vault.
pub open spec fn empty_storage() -> VaultStorage {
    VaultStorage {
        deposits: Map::empty(),
        admin: None,
        pending_admin: None,
        initialized: None,
        fee_recipient: None,
        max_deposit: None,
        max_lock_secs: None,
        depositor_count: None,
        depositor_at: Map::empty(),
        depositor_slot: Map::empty(),
    }
}

/// A stored depositor count, absent meaning zero.
pub open spec fn count_of(stored: Option<u32>) -> u32 {
    match stored {
        Some(n) => n,
        None => 0,
    }
}

/// The number of depositors the index records.
pub open spec fn depositor_count(m: VaultStorage) -> u32 {
    count_of(m.depositor_count)
}

/// The storage after one single-key write. The two index operations are
/// not single writes; see `apply_op`.
pub open spec fn apply_write(m: VaultStorage, op: OpView) -> VaultStorage {
    match op {
        OpView::SetDeposit(a, e) => VaultStorage { deposits: m.deposits.insert(a, e), ..m },
        OpView::RemoveDeposit(a) => VaultStorage { deposits: m.deposits.remove(a), ..m },
        OpView::SetAdmin(a) => VaultStorage { admin: Some(a), ..m },
        OpView::RemoveAdmin => VaultStorage { admin: None, ..m },
        OpView::SetPendingAdmin(a) => VaultStorage { pending_admin: Some(a), ..m },
        OpView::RemovePendingAdmin => VaultStorage { pending_admin: None, ..m },
        OpView::SetInitialized => VaultStorage { initialized: Some(true), ..m },
        OpView::SetFeeRecipient(a) => VaultStorage { fee_recipient: Some(a), ..m },
        OpView::SetMaxDeposit(v) => VaultStorage { max_deposit: Some(v), ..m },
        OpView::SetMaxLockSecs(v) => VaultStorage { max_lock_secs: Some(v), ..m },
        OpView::SetDepositorCount(n) => VaultStorage { depositor_count: Some(n), ..m },
        OpView::SetDepositorAt(i, a) => VaultStorage {
            depositor_at: m.depositor_at.insert(i, a),
            ..m
        },
        OpView::RemoveDepositorAt(i) => VaultStorage {
            depositor_at: m.depositor_at.remove(i),
            ..m
        },
        OpView::SetDepositorSlot(a, i) => VaultStorage {
            depositor_slot: m.depositor_slot.insert(a, i),
            ..m
        },
        OpView::RemoveDepositorSlot(a) => VaultStorage {
            depositor_slot: m.depositor_slot.remove(a),
            ..m
        },
        OpView::AddDepositor(_) => m,
        OpView::RemoveDepositor(_) => m,
    }
}

/// The storage after a sequence of single-key writes, in order.
pub open spec fn apply_writes(m: VaultStorage, ops: Seq<OpView>) -> VaultStorage
    decreases ops.len(),
{
    if ops.len() == 0 {
        m
    } else {
        apply_write(apply_writes(m, ops.drop_last()), ops.last())
    }
}

/// Whether an operation is a single-key write.
pub open spec fn is_write(op: OpView) -> bool {
    !(op is AddDepositor) && !(op is RemoveDepositor)
}

/// The slot whose occupant moves when `slot` is freed from an index of
/// `count` depositors: the last one, unless the freed slot is the last.
pub open spec fn slot_to_move_spec(count: u32, slot: Option<u32>) -> Option<u32> {
    match slot {
        Some(s) => if count > 0 && s != count - 1 {
            Some((count - 1) as u32)
        } else {
            None
        },
        None => None,
    }
}

/// The writes that append `depositor` to an index of `count` depositors.
pub open spec fn add_depositor_writes(depositor: Seq<char>, count: u32) -> Seq<OpView> {
    seq![
        OpView::SetDepositorAt(count, depositor),
        OpView::SetDepositorSlot(depositor, count),
        OpView::SetDepositorCount((count + 1) as u32),
    ]
}

/// The writes that take `depositor`, found at `slot`, out of an index of
/// `count` depositors whose last slot holds `last`: the last depositor moves
/// into the freed slot, then the last slot and the depositor's lookup go.
/// Nothing is written when the index is empty or the depositor is not in it.
pub open spec fn remove_depositor_writes(
    depositor: Seq<char>,
    count: u32,
    slot: Option<u32>,
    last: Option<Seq<char>>,
) -> Seq<OpView> {
    match slot {
        Some(s) => if count == 0 {
            seq![]
        } else {
            let l = (count - 1) as u32;
            let tail = seq![
                OpView::RemoveDepositorAt(l),
                OpView::RemoveDepositorSlot(depositor),
                OpView::SetDepositorCount(l),
            ];
            if s != l {
                seq![
                    OpView::SetDepositorAt(s, last.unwrap()),
                    OpView::SetDepositorSlot(last.unwrap(), s),
                ] + tail
            } else {
                tail
            }
        },
        None => seq![],
    }
}

/// What storage holds in the last slot of the index, when a depositor at
/// `slot` is removed and that occupant has to move.
pub open spec fn last_to_move(m: VaultStorage, slot: Option<u32>) -> Option<Seq<char>> {
    match slot_to_move_spec(depositor_count(m), slot) {
        Some(i) => m.depositor_at.get(i),
        None => None,
    }
}

/// The storage after one operation; the index operations read what they need
/// from the storage they act on.
pub open spec fn apply_op(m: VaultStorage, op: OpView) -> VaultStorage {
    match op {
        OpView::AddDepositor(d) => apply_writes(m, add_depositor_writes(d, depositor_count(m))),
        OpView::RemoveDepositor(d) => {
            let slot = m.depositor_slot.get(d);
            apply_writes(
                m,
                remove_depositor_writes(d, depositor_count(m), slot, last_to_move(m, slot)),
            )
        },
        _ => apply_write(m, op),
    }
}

/// The storage after a sequence of operations, in order.
pub open spec fn apply_ops(m: VaultStorage, ops: Seq<OpView>) -> VaultStorage
    decreases ops.len(),
{
    if ops.len() == 0 {
        m
    } else {
        apply_op(apply_ops(m, ops.drop_last()), ops.last())
    }
}

// ----------------------------------------------------------------
//  Well-formedness of the stored state
// ----------------------------------------------------------------

/// The slots `0..count` hold distinct addresses, and the reverse lookup maps
/// each of them, and nothing else, back to its slot.
pub open spec fn slots_wf(m: VaultStorage) -> bool {
    let n = depositor_count(m);
    &&& forall|i: u32| #[trigger] m.depositor_at.contains_key(i) <==> i < n
    &&& forall|i: u32|
        #![trigger m.depositor_at[i]]
        i < n ==> m.depositor_slot.contains_key(m.depositor_at[i])
            && m.depositor_slot[m.depositor_at[i]] == i
    &&& forall|a: Seq<char>| #[trigger]
        m.depositor_slot.contains_key(a) ==> m.depositor_slot[a] < n
            && m.depositor_at[m.depositor_slot[a]] == a
}

/// The depositor index lists exactly the depositors with a stored deposit,
/// each once, in slots `0..count`, and the reverse lookup agrees with it.
pub open spec fn index_wf(m: VaultStorage) -> bool {
    &&& slots_wf(m)
    &&& forall|a: Seq<char>| #[trigger]
        m.deposits.contains_key(a) <==> m.depositor_slot.contains_key(a)
}

/// Every stored entry belongs to the depositor it is filed under, locks a
/// positive amount and charges at most the whole amount on cancellation.
pub open spec fn entries_wf(m: VaultStorage) -> bool {
    forall|a: Seq<char>| #[trigger]
        m.deposits.contains_key(a) ==> {
            let e = m.deposits[a];
            &&& e.depositor == a
            &&& e.amount > 0
            &&& e.penalty_bps <= BPS_DENOMINATOR
        }
}

/// An admin or a pending admin is stored only in an initialized vault.
pub open spec fn roles_wf(m: VaultStorage) -> bool {
    (m.admin is Some || m.pending_admin is Some) ==> m.initialized == Some(true)
}

/// The invariant every vault operation keeps.
pub open spec fn storage_wf(m: VaultStorage) -> bool {
    index_wf(m) && entries_wf(m) && roles_wf(m)
}

/// The active depositors: those the index lists.
pub open spec fn depositors(m: VaultStorage) -> Set<Seq<char>> {
    m.depositor_slot.dom()
}

// ----------------------------------------------------------------
//  Reading stored values
// ----------------------------------------------------------------

/// Whether the vault has been initialized: the stored flag, absent meaning no.
pub fn is_initialized(stored: Option<bool>) -> (r: bool)
    ensures
        r == (stored == Some(true)),
{
    match stored {
        Some(b) => b,
        None => false,
    }
}

/// The number of active depositors: the stored count, absent meaning zero.
pub fn get_depositor_count(stored: Option<u32>) -> (n: u32)
    ensures
        n == count_of(stored),
{
    match stored {
        Some(n) => n,
        None => 0,
    }
}

// ----------------------------------------------------------------
//  Depositor index (O(1) add / O(1) remove via swap-remove)
// ----------------------------------------------------------------

/// The writes that append `depositor` to the index whose stored count is
/// `stored_count`: it takes the next slot and the count grows by one.
pub fn add_depositor(depositor: &Addr, stored_count: Option<u32>) -> (ops: Vec<StorageOp>)
    requires
        count_of(stored_count) < u32::MAX,
    ensures
        ops_view(ops@) == add_depositor_writes(depositor@, count_of(stored_count)),
{
    let count = get_depositor_count(stored_count);
    let mut ops: Vec<StorageOp> = Vec::new();
    ops.push(StorageOp::SetDepositorAt(count, depositor.clone()));
    ops.push(StorageOp::SetDepositorSlot(depositor.clone(), count));
    ops.push(StorageOp::SetDepositorCount(count + 1));
    proof {
        assert(ops_view(ops@) =~= add_depositor_writes(depositor@, count));
    }
    ops
}

/// The slot whose occupant must be read before `remove_depositor` can plan
/// the removal of a depositor found at `slot`; `None` when nobody moves.
pub fn slot_to_move(stored_count: Option<u32>, slot: Option<u32>) -> (r: Option<u32>)
    ensures
        r == slot_to_move_spec(count_of(stored_count), slot),
{
    let count = get_depositor_count(stored_count);
    match slot {
        Some(s) => if count > 0 && s != count - 1 {
            Some(count - 1)
        } else {
            None
        },
        None => None,
    }
}

/// O(1) swap-remove: the writes that take `depositor` out of the index, given
/// the stored count, the depositor's stored slot, and the address stored in
/// the slot `slot_to_move` names (read only when it names one).
pub fn remove_depositor(
    depositor: &Addr,
    stored_count: Option<u32>,
    slot: Option<u32>,
    last: Option<Addr>,
) -> (ops: Vec<StorageOp>)
    requires
        slot_to_move_spec(count_of(stored_count), slot) is Some ==> last is Some,
    ensures
        ops_view(ops@) == remove_depositor_writes(
            depositor@,
            count_of(stored_count),
            slot,
            opt_addr_view(last),
        ),
{
    let count = get_depositor_count(stored_count);
    let mut ops: Vec<StorageOp> = Vec::new();
    if count == 0 {
        proof {
            assert(ops_view(ops@) =~= seq![]);
        }
        return ops;
    }
    let s = match slot {
        Some(s) => s,
        None => {
            proof {
                assert(ops_view(ops@) =~= seq![]);
            }
            return ops;
        },
    };
    let l = count - 1;
    if s != l {
        // Move the last depositor into the freed slot.
        let last_addr = last.unwrap();
        ops.push(StorageOp::SetDepositorAt(s, last_addr.clone()));
        ops.push(StorageOp::SetDepositorSlot(last_addr, s));
    }
    ops.push(StorageOp::RemoveDepositorAt(l));
    ops.push(StorageOp::RemoveDepositorSlot(depositor.clone()));
    ops.push(StorageOp::SetDepositorCount(l));
    proof {
        assert(ops_view(ops@) =~= remove_depositor_writes(
            depositor@,
            count,
            slot,
            opt_addr_view(last),
        ));
    }
    ops
}

/// Where a page of at most `limit` depositors from `offset` ends in an index
/// of `count`: `offset + limit`, or `count` when that comes first. A page whose
/// end is not past `offset` is empty.
pub open spec fn page_end(offset: u32, limit: u32, count: u32) -> u32 {
    if offset + limit <= count {
        (offset + limit) as u32
    } else {
        count
    }
}

/// The slot range `start..end` of the depositors page that starts at
/// `offset` and holds at most `limit` depositors.
pub fn get_depositors_page(offset: u32, limit: u32, stored_count: Option<u32>) -> (r: (u32, u32))
    requires
        offset + limit <= u32::MAX,
    ensures
        r == (offset, page_end(offset, limit, count_of(stored_count))),
{
    let count = get_depositor_count(stored_count);
    let sum = offset + limit;
    let end = if sum <= count {
        sum
    } else {
        count
    };
    (offset, end)
}

// ----------------------------------------------------------------
//  Proofs about the model
// ----------------------------------------------------------------

/// Writes applied one after the other: first `s`, then `t`.
pub proof fn lemma_apply_writes_concat(m: VaultStorage, s: Seq<OpView>, t: Seq<OpView>)
    ensures
        apply_writes(m, s + t) == apply_writes(apply_writes(m, s), t),
    decreases t.len(),
{
    if t.len() == 0 {
        assert(s + t =~= s);
    } else {
        assert((s + t).drop_last() =~= s + t.drop_last());
        assert((s + t).last() == t.last());
        lemma_apply_writes_concat(m, s, t.drop_last());
    }
}

/// Three writes applied one after the other.
pub proof fn lemma_apply_writes3(m: VaultStorage, x: OpView, y: OpView, z: OpView)
    ensures
        apply_writes(m, seq![x, y, z]) == apply_write(apply_write(apply_write(m, x), y), z),
{
    let s = seq![x, y, z];
    assert(s.drop_last() =~= seq![x, y]);
    lemma_apply_writes2(m, x, y);
    assert(apply_writes(m, s) == apply_write(apply_writes(m, seq![x, y]), z));
}

/// Two writes applied one after the other.
pub proof fn lemma_apply_writes2(m: VaultStorage, x: OpView, y: OpView)
    ensures
        apply_writes(m, seq![x, y]) == apply_write(apply_write(m, x), y),
{
    assert(seq![x, y].drop_last() =~= seq![x]);
    assert(seq![x].drop_last() =~= Seq::<OpView>::empty());
    assert(apply_writes(m, Seq::<OpView>::empty()) == m);
    assert(apply_writes(m, seq![x]) == apply_write(m, x));
    assert(apply_writes(m, seq![x, y]) == apply_write(apply_writes(m, seq![x]), y));
}

/// One operation.
pub proof fn lemma_apply_ops1(m: VaultStorage, x: OpView)
    ensures
        apply_ops(m, seq![x]) == apply_op(m, x),
{
    assert(seq![x].drop_last() =~= Seq::<OpView>::empty());
    assert(apply_ops(m, Seq::<OpView>::empty()) == m);
}

/// Two operations applied one after the other.
pub proof fn lemma_apply_ops2(m: VaultStorage, x: OpView, y: OpView)
    ensures
        apply_ops(m, seq![x, y]) == apply_op(apply_op(m, x), y),
{
    assert(seq![x, y].drop_last() =~= seq![x]);
    lemma_apply_ops1(m, x);
    assert(apply_ops(m, seq![x, y]) == apply_op(apply_ops(m, seq![x]), y));
}

/// Appending a depositor that the index does not list keeps the index
/// consistent, lists it once more in the new last slot, and touches nothing
/// but the index.
pub proof fn law_add_depositor(m: VaultStorage, d: Seq<char>)
    requires
        slots_wf(m),
        !depositors(m).contains(d),
        depositor_count(m) < u32::MAX,
    ensures
        ({
            let m2 = apply_op(m, OpView::AddDepositor(d));
            &&& slots_wf(m2)
            &&& depositors(m2) == depositors(m).insert(d)
            &&& depositor_count(m2) == depositor_count(m) + 1
            &&& m2.depositor_at[depositor_count(m)] == d
            &&& forall|i: u32| i < depositor_count(m) ==> #[trigger] m2.depositor_at[i] == m.depositor_at[i]
            &&& m2 == VaultStorage {
                depositor_count: m2.depositor_count,
                depositor_at: m2.depositor_at,
                depositor_slot: m2.depositor_slot,
                ..m
            }
        }),
{
    let n = depositor_count(m);
    let m2 = apply_op(m, OpView::AddDepositor(d));
    lemma_apply_writes3(
        m,
        OpView::SetDepositorAt(n, d),
        OpView::SetDepositorSlot(d, n),
        OpView::SetDepositorCount((n + 1) as u32),
    );
    assert(m2.depositor_at == m.depositor_at.insert(n, d));
    assert(m2.depositor_slot == m.depositor_slot.insert(d, n));
    assert(depositor_count(m2) == n + 1);
    assert forall|i: u32| i < n + 1 implies m2.depositor_slot.contains_key(
        #[trigger] m2.depositor_at[i],
    ) && m2.depositor_slot[m2.depositor_at[i]] == i by {
        if i < n {
            assert(m.depositor_slot.contains_key(m.depositor_at[i]));
        }
    }
    assert forall|a: Seq<char>| #[trigger] m2.depositor_slot.contains_key(a) implies m2.depositor_slot[a]
        < n + 1 && m2.depositor_at[m2.depositor_slot[a]] == a by {
        if a != d {
            assert(m.depositor_slot.contains_key(a));
        }
    }
    assert(depositors(m2) =~= depositors(m).insert(d));
}

/// Removing a depositor keeps the index consistent and lists every other
/// depositor still, each once, in one slot fewer; removing an address the
/// index does not list changes nothing. Only the index is touched.
pub proof fn law_remove_depositor(m: VaultStorage, d: Seq<char>)
    requires
        slots_wf(m),
    ensures
        ({
            let m2 = apply_op(m, OpView::RemoveDepositor(d));
            &&& slots_wf(m2)
            &&& depositors(m2) == depositors(m).remove(d)
            &&& depositor_count(m2) == if depositors(m).contains(d) {
                depositor_count(m) - 1
            } else {
                depositor_count(m) as int
            }
            &&& depositors(m).contains(d) ==> forall|i: u32|
                i < depositor_count(m2) ==> #[trigger] m2.depositor_at[i] == if i == m.depositor_slot[d] {
                    m.depositor_at[(depositor_count(m) - 1) as u32]
                } else {
                    m.depositor_at[i]
                }
            &&& m2 == VaultStorage {
                depositor_count: m2.depositor_count,
                depositor_at: m2.depositor_at,
                depositor_slot: m2.depositor_slot,
                ..m
            }
        }),
{
    let n = depositor_count(m);
    let slot = m.depositor_slot.get(d);
    let last = last_to_move(m, slot);
    let m2 = apply_op(m, OpView::RemoveDepositor(d));
    if !m.depositor_slot.contains_key(d) {
        assert(remove_depositor_writes(d, n, slot, last) =~= Seq::<OpView>::empty());
        assert(m2 == m);
        assert(depositors(m2) =~= depositors(m).remove(d));
    } else {
        let s = m.depositor_slot[d];
        assert(s < n);
        let l = (n - 1) as u32;
        let tail = seq![
            OpView::RemoveDepositorAt(l),
            OpView::RemoveDepositorSlot(d),
            OpView::SetDepositorCount(l),
        ];
        if s != l {
            let la = m.depositor_at[l];
            assert(m.depositor_at.contains_key(l));
            assert(last == Some(la));
            assert(m.depositor_slot.contains_key(la) && m.depositor_slot[la] == l);
            assert(la != d);
            let head = seq![OpView::SetDepositorAt(s, la), OpView::SetDepositorSlot(la, s)];
            assert(remove_depositor_writes(d, n, slot, last) == head + tail);
            lemma_apply_writes_concat(m, head, tail);
            lemma_apply_writes2(m, OpView::SetDepositorAt(s, la), OpView::SetDepositorSlot(la, s));
            let mid = apply_writes(m, head);
            lemma_apply_writes3(
                mid,
                OpView::RemoveDepositorAt(l),
                OpView::RemoveDepositorSlot(d),
                OpView::SetDepositorCount(l),
            );
            assert(m2.depositor_at == m.depositor_at.insert(s, la).remove(l));
            assert(m2.depositor_slot == m.depositor_slot.insert(la, s).remove(d));
            assert(depositor_count(m2) == l);
            assert forall|i: u32| i < l implies m2.depositor_slot.contains_key(
                #[trigger] m2.depositor_at[i],
            ) && m2.depositor_slot[m2.depositor_at[i]] == i by {
                if i != s {
                    let a = m.depositor_at[i];
                    assert(m.depositor_slot.contains_key(a) && m.depositor_slot[a] == i);
                    assert(a != d);
                    assert(a != la);
                }
            }
            assert forall|a: Seq<char>| #[trigger] m2.depositor_slot.contains_key(a) implies m2.depositor_slot[a]
                < l && m2.depositor_at[m2.depositor_slot[a]] == a by {
                if a != la {
                    assert(m.depositor_slot.contains_key(a));
                    let j = m.depositor_slot[a];
                    assert(m.depositor_at[j] == a);
                    assert(j != l);
                    assert(j != s);
                }
            }
            assert forall|i: u32| #[trigger] m2.depositor_at.contains_key(i) <==> i < l by {
                if i < l {
                    assert(m.depositor_at.contains_key(i));
                }
            }
            assert(depositors(m2) =~= depositors(m).remove(d));
        } else {
            assert(last == None::<Seq<char>>);
            assert(remove_depositor_writes(d, n, slot, last) == tail);
            lemma_apply_writes3(
                m,
                OpView::RemoveDepositorAt(l),
                OpView::RemoveDepositorSlot(d),
                OpView::SetDepositorCount(l),
            );
            assert(m2.depositor_at == m.depositor_at.remove(l));
            assert(m2.depositor_slot == m.depositor_slot.remove(d));
            assert forall|i: u32| i < l implies m2.depositor_slot.contains_key(
                #[trigger] m2.depositor_at[i],
            ) && m2.depositor_slot[m2.depositor_at[i]] == i by {
                let a = m.depositor_at[i];
                assert(m.depositor_slot.contains_key(a) && m.depositor_slot[a] == i);
            }
            assert forall|a: Seq<char>| #[trigger] m2.depositor_slot.contains_key(a) implies m2.depositor_slot[a]
                < l && m2.depositor_at[m2.depositor_slot[a]] == a by {
                assert(m.depositor_slot.contains_key(a));
            }
            assert forall|i: u32| #[trigger] m2.depositor_at.contains_key(i) <==> i < l by {
                if i < l {
                    assert(m.depositor_at.contains_key(i));
                }
            }
            assert(depositors(m2) =~= depositors(m).remove(d));
        }
    }
}

} // verus!

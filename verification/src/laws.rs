//! What holds of the vault across calls: each law is stated over the model of
//! the persistent storage (`VaultStorage`), the reads an entry point makes
//! from it, and the outcome its contract names.
use vstd::prelude::*;

use crate::storage::{
    apply_op, apply_ops, apply_write, apply_writes, depositor_count, depositors,
    empty_storage, index_wf, law_add_depositor, lemma_apply_ops1, lemma_apply_ops2,
    law_remove_depositor, page_end, slots_wf, storage_wf, OpView, VaultStorage, BUMP_TARGET,
};
use crate::types::{
    EntryView, VaultError, BPS_DENOMINATOR, MAX_LOCK_DURATION_SECS, MIN_LOCK_DURATION_SECS,
};
use crate::vault::{
    accept_admin_spec, cancel_arithmetic_fits, cancel_deposit_spec, cancel_transfer_admin_spec,
    close_ops, deposit_spec, emergency_withdraw_spec, initialize_spec, max_deposit_in_force,
    max_lock_in_force, page_limit, penalty_of, renounce_admin_spec, transfer_admin_spec,
    withdraw_spec, TransferView, MAX_PAGE_SIZE,
};

verus! {

/// The net amount of `token` a sequence of transfers moves into the vault.
pub open spec fn net_into_vault(ts: Seq<TransferView>, token: Seq<char>) -> int
    decreases ts.len(),
{
    if ts.len() == 0 {
        0
    } else {
        net_into_vault(ts.drop_last(), token) + match ts.last() {
            TransferView::IntoVault { token: t, amount, .. } => if t == token {
                amount as int
            } else {
                0
            },
            TransferView::OutOfVault { token: t, amount, .. } => if t == token {
                -amount
            } else {
                0
            },
        }
    }
}

/// `f(0) + f(1) + ... + f(k - 1)`.
pub open spec fn range_sum(f: spec_fn(int) -> int, k: int) -> int
    decreases k,
{
    if k <= 0 {
        0
    } else {
        range_sum(f, k - 1) + f(k - 1)
    }
}

/// What the deposit listed in slot `i` locks of `token`.
pub open spec fn slot_amount(m: VaultStorage, token: Seq<char>, i: int) -> int {
    let e = m.deposits[m.depositor_at[i as u32]];
    if e.token == token {
        e.amount as int
    } else {
        0
    }
}

/// What the active deposits lock of `token`, all together: what the vault
/// owes its depositors in that token.
pub open spec fn locked(m: VaultStorage, token: Seq<char>) -> int {
    range_sum(|i: int| slot_amount(m, token, i), depositor_count(m) as int)
}

/// What an entry locks of `token`.
pub open spec fn entry_amount(e: EntryView, token: Seq<char>) -> int {
    if e.token == token {
        e.amount as int
    } else {
        0
    }
}

proof fn lemma_range_sum_ext(f: spec_fn(int) -> int, g: spec_fn(int) -> int, k: int)
    requires
        forall|i: int| 0 <= i < k ==> #[trigger] f(i) == g(i),
    ensures
        range_sum(f, k) == range_sum(g, k),
    decreases k,
{
    if k > 0 {
        lemma_range_sum_ext(f, g, k - 1);
    }
}

proof fn lemma_range_sum_update(f: spec_fn(int) -> int, g: spec_fn(int) -> int, k: int, s: int)
    requires
        0 <= s < k,
        forall|i: int| 0 <= i < k && i != s ==> #[trigger] f(i) == g(i),
    ensures
        range_sum(g, k) == range_sum(f, k) - f(s) + g(s),
    decreases k,
{
    if s == k - 1 {
        lemma_range_sum_ext(f, g, k - 1);
    } else {
        lemma_range_sum_update(f, g, k - 1, s);
    }
}

/// What the deposits lock depends on the deposits and the index alone: calls
/// that change only the settings (admin, pending admin, flag, fee recipient,
/// limits) leave it as it was.
pub proof fn law_settings_leave_locked_alone(m: VaultStorage, m2: VaultStorage, token: Seq<char>)
    requires
        same_deposits(m, m2),
    ensures
        locked(m2, token) == locked(m, token),
{
    lemma_range_sum_ext(
        |i: int| slot_amount(m, token, i),
        |i: int| slot_amount(m2, token, i),
        depositor_count(m) as int,
    );
}

/// Everything but the deposits and the depositor index is as in `m`.
pub open spec fn same_settings(m: VaultStorage, m2: VaultStorage) -> bool {
    &&& m2.admin == m.admin
    &&& m2.pending_admin == m.pending_admin
    &&& m2.initialized == m.initialized
    &&& m2.fee_recipient == m.fee_recipient
    &&& m2.max_deposit == m.max_deposit
    &&& m2.max_lock_secs == m.max_lock_secs
}

/// The deposits and the depositor index are as in `m`.
pub open spec fn same_deposits(m: VaultStorage, m2: VaultStorage) -> bool {
    &&& m2.deposits == m.deposits
    &&& m2.depositor_count == m.depositor_count
    &&& m2.depositor_at == m.depositor_at
    &&& m2.depositor_slot == m.depositor_slot
}

/// A freshly deployed vault's storage is well formed: no deposits, an empty index.
pub proof fn law_empty_storage_wf()
    ensures
        storage_wf(empty_storage()),
        depositors(empty_storage()) == Set::<Seq<char>>::empty(),
        depositor_count(empty_storage()) == 0,
{
    assert(depositors(empty_storage()) =~= Set::<Seq<char>>::empty());
}

/// The stored depositor count is the number of active depositors: in a
/// well-formed storage the index lists `count` distinct depositors.
pub proof fn law_depositor_count_is_number_of_depositors(m: VaultStorage)
    requires
        index_wf(m),
    ensures
        depositors(m).finite(),
        depositors(m).len() == depositor_count(m),
        m.deposits.dom() == depositors(m),
{
    let n = depositor_count(m);
    let x = vstd::set_lib::set_int_range(0, n as int);
    let f = |i: int| m.depositor_at[i as u32];
    vstd::set_lib::lemma_int_range(0, n as int);
    assert forall|i: int, j: int| x.contains(i) && x.contains(j) && #[trigger] f(i) == #[trigger] f(
        j,
    ) implies i == j by {
        let a = m.depositor_at[i as u32];
        assert(m.depositor_slot[a] == i as u32);
        assert(m.depositor_slot[m.depositor_at[j as u32]] == j as u32);
    }
    assert forall|a: Seq<char>| x.map(f).contains(a) <==> depositors(m).contains(a) by {
        if depositors(m).contains(a) {
            let i = m.depositor_slot[a];
            assert(x.contains(i as int));
            assert(f(i as int) == a);
        }
        if x.map(f).contains(a) {
            let i = choose|i: int| x.contains(i) && f(i) == a;
            assert(m.depositor_slot.contains_key(m.depositor_at[i as u32]));
        }
    }
    assert(x.map(f) =~= depositors(m));
    vstd::set_lib::lemma_map_size(x, depositors(m), f);
    assert(m.deposits.dom() =~= depositors(m));
}

/// Every slot of a page of depositors holds an address (so reading it never
/// fails), each an active depositor with a stored deposit, none twice; a page
/// holds at most `MAX_PAGE_SIZE` depositors.
pub proof fn law_depositors_page(m: VaultStorage, offset: u32, limit: u32)
    requires
        index_wf(m),
        offset + page_limit(limit) <= u32::MAX,
    ensures
        ({
            let end = page_end(offset, page_limit(limit), depositor_count(m));
            &&& end <= depositor_count(m)
            &&& end - offset <= MAX_PAGE_SIZE
            &&& forall|i: u32|
                offset <= i < end ==> #[trigger] m.depositor_at.contains_key(i)
                    && m.deposits.contains_key(m.depositor_at[i])
            &&& forall|i: u32, j: u32|
                offset <= i < end && offset <= j < end && i != j ==> #[trigger] m.depositor_at[i]
                    != #[trigger] m.depositor_at[j]
        }),
{
    let end = page_end(offset, page_limit(limit), depositor_count(m));
    assert forall|i: u32| offset <= i < end implies #[trigger] m.depositor_at.contains_key(i)
        && m.deposits.contains_key(m.depositor_at[i]) by {
        assert(m.depositor_slot.contains_key(m.depositor_at[i]));
    }
    assert forall|i: u32, j: u32|
        offset <= i < end && offset <= j < end && i != j implies #[trigger] m.depositor_at[i]
        != #[trigger] m.depositor_at[j] by {
        assert(m.depositor_slot[m.depositor_at[i]] == i);
        assert(m.depositor_slot[m.depositor_at[j]] == j);
    }
}

/// Writes that leave the deposits and the index alone keep the storage well formed.
proof fn lemma_settings_only(m: VaultStorage, m2: VaultStorage)
    requires
        storage_wf(m),
        same_deposits(m, m2),
        crate::storage::roles_wf(m2),
    ensures
        storage_wf(m2),
{
    assert(depositor_count(m2) == depositor_count(m));
}

/// `initialize`, when accepted, stores the admin, the initialized flag and
/// the settings it was given, and leaves the deposits alone; from then on
/// every `initialize` is refused, whatever storage operations follow.
pub proof fn law_initialize(
    m: VaultStorage,
    admin: Seq<char>,
    fee_recipient: Option<Seq<char>>,
    max_deposit: Option<i128>,
    max_lock_secs: Option<u64>,
    again: (Seq<char>, Option<Seq<char>>, Option<i128>, Option<u64>),
)
    requires
        storage_wf(m),
        initialize_spec(admin, fee_recipient, max_deposit, max_lock_secs, m.admin, m.initialized) is Ok,
    ensures
        ({
            let m2 = apply_ops(
                m,
                initialize_spec(admin, fee_recipient, max_deposit, max_lock_secs, m.admin, m.initialized)->Ok_0.ops,
            );
            &&& storage_wf(m2)
            &&& same_deposits(m, m2)
            &&& m2.admin == Some(admin)
            &&& m2.initialized == Some(true)
            &&& m2.pending_admin == m.pending_admin
            &&& (fee_recipient is Some ==> m2.fee_recipient == fee_recipient)
            &&& (fee_recipient is None ==> m2.fee_recipient == m.fee_recipient)
            &&& (max_deposit is Some ==> m2.max_deposit == max_deposit)
            &&& (max_deposit is None ==> m2.max_deposit == m.max_deposit)
            &&& (max_lock_secs is Some ==> m2.max_lock_secs == max_lock_secs)
            &&& (max_lock_secs is None ==> m2.max_lock_secs == m.max_lock_secs)
            &&& forall|later: Seq<OpView>|
                #![trigger apply_ops(m2, later)]
                initialize_spec(
                    again.0,
                    again.1,
                    again.2,
                    again.3,
                    apply_ops(m2, later).admin,
                    apply_ops(m2, later).initialized,
                ) == Err::<crate::vault::EffectsView, VaultError>(VaultError::Unauthorized)
        }),
{
    let ops = initialize_spec(admin, fee_recipient, max_deposit, max_lock_secs, m.admin, m.initialized)->Ok_0.ops;
    lemma_writes_only(m, ops);
    let m2 = apply_ops(m, ops);
    let fee = crate::vault::optional_op(
        fee_recipient is Some,
        OpView::SetFeeRecipient(fee_recipient->0),
    );
    let maxd = crate::vault::optional_op(max_deposit is Some, OpView::SetMaxDeposit(max_deposit->0));
    let maxl = crate::vault::optional_op(
        max_lock_secs is Some,
        OpView::SetMaxLockSecs(max_lock_secs->0),
    );
    let s0 = seq![OpView::SetAdmin(admin), OpView::SetInitialized];
    assert(ops == s0 + fee + maxd + maxl);
    crate::storage::lemma_apply_writes_concat(m, s0 + fee + maxd, maxl);
    crate::storage::lemma_apply_writes_concat(m, s0 + fee, maxd);
    crate::storage::lemma_apply_writes_concat(m, s0, fee);
    crate::storage::lemma_apply_writes2(m, OpView::SetAdmin(admin), OpView::SetInitialized);
    let m_a = apply_writes(m, s0);
    let m_b = apply_writes(m, s0 + fee);
    let m_c = apply_writes(m, s0 + fee + maxd);
    lemma_optional_write(m_a, fee_recipient is Some, OpView::SetFeeRecipient(fee_recipient->0));
    lemma_optional_write(m_b, max_deposit is Some, OpView::SetMaxDeposit(max_deposit->0));
    lemma_optional_write(m_c, max_lock_secs is Some, OpView::SetMaxLockSecs(max_lock_secs->0));
    lemma_settings_only(m, m2);
    assert forall|later: Seq<OpView>| #[trigger] apply_ops(m2, later).initialized == Some(true) by {
        law_initialized_stays(m2, later);
    }
}

/// At most one write.
proof fn lemma_optional_write(m: VaultStorage, present: bool, op: OpView)
    ensures
        apply_writes(m, crate::vault::optional_op(present, op)) == if present {
            apply_write(m, op)
        } else {
            m
        },
{
    assert(apply_writes(m, Seq::<OpView>::empty()) == m);
    if present {
        assert(seq![op].drop_last() =~= Seq::<OpView>::empty());
        assert(apply_writes(m, seq![op]) == apply_write(apply_writes(m, Seq::<OpView>::empty()), op));
    } else {
        assert(crate::vault::optional_op(present, op) =~= Seq::<OpView>::empty());
    }
}

/// A sequence of single-key writes acts as those writes.
proof fn lemma_writes_only(m: VaultStorage, ops: Seq<OpView>)
    requires
        forall|i: int| 0 <= i < ops.len() ==> crate::storage::is_write(#[trigger] ops[i]),
    ensures
        apply_ops(m, ops) == apply_writes(m, ops),
    decreases ops.len(),
{
    if ops.len() > 0 {
        lemma_writes_only(m, ops.drop_last());
        assert(crate::storage::is_write(ops[ops.len() - 1]));
    }
}

/// Once a vault is initialized it stays initialized: no sequence of
/// storage operations clears the flag.
pub proof fn law_initialized_stays(m: VaultStorage, ops: Seq<OpView>)
    requires
        m.initialized == Some(true),
    ensures
        apply_ops(m, ops).initialized == Some(true),
    decreases ops.len(),
{
    if ops.len() > 0 {
        law_initialized_stays(m, ops.drop_last());
        let m1 = apply_ops(m, ops.drop_last());
        let op = ops.last();
        match op {
            OpView::AddDepositor(d) => {
                lemma_writes_keep_initialized(
                    m1,
                    crate::storage::add_depositor_writes(d, depositor_count(m1)),
                );
            },
            OpView::RemoveDepositor(d) => {
                let slot = m1.depositor_slot.get(d);
                lemma_writes_keep_initialized(
                    m1,
                    crate::storage::remove_depositor_writes(
                        d,
                        depositor_count(m1),
                        slot,
                        crate::storage::last_to_move(m1, slot),
                    ),
                );
            },
            _ => {},
        }
    }
}

/// Single-key writes never clear the initialized flag.
proof fn lemma_writes_keep_initialized(m: VaultStorage, ops: Seq<OpView>)
    requires
        m.initialized == Some(true),
    ensures
        apply_writes(m, ops).initialized == Some(true),
    decreases ops.len(),
{
    if ops.len() > 0 {
        lemma_writes_keep_initialized(m, ops.drop_last());
    }
}

/// Closing a listed depositor's deposit removes its entry and its index slot
/// and nothing else; the storage stays well formed, and what the deposits lock
/// drops by exactly what that entry locked.
proof fn lemma_close(m: VaultStorage, d: Seq<char>)
    requires
        storage_wf(m),
        m.deposits.contains_key(d),
    ensures
        ({
            let m2 = apply_ops(m, close_ops(d));
            &&& storage_wf(m2)
            &&& m2.deposits == m.deposits.remove(d)
            &&& depositors(m2) == depositors(m).remove(d)
            &&& depositor_count(m2) == depositor_count(m) - 1
            &&& same_settings(m, m2)
            &&& forall|t: Seq<char>| #[trigger]
                locked(m2, t) == locked(m, t) - entry_amount(m.deposits[d], t)
        }),
{
    lemma_apply_ops2(m, OpView::RemoveDeposit(d), OpView::RemoveDepositor(d));
    let m1 = apply_op(m, OpView::RemoveDeposit(d));
    assert(slots_wf(m1)) by {
        assert(depositor_count(m1) == depositor_count(m));
    }
    assert(depositors(m1).contains(d));
    law_remove_depositor(m1, d);
    let m2 = apply_op(m1, OpView::RemoveDepositor(d));
    assert(m2.deposits == m.deposits.remove(d));
    assert forall|a: Seq<char>| #[trigger]
        m2.deposits.contains_key(a) <==> m2.depositor_slot.contains_key(a) by {
        assert(depositors(m2).contains(a) == depositors(m).remove(d).contains(a));
    }
    let n = depositor_count(m);
    let l = (n - 1) as u32;
    let s = m.depositor_slot[d];
    assert forall|t: Seq<char>| #[trigger]
        locked(m2, t) == locked(m, t) - entry_amount(m.deposits[d], t) by {
        let f = |i: int| slot_amount(m, t, i);
        let g = |i: int| slot_amount(m2, t, i);
        assert(f(s as int) == entry_amount(m.deposits[d], t));
        assert forall|i: int| 0 <= i < l && i != s implies #[trigger] f(i) == g(i) by {
            let a = m.depositor_at[i as u32];
            assert(m2.depositor_at[i as u32] == a);
            assert(m.depositor_slot.contains_key(a) && m.depositor_slot[a] == i as u32);
            assert(a != d);
        }
        if s != l {
            let la = m.depositor_at[l];
            assert(m.depositor_slot.contains_key(la) && m.depositor_slot[la] == l);
            assert(la != d);
            assert(m2.depositor_at[s] == la);
            assert(g(s as int) == f(l as int));
            lemma_range_sum_update(f, g, l as int, s as int);
        } else {
            lemma_range_sum_ext(f, g, l as int);
        }
    }
}

/// An accepted deposit stores the entry under the depositor, where reads give
/// it back, and lists the depositor once more in the index; the limits in
/// force held, the storage stays well formed, the settings are unchanged,
/// exactly `amount` of `token` moves from the depositor into the vault, and
/// what the deposits lock grows by just that.
pub proof fn law_deposit(
    m: VaultStorage,
    depositor: Seq<char>,
    token: Seq<char>,
    amount: i128,
    unlock_time: u64,
    penalty_bps: u32,
    now: u64,
)
    requires
        storage_wf(m),
        depositor_count(m) < u32::MAX,
        deposit_spec(
            depositor,
            token,
            amount,
            unlock_time,
            penalty_bps,
            now,
            m.max_deposit,
            m.max_lock_secs,
            m.deposits.contains_key(depositor),
        ) is Ok,
    ensures
        ({
            let eff = deposit_spec(
                depositor,
                token,
                amount,
                unlock_time,
                penalty_bps,
                now,
                m.max_deposit,
                m.max_lock_secs,
                m.deposits.contains_key(depositor),
            )->Ok_0;
            let m2 = apply_ops(m, eff.ops);
            &&& storage_wf(m2)
            &&& m2.deposits == m.deposits.insert(
                depositor,
                EntryView { token, amount, unlock_time, depositor, penalty_bps },
            )
            &&& depositors(m2) == depositors(m).insert(depositor)
            &&& depositor_count(m2) == depositor_count(m) + 1
            &&& !depositors(m).contains(depositor)
            &&& same_settings(m, m2)
            &&& 0 < amount <= max_deposit_in_force(m.max_deposit)
            &&& penalty_bps <= BPS_DENOMINATOR
            &&& MIN_LOCK_DURATION_SECS <= unlock_time - now <= max_lock_in_force(m.max_lock_secs)
            &&& eff.transfers == seq![TransferView::IntoVault { token, from: depositor, amount }]
            &&& forall|t: Seq<char>| #[trigger]
                locked(m2, t) == locked(m, t) + net_into_vault(eff.transfers, t)
        }),
{
    let e = EntryView { token, amount, unlock_time, depositor, penalty_bps };
    lemma_apply_ops2(m, OpView::SetDeposit(depositor, e), OpView::AddDepositor(depositor));
    let m1 = apply_op(m, OpView::SetDeposit(depositor, e));
    assert(slots_wf(m1)) by {
        assert(depositor_count(m1) == depositor_count(m));
    }
    assert(!depositors(m1).contains(depositor));
    law_add_depositor(m1, depositor);
    let m2 = apply_op(m1, OpView::AddDepositor(depositor));
    assert forall|a: Seq<char>| #[trigger]
        m2.deposits.contains_key(a) <==> m2.depositor_slot.contains_key(a) by {
        assert(depositors(m2).contains(a) == depositors(m).insert(depositor).contains(a));
    }
    let ts = seq![TransferView::IntoVault { token, from: depositor, amount }];
    let n = depositor_count(m);
    assert forall|t: Seq<char>| #[trigger]
        locked(m2, t) == locked(m, t) + net_into_vault(ts, t) by {
        let f = |i: int| slot_amount(m, t, i);
        let g = |i: int| slot_amount(m2, t, i);
        assert forall|i: int| 0 <= i < n implies #[trigger] f(i) == g(i) by {
            let a = m.depositor_at[i as u32];
            assert(m2.depositor_at[i as u32] == a);
            assert(m.depositor_slot.contains_key(a));
            assert(a != depositor);
        }
        lemma_range_sum_ext(f, g, n as int);
        assert(g(n as int) == entry_amount(e, t));
        assert(ts.drop_last() =~= Seq::<TransferView>::empty());
        assert(net_into_vault(Seq::<TransferView>::empty(), t) == 0);
        assert(net_into_vault(ts, t) == net_into_vault(ts.drop_last(), t) + entry_amount(e, t));
    }
}

/// One transfer out of the vault.
proof fn lemma_net_out_one(token: Seq<char>, to: Seq<char>, amount: i128)
    ensures
        forall|t: Seq<char>| #[trigger]
            net_into_vault(seq![TransferView::OutOfVault { token, to, amount }], t) == if t
                == token {
                -amount
            } else {
                0
            },
{
    let ts = seq![TransferView::OutOfVault { token, to, amount }];
    assert(ts.drop_last() =~= Seq::<TransferView>::empty());
    assert forall|t: Seq<char>| #[trigger] net_into_vault(ts, t) == if t == token {
        -amount
    } else {
        0
    } by {
        assert(net_into_vault(Seq::<TransferView>::empty(), t) == 0);
        assert(net_into_vault(ts, t) == net_into_vault(ts.drop_last(), t) + if t == token {
            -amount
        } else {
            0
        });
    }
}

/// An accepted withdrawal closes the deposit and pays its whole stored amount,
/// in its token, to the depositor; the storage stays well formed, and the
/// tokens leaving the vault are exactly what the deposits no longer lock.
pub proof fn law_withdraw(m: VaultStorage, depositor: Seq<char>, now: u64)
    requires
        storage_wf(m),
        withdraw_spec(depositor, now, m.deposits.get(depositor)) is Ok,
    ensures
        ({
            let eff = withdraw_spec(depositor, now, m.deposits.get(depositor))->Ok_0;
            let e = m.deposits[depositor];
            let m2 = apply_ops(m, eff.ops);
            &&& storage_wf(m2)
            &&& m2.deposits == m.deposits.remove(depositor)
            &&& depositors(m2) == depositors(m).remove(depositor)
            &&& depositor_count(m2) == depositor_count(m) - 1
            &&& same_settings(m, m2)
            &&& now >= e.unlock_time
            &&& eff.transfers == seq![
                TransferView::OutOfVault { token: e.token, to: depositor, amount: e.amount },
            ]
            &&& forall|t: Seq<char>| #[trigger]
                locked(m2, t) == locked(m, t) + net_into_vault(eff.transfers, t)
        }),
{
    lemma_close(m, depositor);
    let e = m.deposits[depositor];
    lemma_net_out_one(e.token, depositor, e.amount);
}

/// An accepted emergency withdrawal was made by the stored admin; it closes
/// the deposit and pays its whole stored amount to the depositor, exactly
/// what the deposits no longer lock.
pub proof fn law_emergency_withdraw(m: VaultStorage, admin: Seq<char>, depositor: Seq<char>)
    requires
        storage_wf(m),
        emergency_withdraw_spec(admin, depositor, m.admin, m.deposits.get(depositor)) is Ok,
    ensures
        ({
            let eff = emergency_withdraw_spec(
                admin,
                depositor,
                m.admin,
                m.deposits.get(depositor),
            )->Ok_0;
            let e = m.deposits[depositor];
            let m2 = apply_ops(m, eff.ops);
            &&& m.admin == Some(admin)
            &&& storage_wf(m2)
            &&& m2.deposits == m.deposits.remove(depositor)
            &&& depositors(m2) == depositors(m).remove(depositor)
            &&& depositor_count(m2) == depositor_count(m) - 1
            &&& same_settings(m, m2)
            &&& eff.transfers == seq![
                TransferView::OutOfVault { token: e.token, to: depositor, amount: e.amount },
            ]
            &&& forall|t: Seq<char>| #[trigger]
                locked(m2, t) == locked(m, t) + net_into_vault(eff.transfers, t)
        }),
{
    lemma_close(m, depositor);
    let e = m.deposits[depositor];
    lemma_net_out_one(e.token, depositor, e.amount);
}

/// An accepted cancellation closes the deposit before its unlock time and
/// pays out exactly the stored amount, which the deposits no longer lock: the
/// penalty, between zero and the amount, to the fee recipient (the depositor
/// when none is stored), the rest to the depositor.
pub proof fn law_cancel_deposit(m: VaultStorage, depositor: Seq<char>, now: u64)
    requires
        storage_wf(m),
        cancel_arithmetic_fits(now, m.deposits.get(depositor)),
        cancel_deposit_spec(depositor, now, m.deposits.get(depositor), m.fee_recipient) is Ok,
    ensures
        ({
            let eff = cancel_deposit_spec(
                depositor,
                now,
                m.deposits.get(depositor),
                m.fee_recipient,
            )->Ok_0;
            let e = m.deposits[depositor];
            let penalty = penalty_of(e.amount, e.penalty_bps);
            let fee_to = match m.fee_recipient {
                Some(r) => r,
                None => depositor,
            };
            let m2 = apply_ops(m, eff.ops);
            &&& storage_wf(m2)
            &&& m2.deposits == m.deposits.remove(depositor)
            &&& depositors(m2) == depositors(m).remove(depositor)
            &&& depositor_count(m2) == depositor_count(m) - 1
            &&& same_settings(m, m2)
            &&& now < e.unlock_time
            &&& 0 <= penalty <= e.amount
            &&& eff.transfers == crate::vault::payout(e.token, fee_to, penalty)
                + crate::vault::payout(e.token, depositor, e.amount - penalty)
            &&& net_into_vault(eff.transfers, e.token) == -e.amount
            &&& forall|t: Seq<char>| #[trigger]
                locked(m2, t) == locked(m, t) + net_into_vault(eff.transfers, t)
        }),
{
    lemma_close(m, depositor);
    let e = m.deposits[depositor];
    let p = e.amount * e.penalty_bps;
    assert(0 <= p <= e.amount * BPS_DENOMINATOR) by (nonlinear_arith)
        requires
            p == e.amount * e.penalty_bps,
            e.amount > 0,
            0 <= e.penalty_bps <= BPS_DENOMINATOR,
    ;
    let penalty = penalty_of(e.amount, e.penalty_bps);
    assert(0 <= penalty <= e.amount);
    let fee_to = match m.fee_recipient {
        Some(r) => r,
        None => depositor,
    };
    let t1 = crate::vault::payout(e.token, fee_to, penalty);
    let t2 = crate::vault::payout(e.token, depositor, e.amount - penalty);
    assert forall|t: Seq<char>| #[trigger]
        net_into_vault(t1 + t2, t) == -entry_amount(e, t) by {
        lemma_net_concat(t1, t2, t);
        lemma_net_payout(e.token, fee_to, penalty, t);
        lemma_net_payout(e.token, depositor, e.amount - penalty, t);
    }
}

/// What a possible payout moves.
proof fn lemma_net_payout(token: Seq<char>, to: Seq<char>, amount: int, t: Seq<char>)
    requires
        0 <= amount <= i128::MAX,
    ensures
        net_into_vault(crate::vault::payout(token, to, amount), t) == if t == token {
            -amount
        } else {
            0
        },
{
    let s = crate::vault::payout(token, to, amount);
    assert(net_into_vault(Seq::<TransferView>::empty(), t) == 0);
    if amount > 0 {
        assert(s.drop_last() =~= Seq::<TransferView>::empty());
    } else {
        assert(s =~= Seq::<TransferView>::empty());
    }
}

/// Flows add up.
proof fn lemma_net_concat(s: Seq<TransferView>, u: Seq<TransferView>, t: Seq<char>)
    ensures
        net_into_vault(s + u, t) == net_into_vault(s, t) + net_into_vault(u, t),
    decreases u.len(),
{
    if u.len() == 0 {
        assert(s + u =~= s);
    } else {
        assert((s + u).drop_last() =~= s + u.drop_last());
        lemma_net_concat(s, u.drop_last(), t);
    }
}

/// What is locked comes back: after an accepted deposit, a withdrawal at or
/// after the unlock time is accepted and pays the same amount of the same
/// token back to the depositor, and the deposits and the set of depositors
/// are again what they were; before the unlock time it is refused.
pub proof fn law_deposit_then_withdraw(
    m: VaultStorage,
    depositor: Seq<char>,
    token: Seq<char>,
    amount: i128,
    unlock_time: u64,
    penalty_bps: u32,
    now: u64,
    later: u64,
)
    requires
        storage_wf(m),
        depositor_count(m) < u32::MAX,
        deposit_spec(
            depositor,
            token,
            amount,
            unlock_time,
            penalty_bps,
            now,
            m.max_deposit,
            m.max_lock_secs,
            m.deposits.contains_key(depositor),
        ) is Ok,
    ensures
        ({
            let m2 = apply_ops(
                m,
                deposit_spec(
                    depositor,
                    token,
                    amount,
                    unlock_time,
                    penalty_bps,
                    now,
                    m.max_deposit,
                    m.max_lock_secs,
                    m.deposits.contains_key(depositor),
                )->Ok_0.ops,
            );
            let w = withdraw_spec(depositor, later, m2.deposits.get(depositor));
            &&& later < unlock_time ==> w == Err::<crate::vault::EffectsView, VaultError>(
                VaultError::FundsStillLocked,
            )
            &&& later >= unlock_time ==> {
                &&& w is Ok
                &&& w->Ok_0.transfers == seq![
                    TransferView::OutOfVault { token, to: depositor, amount },
                ]
                &&& apply_ops(m2, w->Ok_0.ops).deposits == m.deposits
                &&& depositors(apply_ops(m2, w->Ok_0.ops)) == depositors(m)
                &&& depositor_count(apply_ops(m2, w->Ok_0.ops)) == depositor_count(m)
            }
        }),
{
    law_deposit(m, depositor, token, amount, unlock_time, penalty_bps, now);
    let m2 = apply_ops(
        m,
        deposit_spec(
            depositor,
            token,
            amount,
            unlock_time,
            penalty_bps,
            now,
            m.max_deposit,
            m.max_lock_secs,
            m.deposits.contains_key(depositor),
        )->Ok_0.ops,
    );
    if later >= unlock_time {
        law_withdraw(m2, depositor, later);
        let m3 = apply_ops(m2, withdraw_spec(depositor, later, m2.deposits.get(depositor))->Ok_0.ops);
        assert(m3.deposits =~= m.deposits);
        assert(depositors(m3) =~= depositors(m));
    }
}

/// Two-step handover: after the admin names a new admin, the admin is
/// unchanged and the new one is pending; when the pending admin accepts, it
/// becomes the admin, nobody is pending, and the former admin is refused.
pub proof fn law_admin_handover(
    m: VaultStorage,
    admin: Seq<char>,
    new_admin: Seq<char>,
    depositor: Seq<char>,
)
    requires
        storage_wf(m),
        transfer_admin_spec(admin, new_admin, m.admin) is Ok,
    ensures
        ({
            let m1 = apply_ops(m, transfer_admin_spec(admin, new_admin, m.admin)->Ok_0.ops);
            let a = accept_admin_spec(new_admin, m1.pending_admin);
            let m2 = apply_ops(m1, a->Ok_0.ops);
            &&& storage_wf(m1)
            &&& m1.admin == m.admin
            &&& m1.pending_admin == Some(new_admin)
            &&& a is Ok
            &&& storage_wf(m2)
            &&& m2.admin == Some(new_admin)
            &&& m2.pending_admin is None
            &&& same_deposits(m, m2)
            &&& transfer_admin_spec(admin, depositor, m2.admin) == Err::<
                crate::vault::EffectsView,
                VaultError,
            >(VaultError::Unauthorized)
            &&& emergency_withdraw_spec(admin, depositor, m2.admin, m2.deposits.get(depositor))
                == Err::<crate::vault::EffectsView, VaultError>(VaultError::Unauthorized)
        }),
{
    lemma_apply_ops1(m, OpView::SetPendingAdmin(new_admin));
    let m1 = apply_ops(m, transfer_admin_spec(admin, new_admin, m.admin)->Ok_0.ops);
    lemma_settings_only(m, m1);
    lemma_apply_ops2(m1, OpView::SetAdmin(new_admin), OpView::RemovePendingAdmin);
    let m2 = apply_ops(m1, accept_admin_spec(new_admin, m1.pending_admin)->Ok_0.ops);
    lemma_settings_only(m, m2);
}

/// An accepted handover request names the pending admin and changes nothing else.
pub proof fn law_transfer_admin(m: VaultStorage, admin: Seq<char>, new_admin: Seq<char>)
    requires
        storage_wf(m),
        transfer_admin_spec(admin, new_admin, m.admin) is Ok,
    ensures
        ({
            let m2 = apply_ops(m, transfer_admin_spec(admin, new_admin, m.admin)->Ok_0.ops);
            &&& storage_wf(m2)
            &&& m.admin == Some(admin)
            &&& new_admin != admin
            &&& m2 == VaultStorage { pending_admin: Some(new_admin), ..m }
        }),
{
    lemma_apply_ops1(m, OpView::SetPendingAdmin(new_admin));
    lemma_settings_only(m, apply_ops(m, transfer_admin_spec(admin, new_admin, m.admin)->Ok_0.ops));
}

/// An accepted acceptance makes the pending admin the admin, leaves nobody
/// pending, and changes nothing else.
pub proof fn law_accept_admin(m: VaultStorage, new_admin: Seq<char>)
    requires
        storage_wf(m),
        accept_admin_spec(new_admin, m.pending_admin) is Ok,
    ensures
        ({
            let m2 = apply_ops(m, accept_admin_spec(new_admin, m.pending_admin)->Ok_0.ops);
            &&& storage_wf(m2)
            &&& m.pending_admin == Some(new_admin)
            &&& m2 == VaultStorage { admin: Some(new_admin), pending_admin: None, ..m }
        }),
{
    lemma_apply_ops2(m, OpView::SetAdmin(new_admin), OpView::RemovePendingAdmin);
    lemma_settings_only(m, apply_ops(m, accept_admin_spec(new_admin, m.pending_admin)->Ok_0.ops));
}

/// A pending admin may take over only by itself: anyone else's acceptance
/// is refused, and with nobody pending every acceptance is refused.
pub proof fn law_accept_only_pending(m: VaultStorage, caller: Seq<char>)
    requires
        m.pending_admin != Some(caller),
    ensures
        accept_admin_spec(caller, m.pending_admin) == Err::<crate::vault::EffectsView, VaultError>(
            VaultError::Unauthorized,
        ),
{
}

/// Cancelling a transfer leaves the admin and clears the pending admin.
pub proof fn law_cancel_transfer_admin(m: VaultStorage, admin: Seq<char>)
    requires
        storage_wf(m),
        cancel_transfer_admin_spec(admin, m.admin) is Ok,
    ensures
        ({
            let m2 = apply_ops(m, cancel_transfer_admin_spec(admin, m.admin)->Ok_0.ops);
            &&& storage_wf(m2)
            &&& m2.admin == m.admin
            &&& m2.pending_admin is None
            &&& same_deposits(m, m2)
        }),
{
    lemma_apply_ops1(m, OpView::RemovePendingAdmin);
    lemma_settings_only(m, apply_ops(m, cancel_transfer_admin_spec(admin, m.admin)->Ok_0.ops));
}

/// After the admin renounces, there is no admin and nobody pending, and every
/// admin-only call and every acceptance is refused, whoever makes it.
pub proof fn law_renounce_admin(
    m: VaultStorage,
    admin: Seq<char>,
    caller: Seq<char>,
    other: Seq<char>,
    depositor: Seq<char>,
)
    requires
        storage_wf(m),
        renounce_admin_spec(admin, m.admin) is Ok,
    ensures
        ({
            let m2 = apply_ops(m, renounce_admin_spec(admin, m.admin)->Ok_0.ops);
            let refused = Err::<crate::vault::EffectsView, VaultError>(VaultError::Unauthorized);
            &&& storage_wf(m2)
            &&& m2.admin is None
            &&& m2.pending_admin is None
            &&& same_deposits(m, m2)
            &&& emergency_withdraw_spec(caller, depositor, m2.admin, m2.deposits.get(depositor))
                == refused
            &&& transfer_admin_spec(caller, other, m2.admin) == refused
            &&& cancel_transfer_admin_spec(caller, m2.admin) == refused
            &&& renounce_admin_spec(caller, m2.admin) == refused
            &&& accept_admin_spec(caller, m2.pending_admin) == refused
            &&& m2.initialized == Some(true)
            &&& initialize_spec(caller, None, None, None, m2.admin, m2.initialized) == refused
        }),
{
    lemma_apply_ops2(m, OpView::RemoveAdmin, OpView::RemovePendingAdmin);
    lemma_settings_only(m, apply_ops(m, renounce_admin_spec(admin, m.admin)->Ok_0.ops));
}

// ----------------------------------------------------------------
//  What each decision accepts
// ----------------------------------------------------------------

/// A deposit is accepted exactly when its amount is positive and at most the
/// stored limit (the built-in one when none is stored, whether the stored one
/// is higher or lower), its penalty rate is at most the whole amount, it
/// unlocks in the future, at least `MIN_LOCK_DURATION_SECS` and at most the
/// stored longest lock (else the built-in one) from now, and the depositor has
/// no deposit yet. An accepted deposit locks exactly the given entry.
pub proof fn law_deposit_acceptance(
    depositor: Seq<char>,
    token: Seq<char>,
    amount: i128,
    unlock_time: u64,
    penalty_bps: u32,
    now: u64,
    stored_max_deposit: Option<i128>,
    stored_max_lock_secs: Option<u64>,
    has_deposit: bool,
)
    ensures
        ({
            let r = deposit_spec(
                depositor,
                token,
                amount,
                unlock_time,
                penalty_bps,
                now,
                stored_max_deposit,
                stored_max_lock_secs,
                has_deposit,
            );
            let amount_ok = 0 < amount && match stored_max_deposit {
                Some(v) => amount <= v,
                None => amount <= 1_000_000_000_000_000,
            };
            let lock_ok = now < unlock_time && unlock_time - now >= 60 && match stored_max_lock_secs {
                Some(v) => unlock_time - now <= v,
                None => unlock_time - now <= 157_788_000,
            };
            &&& (r is Ok <==> (amount_ok && penalty_bps <= 10_000 && lock_ok && !has_deposit))
            &&& (r is Ok ==> r->Ok_0.ops[0] == OpView::SetDeposit(
                depositor,
                EntryView { token, amount, unlock_time, depositor, penalty_bps },
            ))
            &&& (r is Ok ==> r->Ok_0.transfers == seq![
                TransferView::IntoVault { token, from: depositor, amount },
            ])
        }),
{
}

/// On a vault that holds no admin and has not been initialized, `initialize`
/// is accepted exactly when a given max deposit is positive and a given max
/// lock is not zero, whatever their size: they replace the built-in limits,
/// higher or lower. Otherwise it is refused.
pub proof fn law_initialize_acceptance(
    admin: Seq<char>,
    fee_recipient: Option<Seq<char>>,
    max_deposit: Option<i128>,
    max_lock_secs: Option<u64>,
    stored_admin: Option<Seq<char>>,
    stored_initialized: Option<bool>,
)
    ensures
        initialize_spec(
            admin,
            fee_recipient,
            max_deposit,
            max_lock_secs,
            stored_admin,
            stored_initialized,
        ) is Ok <==> (stored_admin is None && stored_initialized != Some(true) && (
        max_deposit matches Some(v) ==> v > 0) && (max_lock_secs matches Some(v) ==> v != 0)),
{
}

/// The limits `initialize` is given are the limits in force afterwards.
pub proof fn law_initialize_sets_limits(
    m: VaultStorage,
    admin: Seq<char>,
    fee_recipient: Option<Seq<char>>,
    max_deposit: i128,
    max_lock_secs: u64,
)
    requires
        storage_wf(m),
        m.admin is None,
        m.initialized != Some(true),
        max_deposit > 0,
        max_lock_secs != 0,
    ensures
        ({
            let r = initialize_spec(
                admin,
                fee_recipient,
                Some(max_deposit),
                Some(max_lock_secs),
                m.admin,
                m.initialized,
            );
            let m2 = apply_ops(m, r->Ok_0.ops);
            &&& r is Ok
            &&& max_deposit_in_force(m2.max_deposit) == max_deposit
            &&& max_lock_in_force(m2.max_lock_secs) == max_lock_secs
        }),
{
    law_initialize(
        m,
        admin,
        fee_recipient,
        Some(max_deposit),
        Some(max_lock_secs),
        (admin, fee_recipient, Some(max_deposit), Some(max_lock_secs)),
    );
}

/// A page of depositors starts at `offset` and ends at `offset + limit` or at
/// the end of the index, whichever comes first: it never reaches past the
/// index, holds at most `limit` depositors, and holds fewer only when it
/// reaches the end of the index. A page starting at or past the end is empty.
pub proof fn law_page_bounds(offset: u32, limit: u32, count: u32)
    requires
        offset + limit <= u32::MAX,
    ensures
        ({
            let end = page_end(offset, limit, count);
            &&& end <= count
            &&& end <= offset + limit
            &&& (end == offset + limit || end == count)
            &&& (offset <= count ==> offset <= end)
            &&& (offset <= count ==> end - offset == if count - offset < limit {
                count - offset
            } else {
                limit as int
            })
            &&& (offset >= count ==> end <= offset)
        }),
{
}

/// Pages follow each other: the page after one that ends at `end` starts there.
/// With the page size `get_depositors` uses, a full page holds
/// `MAX_PAGE_SIZE` depositors when at least that many remain.
pub proof fn law_get_depositors_page_size(offset: u32, limit: u32, count: u32)
    requires
        offset + page_limit(limit) <= u32::MAX,
        offset <= count,
    ensures
        ({
            let end = page_end(offset, page_limit(limit), count);
            &&& limit >= MAX_PAGE_SIZE && count - offset >= MAX_PAGE_SIZE ==> end - offset
                == MAX_PAGE_SIZE
            &&& limit < MAX_PAGE_SIZE && count - offset >= limit ==> end - offset == limit
            &&& count - offset < page_limit(limit) ==> end == count
        }),
{
}

/// The time remaining counts down to the unlock time: while a deposit is
/// locked, the ledger time plus the time remaining is the unlock time; once
/// it has come, nothing remains. Nothing remains exactly when a withdrawal
/// is no longer refused for being locked.
pub proof fn law_time_remaining(depositor: Seq<char>, e: EntryView, now: u64)
    ensures
        now < e.unlock_time ==> now + crate::vault::seconds_until(e.unlock_time, now)
            == e.unlock_time,
        now >= e.unlock_time ==> crate::vault::seconds_until(e.unlock_time, now) == 0,
        (crate::vault::seconds_until(e.unlock_time, now) == 0) <==> withdraw_spec(
            depositor,
            now,
            Some(e),
        ) is Ok,
{
}

/// When the other entry points are accepted, and what they refuse with:
/// a withdrawal needs a deposit whose unlock time has come, a cancellation a
/// deposit whose unlock time has not; the admin calls need the caller to be
/// the stored admin (a handover also a different new admin), an acceptance
/// the caller to be the pending admin.
pub proof fn law_call_acceptance(
    caller: Seq<char>,
    other: Seq<char>,
    depositor: Seq<char>,
    now: u64,
    entry: Option<EntryView>,
    stored_admin: Option<Seq<char>>,
    pending: Option<Seq<char>>,
    fee_recipient: Option<Seq<char>>,
)
    ensures
        withdraw_spec(depositor, now, entry) is Ok <==> (entry matches Some(e) && now
            >= e.unlock_time),
        entry is None ==> withdraw_spec(depositor, now, entry) == Err::<
            crate::vault::EffectsView,
            VaultError,
        >(VaultError::NoDepositFound),
        cancel_deposit_spec(depositor, now, entry, fee_recipient) is Ok <==> (entry matches Some(e)
            && now < e.unlock_time),
        emergency_withdraw_spec(caller, depositor, stored_admin, entry) is Ok <==> (stored_admin
            == Some(caller) && entry is Some),
        transfer_admin_spec(caller, other, stored_admin) is Ok <==> (stored_admin == Some(caller)
            && other != caller),
        accept_admin_spec(caller, pending) is Ok <==> pending == Some(caller),
        cancel_transfer_admin_spec(caller, stored_admin) is Ok <==> stored_admin == Some(caller),
        renounce_admin_spec(caller, stored_admin) is Ok <==> stored_admin == Some(caller),
        stored_admin != Some(caller) ==> {
            let refused = Err::<crate::vault::EffectsView, VaultError>(VaultError::Unauthorized);
            &&& emergency_withdraw_spec(caller, depositor, stored_admin, entry) == refused
            &&& transfer_admin_spec(caller, other, stored_admin) == refused
            &&& cancel_transfer_admin_spec(caller, stored_admin) == refused
            &&& renounce_admin_spec(caller, stored_admin) == refused
        },
{
}

/// The events name what happened: the depositor, token and amount of the
/// deposit that was made or closed, its unlock time, the penalty actually
/// charged on cancellation, the admin who acted and the admin named.
pub proof fn law_events(
    caller: Seq<char>,
    other: Seq<char>,
    depositor: Seq<char>,
    token: Seq<char>,
    amount: i128,
    unlock_time: u64,
    penalty_bps: u32,
    now: u64,
    e: EntryView,
    stored_max_deposit: Option<i128>,
    stored_max_lock_secs: Option<u64>,
    fee_recipient: Option<Seq<char>>,
)
    ensures
        ({
            let d = deposit_spec(
                depositor,
                token,
                amount,
                unlock_time,
                penalty_bps,
                now,
                stored_max_deposit,
                stored_max_lock_secs,
                false,
            );
            d is Ok ==> d->Ok_0.event == Some(
                crate::vault::EventView::Deposit { depositor, token, amount, unlock_time },
            )
        }),
        ({
            let w = withdraw_spec(depositor, now, Some(e));
            w is Ok ==> w->Ok_0.event == Some(
                crate::vault::EventView::Withdraw { depositor, token: e.token, amount: e.amount },
            )
        }),
        ({
            let c = cancel_deposit_spec(depositor, now, Some(e), fee_recipient);
            c is Ok ==> c->Ok_0.event == Some(
                crate::vault::EventView::DepositCancelled {
                    depositor,
                    token: e.token,
                    amount: e.amount,
                    penalty: penalty_of(e.amount, e.penalty_bps) as i128,
                },
            )
        }),
        ({
            let x = emergency_withdraw_spec(caller, depositor, Some(caller), Some(e));
            x is Ok && x->Ok_0.event == Some(
                crate::vault::EventView::EmergencyWithdraw {
                    admin: caller,
                    depositor,
                    token: e.token,
                    amount: e.amount,
                },
            )
        }),
        other != caller ==> transfer_admin_spec(caller, other, Some(caller))->Ok_0.event == Some(
            crate::vault::EventView::AdminTransferInitiated { admin: caller, new_admin: other },
        ),
        accept_admin_spec(caller, Some(caller))->Ok_0.event == Some(
            crate::vault::EventView::AdminTransferAccepted { new_admin: caller },
        ),
        renounce_admin_spec(caller, Some(caller))->Ok_0.event == Some(
            crate::vault::EventView::AdminRenounced { admin: caller },
        ),
{
}

/// The cancellation penalty is the rate's share of the amount, rounded toward
/// zero: for a positive amount and a rate of at most the whole, it lies
/// between zero and the amount, and ten thousand times it is at most the
/// amount times the rate and more than that less ten thousand.
pub proof fn law_penalty(amount: i128, penalty_bps: u32)
    requires
        amount > 0,
        penalty_bps <= 10_000,
    ensures
        0 <= penalty_of(amount, penalty_bps) <= amount,
        10_000 * penalty_of(amount, penalty_bps) <= amount * penalty_bps,
        amount * penalty_bps < 10_000 * penalty_of(amount, penalty_bps) + 10_000,
{
    let p = amount * penalty_bps;
    assert(0 <= p <= amount * 10_000) by (nonlinear_arith)
        requires
            p == amount * penalty_bps,
            amount > 0,
            0 <= penalty_bps <= 10_000,
    ;
}

/// An accepted cancellation pays the penalty, when there is one, to the fee
/// recipient (the depositor when none is stored) and then the rest, when
/// there is any, to the depositor, both in the deposit's token.
pub proof fn law_cancel_payouts(
    depositor: Seq<char>,
    now: u64,
    e: EntryView,
    fee_recipient: Option<Seq<char>>,
)
    requires
        e.amount > 0,
        e.penalty_bps <= 10_000,
        now < e.unlock_time,
    ensures
        ({
            let c = cancel_deposit_spec(depositor, now, Some(e), fee_recipient);
            let p = penalty_of(e.amount, e.penalty_bps);
            let fee_to = match fee_recipient {
                Some(r) => r,
                None => depositor,
            };
            let to_fee = TransferView::OutOfVault { token: e.token, to: fee_to, amount: p as i128 };
            let to_depositor = TransferView::OutOfVault {
                token: e.token,
                to: depositor,
                amount: (e.amount - p) as i128,
            };
            &&& c is Ok
            &&& c->Ok_0.ops == seq![OpView::RemoveDeposit(depositor), OpView::RemoveDepositor(depositor)]
            &&& (0 < p < e.amount ==> c->Ok_0.transfers == seq![to_fee, to_depositor])
            &&& (p == 0 ==> c->Ok_0.transfers == seq![to_depositor])
            &&& (p == e.amount ==> c->Ok_0.transfers == seq![to_fee])
        }),
{
    law_penalty(e.amount, e.penalty_bps);
    let p = penalty_of(e.amount, e.penalty_bps);
    let fee_to = match fee_recipient {
        Some(r) => r,
        None => depositor,
    };
    let t1 = crate::vault::payout(e.token, fee_to, p);
    let t2 = crate::vault::payout(e.token, depositor, e.amount - p);
    if 0 < p < e.amount {
        assert(t1 + t2 =~= seq![t1[0], t2[0]]);
    } else if p == 0 {
        assert(t1 + t2 =~= t2);
    } else {
        assert(t1 + t2 =~= t1);
    }
}

// ----------------------------------------------------------------
//  Sequences of calls
// ----------------------------------------------------------------

/// A call of an entry point that changes storage, with its arguments (and
/// the ledger time where it reads it).
pub enum Call {
    Initialize {
        admin: Seq<char>,
        fee_recipient: Option<Seq<char>>,
        max_deposit: Option<i128>,
        max_lock_secs: Option<u64>,
    },
    Deposit {
        depositor: Seq<char>,
        token: Seq<char>,
        amount: i128,
        unlock_time: u64,
        penalty_bps: u32,
        now: u64,
    },
    CancelDeposit { depositor: Seq<char>, now: u64 },
    Withdraw { depositor: Seq<char>, now: u64 },
    EmergencyWithdraw { admin: Seq<char>, depositor: Seq<char> },
    TransferAdmin { admin: Seq<char>, new_admin: Seq<char> },
    AcceptAdmin { new_admin: Seq<char> },
    CancelTransferAdmin { admin: Seq<char> },
    RenounceAdmin { admin: Seq<char> },
}

/// What the entry point decides when called on storage `m`, reading from `m`
/// what it reads.
pub open spec fn call_outcome(m: VaultStorage, c: Call) -> Result<crate::vault::EffectsView, VaultError> {
    match c {
        Call::Initialize { admin, fee_recipient, max_deposit, max_lock_secs } => initialize_spec(
            admin,
            fee_recipient,
            max_deposit,
            max_lock_secs,
            m.admin,
            m.initialized,
        ),
        Call::Deposit { depositor, token, amount, unlock_time, penalty_bps, now } => deposit_spec(
            depositor,
            token,
            amount,
            unlock_time,
            penalty_bps,
            now,
            m.max_deposit,
            m.max_lock_secs,
            m.deposits.contains_key(depositor),
        ),
        Call::CancelDeposit { depositor, now } => cancel_deposit_spec(
            depositor,
            now,
            m.deposits.get(depositor),
            m.fee_recipient,
        ),
        Call::Withdraw { depositor, now } => withdraw_spec(
            depositor,
            now,
            m.deposits.get(depositor),
        ),
        Call::EmergencyWithdraw { admin, depositor } => emergency_withdraw_spec(
            admin,
            depositor,
            m.admin,
            m.deposits.get(depositor),
        ),
        Call::TransferAdmin { admin, new_admin } => transfer_admin_spec(admin, new_admin, m.admin),
        Call::AcceptAdmin { new_admin } => accept_admin_spec(new_admin, m.pending_admin),
        Call::CancelTransferAdmin { admin } => cancel_transfer_admin_spec(admin, m.admin),
        Call::RenounceAdmin { admin } => renounce_admin_spec(admin, m.admin),
    }
}

/// Whether the call fails on a machine limit (the host aborts it): a deposit
/// into an index already holding `u32::MAX` depositors, or a cancellation
/// whose penalty computation leaves `i128`.
pub open spec fn call_aborts(m: VaultStorage, c: Call) -> bool {
    match c {
        Call::Deposit { .. } => call_outcome(m, c) is Ok && depositor_count(m) == u32::MAX,
        Call::CancelDeposit { depositor, now } => !cancel_arithmetic_fits(
            now,
            m.deposits.get(depositor),
        ),
        _ => false,
    }
}

/// Storage after one call: a refused or aborted call changes nothing.
pub open spec fn step(m: VaultStorage, c: Call) -> VaultStorage {
    if !call_aborts(m, c) && call_outcome(m, c) is Ok {
        apply_ops(m, call_outcome(m, c)->Ok_0.ops)
    } else {
        m
    }
}

/// Storage after a sequence of calls, in order.
pub open spec fn run(m: VaultStorage, calls: Seq<Call>) -> VaultStorage
    decreases calls.len(),
{
    if calls.len() == 0 {
        m
    } else {
        step(run(m, calls.drop_last()), calls.last())
    }
}

/// Every call keeps the storage well formed.
pub proof fn law_step_keeps_storage_wf(m: VaultStorage, c: Call)
    requires
        storage_wf(m),
    ensures
        storage_wf(step(m, c)),
{
    if !call_aborts(m, c) && call_outcome(m, c) is Ok {
        match c {
            Call::Initialize { admin, fee_recipient, max_deposit, max_lock_secs } => {
                law_initialize(
                    m,
                    admin,
                    fee_recipient,
                    max_deposit,
                    max_lock_secs,
                    (admin, fee_recipient, max_deposit, max_lock_secs),
                );
            },
            Call::Deposit { depositor, token, amount, unlock_time, penalty_bps, now } => {
                law_deposit(m, depositor, token, amount, unlock_time, penalty_bps, now);
            },
            Call::CancelDeposit { depositor, now } => {
                law_cancel_deposit(m, depositor, now);
            },
            Call::Withdraw { depositor, now } => {
                law_withdraw(m, depositor, now);
            },
            Call::EmergencyWithdraw { admin, depositor } => {
                law_emergency_withdraw(m, admin, depositor);
            },
            Call::TransferAdmin { admin, new_admin } => {
                law_transfer_admin(m, admin, new_admin);
            },
            Call::AcceptAdmin { new_admin } => {
                law_accept_admin(m, new_admin);
            },
            Call::CancelTransferAdmin { admin } => {
                law_cancel_transfer_admin(m, admin);
            },
            Call::RenounceAdmin { admin } => {
                law_renounce_admin(m, admin, admin, admin, admin);
            },
        }
    }
}

/// Any sequence of calls keeps the storage well formed; in particular every
/// state a freshly deployed vault reaches is well formed.
pub proof fn law_run_keeps_storage_wf(m: VaultStorage, calls: Seq<Call>)
    requires
        storage_wf(m),
    ensures
        storage_wf(run(m, calls)),
    decreases calls.len(),
{
    if calls.len() > 0 {
        law_run_keeps_storage_wf(m, calls.drop_last());
        law_step_keeps_storage_wf(run(m, calls.drop_last()), calls.last());
    }
}

/// `initialize` succeeds at most once: once the vault is initialized, it stays
/// initialized through any sequence of calls, and every later `initialize`
/// is refused with `Unauthorized`.
pub proof fn law_initialize_at_most_once(
    m: VaultStorage,
    calls: Seq<Call>,
    admin: Seq<char>,
    fee_recipient: Option<Seq<char>>,
    max_deposit: Option<i128>,
    max_lock_secs: Option<u64>,
)
    requires
        m.initialized == Some(true),
    ensures
        run(m, calls).initialized == Some(true),
        call_outcome(
            run(m, calls),
            Call::Initialize { admin, fee_recipient, max_deposit, max_lock_secs },
        ) == Err::<crate::vault::EffectsView, VaultError>(VaultError::Unauthorized),
    decreases calls.len(),
{
    if calls.len() > 0 {
        law_initialize_at_most_once(
            m,
            calls.drop_last(),
            admin,
            fee_recipient,
            max_deposit,
            max_lock_secs,
        );
        let m1 = run(m, calls.drop_last());
        let c = calls.last();
        if !call_aborts(m1, c) && call_outcome(m1, c) is Ok {
            law_initialized_stays(m1, call_outcome(m1, c)->Ok_0.ops);
        }
    }
}

/// Renouncing is final: after the admin renounces, no sequence of calls
/// stores an admin or a pending admin again, so every admin-only call, every
/// acceptance and every `initialize` stays refused.
pub proof fn law_renounce_is_final(
    m: VaultStorage,
    admin: Seq<char>,
    calls: Seq<Call>,
    caller: Seq<char>,
    other: Seq<char>,
    depositor: Seq<char>,
)
    requires
        storage_wf(m),
        renounce_admin_spec(admin, m.admin) is Ok,
    ensures
        ({
            let m2 = run(step(m, Call::RenounceAdmin { admin }), calls);
            let refused = Err::<crate::vault::EffectsView, VaultError>(VaultError::Unauthorized);
            &&& m2.admin is None
            &&& m2.pending_admin is None
            &&& call_outcome(m2, Call::EmergencyWithdraw { admin: caller, depositor }) == refused
            &&& call_outcome(m2, Call::TransferAdmin { admin: caller, new_admin: other })
                == refused
            &&& call_outcome(m2, Call::CancelTransferAdmin { admin: caller }) == refused
            &&& call_outcome(m2, Call::RenounceAdmin { admin: caller }) == refused
            &&& call_outcome(m2, Call::AcceptAdmin { new_admin: caller }) == refused
            &&& call_outcome(
                m2,
                Call::Initialize {
                    admin: caller,
                    fee_recipient: None,
                    max_deposit: None,
                    max_lock_secs: None,
                },
            ) == refused
        }),
{
    law_renounce_admin(m, admin, caller, other, depositor);
    let m1 = step(m, Call::RenounceAdmin { admin });
    lemma_no_admin_stays(m1, calls);
}

/// Without an admin or a pending admin, in an initialized, well-formed vault,
/// no sequence of calls stores either again.
proof fn lemma_no_admin_stays(m: VaultStorage, calls: Seq<Call>)
    requires
        storage_wf(m),
        m.admin is None,
        m.pending_admin is None,
        m.initialized == Some(true),
    ensures
        storage_wf(run(m, calls)),
        run(m, calls).admin is None,
        run(m, calls).pending_admin is None,
        run(m, calls).initialized == Some(true),
    decreases calls.len(),
{
    if calls.len() > 0 {
        lemma_no_admin_stays(m, calls.drop_last());
        let m1 = run(m, calls.drop_last());
        let c = calls.last();
        law_step_keeps_storage_wf(m1, c);
        if !call_aborts(m1, c) && call_outcome(m1, c) is Ok {
            match c {
                Call::Deposit { depositor, token, amount, unlock_time, penalty_bps, now } => {
                    law_deposit(m1, depositor, token, amount, unlock_time, penalty_bps, now);
                },
                Call::CancelDeposit { depositor, now } => {
                    law_cancel_deposit(m1, depositor, now);
                },
                Call::Withdraw { depositor, now } => {
                    law_withdraw(m1, depositor, now);
                },
                _ => {},
            }
        }
    }
}

/// Storage entries live at least as long as the longest built-in lock, at
/// one ledger every five seconds.
pub proof fn law_bump_target_covers_max_lock_duration()
    ensures
        BUMP_TARGET as int >= MAX_LOCK_DURATION_SECS as int / 5,
{
}

} // verus!

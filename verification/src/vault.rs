//! The vault's entry points. Each one takes the caller's arguments, the ledger
//! time where it needs it and the values it reads from storage, and decides:
//! either the error the call fails with, or the storage operations, token
//! transfers and event the call consists of. A failed call changes nothing.
//!
//! Authorization of the named caller (`require_auth`) precedes every
//! mutating entry point and is the host's to check.
use vstd::prelude::*;

use crate::storage::{self, count_of, ops_view, page_end, OpView, StorageOp};
use crate::types::{
    opt_addr_view, opt_entry_view, Addr, EntryView, VaultEntry, VaultError, BPS_DENOMINATOR,
    MAX_DEPOSIT_AMOUNT, MAX_LOCK_DURATION_SECS, MIN_LOCK_DURATION_SECS,
};

verus! {

/// Largest number of depositors one call of `get_depositors` returns.
pub const MAX_PAGE_SIZE: u32 = 100;

// ----------------------------------------------------------------
//  Token transfers and events
// ----------------------------------------------------------------

/// A movement of tokens the vault makes or receives.
#[derive(Debug)]
pub enum Transfer {
    /// `amount` of `token` moves from `from` into the vault.
    IntoVault { token: Addr, from: Addr, amount: i128 },
    /// `amount` of `token` moves out of the vault to `to`.
    OutOfVault { token: Addr, to: Addr, amount: i128 },
}

pub enum TransferView {
    IntoVault { token: Seq<char>, from: Seq<char>, amount: i128 },
    OutOfVault { token: Seq<char>, to: Seq<char>, amount: i128 },
}

impl View for Transfer {
    type V = TransferView;

    open spec fn view(&self) -> TransferView {
        match self {
            Transfer::IntoVault { token, from, amount } => TransferView::IntoVault {
                token: token@,
                from: from@,
                amount: *amount,
            },
            Transfer::OutOfVault { token, to, amount } => TransferView::OutOfVault {
                token: token@,
                to: to@,
                amount: *amount,
            },
        }
    }
}

/// The event an entry point publishes.
#[derive(Debug)]
pub enum VaultEvent {
    Deposit { depositor: Addr, token: Addr, amount: i128, unlock_time: u64 },
    DepositCancelled { depositor: Addr, token: Addr, amount: i128, penalty: i128 },
    Withdraw { depositor: Addr, token: Addr, amount: i128 },
    EmergencyWithdraw { admin: Addr, depositor: Addr, token: Addr, amount: i128 },
    AdminTransferInitiated { admin: Addr, new_admin: Addr },
    AdminTransferAccepted { new_admin: Addr },
    AdminRenounced { admin: Addr },
}

pub enum EventView {
    Deposit { depositor: Seq<char>, token: Seq<char>, amount: i128, unlock_time: u64 },
    DepositCancelled { depositor: Seq<char>, token: Seq<char>, amount: i128, penalty: i128 },
    Withdraw { depositor: Seq<char>, token: Seq<char>, amount: i128 },
    EmergencyWithdraw { admin: Seq<char>, depositor: Seq<char>, token: Seq<char>, amount: i128 },
    AdminTransferInitiated { admin: Seq<char>, new_admin: Seq<char> },
    AdminTransferAccepted { new_admin: Seq<char> },
    AdminRenounced { admin: Seq<char> },
}

impl View for VaultEvent {
    type V = EventView;

    open spec fn view(&self) -> EventView {
        match self {
            VaultEvent::Deposit { depositor, token, amount, unlock_time } => EventView::Deposit {
                depositor: depositor@,
                token: token@,
                amount: *amount,
                unlock_time: *unlock_time,
            },
            VaultEvent::DepositCancelled { depositor, token, amount, penalty } =>
                EventView::DepositCancelled {
                depositor: depositor@,
                token: token@,
                amount: *amount,
                penalty: *penalty,
            },
            VaultEvent::Withdraw { depositor, token, amount } => EventView::Withdraw {
                depositor: depositor@,
                token: token@,
                amount: *amount,
            },
            VaultEvent::EmergencyWithdraw { admin, depositor, token, amount } =>
                EventView::EmergencyWithdraw {
                admin: admin@,
                depositor: depositor@,
                token: token@,
                amount: *amount,
            },
            VaultEvent::AdminTransferInitiated { admin, new_admin } =>
                EventView::AdminTransferInitiated { admin: admin@, new_admin: new_admin@ },
            VaultEvent::AdminTransferAccepted { new_admin } => EventView::AdminTransferAccepted {
                new_admin: new_admin@,
            },
            VaultEvent::AdminRenounced { admin } => EventView::AdminRenounced { admin: admin@ },
        }
    }
}

// ----------------------------------------------------------------
//  Effects of a call
// ----------------------------------------------------------------

/// What a successful call consists of: the storage operations, in order, the
/// token transfers, in order, and the event it publishes, if any. The transfers
/// come after the storage operations (state is settled before any outside
/// call), except where `transfers_first` says the tokens arrive first.
#[derive(Debug)]
pub struct Effects {
    pub ops: Vec<StorageOp>,
    pub transfers: Vec<Transfer>,
    pub event: Option<VaultEvent>,
    pub transfers_first: bool,
}

pub struct EffectsView {
    pub ops: Seq<OpView>,
    pub transfers: Seq<TransferView>,
    pub event: Option<EventView>,
    pub transfers_first: bool,
}

impl View for Effects {
    type V = EffectsView;

    open spec fn view(&self) -> EffectsView {
        EffectsView {
            ops: ops_view(self.ops@),
            transfers: self.transfers@.map_values(|t: Transfer| t@),
            event: match self.event {
                Some(e) => Some(e@),
                None => None,
            },
            transfers_first: self.transfers_first,
        }
    }
}

/// The view of a call's outcome.
pub open spec fn outcome_view(r: Result<Effects, VaultError>) -> Result<EffectsView, VaultError> {
    match r {
        Ok(e) => Ok(e@),
        Err(e) => Err(e),
    }
}

/// Effects made of storage operations alone.
pub open spec fn only_ops(ops: Seq<OpView>, event: Option<EventView>) -> EffectsView {
    EffectsView { ops, transfers: seq![], event, transfers_first: false }
}

/// The operation an optional argument asks for: one when present, none when absent.
pub open spec fn optional_op(present: bool, op: OpView) -> Seq<OpView> {
    if present {
        seq![op]
    } else {
        seq![]
    }
}

// ----------------------------------------------------------------
//  What each entry point decides
// ----------------------------------------------------------------

/// `initialize`: refused once the vault has been initialized or while an
/// admin is stored, and when a limit it is given is not positive; otherwise
/// it stores the admin, the initialized flag and the optional fee recipient
/// and limits.
pub open spec fn initialize_spec(
    admin: Seq<char>,
    fee_recipient: Option<Seq<char>>,
    max_deposit: Option<i128>,
    max_lock_secs: Option<u64>,
    stored_admin: Option<Seq<char>>,
    stored_initialized: Option<bool>,
) -> Result<EffectsView, VaultError> {
    if stored_admin is Some || stored_initialized == Some(true) {
        Err(VaultError::Unauthorized)
    } else if max_deposit matches Some(v) && v <= 0 {
        Err(VaultError::InvalidAmount)
    } else if max_lock_secs matches Some(v) && v == 0 {
        Err(VaultError::LockDurationTooLong)
    } else {
        Ok(
            only_ops(
                seq![OpView::SetAdmin(admin), OpView::SetInitialized] + optional_op(
                    fee_recipient is Some,
                    OpView::SetFeeRecipient(fee_recipient->0),
                ) + optional_op(max_deposit is Some, OpView::SetMaxDeposit(max_deposit->0))
                    + optional_op(
                    max_lock_secs is Some,
                    OpView::SetMaxLockSecs(max_lock_secs->0),
                ),
                None,
            ),
        )
    }
}

/// The largest deposit in force: the stored limit, else the built-in one.
pub open spec fn max_deposit_in_force(stored: Option<i128>) -> i128 {
    match stored {
        Some(v) => v,
        None => MAX_DEPOSIT_AMOUNT,
    }
}

/// The longest lock in force: the stored limit, else the built-in one.
pub open spec fn max_lock_in_force(stored: Option<u64>) -> u64 {
    match stored {
        Some(v) => v,
        None => MAX_LOCK_DURATION_SECS,
    }
}

/// Why a deposit is refused, checked in this order, or `None` when it is accepted.
pub open spec fn deposit_error(
    amount: i128,
    unlock_time: u64,
    penalty_bps: u32,
    now: u64,
    stored_max_deposit: Option<i128>,
    stored_max_lock_secs: Option<u64>,
    has_deposit: bool,
) -> Option<VaultError> {
    if amount <= 0 {
        Some(VaultError::InvalidAmount)
    } else if amount > max_deposit_in_force(stored_max_deposit) {
        Some(VaultError::AmountTooLarge)
    } else if penalty_bps > BPS_DENOMINATOR {
        Some(VaultError::InvalidPenaltyBps)
    } else if unlock_time <= now {
        Some(VaultError::UnlockTimeNotInFuture)
    } else if unlock_time - now > max_lock_in_force(stored_max_lock_secs) {
        Some(VaultError::LockDurationTooLong)
    } else if unlock_time - now < MIN_LOCK_DURATION_SECS {
        Some(VaultError::LockDurationTooShort)
    } else if has_deposit {
        Some(VaultError::DepositAlreadyExists)
    } else {
        None
    }
}

/// `deposit`: unless refused, the tokens move into the vault, the entry is
/// stored under the depositor and the depositor joins the index.
pub open spec fn deposit_spec(
    depositor: Seq<char>,
    token: Seq<char>,
    amount: i128,
    unlock_time: u64,
    penalty_bps: u32,
    now: u64,
    stored_max_deposit: Option<i128>,
    stored_max_lock_secs: Option<u64>,
    has_deposit: bool,
) -> Result<EffectsView, VaultError> {
    match deposit_error(
        amount,
        unlock_time,
        penalty_bps,
        now,
        stored_max_deposit,
        stored_max_lock_secs,
        has_deposit,
    ) {
        Some(e) => Err(e),
        None => Ok(
            EffectsView {
                ops: seq![
                    OpView::SetDeposit(
                        depositor,
                        EntryView { token, amount, unlock_time, depositor, penalty_bps },
                    ),
                    OpView::AddDepositor(depositor),
                ],
                transfers: seq![TransferView::IntoVault { token, from: depositor, amount }],
                event: Some(EventView::Deposit { depositor, token, amount, unlock_time }),
                transfers_first: true,
            },
        ),
    }
}

/// The penalty for cancelling a deposit of `amount` at `penalty_bps`: that
/// many ten-thousandths of it, rounded toward zero.
pub open spec fn penalty_of(amount: i128, penalty_bps: u32) -> int {
    let p = amount * penalty_bps;
    if p >= 0 {
        p / (BPS_DENOMINATOR as int)
    } else {
        -((-p) / (BPS_DENOMINATOR as int))
    }
}

/// A transfer out of the vault when its amount is positive; none otherwise.
pub open spec fn payout(token: Seq<char>, to: Seq<char>, amount: int) -> Seq<TransferView> {
    if amount > 0 {
        seq![TransferView::OutOfVault { token, to, amount: amount as i128 }]
    } else {
        seq![]
    }
}

/// Removing a depositor's entry and index slot.
pub open spec fn close_ops(depositor: Seq<char>) -> Seq<OpView> {
    seq![OpView::RemoveDeposit(depositor), OpView::RemoveDepositor(depositor)]
}

/// `cancel_deposit`: refused without a deposit or once the unlock time has
/// come; otherwise the deposit is closed, the penalty goes to the fee
/// recipient (the depositor when none is stored) and the rest to the depositor.
pub open spec fn cancel_deposit_spec(
    depositor: Seq<char>,
    now: u64,
    entry: Option<EntryView>,
    fee_recipient: Option<Seq<char>>,
) -> Result<EffectsView, VaultError> {
    match entry {
        None => Err(VaultError::NoDepositFound),
        Some(e) => if now >= e.unlock_time {
            Err(VaultError::FundsStillLocked)
        } else {
            let penalty = penalty_of(e.amount, e.penalty_bps);
            let refund = e.amount - penalty;
            let fee_to = match fee_recipient {
                Some(r) => r,
                None => depositor,
            };
            Ok(
                EffectsView {
                    ops: close_ops(depositor),
                    transfers: payout(e.token, fee_to, penalty) + payout(
                        e.token,
                        depositor,
                        refund,
                    ),
                    event: Some(
                        EventView::DepositCancelled {
                            depositor,
                            token: e.token,
                            amount: e.amount,
                            penalty: penalty as i128,
                        },
                    ),
                    transfers_first: false,
                },
            )
        },
    }
}

/// Whether cancelling `entry` at `now` computes its penalty, and that
/// computation stays within `i128`.
pub open spec fn cancel_arithmetic_fits(now: u64, entry: Option<EntryView>) -> bool {
    match entry {
        Some(e) => now < e.unlock_time ==> i128::MIN <= e.amount * e.penalty_bps <= i128::MAX,
        None => true,
    }
}

/// `withdraw`: refused without a deposit or before the unlock time; otherwise
/// the deposit is closed and its whole amount returns to the depositor.
pub open spec fn withdraw_spec(depositor: Seq<char>, now: u64, entry: Option<EntryView>) -> Result<
    EffectsView,
    VaultError,
> {
    match entry {
        None => Err(VaultError::NoDepositFound),
        Some(e) => if now < e.unlock_time {
            Err(VaultError::FundsStillLocked)
        } else {
            Ok(
                EffectsView {
                    ops: close_ops(depositor),
                    transfers: seq![
                        TransferView::OutOfVault { token: e.token, to: depositor, amount: e.amount },
                    ],
                    event: Some(
                        EventView::Withdraw { depositor, token: e.token, amount: e.amount },
                    ),
                    transfers_first: false,
                },
            )
        },
    }
}

/// Whether `caller` is the stored admin.
pub open spec fn is_stored_admin(caller: Seq<char>, stored_admin: Option<Seq<char>>) -> bool {
    stored_admin == Some(caller)
}

/// `emergency_withdraw`: only the stored admin may close a deposit at any
/// time; its whole amount returns to the depositor.
pub open spec fn emergency_withdraw_spec(
    admin: Seq<char>,
    depositor: Seq<char>,
    stored_admin: Option<Seq<char>>,
    entry: Option<EntryView>,
) -> Result<EffectsView, VaultError> {
    if !is_stored_admin(admin, stored_admin) {
        Err(VaultError::Unauthorized)
    } else {
        match entry {
            None => Err(VaultError::NoDepositFound),
            Some(e) => Ok(
                EffectsView {
                    ops: close_ops(depositor),
                    transfers: seq![
                        TransferView::OutOfVault { token: e.token, to: depositor, amount: e.amount },
                    ],
                    event: Some(
                        EventView::EmergencyWithdraw {
                            admin,
                            depositor,
                            token: e.token,
                            amount: e.amount,
                        },
                    ),
                    transfers_first: false,
                },
            ),
        }
    }
}

/// `transfer_admin`: the stored admin names a different address as pending admin.
pub open spec fn transfer_admin_spec(
    admin: Seq<char>,
    new_admin: Seq<char>,
    stored_admin: Option<Seq<char>>,
) -> Result<EffectsView, VaultError> {
    if !is_stored_admin(admin, stored_admin) {
        Err(VaultError::Unauthorized)
    } else if new_admin == admin {
        Err(VaultError::InvalidAdmin)
    } else {
        Ok(
            only_ops(
                seq![OpView::SetPendingAdmin(new_admin)],
                Some(EventView::AdminTransferInitiated { admin, new_admin }),
            ),
        )
    }
}

/// `accept_admin`: the pending admin becomes the admin and nobody is pending.
pub open spec fn accept_admin_spec(new_admin: Seq<char>, pending: Option<Seq<char>>) -> Result<
    EffectsView,
    VaultError,
> {
    if pending != Some(new_admin) {
        Err(VaultError::Unauthorized)
    } else {
        Ok(
            only_ops(
                seq![OpView::SetAdmin(new_admin), OpView::RemovePendingAdmin],
                Some(EventView::AdminTransferAccepted { new_admin }),
            ),
        )
    }
}

/// `cancel_transfer_admin`: the stored admin clears the pending admin.
pub open spec fn cancel_transfer_admin_spec(admin: Seq<char>, stored_admin: Option<Seq<char>>) -> Result<
    EffectsView,
    VaultError,
> {
    if !is_stored_admin(admin, stored_admin) {
        Err(VaultError::Unauthorized)
    } else {
        Ok(only_ops(seq![OpView::RemovePendingAdmin], None))
    }
}

/// `renounce_admin`: the stored admin removes itself and any pending admin.
pub open spec fn renounce_admin_spec(admin: Seq<char>, stored_admin: Option<Seq<char>>) -> Result<
    EffectsView,
    VaultError,
> {
    if !is_stored_admin(admin, stored_admin) {
        Err(VaultError::Unauthorized)
    } else {
        Ok(
            only_ops(
                seq![OpView::RemoveAdmin, OpView::RemovePendingAdmin],
                Some(EventView::AdminRenounced { admin }),
            ),
        )
    }
}

/// Seconds until `unlock_time`, zero once it has come.
pub open spec fn seconds_until(unlock_time: u64, now: u64) -> u64 {
    if unlock_time > now {
        (unlock_time - now) as u64
    } else {
        0
    }
}

// ----------------------------------------------------------------
//  The entry points
// ----------------------------------------------------------------

/// The time-lock vault. Each entry point is an associated function.
pub struct TimeLockVault;

/// Refuses a caller who is not the stored admin.
fn check_admin(caller: &Addr, stored_admin: &Option<Addr>) -> (r: Result<(), VaultError>)
    ensures
        r is Ok <==> is_stored_admin(caller@, opt_addr_view(*stored_admin)),
        r matches Err(e) ==> e == VaultError::Unauthorized,
{
    match stored_admin {
        None => Err(VaultError::Unauthorized),
        Some(a) => if *caller == *a {
            Ok(())
        } else {
            Err(VaultError::Unauthorized)
        },
    }
}

impl TimeLockVault {
    // ----------------------------------------------------------------
    //  Initialization
    // ----------------------------------------------------------------

    /// Initialize the contract, optionally overriding the built-in limits.
    /// `stored_admin` and `stored_initialized` are the admin and the
    /// initialized flag storage holds. Must be called once, immediately after
    /// deployment: every later call is refused.
    pub fn initialize(
        admin: Addr,
        fee_recipient: Option<Addr>,
        max_deposit: Option<i128>,
        max_lock_secs: Option<u64>,
        stored_admin: &Option<Addr>,
        stored_initialized: Option<bool>,
    ) -> (r: Result<Effects, VaultError>)
        ensures
            outcome_view(r) == initialize_spec(
                admin@,
                opt_addr_view(fee_recipient),
                max_deposit,
                max_lock_secs,
                opt_addr_view(*stored_admin),
                stored_initialized,
            ),
    {
        if stored_admin.is_some() || storage::is_initialized(stored_initialized) {
            return Err(VaultError::Unauthorized);
        }
        let ghost admin_view = admin@;
        let mut ops: Vec<StorageOp> = Vec::new();
        ops.push(StorageOp::SetAdmin(admin));
        ops.push(StorageOp::SetInitialized);
        let ghost base = ops_view(ops@);
        proof {
            assert(base =~= seq![OpView::SetAdmin(admin_view), OpView::SetInitialized]);
        }
        let has_fee = fee_recipient.is_some();
        let ghost fee_view = opt_addr_view(fee_recipient);
        if let Some(r) = fee_recipient {
            ops.push(StorageOp::SetFeeRecipient(r));
        }
        let ghost with_fee = ops_view(ops@);
        proof {
            assert(with_fee =~= base + optional_op(
                has_fee,
                OpView::SetFeeRecipient(fee_view->0),
            ));
        }
        if let Some(v) = max_deposit {
            if v <= 0 {
                return Err(VaultError::InvalidAmount);
            }
            ops.push(StorageOp::SetMaxDeposit(v));
        }
        let ghost with_max = ops_view(ops@);
        proof {
            assert(with_max =~= with_fee + optional_op(
                max_deposit is Some,
                OpView::SetMaxDeposit(max_deposit->0),
            ));
        }
        if let Some(v) = max_lock_secs {
            if v == 0 {
                return Err(VaultError::LockDurationTooLong);
            }
            ops.push(StorageOp::SetMaxLockSecs(v));
        }
        proof {
            assert(ops_view(ops@) =~= with_max + optional_op(
                max_lock_secs is Some,
                OpView::SetMaxLockSecs(max_lock_secs->0),
            ));
        }
        let eff = Effects { ops, transfers: Vec::new(), event: None, transfers_first: false };
        proof {
            assert(eff@.transfers =~= Seq::<TransferView>::empty());
        }
        Ok(eff)
    }

    // ----------------------------------------------------------------
    //  Core: Deposit
    // ----------------------------------------------------------------

    /// Lock `amount` of `token` from `depositor` until `unlock_time`, with an
    /// early-exit penalty of `penalty_bps`. The stored limits, the ledger time
    /// `now`, and whether a deposit is stored for the depositor decide it.
    pub fn deposit(
        depositor: Addr,
        token: Addr,
        amount: i128,
        unlock_time: u64,
        penalty_bps: u32,
        now: u64,
        stored_max_deposit: Option<i128>,
        stored_max_lock_secs: Option<u64>,
        existing: &Option<VaultEntry>,
    ) -> (r: Result<Effects, VaultError>)
        ensures
            outcome_view(r) == deposit_spec(
                depositor@,
                token@,
                amount,
                unlock_time,
                penalty_bps,
                now,
                stored_max_deposit,
                stored_max_lock_secs,
                existing is Some,
            ),
    {
        if amount <= 0 {
            return Err(VaultError::InvalidAmount);
        }
        let max_deposit = match stored_max_deposit {
            Some(v) => v,
            None => MAX_DEPOSIT_AMOUNT,
        };
        if amount > max_deposit {
            return Err(VaultError::AmountTooLarge);
        }
        if penalty_bps > BPS_DENOMINATOR {
            return Err(VaultError::InvalidPenaltyBps);
        }
        if unlock_time <= now {
            return Err(VaultError::UnlockTimeNotInFuture);
        }
        let max_lock = match stored_max_lock_secs {
            Some(v) => v,
            None => MAX_LOCK_DURATION_SECS,
        };
        let lock_duration = unlock_time.saturating_sub(now);
        if lock_duration > max_lock {
            return Err(VaultError::LockDurationTooLong);
        }
        if lock_duration < MIN_LOCK_DURATION_SECS {
            return Err(VaultError::LockDurationTooShort);
        }
        if existing.is_some() {
            return Err(VaultError::DepositAlreadyExists);
        }
        let ghost dv = depositor@;
        let ghost tv = token@;
        let entry = VaultEntry {
            token: token.clone(),
            amount,
            unlock_time,
            depositor: depositor.clone(),
            penalty_bps,
        };
        let mut ops: Vec<StorageOp> = Vec::new();
        ops.push(StorageOp::SetDeposit(depositor.clone(), entry));
        ops.push(StorageOp::AddDepositor(depositor.clone()));
        let mut transfers: Vec<Transfer> = Vec::new();
        transfers.push(Transfer::IntoVault { token: token.clone(), from: depositor.clone(), amount });
        let event = VaultEvent::Deposit { depositor, token, amount, unlock_time };
        let eff = Effects { ops, transfers, event: Some(event), transfers_first: true };
        proof {
            let spec = deposit_spec(
                dv,
                tv,
                amount,
                unlock_time,
                penalty_bps,
                now,
                stored_max_deposit,
                stored_max_lock_secs,
                false,
            );
            assert(eff@.ops =~= spec->Ok_0.ops);
            assert(eff@.transfers =~= spec->Ok_0.transfers);
        }
        Ok(eff)
    }

    // ----------------------------------------------------------------
    //  Core: Cancel Deposit (early exit with penalty)
    // ----------------------------------------------------------------

    /// Cancel an active deposit before the unlock time, paying a penalty.
    /// The penalty goes to the fee recipient; the remainder returns to the
    /// depositor. Fails with `FundsStillLocked` once the unlock time has come:
    /// use `withdraw`.
    pub fn cancel_deposit(
        depositor: Addr,
        now: u64,
        entry: &Option<VaultEntry>,
        fee_recipient: &Option<Addr>,
    ) -> (r: Result<Effects, VaultError>)
        requires
            cancel_arithmetic_fits(now, opt_entry_view(*entry)),
        ensures
            outcome_view(r) == cancel_deposit_spec(
                depositor@,
                now,
                opt_entry_view(*entry),
                opt_addr_view(*fee_recipient),
            ),
    {
        let e = match entry {
            Some(e) => e,
            None => return Err(VaultError::NoDepositFound),
        };
        if now >= e.unlock_time {
            return Err(VaultError::FundsStillLocked);
        }
        let ghost product = e.amount * e.penalty_bps;
        let scaled: i128 = e.amount * (e.penalty_bps as i128);
        let penalty: i128 = scaled / (BPS_DENOMINATOR as i128);
        proof {
            if e.amount >= 0 {
                assert(product >= 0) by (nonlinear_arith)
                    requires
                        product == e.amount * e.penalty_bps,
                        e.amount >= 0,
                        e.penalty_bps >= 0,
                ;
            } else {
                assert(product <= 0) by (nonlinear_arith)
                    requires
                        product == e.amount * e.penalty_bps,
                        e.amount < 0,
                        e.penalty_bps >= 0,
                ;
            }
            assert(penalty == penalty_of(e.amount, e.penalty_bps));
        }
        let refund: i128 = e.amount - penalty;
        let mut ops: Vec<StorageOp> = Vec::new();
        ops.push(StorageOp::RemoveDeposit(depositor.clone()));
        ops.push(StorageOp::RemoveDepositor(depositor.clone()));
        let mut transfers: Vec<Transfer> = Vec::new();
        if penalty > 0 {
            let fee_to = match fee_recipient {
                Some(r) => r.clone(),
                None => depositor.clone(),
            };
            transfers.push(Transfer::OutOfVault { token: e.token.clone(), to: fee_to, amount: penalty });
        }
        let ghost after_fee = transfers@.map_values(|t: Transfer| t@);
        if refund > 0 {
            transfers.push(Transfer::OutOfVault { token: e.token.clone(), to: depositor.clone(), amount: refund });
        }
        let event = VaultEvent::DepositCancelled {
            depositor: depositor.clone(),
            token: e.token.clone(),
            amount: e.amount,
            penalty,
        };
        let eff = Effects { ops, transfers, event: Some(event), transfers_first: false };
        proof {
            let fee_to = match opt_addr_view(*fee_recipient) {
                Some(r) => r,
                None => depositor@,
            };
            assert(after_fee =~= payout(e.token@, fee_to, penalty as int));
            assert(eff@.transfers =~= payout(e.token@, fee_to, penalty as int) + payout(
                e.token@,
                depositor@,
                refund as int,
            ));
            assert(eff@.ops =~= close_ops(depositor@));
        }
        Ok(eff)
    }

    // ----------------------------------------------------------------
    //  Core: Withdraw
    // ----------------------------------------------------------------

    /// Withdraw the whole deposit once its unlock time has come.
    pub fn withdraw(depositor: Addr, now: u64, entry: &Option<VaultEntry>) -> (r: Result<
        Effects,
        VaultError,
    >)
        ensures
            outcome_view(r) == withdraw_spec(depositor@, now, opt_entry_view(*entry)),
    {
        let e = match entry {
            Some(e) => e,
            None => return Err(VaultError::NoDepositFound),
        };
        if now < e.unlock_time {
            return Err(VaultError::FundsStillLocked);
        }
        let eff = Self::close_and_pay(&depositor, e, VaultEvent::Withdraw {
            depositor: depositor.clone(),
            token: e.token.clone(),
            amount: e.amount,
        });
        Ok(eff)
    }

    /// The effects of closing `depositor`'s deposit and paying its whole
    /// amount back to the depositor.
    fn close_and_pay(depositor: &Addr, e: &VaultEntry, event: VaultEvent) -> (eff: Effects)
        ensures
            eff@ == (EffectsView {
                ops: close_ops(depositor@),
                transfers: seq![
                    TransferView::OutOfVault { token: e.token@, to: depositor@, amount: e.amount },
                ],
                event: Some(event@),
                transfers_first: false,
            }),
    {
        let mut ops: Vec<StorageOp> = Vec::new();
        ops.push(StorageOp::RemoveDeposit(depositor.clone()));
        ops.push(StorageOp::RemoveDepositor(depositor.clone()));
        let mut transfers: Vec<Transfer> = Vec::new();
        transfers.push(Transfer::OutOfVault { token: e.token.clone(), to: depositor.clone(), amount: e.amount });
        let eff = Effects { ops, transfers, event: Some(event), transfers_first: false };
        proof {
            assert(eff@.ops =~= close_ops(depositor@));
            assert(eff@.transfers =~= seq![
                TransferView::OutOfVault { token: e.token@, to: depositor@, amount: e.amount },
            ]);
        }
        eff
    }

    // ----------------------------------------------------------------
    //  Admin: Emergency Withdrawal
    // ----------------------------------------------------------------

    /// The admin returns a deposit to its depositor at any time.
    pub fn emergency_withdraw(
        admin: Addr,
        depositor: Addr,
        stored_admin: &Option<Addr>,
        entry: &Option<VaultEntry>,
    ) -> (r: Result<Effects, VaultError>)
        ensures
            outcome_view(r) == emergency_withdraw_spec(
                admin@,
                depositor@,
                opt_addr_view(*stored_admin),
                opt_entry_view(*entry),
            ),
    {
        check_admin(&admin, stored_admin)?;
        let e = match entry {
            Some(e) => e,
            None => return Err(VaultError::NoDepositFound),
        };
        let eff = Self::close_and_pay(&depositor, e, VaultEvent::EmergencyWithdraw {
            admin,
            depositor: depositor.clone(),
            token: e.token.clone(),
            amount: e.amount,
        });
        Ok(eff)
    }

    // ----------------------------------------------------------------
    //  Admin: Two-Step Admin Transfer
    // ----------------------------------------------------------------

    /// The admin names `new_admin` to take over; it must accept.
    pub fn transfer_admin(admin: Addr, new_admin: Addr, stored_admin: &Option<Addr>) -> (r: Result<
        Effects,
        VaultError,
    >)
        ensures
            outcome_view(r) == transfer_admin_spec(admin@, new_admin@, opt_addr_view(*stored_admin)),
    {
        check_admin(&admin, stored_admin)?;
        if new_admin == admin {
            return Err(VaultError::InvalidAdmin);
        }
        let mut ops: Vec<StorageOp> = Vec::new();
        ops.push(StorageOp::SetPendingAdmin(new_admin.clone()));
        let eff = Effects {
            ops,
            transfers: Vec::new(),
            transfers_first: false,
            event: Some(VaultEvent::AdminTransferInitiated { admin, new_admin }),
        };
        proof {
            assert(eff@.ops =~= seq![OpView::SetPendingAdmin(new_admin@)]);
            assert(eff@.transfers =~= Seq::<TransferView>::empty());
        }
        Ok(eff)
    }

    /// The pending admin takes over.
    pub fn accept_admin(new_admin: Addr, stored_pending: &Option<Addr>) -> (r: Result<
        Effects,
        VaultError,
    >)
        ensures
            outcome_view(r) == accept_admin_spec(new_admin@, opt_addr_view(*stored_pending)),
    {
        check_admin(&new_admin, stored_pending)?;
        let mut ops: Vec<StorageOp> = Vec::new();
        ops.push(StorageOp::SetAdmin(new_admin.clone()));
        ops.push(StorageOp::RemovePendingAdmin);
        let eff = Effects {
            ops,
            transfers: Vec::new(),
            transfers_first: false,
            event: Some(VaultEvent::AdminTransferAccepted { new_admin }),
        };
        proof {
            assert(eff@.ops =~= seq![OpView::SetAdmin(new_admin@), OpView::RemovePendingAdmin]);
            assert(eff@.transfers =~= Seq::<TransferView>::empty());
        }
        Ok(eff)
    }

    /// The admin withdraws a pending transfer.
    pub fn cancel_transfer_admin(admin: Addr, stored_admin: &Option<Addr>) -> (r: Result<
        Effects,
        VaultError,
    >)
        ensures
            outcome_view(r) == cancel_transfer_admin_spec(admin@, opt_addr_view(*stored_admin)),
    {
        check_admin(&admin, stored_admin)?;
        let mut ops: Vec<StorageOp> = Vec::new();
        ops.push(StorageOp::RemovePendingAdmin);
        let eff = Effects { ops, transfers: Vec::new(), event: None, transfers_first: false };
        proof {
            assert(eff@.ops =~= seq![OpView::RemovePendingAdmin]);
            assert(eff@.transfers =~= Seq::<TransferView>::empty());
        }
        Ok(eff)
    }

    /// The admin gives up its role, with any pending transfer; no admin can be
    /// stored again afterwards (see `law_renounce_is_final`).
    pub fn renounce_admin(admin: Addr, stored_admin: &Option<Addr>) -> (r: Result<
        Effects,
        VaultError,
    >)
        ensures
            outcome_view(r) == renounce_admin_spec(admin@, opt_addr_view(*stored_admin)),
    {
        check_admin(&admin, stored_admin)?;
        let mut ops: Vec<StorageOp> = Vec::new();
        ops.push(StorageOp::RemoveAdmin);
        ops.push(StorageOp::RemovePendingAdmin);
        let eff = Effects {
            ops,
            transfers: Vec::new(),
            transfers_first: false,
            event: Some(VaultEvent::AdminRenounced { admin }),
        };
        proof {
            assert(eff@.ops =~= seq![OpView::RemoveAdmin, OpView::RemovePendingAdmin]);
            assert(eff@.transfers =~= Seq::<TransferView>::empty());
        }
        Ok(eff)
    }

    // ----------------------------------------------------------------
    //  Read-only Queries
    // ----------------------------------------------------------------

    /// Seconds until the depositor's funds unlock; zero without a deposit
    /// and once the unlock time has come.
    pub fn time_remaining(entry: &Option<VaultEntry>, now: u64) -> (r: u64)
        ensures
            r == match entry {
                None => 0,
                Some(e) => seconds_until(e.unlock_time, now),
            },
    {
        match entry {
            None => 0,
            Some(e) => e.unlock_time.saturating_sub(now),
        }
    }

    /// The limits in force for this deployment: (max deposit, max lock seconds).
    pub fn get_constants(stored_max_deposit: Option<i128>, stored_max_lock_secs: Option<u64>) -> (r: (
        i128,
        u64,
    ))
        ensures
            r == (max_deposit_in_force(stored_max_deposit), max_lock_in_force(stored_max_lock_secs)),
    {
        let max_deposit = match stored_max_deposit {
            Some(v) => v,
            None => MAX_DEPOSIT_AMOUNT,
        };
        let max_lock = match stored_max_lock_secs {
            Some(v) => v,
            None => MAX_LOCK_DURATION_SECS,
        };
        (max_deposit, max_lock)
    }

    /// Whether `initialize` has succeeded on this vault.
    pub fn is_initialized(stored: Option<bool>) -> (r: bool)
        ensures
            r == (stored == Some(true)),
    {
        storage::is_initialized(stored)
    }

    // ----------------------------------------------------------------
    //  Admin Tooling: Depositor Enumeration
    // ----------------------------------------------------------------

    /// The number of active depositors.
    pub fn get_depositor_count(stored_count: Option<u32>) -> (n: u32)
        ensures
            n == count_of(stored_count),
    {
        storage::get_depositor_count(stored_count)
    }

    /// The slot range `start..end` of the page of depositors that starts at
    /// `offset`; a page holds at most `limit`, and never more than `MAX_PAGE_SIZE`.
    pub fn get_depositors(offset: u32, limit: u32, stored_count: Option<u32>) -> (r: (u32, u32))
        requires
            offset + page_limit(limit) <= u32::MAX,
        ensures
            r == (offset, page_end(offset, page_limit(limit), count_of(stored_count))),
    {
        let capped = if limit < MAX_PAGE_SIZE {
            limit
        } else {
            MAX_PAGE_SIZE
        };
        storage::get_depositors_page(offset, capped, stored_count)
    }

    // ----------------------------------------------------------------
    //  View Functions
    // ----------------------------------------------------------------

    /// The depositor's entry with the seconds until it unlocks, or `None`
    /// without a deposit.
    pub fn get_vault_with_time_remaining(entry: Option<VaultEntry>, now: u64) -> (r: Option<
        (VaultEntry, u64),
    >)
        ensures
            match entry {
                None => r is None,
                Some(e) => r matches Some(p) && p.0@ == e@ && p.1 == seconds_until(
                    e.unlock_time,
                    now,
                ),
            },
    {
        match entry {
            None => None,
            Some(e) => {
                let remaining = e.unlock_time.saturating_sub(now);
                Some((e, remaining))
            },
        }
    }

    /// Whether `address` is the stored admin.
    pub fn is_admin(stored_admin: &Option<Addr>, address: &Addr) -> (r: bool)
        ensures
            r == is_stored_admin(address@, opt_addr_view(*stored_admin)),
    {
        match stored_admin {
            Some(a) => *a == *address,
            None => false,
        }
    }

    /// Whether the depositor has an active deposit.
    pub fn has_deposit(entry: &Option<VaultEntry>) -> (r: bool)
        ensures
            r == entry is Some,
    {
        entry.is_some()
    }
}

/// The page size `get_depositors` uses for a requested `limit`.
pub open spec fn page_limit(limit: u32) -> u32 {
    if limit < MAX_PAGE_SIZE {
        limit
    } else {
        MAX_PAGE_SIZE
    }
}

} // verus!

use std::collections::HashMap;

use time_lock_vault::storage::{self, StorageOp, BUMP_TARGET};
use time_lock_vault::types::{
    Addr, VaultEntry, VaultError, VaultKey, MAX_DEPOSIT_AMOUNT, MAX_LOCK_DURATION_SECS,
};
use time_lock_vault::vault::{Effects, TimeLockVault, Transfer, VaultEvent};

// ================================================================
//  Test harness: an in-memory host (storage, token balances, ledger time)
//  that carries out what the library decides.
// ================================================================

const VAULT: &str = "CVAULT";

#[derive(Default)]
struct Store {
    deposits: HashMap<String, VaultEntry>,
    admin: Option<Addr>,
    pending_admin: Option<Addr>,
    initialized: Option<bool>,
    fee_recipient: Option<Addr>,
    max_deposit: Option<i128>,
    max_lock_secs: Option<u64>,
    depositor_count: Option<u32>,
    depositor_at: HashMap<u32, Addr>,
    depositor_slot: HashMap<String, u32>,
}

struct Sim {
    store: Store,
    balances: HashMap<(String, String), i128>,
    now: u64,
    next_id: u64,
    events: Vec<VaultEvent>,
}

fn addr(s: &str) -> Addr {
    Addr::new(s.to_string())
}

impl Sim {
    fn new() -> Sim {
        Sim {
            store: Store::default(),
            balances: HashMap::new(),
            now: 0,
            next_id: 0,
            events: Vec::new(),
        }
    }

    fn generate(&mut self) -> Addr {
        self.next_id += 1;
        Addr::new(format!("G{:055}", self.next_id))
    }

    fn mint(&mut self, token: &Addr, to: &Addr, amount: i128) {
        *self.balances.entry((token.strkey.clone(), to.strkey.clone())).or_insert(0) += amount;
    }

    fn balance(&self, token: &Addr, who: &Addr) -> i128 {
        *self.balances.get(&(token.strkey.clone(), who.strkey.clone())).unwrap_or(&0)
    }

    fn move_tokens(&mut self, token: &Addr, from: &str, to: &str, amount: i128) {
        let from_key = (token.strkey.clone(), from.to_string());
        let have = *self.balances.get(&from_key).unwrap_or(&0);
        assert!(have >= amount, "insufficient balance");
        self.balances.insert(from_key, have - amount);
        *self.balances.entry((token.strkey.clone(), to.to_string())).or_insert(0) += amount;
    }

    fn advance_time(&mut self, seconds: u64) {
        self.now += seconds;
    }

    fn execute(&mut self, op: StorageOp) {
        let st = &mut self.store;
        match op {
            StorageOp::SetDeposit(a, e) => {
                st.deposits.insert(a.strkey, e);
            }
            StorageOp::RemoveDeposit(a) => {
                st.deposits.remove(&a.strkey);
            }
            StorageOp::SetAdmin(a) => st.admin = Some(a),
            StorageOp::RemoveAdmin => st.admin = None,
            StorageOp::SetPendingAdmin(a) => st.pending_admin = Some(a),
            StorageOp::RemovePendingAdmin => st.pending_admin = None,
            StorageOp::SetInitialized => st.initialized = Some(true),
            StorageOp::SetFeeRecipient(a) => st.fee_recipient = Some(a),
            StorageOp::SetMaxDeposit(v) => st.max_deposit = Some(v),
            StorageOp::SetMaxLockSecs(v) => st.max_lock_secs = Some(v),
            StorageOp::SetDepositorCount(n) => st.depositor_count = Some(n),
            StorageOp::SetDepositorAt(i, a) => {
                st.depositor_at.insert(i, a);
            }
            StorageOp::RemoveDepositorAt(i) => {
                st.depositor_at.remove(&i);
            }
            StorageOp::SetDepositorSlot(a, i) => {
                st.depositor_slot.insert(a.strkey, i);
            }
            StorageOp::RemoveDepositorSlot(a) => {
                st.depositor_slot.remove(&a.strkey);
            }
            StorageOp::AddDepositor(a) => {
                let ops = storage::add_depositor(&a, st.depositor_count);
                for o in ops {
                    self.execute(o);
                }
            }
            StorageOp::RemoveDepositor(a) => {
                let slot = st.depositor_slot.get(&a.strkey).copied();
                let last = storage::slot_to_move(st.depositor_count, slot)
                    .map(|i| st.depositor_at.get(&i).cloned().unwrap());
                let ops = storage::remove_depositor(&a, st.depositor_count, slot, last);
                for o in ops {
                    self.execute(o);
                }
            }
        }
    }

    fn apply(&mut self, r: Result<Effects, VaultError>) -> Result<(), VaultError> {
        let eff = r?;
        let transfers_first = eff.transfers_first;
        let ops = eff.ops;
        if !transfers_first {
            for op in ops {
                self.execute(op);
            }
            self.pay(eff.transfers);
        } else {
            self.pay(eff.transfers);
            for op in ops {
                self.execute(op);
            }
        }
        if let Some(e) = eff.event {
            self.events.push(e);
        }
        Ok(())
    }

    fn pay(&mut self, transfers: Vec<Transfer>) {
        for t in transfers {
            match t {
                Transfer::IntoVault { token, from, amount } => {
                    self.move_tokens(&token, &from.strkey, VAULT, amount)
                }
                Transfer::OutOfVault { token, to, amount } => {
                    self.move_tokens(&token, VAULT, &to.strkey, amount)
                }
            }
        }
    }

    // ---- entry points ----

    fn try_initialize(
        &mut self,
        admin: &Addr,
        fee_recipient: &Option<Addr>,
        max_deposit: &Option<i128>,
        max_lock_secs: &Option<u64>,
    ) -> Result<(), VaultError> {
        let r = TimeLockVault::initialize(
            admin.clone(),
            fee_recipient.clone(),
            *max_deposit,
            *max_lock_secs,
            &self.store.admin,
            self.store.initialized,
        );
        self.apply(r)
    }

    fn initialize(
        &mut self,
        admin: &Addr,
        fee_recipient: &Option<Addr>,
        max_deposit: &Option<i128>,
        max_lock_secs: &Option<u64>,
    ) {
        self.try_initialize(admin, fee_recipient, max_deposit, max_lock_secs).unwrap()
    }

    fn try_deposit(
        &mut self,
        depositor: &Addr,
        token: &Addr,
        amount: &i128,
        unlock_time: &u64,
        penalty_bps: &u32,
    ) -> Result<(), VaultError> {
        let existing = self.store.deposits.get(&depositor.strkey).cloned();
        let r = TimeLockVault::deposit(
            depositor.clone(),
            token.clone(),
            *amount,
            *unlock_time,
            *penalty_bps,
            self.now,
            self.store.max_deposit,
            self.store.max_lock_secs,
            &existing,
        );
        self.apply(r)
    }

    fn deposit(&mut self, depositor: &Addr, token: &Addr, amount: &i128, unlock_time: &u64, penalty_bps: &u32) {
        self.try_deposit(depositor, token, amount, unlock_time, penalty_bps).unwrap()
    }

    fn try_cancel_deposit(&mut self, depositor: &Addr) -> Result<(), VaultError> {
        let entry = self.store.deposits.get(&depositor.strkey).cloned();
        let r = TimeLockVault::cancel_deposit(depositor.clone(), self.now, &entry, &self.store.fee_recipient);
        self.apply(r)
    }

    fn cancel_deposit(&mut self, depositor: &Addr) {
        self.try_cancel_deposit(depositor).unwrap()
    }

    fn try_withdraw(&mut self, depositor: &Addr) -> Result<(), VaultError> {
        let entry = self.store.deposits.get(&depositor.strkey).cloned();
        let r = TimeLockVault::withdraw(depositor.clone(), self.now, &entry);
        self.apply(r)
    }

    fn withdraw(&mut self, depositor: &Addr) {
        self.try_withdraw(depositor).unwrap()
    }

    fn try_emergency_withdraw(&mut self, admin: &Addr, depositor: &Addr) -> Result<(), VaultError> {
        let entry = self.store.deposits.get(&depositor.strkey).cloned();
        let r = TimeLockVault::emergency_withdraw(admin.clone(), depositor.clone(), &self.store.admin, &entry);
        self.apply(r)
    }

    fn emergency_withdraw(&mut self, admin: &Addr, depositor: &Addr) {
        self.try_emergency_withdraw(admin, depositor).unwrap()
    }

    fn try_transfer_admin(&mut self, admin: &Addr, new_admin: &Addr) -> Result<(), VaultError> {
        let r = TimeLockVault::transfer_admin(admin.clone(), new_admin.clone(), &self.store.admin);
        self.apply(r)
    }

    fn transfer_admin(&mut self, admin: &Addr, new_admin: &Addr) {
        self.try_transfer_admin(admin, new_admin).unwrap()
    }

    fn try_accept_admin(&mut self, new_admin: &Addr) -> Result<(), VaultError> {
        let r = TimeLockVault::accept_admin(new_admin.clone(), &self.store.pending_admin);
        self.apply(r)
    }

    fn accept_admin(&mut self, new_admin: &Addr) {
        self.try_accept_admin(new_admin).unwrap()
    }

    fn try_cancel_transfer_admin(&mut self, admin: &Addr) -> Result<(), VaultError> {
        let r = TimeLockVault::cancel_transfer_admin(admin.clone(), &self.store.admin);
        self.apply(r)
    }

    fn cancel_transfer_admin(&mut self, admin: &Addr) {
        self.try_cancel_transfer_admin(admin).unwrap()
    }

    fn try_renounce_admin(&mut self, admin: &Addr) -> Result<(), VaultError> {
        let r = TimeLockVault::renounce_admin(admin.clone(), &self.store.admin);
        self.apply(r)
    }

    fn renounce_admin(&mut self, admin: &Addr) {
        self.try_renounce_admin(admin).unwrap()
    }

    // ---- queries ----

    fn get_vault(&self, depositor: &Addr) -> Option<VaultEntry> {
        self.store.deposits.get(&depositor.strkey).cloned()
    }

    fn time_remaining(&self, depositor: &Addr) -> u64 {
        TimeLockVault::time_remaining(&self.get_vault(depositor), self.now)
    }

    fn get_admin(&self) -> Option<Addr> {
        self.store.admin.clone()
    }

    fn get_pending_admin(&self) -> Option<Addr> {
        self.store.pending_admin.clone()
    }

    fn get_fee_recipient(&self) -> Option<Addr> {
        self.store.fee_recipient.clone()
    }

    fn get_constants(&self) -> (i128, u64) {
        TimeLockVault::get_constants(self.store.max_deposit, self.store.max_lock_secs)
    }

    fn is_initialized(&self) -> bool {
        TimeLockVault::is_initialized(self.store.initialized)
    }

    fn get_depositor_count(&self) -> u32 {
        TimeLockVault::get_depositor_count(self.store.depositor_count)
    }

    fn get_depositors(&self, offset: &u32, limit: &u32) -> Vec<Addr> {
        let (start, end) = TimeLockVault::get_depositors(*offset, *limit, self.store.depositor_count);
        let mut page = Vec::new();
        for i in start..end {
            page.push(self.store.depositor_at.get(&i).cloned().unwrap());
        }
        page
    }

    fn get_vault_with_time_remaining(&self, depositor: &Addr) -> Option<(VaultEntry, u64)> {
        TimeLockVault::get_vault_with_time_remaining(self.get_vault(depositor), self.now)
    }

    fn is_admin(&self, address: &Addr) -> bool {
        TimeLockVault::is_admin(&self.store.admin, address)
    }

    fn has_deposit(&self, depositor: &Addr) -> bool {
        TimeLockVault::has_deposit(&self.get_vault(depositor))
    }

    /// Checks the depositor index against the deposits.
    fn index_is_consistent(&self) -> bool {
        let n = self.get_depositor_count();
        if self.store.depositor_at.len() != n as usize || self.store.depositor_slot.len() != n as usize {
            return false;
        }
        if self.store.deposits.len() != n as usize {
            return false;
        }
        for i in 0..n {
            let a = match self.store.depositor_at.get(&i) {
                Some(a) => a,
                None => return false,
            };
            if self.store.depositor_slot.get(&a.strkey) != Some(&i) {
                return false;
            }
            if !self.store.deposits.contains_key(&a.strkey) {
                return false;
            }
        }
        true
    }
}

/// Returns (sim, token_address, admin, alice, fee_recipient).
fn setup() -> (Sim, Addr, Addr, Addr, Addr) {
    let mut env = Sim::new();
    env.now = 1_700_000_000;
    let admin = env.generate();
    let alice = env.generate();
    let fee_recipient = env.generate();
    let token = addr("CTOKEN");
    env.mint(&token, &alice, 10_000);
    env.initialize(&admin, &Some(fee_recipient.clone()), &None, &None);
    (env, token, admin, alice, fee_recipient)
}

fn setup_with_limits(max_deposit: Option<i128>, max_lock_secs: Option<u64>) -> (Sim, Addr, Addr, Addr) {
    let mut env = Sim::new();
    env.now = 1_700_000_000;
    let admin = env.generate();
    let alice = env.generate();
    let token = addr("CTOKEN");
    env.mint(&token, &alice, 1_000_000);
    env.initialize(&admin, &None, &max_deposit, &max_lock_secs);
    (env, token, admin, alice)
}

// ================================================================
//  Initialization
// ================================================================

#[test]
fn test_initialize_sets_admin() {
    let (vault, _token, admin, _alice, _fee) = setup();
    assert_eq!(vault.get_admin(), Some(admin));
}

#[test]
fn test_double_initialize_fails() {
    let (mut vault, _token, admin, _alice, _fee) = setup();
    assert_eq!(vault.try_initialize(&admin, &None, &None, &None), Err(VaultError::Unauthorized));
}

#[test]
fn test_is_initialized() {
    let mut vault = Sim::new();
    let admin = vault.generate();
    assert!(!vault.is_initialized());
    vault.initialize(&admin, &None, &None, &None);
    assert!(vault.is_initialized());
}

// ================================================================
//  Deposit — happy path
// ================================================================

#[test]
fn test_deposit_success() {
    let (mut vault, token, _admin, alice, _fee) = setup();
    let unlock_time = vault.now + 3600;
    vault.deposit(&alice, &token, &1_000, &unlock_time, &0);

    let entry = vault.get_vault(&alice).expect("entry should exist");
    assert_eq!(entry.amount, 1_000);
    assert_eq!(entry.unlock_time, unlock_time);
    assert_eq!(entry.token, token);
    assert_eq!(entry.depositor, alice);
    assert_eq!(entry.penalty_bps, 0);
}

#[test]
fn test_deposit_transfers_tokens_to_contract() {
    let (mut vault, token, _admin, alice, _fee) = setup();
    let unlock_time = vault.now + 3600;
    vault.deposit(&alice, &token, &1_000, &unlock_time, &0);
    assert_eq!(vault.balance(&token, &alice), 9_000);
}

// ================================================================
//  Deposit — validation errors
// ================================================================

#[test]
fn test_deposit_zero_amount_fails() {
    let (mut vault, token, _admin, alice, _fee) = setup();
    let unlock_time = vault.now + 3600;
    assert_eq!(vault.try_deposit(&alice, &token, &0, &unlock_time, &0), Err(VaultError::InvalidAmount));
}

#[test]
fn test_deposit_negative_amount_fails() {
    let (mut vault, token, _admin, alice, _fee) = setup();
    let unlock_time = vault.now + 3600;
    assert_eq!(vault.try_deposit(&alice, &token, &-1, &unlock_time, &0), Err(VaultError::InvalidAmount));
}

#[test]
fn test_deposit_amount_exceeds_max_fails() {
    let (mut vault, token, _admin, alice, _fee) = setup();
    vault.mint(&token, &alice, MAX_DEPOSIT_AMOUNT);
    let unlock_time = vault.now + 3600;
    assert_eq!(
        vault.try_deposit(&alice, &token, &(MAX_DEPOSIT_AMOUNT + 1), &unlock_time, &0),
        Err(VaultError::AmountTooLarge)
    );
}

#[test]
fn test_deposit_at_max_amount_succeeds() {
    let (mut vault, token, _admin, alice, _fee) = setup();
    vault.mint(&token, &alice, MAX_DEPOSIT_AMOUNT);
    let unlock_time = vault.now + 3600;
    vault.deposit(&alice, &token, &MAX_DEPOSIT_AMOUNT, &unlock_time, &0);
    assert_eq!(vault.get_vault(&alice).unwrap().amount, MAX_DEPOSIT_AMOUNT);
}

#[test]
fn test_deposit_past_unlock_time_fails() {
    let (mut vault, token, _admin, alice, _fee) = setup();
    let unlock_time = vault.now;
    assert_eq!(
        vault.try_deposit(&alice, &token, &1_000, &unlock_time, &0),
        Err(VaultError::UnlockTimeNotInFuture)
    );
}

#[test]
fn test_deposit_lock_duration_too_long_fails() {
    let (mut vault, token, _admin, alice, _fee) = setup();
    let unlock_time = vault.now + MAX_LOCK_DURATION_SECS + 1;
    assert_eq!(
        vault.try_deposit(&alice, &token, &1_000, &unlock_time, &0),
        Err(VaultError::LockDurationTooLong)
    );
}

#[test]
fn test_deposit_at_max_duration_succeeds() {
    let (mut vault, token, _admin, alice, _fee) = setup();
    let unlock_time = vault.now + MAX_LOCK_DURATION_SECS;
    vault.deposit(&alice, &token, &1_000, &unlock_time, &0);
    assert!(vault.get_vault(&alice).is_some());
}

#[test]
fn test_deposit_duplicate_fails() {
    let (mut vault, token, _admin, alice, _fee) = setup();
    let unlock_time = vault.now + 3600;
    vault.deposit(&alice, &token, &500, &unlock_time, &0);
    assert_eq!(
        vault.try_deposit(&alice, &token, &500, &unlock_time, &0),
        Err(VaultError::DepositAlreadyExists)
    );
}

#[test]
fn test_deposit_invalid_penalty_bps_fails() {
    let (mut vault, token, _admin, alice, _fee) = setup();
    let unlock_time = vault.now + 3600;
    assert_eq!(
        vault.try_deposit(&alice, &token, &1_000, &unlock_time, &10_001),
        Err(VaultError::InvalidPenaltyBps)
    );
}

// ================================================================
//  Withdraw — happy path
// ================================================================

#[test]
fn test_withdraw_after_unlock_succeeds() {
    let (mut vault, token, _admin, alice, _fee) = setup();
    let unlock_time = vault.now + 3600;
    vault.deposit(&alice, &token, &1_000, &unlock_time, &0);
    vault.advance_time(3601);
    vault.withdraw(&alice);
    assert!(vault.get_vault(&alice).is_none());
    assert_eq!(vault.balance(&token, &alice), 10_000);
}

#[test]
fn test_withdraw_exactly_at_unlock_time_succeeds() {
    let (mut vault, token, _admin, alice, _fee) = setup();
    let unlock_time = vault.now + 3600;
    vault.deposit(&alice, &token, &1_000, &unlock_time, &0);
    vault.advance_time(3600);
    vault.withdraw(&alice);
    assert!(vault.get_vault(&alice).is_none());
}

// ================================================================
//  Withdraw — error paths
// ================================================================

#[test]
fn test_withdraw_before_unlock_fails() {
    let (mut vault, token, _admin, alice, _fee) = setup();
    let unlock_time = vault.now + 3600;
    vault.deposit(&alice, &token, &1_000, &unlock_time, &0);
    vault.advance_time(1800);
    assert_eq!(vault.try_withdraw(&alice), Err(VaultError::FundsStillLocked));
}

#[test]
fn test_withdraw_no_deposit_fails() {
    let (mut vault, _token, _admin, alice, _fee) = setup();
    assert_eq!(vault.try_withdraw(&alice), Err(VaultError::NoDepositFound));
}

#[test]
fn test_redeposit_after_withdraw_succeeds() {
    let (mut vault, token, _admin, alice, _fee) = setup();
    let unlock_time = vault.now + 3600;
    vault.deposit(&alice, &token, &1_000, &unlock_time, &0);
    vault.advance_time(3601);
    vault.withdraw(&alice);
    let new_unlock = vault.now + 7200;
    vault.deposit(&alice, &token, &500, &new_unlock, &0);
    assert_eq!(vault.get_vault(&alice).unwrap().amount, 500);
}

// ================================================================
//  cancel_deposit
// ================================================================

#[test]
fn test_cancel_deposit_zero_penalty_returns_full_amount() {
    let (mut vault, token, _admin, alice, _fee) = setup();
    let unlock_time = vault.now + 3600;
    vault.deposit(&alice, &token, &1_000, &unlock_time, &0);
    vault.cancel_deposit(&alice);
    assert!(vault.get_vault(&alice).is_none());
    assert_eq!(vault.balance(&token, &alice), 10_000);
}

#[test]
fn test_cancel_deposit_partial_penalty_splits_correctly() {
    let (mut vault, token, _admin, alice, fee_recipient) = setup();
    let unlock_time = vault.now + 3600;
    // 10% penalty (1000 bps), fee_recipient set in setup
    vault.deposit(&alice, &token, &1_000, &unlock_time, &1_000);
    vault.cancel_deposit(&alice);
    assert!(vault.get_vault(&alice).is_none());
    // refund = 900, penalty = 100 → goes to fee_recipient
    assert_eq!(vault.balance(&token, &alice), 9_900);
    assert_eq!(vault.balance(&token, &fee_recipient), 100);
}

#[test]
fn test_cancel_deposit_no_deposit_fails() {
    let (mut vault, _token, _admin, alice, _fee) = setup();
    assert_eq!(vault.try_cancel_deposit(&alice), Err(VaultError::NoDepositFound));
}

#[test]
fn test_cancel_deposit_after_unlock_fails() {
    let (mut vault, token, _admin, alice, _fee) = setup();
    let unlock_time = vault.now + 3600;
    vault.deposit(&alice, &token, &1_000, &unlock_time, &500);
    vault.advance_time(3601);
    assert_eq!(vault.try_cancel_deposit(&alice), Err(VaultError::FundsStillLocked));
}

#[test]
fn test_cancel_deposit_penalty_stored_in_vault_entry() {
    let (mut vault, token, _admin, alice, _fee) = setup();
    let unlock_time = vault.now + 3600;
    vault.deposit(&alice, &token, &1_000, &unlock_time, &500);
    assert_eq!(vault.get_vault(&alice).unwrap().penalty_bps, 500);
}

// ================================================================
//  Time helpers
// ================================================================

#[test]
fn test_time_remaining_before_unlock() {
    let (mut vault, token, _admin, alice, _fee) = setup();
    let unlock_time = vault.now + 3600;
    vault.deposit(&alice, &token, &1_000, &unlock_time, &0);
    vault.advance_time(1800);
    assert_eq!(vault.time_remaining(&alice), 1800);
}

#[test]
fn test_time_remaining_after_unlock_is_zero() {
    let (mut vault, token, _admin, alice, _fee) = setup();
    let unlock_time = vault.now + 3600;
    vault.deposit(&alice, &token, &1_000, &unlock_time, &0);
    vault.advance_time(7200);
    assert_eq!(vault.time_remaining(&alice), 0);
}

#[test]
fn test_time_remaining_no_deposit_is_zero() {
    let (vault, _token, _admin, alice, _fee) = setup();
    assert_eq!(vault.time_remaining(&alice), 0);
}

#[test]
fn test_get_constants_returns_correct_values() {
    let (vault, _token, _admin, _alice) = setup_with_limits(None, None);
    let (max_amount, max_duration) = vault.get_constants();
    assert_eq!(max_amount, MAX_DEPOSIT_AMOUNT);
    assert_eq!(max_duration, MAX_LOCK_DURATION_SECS);
}

// ================================================================
//  Emergency Withdrawal
// ================================================================

#[test]
fn test_emergency_withdraw_by_admin_before_unlock_succeeds() {
    let (mut vault, token, admin, alice, _fee) = setup();
    let unlock_time = vault.now + 86400;
    vault.deposit(&alice, &token, &2_000, &unlock_time, &0);
    vault.emergency_withdraw(&admin, &alice);
    assert!(vault.get_vault(&alice).is_none());
    assert_eq!(vault.balance(&token, &alice), 10_000);
}

#[test]
fn test_emergency_withdraw_by_non_admin_fails() {
    let (mut vault, token, _admin, alice, _fee) = setup();
    let bob = vault.generate();
    let unlock_time = vault.now + 86400;
    vault.deposit(&alice, &token, &2_000, &unlock_time, &0);
    assert_eq!(vault.try_emergency_withdraw(&bob, &alice), Err(VaultError::Unauthorized));
}

#[test]
fn test_emergency_withdraw_no_deposit_fails() {
    let (mut vault, _token, admin, alice, _fee) = setup();
    assert_eq!(vault.try_emergency_withdraw(&admin, &alice), Err(VaultError::NoDepositFound));
}

// ================================================================
//  Admin Transfer — two-step
// ================================================================

#[test]
fn test_transfer_admin_two_step_succeeds() {
    let (mut vault, _token, admin, _alice, _fee) = setup();
    let new_admin = vault.generate();

    vault.transfer_admin(&admin, &new_admin);
    assert_eq!(vault.get_pending_admin(), Some(new_admin.clone()));
    assert_eq!(vault.get_admin(), Some(admin.clone()));

    vault.accept_admin(&new_admin);
    assert_eq!(vault.get_admin(), Some(new_admin.clone()));
    assert_eq!(vault.get_pending_admin(), None);
}

#[test]
fn test_transfer_admin_non_admin_cannot_initiate() {
    let (mut vault, _token, _admin, _alice, _fee) = setup();
    let bob = vault.generate();
    let carol = vault.generate();
    assert_eq!(vault.try_transfer_admin(&bob, &carol), Err(VaultError::Unauthorized));
}

#[test]
fn test_accept_admin_wrong_address_fails() {
    let (mut vault, _token, admin, _alice, _fee) = setup();
    let new_admin = vault.generate();
    let impostor = vault.generate();
    vault.transfer_admin(&admin, &new_admin);
    assert_eq!(vault.try_accept_admin(&impostor), Err(VaultError::Unauthorized));
    assert_eq!(vault.get_admin(), Some(admin));
}

#[test]
fn test_accept_admin_with_no_pending_fails() {
    let (mut vault, _token, _admin, _alice, _fee) = setup();
    let bob = vault.generate();
    assert_eq!(vault.try_accept_admin(&bob), Err(VaultError::Unauthorized));
}

#[test]
fn test_cancel_transfer_admin_clears_pending() {
    let (mut vault, _token, admin, _alice, _fee) = setup();
    let new_admin = vault.generate();
    vault.transfer_admin(&admin, &new_admin);
    vault.cancel_transfer_admin(&admin);
    assert_eq!(vault.get_pending_admin(), None);
    assert_eq!(vault.get_admin(), Some(admin));
}

#[test]
fn test_cancel_transfer_admin_by_non_admin_fails() {
    let (mut vault, _token, admin, _alice, _fee) = setup();
    let new_admin = vault.generate();
    let bob = vault.generate();
    vault.transfer_admin(&admin, &new_admin);
    assert_eq!(vault.try_cancel_transfer_admin(&bob), Err(VaultError::Unauthorized));
}

#[test]
fn test_new_admin_can_emergency_withdraw_after_transfer() {
    let (mut vault, token, admin, alice, _fee) = setup();
    let new_admin = vault.generate();
    let unlock_time = vault.now + 86400;
    vault.deposit(&alice, &token, &1_000, &unlock_time, &0);
    vault.transfer_admin(&admin, &new_admin);
    vault.accept_admin(&new_admin);
    assert_eq!(vault.try_emergency_withdraw(&admin, &alice), Err(VaultError::Unauthorized));
    vault.emergency_withdraw(&new_admin, &alice);
    assert_eq!(vault.balance(&token, &alice), 10_000);
}

// ================================================================
//  Admin Renounce
// ================================================================

#[test]
fn test_renounce_admin_removes_admin() {
    let (mut vault, _token, admin, _alice, _fee) = setup();
    vault.renounce_admin(&admin);
    assert_eq!(vault.get_admin(), None);
}

#[test]
fn test_renounce_admin_disables_emergency_withdraw() {
    let (mut vault, token, admin, alice, _fee) = setup();
    let unlock_time = vault.now + 86400;
    vault.deposit(&alice, &token, &1_000, &unlock_time, &0);
    vault.renounce_admin(&admin);
    assert_eq!(vault.try_emergency_withdraw(&admin, &alice), Err(VaultError::Unauthorized));
}

#[test]
fn test_renounce_admin_by_non_admin_fails() {
    let (mut vault, _token, _admin, _alice, _fee) = setup();
    let bob = vault.generate();
    assert_eq!(vault.try_renounce_admin(&bob), Err(VaultError::Unauthorized));
}

#[test]
fn test_renounce_admin_clears_pending_transfer() {
    let (mut vault, _token, admin, _alice, _fee) = setup();
    let new_admin = vault.generate();
    vault.transfer_admin(&admin, &new_admin);
    vault.renounce_admin(&admin);
    assert_eq!(vault.get_admin(), None);
    assert_eq!(vault.get_pending_admin(), None);
}

// ================================================================
//  Depositor List / Pagination
// ================================================================

#[test]
fn test_depositor_count_empty() {
    let (vault, _token, _admin, _alice, _fee) = setup();
    assert_eq!(vault.get_depositor_count(), 0);
}

#[test]
fn test_depositor_count_single_entry() {
    let (mut vault, token, _admin, alice, _fee) = setup();
    let unlock_time = vault.now + 3600;
    vault.deposit(&alice, &token, &1_000, &unlock_time, &0);
    assert_eq!(vault.get_depositor_count(), 1);
}

#[test]
fn test_depositor_count_multiple_entries() {
    let (mut vault, token, _admin, alice, _fee) = setup();
    let bob = vault.generate();
    let carol = vault.generate();
    vault.mint(&token, &bob, 5_000);
    vault.mint(&token, &carol, 5_000);
    let unlock_time = vault.now + 3600;
    vault.deposit(&alice, &token, &1_000, &unlock_time, &0);
    vault.deposit(&bob, &token, &2_000, &unlock_time, &0);
    vault.deposit(&carol, &token, &3_000, &unlock_time, &0);
    assert_eq!(vault.get_depositor_count(), 3);
}

#[test]
fn test_depositor_removed_on_withdraw() {
    let (mut vault, token, _admin, alice, _fee) = setup();
    let unlock_time = vault.now + 3600;
    vault.deposit(&alice, &token, &1_000, &unlock_time, &0);
    assert_eq!(vault.get_depositor_count(), 1);
    vault.advance_time(3601);
    vault.withdraw(&alice);
    assert_eq!(vault.get_depositor_count(), 0);
}

#[test]
fn test_depositor_removed_on_emergency_withdraw() {
    let (mut vault, token, admin, alice, _fee) = setup();
    let unlock_time = vault.now + 86400;
    vault.deposit(&alice, &token, &1_000, &unlock_time, &0);
    assert_eq!(vault.get_depositor_count(), 1);
    vault.emergency_withdraw(&admin, &alice);
    assert_eq!(vault.get_depositor_count(), 0);
}

#[test]
fn test_pagination_offset_and_limit() {
    let (mut vault, token, _admin, alice, _fee) = setup();
    let bob = vault.generate();
    let carol = vault.generate();
    vault.mint(&token, &bob, 5_000);
    vault.mint(&token, &carol, 5_000);
    let unlock_time = vault.now + 3600;
    vault.deposit(&alice, &token, &1_000, &unlock_time, &0);
    vault.deposit(&bob, &token, &2_000, &unlock_time, &0);
    vault.deposit(&carol, &token, &3_000, &unlock_time, &0);
    let page1 = vault.get_depositors(&0, &2);
    assert_eq!(page1.len(), 2);
    let page2 = vault.get_depositors(&2, &2);
    assert_eq!(page2.len(), 1);
}

#[test]
fn test_pagination_offset_beyond_end_returns_empty() {
    let (mut vault, token, _admin, alice, _fee) = setup();
    let unlock_time = vault.now + 3600;
    vault.deposit(&alice, &token, &1_000, &unlock_time, &0);
    assert_eq!(vault.get_depositors(&10, &5).len(), 0);
}

// ================================================================
//  Configurable limits
// ================================================================

#[test]
fn test_get_constants_returns_custom_limits() {
    let (vault, _token, _admin, _alice) = setup_with_limits(Some(5_000), Some(7200));
    let (max_amount, max_duration) = vault.get_constants();
    assert_eq!(max_amount, 5_000);
    assert_eq!(max_duration, 7200);
}

#[test]
fn test_custom_max_deposit_enforced() {
    let (mut vault, token, _admin, alice) = setup_with_limits(Some(500), None);
    let unlock_time = vault.now + 3600;
    vault.deposit(&alice, &token, &500, &unlock_time, &0);
    vault.advance_time(3601);
    vault.withdraw(&alice);
    let again = vault.now + 3600;
    assert_eq!(vault.try_deposit(&alice, &token, &501, &again, &0), Err(VaultError::AmountTooLarge));
}

#[test]
fn test_custom_max_lock_secs_enforced() {
    let (mut vault, token, _admin, alice) = setup_with_limits(None, Some(3600));
    let unlock_time = vault.now + 3600;
    vault.deposit(&alice, &token, &100, &unlock_time, &0);
    vault.advance_time(3601);
    vault.withdraw(&alice);
    let again = vault.now + 3601;
    assert_eq!(vault.try_deposit(&alice, &token, &100, &again, &0), Err(VaultError::LockDurationTooLong));
}

#[test]
fn test_initialize_invalid_max_deposit_fails() {
    let mut vault = Sim::new();
    let admin = vault.generate();
    assert_eq!(vault.try_initialize(&admin, &None, &Some(0_i128), &None), Err(VaultError::InvalidAmount));
}

#[test]
fn test_initialize_invalid_max_lock_secs_fails() {
    let mut vault = Sim::new();
    let admin = vault.generate();
    assert_eq!(
        vault.try_initialize(&admin, &None, &None, &Some(0_u64)),
        Err(VaultError::LockDurationTooLong)
    );
}

// ================================================================
//  Depositor index — boundary & performance
// ================================================================

#[test]
fn test_get_depositors_limit_capped_at_100() {
    let (mut vault, token, _admin, alice, _fee) = setup();
    vault.mint(&token, &alice, 1_000_000);
    let unlock_time = vault.now + 3600;
    // Deposit once; requesting limit > 100 should still work without panic
    vault.deposit(&alice, &token, &1_000, &unlock_time, &0);
    let page = vault.get_depositors(&0, &u32::MAX);
    assert_eq!(page.len(), 1);
}

#[test]
fn test_get_depositors_limit_zero_returns_empty() {
    let (mut vault, token, _admin, alice, _fee) = setup();
    let unlock_time = vault.now + 3600;
    vault.deposit(&alice, &token, &1_000, &unlock_time, &0);
    assert_eq!(vault.get_depositors(&0, &0).len(), 0);
}

#[test]
fn test_remove_depositor_swap_removes_correctly() {
    // Deposit three users, withdraw the first; verify the list is consistent.
    let (mut vault, token, _admin, alice, _fee) = setup();
    let bob = vault.generate();
    let carol = vault.generate();
    vault.mint(&token, &bob, 5_000);
    vault.mint(&token, &carol, 5_000);
    let unlock_time = vault.now + 3600;
    vault.deposit(&alice, &token, &1_000, &unlock_time, &0);
    vault.deposit(&bob, &token, &2_000, &unlock_time, &0);
    vault.deposit(&carol, &token, &3_000, &unlock_time, &0);

    // Emergency-withdraw alice (slot 0) — carol (slot 2) should swap into slot 0
    let admin = vault.get_admin().unwrap();
    vault.emergency_withdraw(&admin, &alice);

    assert_eq!(vault.get_depositor_count(), 2);
    let all = vault.get_depositors(&0, &10);
    assert_eq!(all.len(), 2);
    // Neither alice should appear
    for a in all.iter() {
        assert_ne!(*a, alice);
    }
}

#[test]
fn test_depositor_removed_on_cancel_deposit() {
    let (mut vault, token, _admin, alice, _fee) = setup();
    let unlock_time = vault.now + 3600;
    vault.deposit(&alice, &token, &1_000, &unlock_time, &0);
    assert_eq!(vault.get_depositor_count(), 1);
    vault.cancel_deposit(&alice);
    assert_eq!(vault.get_depositor_count(), 0);
}

// ================================================================
//  fee_recipient via initialize
// ================================================================

#[test]
fn test_initialize_sets_fee_recipient() {
    let (vault, _token, _admin, _alice, fee_recipient) = setup();
    assert_eq!(vault.get_fee_recipient(), Some(fee_recipient));
}

#[test]
fn test_cancel_deposit_penalty_sent_to_fee_recipient() {
    let (mut vault, token, _admin, alice, fee_recipient) = setup();
    let unlock_time = vault.now + 3600;
    // 10% penalty
    vault.deposit(&alice, &token, &1_000, &unlock_time, &1_000);
    vault.cancel_deposit(&alice);
    // alice gets 900 back; fee_recipient gets 100
    assert_eq!(vault.balance(&token, &alice), 9_900);
    assert_eq!(vault.balance(&token, &fee_recipient), 100);
}

#[test]
fn test_initialize_without_fee_recipient_stores_none() {
    let mut vault = Sim::new();
    let admin = vault.generate();
    vault.initialize(&admin, &None, &None, &None);
    assert_eq!(vault.get_fee_recipient(), None);
}

#[test]
fn test_bump_target_covers_max_lock_duration() {
    const LEDGER_INTERVAL_SECS: u64 = 5;
    let max_lock_ledgers = MAX_LOCK_DURATION_SECS / LEDGER_INTERVAL_SECS;
    assert!(
        BUMP_TARGET as u64 >= max_lock_ledgers,
        "BUMP_TARGET ({}) must be >= max lock duration in ledgers ({})",
        BUMP_TARGET,
        max_lock_ledgers,
    );
}

// ================================================================
//  View functions — readonly
// ================================================================

#[test]
fn test_get_vault_is_readonly() {
    let (vault, _token, _admin, alice, _fee) = setup();
    assert!(vault.get_vault(&alice).is_none());
    assert!(vault.get_vault(&alice).is_none());
}

#[test]
fn test_time_remaining_is_readonly() {
    let (vault, _token, _admin, alice, _fee) = setup();
    assert_eq!(vault.time_remaining(&alice), 0);
    assert_eq!(vault.time_remaining(&alice), 0);
}

// ================================================================
//  View functions
// ================================================================

#[test]
fn test_get_vault_with_time_remaining_no_deposit_returns_none() {
    let (vault, _token, _admin, alice, _fee) = setup();
    assert!(vault.get_vault_with_time_remaining(&alice).is_none());
}

#[test]
fn test_get_vault_with_time_remaining_returns_entry_and_seconds() {
    let (mut vault, token, _admin, alice, _fee) = setup();
    let unlock_time = vault.now + 3600;
    vault.deposit(&alice, &token, &1_000, &unlock_time, &0);
    vault.advance_time(1800);
    let (entry, remaining) = vault.get_vault_with_time_remaining(&alice).unwrap();
    assert_eq!(entry.amount, 1_000);
    assert_eq!(remaining, 1800);
}

#[test]
fn test_get_vault_with_time_remaining_after_unlock_returns_zero_remaining() {
    let (mut vault, token, _admin, alice, _fee) = setup();
    let unlock_time = vault.now + 3600;
    vault.deposit(&alice, &token, &1_000, &unlock_time, &0);
    vault.advance_time(7200);
    let (entry, remaining) = vault.get_vault_with_time_remaining(&alice).unwrap();
    assert_eq!(entry.amount, 1_000);
    assert_eq!(remaining, 0);
}

#[test]
fn test_is_admin_returns_true_for_admin() {
    let (vault, _token, admin, _alice, _fee) = setup();
    assert!(vault.is_admin(&admin));
}

#[test]
fn test_is_admin_returns_false_for_non_admin() {
    let (vault, _token, _admin, alice, _fee) = setup();
    assert!(!vault.is_admin(&alice));
}

#[test]
fn test_is_admin_returns_false_after_renounce() {
    let (mut vault, _token, admin, _alice, _fee) = setup();
    vault.renounce_admin(&admin);
    assert!(!vault.is_admin(&admin));
}

#[test]
fn test_has_deposit_returns_false_when_no_deposit() {
    let (vault, _token, _admin, alice, _fee) = setup();
    assert!(!vault.has_deposit(&alice));
}

#[test]
fn test_has_deposit_returns_true_when_deposit_exists() {
    let (mut vault, token, _admin, alice, _fee) = setup();
    let unlock_time = vault.now + 3600;
    vault.deposit(&alice, &token, &1_000, &unlock_time, &0);
    assert!(vault.has_deposit(&alice));
}

#[test]
fn test_has_deposit_returns_false_after_withdraw() {
    let (mut vault, token, _admin, alice, _fee) = setup();
    let unlock_time = vault.now + 3600;
    vault.deposit(&alice, &token, &1_000, &unlock_time, &0);
    vault.advance_time(3601);
    vault.withdraw(&alice);
    assert!(!vault.has_deposit(&alice));
}

// ================================================================
//  Further cases: laws on concrete values, edges, every error
// ================================================================

#[test]
fn deposit_then_withdraw_returns_what_was_locked() {
    let (mut vault, token, _admin, alice, _fee) = setup();
    let before_deposits = vault.get_depositor_count();
    let unlock_time = vault.now + 600;
    vault.deposit(&alice, &token, &2_500, &unlock_time, &700);
    assert_eq!(vault.balance(&token, &addr(VAULT)), 2_500);
    assert_eq!(vault.try_withdraw(&alice), Err(VaultError::FundsStillLocked));
    vault.advance_time(600);
    vault.withdraw(&alice);
    assert_eq!(vault.balance(&token, &alice), 10_000);
    assert_eq!(vault.balance(&token, &addr(VAULT)), 0);
    assert_eq!(vault.get_depositor_count(), before_deposits);
    assert!(vault.index_is_consistent());
}

#[test]
fn cancel_penalty_rounds_toward_zero_and_conserves_amount() {
    let (mut vault, token, _admin, alice, fee_recipient) = setup();
    let unlock_time = vault.now + 3600;
    // 999 * 333 / 10000 = 33.26... -> 33
    vault.deposit(&alice, &token, &999, &unlock_time, &333);
    vault.cancel_deposit(&alice);
    assert_eq!(vault.balance(&token, &fee_recipient), 33);
    assert_eq!(vault.balance(&token, &alice), 10_000 - 33);
    assert_eq!(vault.balance(&token, &addr(VAULT)), 0);
}

#[test]
fn cancel_full_penalty_sends_everything_to_fee_recipient() {
    let (mut vault, token, _admin, alice, fee_recipient) = setup();
    let unlock_time = vault.now + 3600;
    vault.deposit(&alice, &token, &1_000, &unlock_time, &10_000);
    let e = vault.get_vault(&alice);
    let r = TimeLockVault::cancel_deposit(alice.clone(), vault.now, &e, &Some(fee_recipient.clone())).unwrap();
    assert_eq!(r.transfers.len(), 1);
    vault.cancel_deposit(&alice);
    assert_eq!(vault.balance(&token, &fee_recipient), 1_000);
    assert_eq!(vault.balance(&token, &alice), 9_000);
}

#[test]
fn cancel_without_fee_recipient_pays_penalty_to_depositor() {
    let mut vault = Sim::new();
    vault.now = 1_000;
    let admin = vault.generate();
    let alice = vault.generate();
    let token = addr("CTOKEN");
    vault.mint(&token, &alice, 10_000);
    vault.initialize(&admin, &None, &None, &None);
    vault.deposit(&alice, &token, &1_000, &(vault.now + 3600), &2_500);
    let e = vault.get_vault(&alice);
    let r = TimeLockVault::cancel_deposit(alice.clone(), vault.now, &e, &None).unwrap();
    assert_eq!(r.transfers.len(), 2);
    match &r.transfers[0] {
        Transfer::OutOfVault { to, amount, .. } => {
            assert_eq!(*to, alice);
            assert_eq!(*amount, 250);
        }
        _ => panic!("expected a payout"),
    }
    vault.cancel_deposit(&alice);
    assert_eq!(vault.balance(&token, &alice), 10_000);
}

#[test]
fn cancel_event_reports_amount_and_penalty() {
    let (mut vault, token, _admin, alice, _fee) = setup();
    vault.deposit(&alice, &token, &1_000, &(vault.now + 3600), &1_000);
    vault.cancel_deposit(&alice);
    match vault.events.last() {
        Some(VaultEvent::DepositCancelled { depositor, amount, penalty, .. }) => {
            assert_eq!(*depositor, alice);
            assert_eq!(*amount, 1_000);
            assert_eq!(*penalty, 100);
        }
        _ => panic!("expected a cancellation event"),
    }
}

#[test]
fn deposit_lock_duration_too_short_fails() {
    let (mut vault, token, _admin, alice, _fee) = setup();
    let unlock_time = vault.now + 59;
    assert_eq!(
        vault.try_deposit(&alice, &token, &1_000, &unlock_time, &0),
        Err(VaultError::LockDurationTooShort)
    );
    vault.deposit(&alice, &token, &1_000, &(vault.now + 60), &0);
}

#[test]
fn deposit_errors_are_checked_in_order() {
    let (mut vault, token, _admin, alice, _fee) = setup();
    // amount, then limit, then penalty, then time
    assert_eq!(vault.try_deposit(&alice, &token, &0, &vault.now.clone(), &20_000), Err(VaultError::InvalidAmount));
    assert_eq!(
        vault.try_deposit(&alice, &token, &(MAX_DEPOSIT_AMOUNT + 1), &vault.now.clone(), &20_000),
        Err(VaultError::AmountTooLarge)
    );
    assert_eq!(vault.try_deposit(&alice, &token, &1, &vault.now.clone(), &20_000), Err(VaultError::InvalidPenaltyBps));
    assert_eq!(vault.try_deposit(&alice, &token, &1, &vault.now.clone(), &0), Err(VaultError::UnlockTimeNotInFuture));
    assert_eq!(vault.get_depositor_count(), 0);
}

#[test]
fn transfer_admin_to_itself_fails() {
    let (mut vault, _token, admin, _alice, _fee) = setup();
    assert_eq!(vault.try_transfer_admin(&admin, &admin), Err(VaultError::InvalidAdmin));
    assert_eq!(vault.get_pending_admin(), None);
}

#[test]
fn initialize_is_refused_while_an_admin_is_stored_and_flag_stays() {
    let (mut vault, _token, admin, _alice, _fee) = setup();
    let bob = vault.generate();
    assert_eq!(vault.try_initialize(&bob, &None, &Some(5), &Some(5)), Err(VaultError::Unauthorized));
    vault.renounce_admin(&admin);
    assert!(vault.is_initialized());
    assert_eq!(vault.get_admin(), None);
}

#[test]
fn reinitialize_after_renounce_is_refused() {
    let (mut vault, token, admin, alice, fee) = setup();
    let unlock_time = vault.now + 86400;
    vault.deposit(&alice, &token, &1_000, &unlock_time, &0);
    vault.renounce_admin(&admin);
    let mallory = vault.generate();
    assert_eq!(vault.try_initialize(&mallory, &Some(mallory.clone()), &None, &None), Err(VaultError::Unauthorized));
    assert_eq!(vault.try_initialize(&admin, &None, &None, &None), Err(VaultError::Unauthorized));
    assert_eq!(vault.get_admin(), None);
    assert!(!vault.is_admin(&mallory));
    assert_eq!(vault.get_fee_recipient(), Some(fee));
    assert_eq!(vault.try_emergency_withdraw(&mallory, &alice), Err(VaultError::Unauthorized));
    assert_eq!(vault.try_transfer_admin(&mallory, &admin), Err(VaultError::Unauthorized));
    assert_eq!(vault.try_accept_admin(&mallory), Err(VaultError::Unauthorized));
}

#[test]
fn initialize_is_refused_once_the_flag_is_set_even_without_admin() {
    let a = addr("GA");
    let r = TimeLockVault::initialize(a, None, None, None, &None, Some(true));
    assert_eq!(r.err(), Some(VaultError::Unauthorized));
    let b = addr("GB");
    assert!(TimeLockVault::initialize(b, None, None, None, &None, None).is_ok());
}

#[test]
fn initialize_stores_given_limits_and_admin() {
    let mut vault = Sim::new();
    let admin = vault.generate();
    let fee = vault.generate();
    vault.initialize(&admin, &Some(fee.clone()), &Some(77), &Some(120));
    assert_eq!(vault.get_constants(), (77, 120));
    assert_eq!(vault.get_fee_recipient(), Some(fee));
    assert!(vault.is_admin(&admin));
}

#[test]
fn index_stays_consistent_through_mixed_operations() {
    let (mut vault, token, admin, alice, _fee) = setup();
    let mut users = vec![alice.clone()];
    for _ in 0..6 {
        let u = vault.generate();
        vault.mint(&token, &u, 10_000);
        users.push(u);
    }
    let unlock_time = vault.now + 3600;
    for u in users.iter() {
        vault.deposit(u, &token, &100, &unlock_time, &100);
        assert!(vault.index_is_consistent());
    }
    assert_eq!(vault.get_depositor_count(), 7);
    vault.cancel_deposit(&users[3]);
    assert!(vault.index_is_consistent());
    vault.emergency_withdraw(&admin, &users[6]);
    assert!(vault.index_is_consistent());
    vault.cancel_deposit(&users[0]);
    assert!(vault.index_is_consistent());
    assert_eq!(vault.get_depositor_count(), 4);
    let listed = vault.get_depositors(&0, &100);
    assert_eq!(listed.len(), 4);
    for u in [&users[1], &users[2], &users[4], &users[5]] {
        assert!(listed.contains(u));
    }
    vault.advance_time(3600);
    for u in [&users[1], &users[2], &users[4], &users[5]] {
        vault.withdraw(u);
        assert!(vault.index_is_consistent());
    }
    assert_eq!(vault.get_depositor_count(), 0);
}

#[test]
fn swap_remove_moves_last_into_freed_slot() {
    let a = addr("GA");
    let b = addr("GB");
    let c = addr("GC");
    // Index [a, b, c]; remove a at slot 0: c moves to slot 0.
    let ops = storage::remove_depositor(&a, Some(3), Some(0), Some(c.clone()));
    assert_eq!(ops.len(), 5);
    match &ops[0] {
        StorageOp::SetDepositorAt(0, x) => assert_eq!(*x, c),
        _ => panic!("expected the last depositor to move"),
    }
    match &ops[4] {
        StorageOp::SetDepositorCount(2) => {}
        _ => panic!("expected the count to drop"),
    }
    // Removing the last one moves nobody.
    assert_eq!(storage::slot_to_move(Some(3), Some(2)), None);
    let ops = storage::remove_depositor(&c, Some(3), Some(2), None);
    assert_eq!(ops.len(), 3);
    // An address the index does not list changes nothing.
    assert_eq!(storage::remove_depositor(&b, Some(3), None, None).len(), 0);
    assert_eq!(storage::remove_depositor(&b, None, Some(0), None).len(), 0);
}

#[test]
fn add_depositor_takes_next_slot() {
    let a = addr("GA");
    let ops = storage::add_depositor(&a, Some(4));
    assert_eq!(ops.len(), 3);
    match (&ops[0], &ops[1], &ops[2]) {
        (StorageOp::SetDepositorAt(4, x), StorageOp::SetDepositorSlot(y, 4), StorageOp::SetDepositorCount(5)) => {
            assert_eq!(*x, a);
            assert_eq!(*y, a);
        }
        _ => panic!("unexpected writes"),
    }
    let ops = storage::add_depositor(&a, None);
    match &ops[2] {
        StorageOp::SetDepositorCount(1) => {}
        _ => panic!("expected count 1"),
    }
}

#[test]
fn page_range_is_clamped_to_count_and_page_size() {
    assert_eq!(storage::get_depositors_page(2, 5, Some(4)), (2, 4));
    assert_eq!(storage::get_depositors_page(0, 3, None), (0, 0));
    assert_eq!(TimeLockVault::get_depositors(0, 1_000, Some(500)), (0, 100));
    assert_eq!(TimeLockVault::get_depositors(10, 5, Some(3)), (10, 3));
}

#[test]
fn stored_flags_and_counts_default_when_absent() {
    assert!(!storage::is_initialized(None));
    assert!(!storage::is_initialized(Some(false)));
    assert!(storage::is_initialized(Some(true)));
    assert_eq!(storage::get_depositor_count(None), 0);
    assert_eq!(storage::get_depositor_count(Some(9)), 9);
}

#[test]
fn storage_op_keys_name_the_written_slot() {
    let a = addr("GA");
    match StorageOp::RemoveDeposit(a.clone()).key() {
        Some(VaultKey::Deposit(k)) => assert_eq!(k, a),
        _ => panic!("expected the deposit key"),
    }
    match StorageOp::RemoveDepositorAt(7).key() {
        Some(VaultKey::DepositorAt(7)) => {}
        _ => panic!("expected the slot key"),
    }
    match StorageOp::SetDepositorSlot(a.clone(), 3).key() {
        Some(VaultKey::DepositorIndex(k)) => assert_eq!(k, a),
        _ => panic!("expected the index key"),
    }
    assert!(StorageOp::AddDepositor(a.clone()).key().is_none());
    assert!(StorageOp::RemoveDepositor(a).key().is_none());
}

#[test]
fn time_remaining_counts_down_to_zero() {
    let e = VaultEntry {
        token: addr("CTOKEN"),
        amount: 5,
        unlock_time: 1_000,
        depositor: addr("GA"),
        penalty_bps: 0,
    };
    assert_eq!(TimeLockVault::time_remaining(&Some(e.clone()), 400), 600);
    assert_eq!(TimeLockVault::time_remaining(&Some(e.clone()), 1_000), 0);
    assert_eq!(TimeLockVault::time_remaining(&Some(e), 5_000), 0);
    assert_eq!(TimeLockVault::time_remaining(&None, 5), 0);
}

#[test]
fn admin_events_are_published() {
    let (mut vault, _token, admin, _alice, _fee) = setup();
    let new_admin = vault.generate();
    vault.transfer_admin(&admin, &new_admin);
    match vault.events.last() {
        Some(VaultEvent::AdminTransferInitiated { admin: a, new_admin: n }) => {
            assert_eq!(*a, admin);
            assert_eq!(*n, new_admin);
        }
        _ => panic!("expected a handover event"),
    }
    vault.accept_admin(&new_admin);
    match vault.events.last() {
        Some(VaultEvent::AdminTransferAccepted { new_admin: n }) => assert_eq!(*n, new_admin),
        _ => panic!("expected an acceptance event"),
    }
}

#[test]
fn deposits_take_tokens_first_other_calls_settle_storage_first() {
    let a = addr("GA");
    let t = addr("CTOKEN");
    let d = TimeLockVault::deposit(a.clone(), t.clone(), 10, 1_000, 0, 100, None, None, &None).unwrap();
    assert!(d.transfers_first);
    let e = VaultEntry { token: t, amount: 10, unlock_time: 1_000, depositor: a.clone(), penalty_bps: 0 };
    let w = TimeLockVault::withdraw(a.clone(), 1_000, &Some(e.clone())).unwrap();
    assert!(!w.transfers_first);
    let c = TimeLockVault::cancel_deposit(a.clone(), 10, &Some(e.clone()), &None).unwrap();
    assert!(!c.transfers_first);
    let x = TimeLockVault::emergency_withdraw(a.clone(), a.clone(), &Some(a.clone()), &Some(e)).unwrap();
    assert!(!x.transfers_first);
}

fn locked_total(vault: &Sim, token: &Addr) -> i128 {
    vault.store.deposits.values().filter(|e| e.token == *token).map(|e| e.amount).sum()
}

#[test]
fn vault_balance_always_equals_what_deposits_lock() {
    let (mut vault, token, admin, alice, _fee) = setup();
    let other = addr("COTHER");
    let bob = vault.generate();
    let carol = vault.generate();
    vault.mint(&token, &bob, 10_000);
    vault.mint(&other, &carol, 10_000);
    let vault_addr = addr(VAULT);
    let check = |v: &Sim| {
        assert_eq!(v.balance(&token, &vault_addr), locked_total(v, &token));
        assert_eq!(v.balance(&other, &vault_addr), locked_total(v, &other));
    };
    vault.deposit(&alice, &token, &1_234, &(vault.now + 3600), &2_000);
    check(&vault);
    vault.deposit(&bob, &token, &777, &(vault.now + 7200), &10_000);
    check(&vault);
    vault.deposit(&carol, &other, &5_000, &(vault.now + 100), &1);
    check(&vault);
    vault.cancel_deposit(&alice);
    check(&vault);
    vault.emergency_withdraw(&admin, &bob);
    check(&vault);
    vault.advance_time(100);
    vault.withdraw(&carol);
    check(&vault);
    assert_eq!(vault.balance(&token, &vault_addr), 0);
    assert_eq!(vault.balance(&other, &carol), 10_000);
}

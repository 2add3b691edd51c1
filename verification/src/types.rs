use vstd::prelude::*;

verus! {

// ----------------------------------------------------------------
//  Protocol constants
// ----------------------------------------------------------------

/// Largest amount a single deposit may lock when the deployment sets no limit of its own.
pub const MAX_DEPOSIT_AMOUNT: i128 = 1_000_000_000_000_000;

/// Longest lock (about five years) when the deployment sets no limit of its own.
pub const MAX_LOCK_DURATION_SECS: u64 = 157_788_000;

/// Minimum lock duration: prevents trivial, pointless vaults that waste storage.
pub const MIN_LOCK_DURATION_SECS: u64 = 60;

/// The penalty rate is given in basis points; this many make the whole amount.
pub const BPS_DENOMINATOR: u32 = 10_000;

// ----------------------------------------------------------------
//  Addresses
// ----------------------------------------------------------------

/// An account or contract address, held as its strkey text (`G...` or `C...`).
/// Two addresses are the same address exactly when their strkeys are equal.
#[derive(Debug)]
pub struct Addr {
    pub strkey: String,
}

impl View for Addr {
    type V = Seq<char>;

    open spec fn view(&self) -> Seq<char> {
        self.strkey@
    }
}

impl Addr {
    pub fn new(strkey: String) -> (a: Addr)
        ensures
            a@ == strkey@,
    {
        Addr { strkey }
    }
}

impl Clone for Addr {
    fn clone(&self) -> (r: Addr)
        ensures
            r@ == self@,
    {
        Addr { strkey: self.strkey.clone() }
    }
}

impl PartialEq for Addr {
    fn eq(&self, other: &Addr) -> (r: bool) {
        self.strkey == other.strkey
    }
}

impl vstd::std_specs::cmp::PartialEqSpecImpl for Addr {
    open spec fn obeys_eq_spec() -> bool {
        true
    }

    open spec fn eq_spec(&self, other: &Addr) -> bool {
        self@ == other@
    }
}

impl Eq for Addr {}

/// The view of an optional address.
pub open spec fn opt_addr_view(a: Option<Addr>) -> Option<Seq<char>> {
    match a {
        Some(x) => Some(x@),
        None => None,
    }
}

// ----------------------------------------------------------------
//  Storage keys
// ----------------------------------------------------------------

/// The keys under which the vault keeps its persistent state.
#[derive(Debug)]
pub enum VaultKey {
    /// Maps depositor -> VaultEntry
    Deposit(Addr),
    /// Contract-level admin address
    Admin,
    PendingAdmin,
    /// Set to true once initialize() has been called; never removed
    Initialized,
    /// Total count of active depositors
    DepositorCount,
    /// Maps slot index -> depositor address (for O(1) swap-remove)
    DepositorAt(u32),
    /// Maps depositor address -> slot index (for O(1) lookup during removal)
    DepositorIndex(Addr),
    /// Address that receives penalty fees on early cancellation
    FeeRecipient,
    /// Runtime-configurable max deposit amount (overrides the built-in constant).
    MaxDeposit,
    /// Runtime-configurable max lock duration in seconds (overrides the built-in constant).
    MaxLockSecs,
}

/// The view of a key: addresses taken by their strkeys.
pub enum KeyView {
    Deposit(Seq<char>),
    Admin,
    PendingAdmin,
    Initialized,
    DepositorCount,
    DepositorAt(u32),
    DepositorIndex(Seq<char>),
    FeeRecipient,
    MaxDeposit,
    MaxLockSecs,
}

impl View for VaultKey {
    type V = KeyView;

    open spec fn view(&self) -> KeyView {
        match self {
            VaultKey::Deposit(a) => KeyView::Deposit(a@),
            VaultKey::Admin => KeyView::Admin,
            VaultKey::PendingAdmin => KeyView::PendingAdmin,
            VaultKey::Initialized => KeyView::Initialized,
            VaultKey::DepositorCount => KeyView::DepositorCount,
            VaultKey::DepositorAt(i) => KeyView::DepositorAt(*i),
            VaultKey::DepositorIndex(a) => KeyView::DepositorIndex(a@),
            VaultKey::FeeRecipient => KeyView::FeeRecipient,
            VaultKey::MaxDeposit => KeyView::MaxDeposit,
            VaultKey::MaxLockSecs => KeyView::MaxLockSecs,
        }
    }
}

// ----------------------------------------------------------------
//  Vault entries
// ----------------------------------------------------------------

/// One depositor's locked funds.
#[derive(Debug)]
pub struct VaultEntry {
    pub token: Addr,
    pub amount: i128,
    pub unlock_time: u64,
    pub depositor: Addr,
    /// Early-exit penalty in basis points (0-10000). Charged on cancel_deposit.
    pub penalty_bps: u32,
}

/// The view of a vault entry: addresses taken by their strkeys.
pub struct EntryView {
    pub token: Seq<char>,
    pub amount: i128,
    pub unlock_time: u64,
    pub depositor: Seq<char>,
    pub penalty_bps: u32,
}

impl View for VaultEntry {
    type V = EntryView;

    open spec fn view(&self) -> EntryView {
        EntryView {
            token: self.token@,
            amount: self.amount,
            unlock_time: self.unlock_time,
            depositor: self.depositor@,
            penalty_bps: self.penalty_bps,
        }
    }
}

impl Clone for VaultEntry {
    fn clone(&self) -> (r: VaultEntry)
        ensures
            r@ == self@,
    {
        VaultEntry {
            token: self.token.clone(),
            amount: self.amount,
            unlock_time: self.unlock_time,
            depositor: self.depositor.clone(),
            penalty_bps: self.penalty_bps,
        }
    }
}

impl PartialEq for VaultEntry {
    fn eq(&self, other: &VaultEntry) -> (r: bool) {
        self.token == other.token && self.amount == other.amount && self.unlock_time
            == other.unlock_time && self.depositor == other.depositor && self.penalty_bps
            == other.penalty_bps
    }
}

impl vstd::std_specs::cmp::PartialEqSpecImpl for VaultEntry {
    open spec fn obeys_eq_spec() -> bool {
        true
    }

    open spec fn eq_spec(&self, other: &VaultEntry) -> bool {
        self@ == other@
    }
}

impl Eq for VaultEntry {}

/// The view of an optional entry.
pub open spec fn opt_entry_view(e: Option<VaultEntry>) -> Option<EntryView> {
    match e {
        Some(x) => Some(x@),
        None => None,
    }
}

// ----------------------------------------------------------------
//  Errors
// ----------------------------------------------------------------

/// Why a vault operation was refused.
#[derive(Debug, Clone, Copy, PartialEq, Eq, Structural)]
pub enum VaultError {
    Unauthorized,
    InvalidAmount,
    AmountTooLarge,
    InvalidPenaltyBps,
    UnlockTimeNotInFuture,
    LockDurationTooLong,
    LockDurationTooShort,
    DepositAlreadyExists,
    NoDepositFound,
    FundsStillLocked,
    InvalidAdmin,
}

} // verus!

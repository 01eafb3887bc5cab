use vstd::prelude::*;

verus! {

/// An opaque public-key identity.
pub type Pubkey = [u8; 32];

/// Length of the detached signature stored with an offline transaction.
pub const SIGNATURE_LEN: usize = 64;

/// The platform record: its administrator and global statistics.
#[derive(Clone, Debug, PartialEq, Eq)]
pub struct Platform {
    pub admin: Pubkey,
    pub name: String,
    pub is_active: bool,
    pub total_transactions: u64,
    pub supported_currencies: u8,
    pub version: u8,
    pub created_at: i64,
}

/// A registered user and their transfer statistics.
#[derive(Clone, Debug, PartialEq, Eq)]
pub struct User {
    pub owner: Pubkey,
    pub username: String,
    pub kyc_verified: bool,
    pub home_currency: String,
    pub total_sent: u64,
    pub total_received: u64,
    pub created_at: i64,
    pub is_active: bool,
}

/// A per-user, per-currency balance paired with an external token account.
#[derive(Clone, Debug, PartialEq, Eq)]
pub struct Wallet {
    /// Address of the user record that owns the wallet.
    pub owner: Pubkey,
    /// Identity of the user (the user record's owner).
    pub user: Pubkey,
    pub currency_code: String,
    pub token_mint: Pubkey,
    pub token_account: Pubkey,
    pub balance: u64,
    pub created_at: i64,
    pub is_active: bool,
}

/// Status of a transaction record.
#[derive(Clone, Copy, Debug, PartialEq, Eq, Structural)]
pub enum TransactionStatus {
    Pending,
    Completed,
    Failed,
    Cancelled,
}

/// The audit record of a completed online transfer.
#[derive(Clone, Debug, PartialEq, Eq)]
pub struct TransactionRecord {
    pub from_user: Pubkey,
    pub to_user: Pubkey,
    pub amount: u64,
    pub source_currency: String,
    pub destination_currency: String,
    pub memo: String,
    pub timestamp: i64,
    pub status: TransactionStatus,
}

/// A transfer authorised while the payer was offline, settled later exactly once.
#[derive(Clone, Debug, PartialEq, Eq)]
pub struct OfflineTransaction {
    pub from_user: Pubkey,
    pub to_user: Pubkey,
    pub amount: u64,
    pub source_currency: String,
    pub destination_currency: String,
    pub bluetooth_tx_id: String,
    pub signature: [u8; SIGNATURE_LEN],
    pub offline_timestamp: i64,
    pub synced: bool,
    pub sync_timestamp: i64,
    pub created_at: i64,
}

/// A two-currency exchange pool with a fixed-point exchange rate.
#[derive(Clone, Debug, PartialEq, Eq)]
pub struct LiquidityPool {
    pub name: String,
    pub admin: Pubkey,
    pub source_currency: String,
    pub destination_currency: String,
    pub source_mint: Pubkey,
    pub destination_mint: Pubkey,
    /// Units of destination per unit of source, scaled by `RATE_SCALE`.
    pub exchange_rate: u64,
    pub total_swapped: u64,
    pub is_active: bool,
    pub created_at: i64,
}

/// Whether `caller` is the identity stored in a record as its authority.
pub fn is_authorized(stored: &Pubkey, caller: &Pubkey) -> (r: bool)
    ensures
        r == (*stored == *caller),
{
    let mut i: usize = 0;
    while i < 32
        invariant
            0 <= i <= 32,
            forall|j: int| 0 <= j < i ==> stored@[j] == caller@[j],
        decreases 32 - i,
    {
        if stored[i] != caller[i] {
            assert(stored@[i as int] != caller@[i as int]);
            return false;
        }
        i = i + 1;
    }
    proof {
        broadcast use vstd::array::axiom_array_ext_equal, vstd::array::lemma_array_index;
        assert(*stored =~= *caller);
    }
    true
}

/// `w` with `amount` taken from its balance.
pub open spec fn debited(w: Wallet, amount: u64) -> Wallet {
    Wallet { balance: (w.balance - amount) as u64, ..w }
}

/// `w` with `amount` added to its balance.
pub open spec fn credited(w: Wallet, amount: u64) -> Wallet {
    Wallet { balance: (w.balance + amount) as u64, ..w }
}

} // verus!

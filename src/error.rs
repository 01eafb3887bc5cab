use vstd::prelude::*;

verus! {

/// Reasons an operation of the engine is refused.
#[derive(Clone, Copy, Debug, PartialEq, Eq, Structural)]
pub enum ErrorCode {
    InsufficientBalance,
    KycRequired,
    PlatformInactive,
    UserInactive,
    AdminRequired,
    ExceedsOfflineLimit,
    AlreadySynced,
    PoolInactive,
    SlippageExceeded,
}

impl ErrorCode {
    /// Human-readable description of the error.
    pub fn message(&self) -> (r: &'static str) {
        match self {
            ErrorCode::InsufficientBalance => "Insufficient balance for this operation",
            ErrorCode::KycRequired => "KYC verification is required for this operation",
            ErrorCode::PlatformInactive => "The platform is currently inactive",
            ErrorCode::UserInactive => "The user account is inactive",
            ErrorCode::AdminRequired => "Only the admin can perform this operation",
            ErrorCode::ExceedsOfflineLimit => "Offline transaction amount exceeds the limit",
            ErrorCode::AlreadySynced => "This offline transaction has already been synced",
            ErrorCode::PoolInactive => "The liquidity pool is inactive",
            ErrorCode::SlippageExceeded => "Slippage tolerance exceeded",
        }
    }
}

} // verus!

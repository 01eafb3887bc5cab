use vstd::prelude::*;
use crate::error::ErrorCode;
use crate::state::{Platform, Pubkey, User, Wallet};

verus! {

/// Creates the platform record with `admin_key` as its administrator.
pub fn initialize_platform(platform_name: String, admin_key: Pubkey, now: i64) -> (p: Platform)
    ensures
        p.admin == admin_key,
        p.name@ == platform_name@,
        p.is_active,
        p.total_transactions == 0,
        p.supported_currencies == 0,
        p.version == 1,
        p.created_at == now,
{
    Platform {
        admin: admin_key,
        name: platform_name,
        is_active: true,
        total_transactions: 0,
        supported_currencies: 0,
        version: 1,
        created_at: now,
    }
}

/// Registers a user owned by `owner` on an active platform.
pub fn register_user(
    platform: &Platform,
    owner: Pubkey,
    username: String,
    kyc_status: bool,
    home_currency: String,
    now: i64,
) -> (r: Result<User, ErrorCode>)
    ensures
        !platform.is_active <==> r == Err::<User, ErrorCode>(ErrorCode::PlatformInactive),
        r is Ok <==> platform.is_active,
        r matches Ok(u) ==> {
            &&& u.owner == owner
            &&& u.username@ == username@
            &&& u.kyc_verified == kyc_status
            &&& u.home_currency@ == home_currency@
            &&& u.total_sent == 0
            &&& u.total_received == 0
            &&& u.created_at == now
            &&& u.is_active
        },
{
    if !platform.is_active {
        return Err(ErrorCode::PlatformInactive);
    }
    Ok(User {
        owner,
        username,
        kyc_verified: kyc_status,
        home_currency,
        total_sent: 0,
        total_received: 0,
        created_at: now,
        is_active: true,
    })
}

/// Opens a wallet in `currency_code` for an active user.
///
/// `user_key` is the address of the user record; `token_mint` and
/// `token_account` name the external custody account that backs the wallet.
pub fn add_currency(
    user: &User,
    user_key: Pubkey,
    currency_code: String,
    token_mint: Pubkey,
    token_account: Pubkey,
    now: i64,
) -> (r: Result<Wallet, ErrorCode>)
    ensures
        !user.is_active <==> r == Err::<Wallet, ErrorCode>(ErrorCode::UserInactive),
        r is Ok <==> user.is_active,
        r matches Ok(w) ==> {
            &&& w.owner == user_key
            &&& w.user == user.owner
            &&& w.currency_code@ == currency_code@
            &&& w.token_mint == token_mint
            &&& w.token_account == token_account
            &&& w.balance == 0
            &&& w.created_at == now
            &&& w.is_active
        },
{
    if !user.is_active {
        return Err(ErrorCode::UserInactive);
    }
    Ok(Wallet {
        owner: user_key,
        user: user.owner,
        currency_code,
        token_mint,
        token_account,
        balance: 0,
        created_at: now,
        is_active: true,
    })
}

} // verus!

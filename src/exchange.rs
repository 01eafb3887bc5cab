use vstd::prelude::*;
use crate::error::ErrorCode;
use crate::state::{is_authorized, LiquidityPool, Platform, Pubkey, User};

verus! {

/// Fixed-point scale of exchange rates: a rate of `RATE_SCALE` is one to one.
pub const RATE_SCALE: u64 = 10_000;

/// Output of swapping `amount_in` at `exchange_rate`, rounded down.
pub open spec fn swap_output(amount_in: u64, exchange_rate: u64) -> int {
    (amount_in as int * exchange_rate as int) / (RATE_SCALE as int)
}

/// Computes `floor(amount_in * exchange_rate / RATE_SCALE)` with a 128-bit
/// intermediate; `None` when the output does not fit in a `u64`.
pub fn exchange_amount_out(amount_in: u64, exchange_rate: u64) -> (r: Option<u64>)
    ensures
        swap_output(amount_in, exchange_rate) <= u64::MAX <==> r is Some,
        r matches Some(out) ==> out == swap_output(amount_in, exchange_rate),
{
    proof {
        vstd::arithmetic::mul::lemma_mul_upper_bound(
            amount_in as int,
            u64::MAX as int,
            exchange_rate as int,
            u64::MAX as int,
        );
    }
    let product: u128 = (amount_in as u128) * (exchange_rate as u128);
    let out: u128 = product / (RATE_SCALE as u128);
    if out > u64::MAX as u128 {
        None
    } else {
        Some(out as u64)
    }
}

/// Creates an active exchange pool; only the platform administrator may.
pub fn create_liquidity_pool(
    platform: &Platform,
    admin: Pubkey,
    pool_name: String,
    source_currency: String,
    destination_currency: String,
    source_mint: Pubkey,
    destination_mint: Pubkey,
    initial_exchange_rate: u64,
    now: i64,
) -> (r: Result<LiquidityPool, ErrorCode>)
    ensures
        platform.admin != admin <==> r == Err::<LiquidityPool, ErrorCode>(ErrorCode::AdminRequired),
        r is Ok <==> platform.admin == admin,
        r matches Ok(p) ==> {
            &&& p.name@ == pool_name@
            &&& p.admin == admin
            &&& p.source_currency@ == source_currency@
            &&& p.destination_currency@ == destination_currency@
            &&& p.source_mint == source_mint
            &&& p.destination_mint == destination_mint
            &&& p.exchange_rate == initial_exchange_rate
            &&& p.total_swapped == 0
            &&& p.is_active
            &&& p.created_at == now
        },
{
    if !is_authorized(&platform.admin, &admin) {
        return Err(ErrorCode::AdminRequired);
    }
    Ok(LiquidityPool {
        name: pool_name,
        admin,
        source_currency,
        destination_currency,
        source_mint,
        destination_mint,
        exchange_rate: initial_exchange_rate,
        total_swapped: 0,
        is_active: true,
        created_at: now,
    })
}

/// Why a swap of `amount_in` by `user` with floor `minimum_amount_out` is
/// refused, if it is: KYC, then the pool's state, then slippage.
pub open spec fn swap_error(
    pool: LiquidityPool,
    user: User,
    amount_in: u64,
    minimum_amount_out: u64,
) -> Option<ErrorCode> {
    if !user.kyc_verified {
        Some(ErrorCode::KycRequired)
    } else if !pool.is_active {
        Some(ErrorCode::PoolInactive)
    } else if swap_output(amount_in, pool.exchange_rate) < minimum_amount_out {
        Some(ErrorCode::SlippageExceeded)
    } else {
        None
    }
}

/// Swaps `amount_in` of the pool's source currency for its destination
/// currency at the pool's rate, returning the amount paid out.
///
/// On success the pool's `total_swapped` grows by `amount_in`; the host must
/// then move `amount_in` from the user into the pool and the returned amount
/// from the pool to the user, in the same atomic unit. On failure nothing changes.
pub fn swap_currencies(
    pool: &mut LiquidityPool,
    user: &User,
    amount_in: u64,
    minimum_amount_out: u64,
) -> (r: Result<u64, ErrorCode>)
    requires
        user.kyc_verified && old(pool).is_active ==> swap_output(
            amount_in,
            old(pool).exchange_rate,
        ) <= u64::MAX,
        swap_error(*old(pool), *user, amount_in, minimum_amount_out) is None ==> old(
            pool,
        ).total_swapped + amount_in <= u64::MAX,
    ensures
        match swap_error(*old(pool), *user, amount_in, minimum_amount_out) {
            Some(e) => r == Err::<u64, ErrorCode>(e) && *final(pool) == *old(pool),
            None => {
                &&& r == Ok::<u64, ErrorCode>(swap_output(amount_in, old(pool).exchange_rate) as u64)
                &&& *final(pool) == (LiquidityPool {
                    total_swapped: (old(pool).total_swapped + amount_in) as u64,
                    ..*old(pool)
                })
            },
        },
        !user.kyc_verified ==> r == Err::<u64, ErrorCode>(ErrorCode::KycRequired),
{
    if !user.kyc_verified {
        return Err(ErrorCode::KycRequired);
    }
    if !pool.is_active {
        return Err(ErrorCode::PoolInactive);
    }
    let amount_out = exchange_amount_out(amount_in, pool.exchange_rate).unwrap();
    if amount_out < minimum_amount_out {
        return Err(ErrorCode::SlippageExceeded);
    }
    pool.total_swapped = pool.total_swapped + amount_in;
    Ok(amount_out)
}

/// Overwrites the pool's exchange rate; only the pool's administrator may.
/// Any rate is accepted, zero included.
pub fn update_exchange_rate(pool: &mut LiquidityPool, admin: Pubkey, new_rate: u64) -> (r: Result<
    (),
    ErrorCode,
>)
    ensures
        old(pool).admin == admin ==> r is Ok && *final(pool) == (LiquidityPool {
            exchange_rate: new_rate,
            ..*old(pool)
        }),
        old(pool).admin != admin ==> r == Err::<(), ErrorCode>(ErrorCode::AdminRequired)
            && *final(pool) == *old(pool),
{
    if !is_authorized(&pool.admin, &admin) {
        return Err(ErrorCode::AdminRequired);
    }
    pool.exchange_rate = new_rate;
    Ok(())
}

} // verus!

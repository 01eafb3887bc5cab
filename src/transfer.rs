use vstd::prelude::*;
use crate::error::ErrorCode;
use crate::state::{
    credited, debited, Platform, Pubkey, TransactionRecord, TransactionStatus, User, Wallet,
};

verus! {

/// Why an online transfer of `amount` out of `from` by `user` is refused, if it is;
/// the balance is checked before the KYC flag.
pub open spec fn transfer_error(from: Wallet, user: User, amount: u64) -> Option<ErrorCode> {
    if from.balance < amount {
        Some(ErrorCode::InsufficientBalance)
    } else if !user.kyc_verified {
        Some(ErrorCode::KycRequired)
    } else {
        None
    }
}

/// The counters that an accepted transfer raises stay within `u64`.
pub open spec fn transfer_fits(to: Wallet, user: User, platform: Platform, amount: u64) -> bool {
    &&& to.balance + amount <= u64::MAX
    &&& user.total_sent + amount <= u64::MAX
    &&& platform.total_transactions < u64::MAX
}

/// Executes an online transfer of `amount` from `from_wallet` to `to_wallet`
/// on behalf of `user`, whose record lives at `user_key`.
///
/// On success both balances, the user's `total_sent` and the platform's
/// transaction count are updated and the audit record is returned; the host
/// must then move `amount` from the sender's token account to the recipient's
/// in the same atomic unit. On failure nothing changes.
pub fn process_transfer(
    from_wallet: &mut Wallet,
    to_wallet: &mut Wallet,
    user: &mut User,
    platform: &mut Platform,
    user_key: Pubkey,
    amount: u64,
    source_currency: String,
    destination_currency: String,
    memo: String,
    now: i64,
) -> (r: Result<TransactionRecord, ErrorCode>)
    requires
        transfer_error(*old(from_wallet), *old(user), amount) is None ==> transfer_fits(
            *old(to_wallet),
            *old(user),
            *old(platform),
            amount,
        ),
    ensures
        match transfer_error(*old(from_wallet), *old(user), amount) {
            Some(e) => {
                &&& r == Err::<TransactionRecord, ErrorCode>(e)
                &&& *final(from_wallet) == *old(from_wallet)
                &&& *final(to_wallet) == *old(to_wallet)
                &&& *final(user) == *old(user)
                &&& *final(platform) == *old(platform)
            },
            None => {
                &&& *final(from_wallet) == debited(*old(from_wallet), amount)
                &&& *final(to_wallet) == credited(*old(to_wallet), amount)
                &&& *final(user) == (User {
                    total_sent: (old(user).total_sent + amount) as u64,
                    ..*old(user)
                })
                &&& *final(platform) == (Platform {
                    total_transactions: (old(platform).total_transactions + 1) as u64,
                    ..*old(platform)
                })
                &&& r matches Ok(rec) && {
                    &&& rec.from_user == user_key
                    &&& rec.to_user == old(to_wallet).user
                    &&& rec.amount == amount
                    &&& rec.source_currency@ == source_currency@
                    &&& rec.destination_currency@ == destination_currency@
                    &&& rec.memo@ == memo@
                    &&& rec.timestamp == now
                    &&& rec.status == TransactionStatus::Completed
                }
            },
        },
        // no value is created or destroyed
        final(from_wallet).balance + final(to_wallet).balance == old(from_wallet).balance
            + old(to_wallet).balance,
        amount > old(from_wallet).balance ==> {
            &&& r == Err::<TransactionRecord, ErrorCode>(ErrorCode::InsufficientBalance)
            &&& final(from_wallet).balance == old(from_wallet).balance
            &&& final(to_wallet).balance == old(to_wallet).balance
        },
        !old(user).kyc_verified && amount <= old(from_wallet).balance ==> r == Err::<
            TransactionRecord,
            ErrorCode,
        >(ErrorCode::KycRequired),
{
    if from_wallet.balance < amount {
        return Err(ErrorCode::InsufficientBalance);
    }
    if !user.kyc_verified {
        return Err(ErrorCode::KycRequired);
    }
    from_wallet.balance = from_wallet.balance - amount;
    to_wallet.balance = to_wallet.balance + amount;
    user.total_sent = user.total_sent + amount;
    platform.total_transactions = platform.total_transactions + 1;
    Ok(TransactionRecord {
        from_user: user_key,
        to_user: to_wallet.user,
        amount,
        source_currency,
        destination_currency,
        memo,
        timestamp: now,
        status: TransactionStatus::Completed,
    })
}

} // verus!

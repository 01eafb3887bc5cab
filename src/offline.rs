use vstd::prelude::*;
use crate::error::ErrorCode;
use crate::state::{credited, debited, OfflineTransaction, Pubkey, User, Wallet, SIGNATURE_LEN};

verus! {

/// The largest amount, in minor units, that may be transferred offline.
pub const OFFLINE_LIMIT: u64 = 500;

/// Why recording an offline transfer of `amount` by `user` is refused, if it is.
pub open spec fn record_error(user: User, amount: u64) -> Option<ErrorCode> {
    if !user.kyc_verified {
        Some(ErrorCode::KycRequired)
    } else if amount > OFFLINE_LIMIT {
        Some(ErrorCode::ExceedsOfflineLimit)
    } else {
        None
    }
}

/// Records a transfer that `user` authorised while offline, for later settlement.
///
/// No balance moves: the record is an intent, stored unsynced with the
/// signature kept verbatim for audit.
pub fn record_offline_transaction(
    user: &User,
    recipient: Pubkey,
    amount: u64,
    source_currency: String,
    destination_currency: String,
    bluetooth_tx_id: String,
    signature: [u8; SIGNATURE_LEN],
    timestamp: i64,
    now: i64,
) -> (r: Result<OfflineTransaction, ErrorCode>)
    ensures
        match record_error(*user, amount) {
            Some(e) => r == Err::<OfflineTransaction, ErrorCode>(e),
            None => r matches Ok(t) && {
                &&& t.from_user == user.owner
                &&& t.to_user == recipient
                &&& t.amount == amount
                &&& t.source_currency@ == source_currency@
                &&& t.destination_currency@ == destination_currency@
                &&& t.bluetooth_tx_id@ == bluetooth_tx_id@
                &&& t.signature == signature
                &&& t.offline_timestamp == timestamp
                &&& !t.synced
                &&& t.sync_timestamp == 0
                &&& t.created_at == now
            },
        },
        r matches Ok(t) ==> t.amount <= OFFLINE_LIMIT && !t.synced,
{
    if !user.kyc_verified {
        return Err(ErrorCode::KycRequired);
    }
    if amount > OFFLINE_LIMIT {
        return Err(ErrorCode::ExceedsOfflineLimit);
    }
    Ok(OfflineTransaction {
        from_user: user.owner,
        to_user: recipient,
        amount,
        source_currency,
        destination_currency,
        bluetooth_tx_id,
        signature,
        offline_timestamp: timestamp,
        synced: false,
        sync_timestamp: 0,
        created_at: now,
    })
}

/// Why settling `record` out of `from` is refused, if it is; the synced flag
/// is checked before the balance.
pub open spec fn sync_error(record: OfflineTransaction, from: Wallet) -> Option<ErrorCode> {
    if record.synced {
        Some(ErrorCode::AlreadySynced)
    } else if from.balance < record.amount {
        Some(ErrorCode::InsufficientBalance)
    } else {
        None
    }
}

/// `record` once settled at time `now`.
pub open spec fn settled(record: OfflineTransaction, now: i64) -> OfflineTransaction {
    OfflineTransaction { synced: true, sync_timestamp: now, ..record }
}

/// Settles a recorded offline transfer against live balances.
///
/// On success `record.amount` moves from `from_wallet` to `to_wallet` and the
/// record is marked synced in the same step, so a repeated attempt fails with
/// `AlreadySynced`; the host must move the tokens in the same atomic unit. On
/// failure nothing changes, so the settlement may be retried.
pub fn sync_offline_transaction(
    offline_record: &mut OfflineTransaction,
    from_wallet: &mut Wallet,
    to_wallet: &mut Wallet,
    now: i64,
) -> (r: Result<(), ErrorCode>)
    requires
        sync_error(*old(offline_record), *old(from_wallet)) is None ==> old(to_wallet).balance
            + old(offline_record).amount <= u64::MAX,
    ensures
        match sync_error(*old(offline_record), *old(from_wallet)) {
            Some(e) => {
                &&& r == Err::<(), ErrorCode>(e)
                &&& *final(offline_record) == *old(offline_record)
                &&& *final(from_wallet) == *old(from_wallet)
                &&& *final(to_wallet) == *old(to_wallet)
            },
            None => {
                &&& r is Ok
                &&& *final(offline_record) == settled(*old(offline_record), now)
                &&& *final(from_wallet) == debited(*old(from_wallet), old(offline_record).amount)
                &&& *final(to_wallet) == credited(*old(to_wallet), old(offline_record).amount)
            },
        },
        // no value is created or destroyed
        final(from_wallet).balance + final(to_wallet).balance == old(from_wallet).balance
            + old(to_wallet).balance,
{
    if offline_record.synced {
        return Err(ErrorCode::AlreadySynced);
    }
    if from_wallet.balance < offline_record.amount {
        return Err(ErrorCode::InsufficientBalance);
    }
    from_wallet.balance = from_wallet.balance - offline_record.amount;
    to_wallet.balance = to_wallet.balance + offline_record.amount;
    offline_record.synced = true;
    offline_record.sync_timestamp = now;
    Ok(())
}

/// How many of a series of settlement attempts on one record succeed, where
/// each attempt gives the payer's wallet as it stands then and the time.
pub open spec fn sync_successes(record: OfflineTransaction, attempts: Seq<(Wallet, i64)>) -> nat
    decreases attempts.len(),
{
    if attempts.len() == 0 {
        0
    } else {
        let (from, now) = attempts[0];
        if sync_error(record, from) is None {
            1 + sync_successes(settled(record, now), attempts.drop_first())
        } else {
            sync_successes(record, attempts.drop_first())
        }
    }
}

/// Once a settlement succeeds, every later attempt on the settled record is
/// refused with `AlreadySynced`, whatever wallet it names.
pub proof fn lemma_replay_rejected(
    record: OfflineTransaction,
    from: Wallet,
    now: i64,
    later_from: Wallet,
)
    requires
        sync_error(record, from) is None,
    ensures
        sync_error(settled(record, now), later_from) == Some(ErrorCode::AlreadySynced),
{
}

/// Of any series of settlement attempts on one record, at most one succeeds,
/// and none does once the record is synced.
pub proof fn lemma_sync_at_most_once(record: OfflineTransaction, attempts: Seq<(Wallet, i64)>)
    ensures
        sync_successes(record, attempts) <= 1,
        record.synced ==> sync_successes(record, attempts) == 0,
    decreases attempts.len(),
{
    if attempts.len() > 0 {
        let (from, now) = attempts[0];
        lemma_sync_at_most_once(record, attempts.drop_first());
        lemma_sync_at_most_once(settled(record, now), attempts.drop_first());
    }
}

} // verus!

//! The commission guard: a relayer may take its commission from an escrow once
//! per external accrual event, and never twice for the same one.

use crate::error::RelayError;
use crate::relay::state::Escrow;
use vstd::prelude::*;

verus! {

/// What a collection against an escrow whose watermark is `watermark` yields,
/// when the proof's fingerprint is `hash` and its balance `balance`: refusal if
/// the fingerprint was already collected on; otherwise no transfer when the
/// balance is below `commission`, and a transfer of `commission` when not.
pub open spec fn collect_result(watermark: Seq<u8>, hash: Seq<u8>, balance: u64, commission: u64) -> Result<Option<u64>, RelayError> {
    if watermark == hash {
        Err(RelayError::AlreadyCollected)
    } else if balance < commission {
        Ok(None)
    } else {
        Ok(Some(commission))
    }
}

impl Escrow {
    /// Collects against the proof fingerprint `hash` and balance `balance`:
    /// moves the watermark to `hash` and returns the commission to transfer,
    /// if any. Changes nothing when `hash` is the watermark already.
    pub fn collect(&mut self, hash: &[u8; 32], balance: u64, commission: u64) -> (r: Result<Option<u64>, RelayError>)
        ensures
            r == collect_result(old(self).last_hash@, hash@, balance, commission),
            r is Err ==> *final(self) == *old(self),
            final(self).last_hash@ == hash@,
            final(self).authority == old(self).authority,
            final(self).bump == old(self).bump,
            final(self).relayer == old(self).relayer,
    {
        if crate::bytes::same_key(&self.last_hash, hash) {
            return Err(RelayError::AlreadyCollected);
        }
        self.last_hash = *hash;
        if balance < commission {
            Ok(None)
        } else {
            Ok(Some(commission))
        }
    }
}

/// Collecting twice against the same fingerprint, with no accrual between,
/// succeeds the first time and is refused the second: the first collection
/// leaves the watermark at the fingerprint, so at most one transfer is made.
pub proof fn lemma_collect_once(watermark: Seq<u8>, hash: Seq<u8>, first_balance: u64, second_balance: u64, commission: u64)
    requires
        watermark != hash,
    ensures
        collect_result(watermark, hash, first_balance, commission) is Ok,
        collect_result(hash, hash, second_balance, commission) == Err::<Option<u64>, RelayError>(
            RelayError::AlreadyCollected,
        ),
{
}

/// The number of commission transfers that a run of collections makes, one
/// per entry of `balances` (the proof's balance at that collection), against
/// a proof whose fingerprint stays `hash`, starting from the watermark
/// `watermark`. Each collection leaves the watermark at `hash`.
pub open spec fn transfers_in_run(watermark: Seq<u8>, hash: Seq<u8>, balances: Seq<u64>, commission: u64) -> int
    decreases balances.len(),
{
    if balances.len() == 0 {
        0
    } else {
        (if collect_result(watermark, hash, balances[0], commission) matches Ok(Some(_)) {
            1int
        } else {
            0int
        }) + transfers_in_run(hash, hash, balances.drop_first(), commission)
    }
}

proof fn lemma_run_after_collection(hash: Seq<u8>, balances: Seq<u64>, commission: u64)
    ensures
        transfers_in_run(hash, hash, balances, commission) == 0,
    decreases balances.len(),
{
    if balances.len() > 0 {
        lemma_run_after_collection(hash, balances.drop_first(), commission);
    }
}

/// However many times commission is collected while the proof's fingerprint
/// stays the same, at most one transfer is made.
pub proof fn lemma_one_transfer_per_fingerprint(watermark: Seq<u8>, hash: Seq<u8>, balances: Seq<u64>, commission: u64)
    ensures
        transfers_in_run(watermark, hash, balances, commission) <= 1,
{
    if balances.len() > 0 {
        lemma_run_after_collection(hash, balances.drop_first(), commission);
    }
}

} // verus!

//! The cross-cutting laws of the store, stated on their own so a
//! reader can see them in one place. Each is proved from the spec
//! functions that the operations' contracts are written in.

use vstd::prelude::*;

use crate::enums::ChainJobStatus;
use crate::enums::MatchStatus;
use crate::enums::is_terminal_status;
use crate::enums::status_rank;
use crate::store::ChainJob;
use crate::store::LEASE_SECONDS;
use crate::store::MatchRecord;
use crate::store::MatchStore;
use crate::store::confirm_job_transform;
use crate::store::create_confirm_transform;
use crate::store::finalize_match_transform;
use crate::store::job_due;
use crate::store::join_confirm_transform;
use crate::store::result_match_transform;
use crate::store::result_update_allowed;

verus! {

/// A job under a live lease cannot be claimed: claiming selects only
/// due jobs, and a job whose lease stamp is within the lease window is
/// not due. Together with the claim contract — which hands out a lease
/// only on a due job — at most one worker ever holds a live lease on
/// a job.
pub proof fn lemma_live_lease_excludes_claim(j: ChainJob, now: i64, holder: u128, since: i64)
    requires
        j.lock_token == Some(holder),
        j.locked_at == Some(since),
        now - since <= LEASE_SECONDS,
    ensures
        !job_due(j, now),
{
}

/// A nonce never appears twice in a well-formed store, so a replayed
/// request can never pass the freshness check again.
pub proof fn lemma_nonce_recorded_once(s: MatchStore)
    requires
        s.wf(),
    ensures
        forall|i: int, j: int|
            0 <= i < j < s.used_nonces@.len() ==> (#[trigger] s.used_nonces@[i])@ != (
            #[trigger] s.used_nonces@[j])@,
{
}

/// A job confirmed with a signature in hand leaves a full audit trail:
/// the job keeps a signature, and the owning match ends terminal with
/// a final signature and a finalization stamp.
pub proof fn lemma_confirmed_job_has_signature(
    j: ChainJob,
    j2: ChainJob,
    m: MatchRecord,
    m2: MatchRecord,
    final_status: MatchStatus,
    sig: Option<Seq<char>>,
    now: i64,
)
    requires
        confirm_job_transform(j, j2, sig, now),
        finalize_match_transform(m, m2, final_status, sig, now),
        is_terminal_status(final_status),
        sig is Some || j.last_tx_sig is Some,
        sig is Some || m.final_tx_sig is Some,
    ensures
        j2.status == ChainJobStatus::Confirmed,
        j2.last_tx_sig is Some,
        m2.final_tx_sig is Some,
        m2.finalized_at is Some,
        is_terminal_status(m2.match_status),
{
}

/// After a create-confirm succeeds, the row can never sit in
/// `waiting_create_tx` again and carries a signature and a join
/// deadline: a re-submitted create-confirm answers idempotently from
/// the row, with the same body the first call returned.
pub proof fn lemma_create_confirm_idempotent(
    m: MatchRecord,
    m2: MatchRecord,
    sig: Seq<char>,
    created_at: i64,
    expires: i64,
    now: i64,
)
    requires
        create_confirm_transform(m, m2, sig, created_at, expires, now),
    ensures
        m2.match_status != MatchStatus::WaitingCreateTx,
        m2.create_tx_sig is Some,
        m2.join_expires_at is Some,
{
}

/// After a join-confirm succeeds on a create-confirmed row, the row is
/// past the join stage with a second player, a signature and a settle
/// deadline recorded: a re-submitted join-confirm answers idempotently
/// from the row, with the same body the first call returned.
pub proof fn lemma_join_confirm_idempotent(
    m: MatchRecord,
    m2: MatchRecord,
    player2: Seq<char>,
    sig: Seq<char>,
    joined_at: i64,
    expires: i64,
    now: i64,
)
    requires
        m.match_status == MatchStatus::CreatedOnChain,
        join_confirm_transform(m, m2, player2, sig, joined_at, expires, now),
    ensures
        m2.match_status == MatchStatus::JoinedOnChain,
        m2.player2_pubkey is Some,
        m2.join_tx_sig is Some,
        m2.settle_expires_at is Some,
{
}

/// A recorded result accepts the identical report again: the same
/// key, winner and reason still pass the conditional update, and a
/// replayed update changes nothing the report speaks of — status,
/// winner, key and reason all stay exactly as first recorded.
pub proof fn lemma_result_replay(
    m: MatchRecord,
    m2: MatchRecord,
    key: Seq<char>,
    winner: Option<Seq<char>>,
    reason: Seq<char>,
    detail: Option<Seq<char>>,
    now: i64,
)
    requires
        m.result_idempotency_key is Some ==> status_rank(m.match_status) >= 4,
        result_update_allowed(m, key, winner, reason),
        result_match_transform(m, m2, key, winner, reason, detail, now),
    ensures
        result_update_allowed(m2, key, winner, reason),
        forall|m3: MatchRecord, now2: i64|
            #[trigger] result_match_transform(m2, m3, key, winner, reason, detail, now2)
                ==> m3.match_status == m2.match_status && m3.winner_pubkey == m2.winner_pubkey
                && m3.result_idempotency_key == m2.result_idempotency_key
                && m3.finalization_reason_code == m2.finalization_reason_code
                && m3.finalization_reason_detail == m2.finalization_reason_detail
                && m3.result_reported_at == m2.result_reported_at,
{
    assert(m2.result_idempotency_key matches Some(k) && k@ == key);
    assert forall|m3: MatchRecord, now2: i64|
        #[trigger] result_match_transform(m2, m3, key, winner, reason, detail, now2)
            implies m3.match_status == m2.match_status && m3.winner_pubkey == m2.winner_pubkey
        && m3.result_idempotency_key == m2.result_idempotency_key && m3.finalization_reason_code
        == m2.finalization_reason_code && m3.finalization_reason_detail
        == m2.finalization_reason_detail && m3.result_reported_at == m2.result_reported_at by {
        assert(m2.match_status != MatchStatus::JoinedOnChain && m2.match_status
            != MatchStatus::InProgress) by {
            if m.match_status == MatchStatus::JoinedOnChain || m.match_status
                == MatchStatus::InProgress {
                assert(m2.match_status == MatchStatus::ResultPendingFinalize);
            } else {
                assert(m.result_idempotency_key matches Some(k) && k@ == key);
                assert(status_rank(m.match_status) >= 4);
            }
        }
    }
}

} // verus!

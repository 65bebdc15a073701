//! The timeout watcher: each tick queues refund jobs for matches whose
//! join window expired with no second player, a bounded number per
//! tick so one iteration stays small.

use vstd::prelude::*;

use crate::error::AppError;
use crate::store::MatchStore;
use crate::store::matches_progress;
use crate::store::timeout_candidate;

verus! {

/// The most refund jobs one tick will queue.
pub const MAX_ENQUEUES_PER_TICK: usize = 25;

/// Forward progress composes.
pub proof fn lemma_matches_progress_trans(
    a: Seq<crate::store::MatchRecord>,
    b: Seq<crate::store::MatchRecord>,
    c: Seq<crate::store::MatchRecord>,
)
    requires
        matches_progress(a, b),
        matches_progress(b, c),
        a.len() == b.len(),
    ensures
        matches_progress(a, c),
{
    assert forall|k: int| 0 <= k < a.len() implies crate::enums::status_progress(
        (#[trigger] a[k]).match_status,
        c[k].match_status,
    ) by {
        assert(crate::enums::status_progress(a[k].match_status, b[k].match_status));
        assert(crate::enums::status_progress(b[k].match_status, c[k].match_status));
    }
}

/// One watcher tick: queue expired matches for refund, up to the per
/// tick bound, stopping early when none is left. Reports how many
/// jobs were queued; a tick that queued nothing found nothing to do.
pub fn process_tick(store: &mut MatchStore, now: i64) -> (r: Result<usize, AppError>)
    requires
        old(store).wf(),
    ensures
        final(store).wf(),
        matches_progress(old(store).matches@, final(store).matches@),
        final(store).used_nonces == old(store).used_nonces,
        final(store).next_match_id == old(store).next_match_id,
        (match r {
            Ok(count) => count <= MAX_ENQUEUES_PER_TICK && (count == 0 ==> *final(store) == *old(
                store,
            ) && (forall|k: int|
                0 <= k < old(store).matches@.len() ==> !timeout_candidate(
                    #[trigger] old(store).matches@[k],
                    old(store).jobs@,
                    now,
                ))),
            Err(e) => e is Internal && final(store).next_job_id == i64::MAX,
        }),
{
    let mut enqueued: usize = 0;
    let mut more = true;
    while enqueued < MAX_ENQUEUES_PER_TICK && more
        invariant
            store.wf(),
            0 <= enqueued <= MAX_ENQUEUES_PER_TICK,
            matches_progress(old(store).matches@, store.matches@),
            old(store).matches@.len() == store.matches@.len(),
            store.used_nonces == old(store).used_nonces,
            store.next_match_id == old(store).next_match_id,
            enqueued == 0 ==> *store == *old(store),
            (!more && enqueued == 0) ==> (forall|k: int|
                0 <= k < old(store).matches@.len() ==> !timeout_candidate(
                    #[trigger] old(store).matches@[k],
                    old(store).jobs@,
                    now,
                )),
        decreases MAX_ENQUEUES_PER_TICK - enqueued + (if more {
            1int
        } else {
            0int
        }),
    {
        let ghost mid = store.matches@;
        match store.enqueue_next_expired_join_timeout_force_refund(now) {
            Ok(Some(_)) => {
                proof {
                    lemma_matches_progress_trans(old(store).matches@, mid, store.matches@);
                }
                enqueued = enqueued + 1;
            },
            Ok(None) => {
                more = false;
            },
            Err(e) => {
                return Err(e);
            },
        }
    }
    Ok(enqueued)
}

} // verus!

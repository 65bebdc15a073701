//! Behavior of the store transactions: leases, idempotent result
//! submission, retries, confirmation and the timeout watcher.

use match_settlement::enums::{ChainJobStatus, ChainJobType, MatchStatus};
use match_settlement::error::AppError;
use match_settlement::store::{
    CreateMatchRecordParams, MatchStore, PersistResultAndEnqueueParams,
};

fn params(match_id: i64) -> CreateMatchRecordParams {
    CreateMatchRecordParams {
        program_id: "prog".to_string(),
        authority_pubkey: "auth".to_string(),
        player1_pubkey: "p1".to_string(),
        entry_lamports: 1_000_000,
        game_pda: "game".to_string(),
        vault_pda: "vault".to_string(),
    }
}

/// A store holding one match that has reached `joined_on_chain`.
fn joined_store() -> (MatchStore, i64) {
    let mut store = MatchStore::new();
    let id = store.reserve_next_match_id().unwrap();
    let code = match_settlement::codes::join_code_from_match_id(id).unwrap();
    store
        .insert_create_match_record(id, &code, &params(id), 1_000)
        .unwrap();
    store
        .mark_match_created_on_chain(id, "sig-create", 1_000, 1_600, 1_001)
        .unwrap();
    store
        .mark_match_joined_on_chain(id, "p2", "sig-join", 1_100, 2_000, 1_101)
        .unwrap();
    (store, id)
}

fn result_params(id: i64, key: &str, winner: Option<&str>) -> PersistResultAndEnqueueParams {
    PersistResultAndEnqueueParams {
        match_id: id,
        job_type: if winner.is_some() {
            ChainJobType::Settle
        } else {
            ChainJobType::ForceRefund
        },
        winner_pubkey: winner.map(|w| w.to_string()),
        reason_code: "gg".to_string(),
        reason_detail: None,
        idempotency_key: key.to_string(),
    }
}

#[test]
fn insert_and_lookup_round_trip() {
    let mut store = MatchStore::new();
    let id = store.reserve_next_match_id().unwrap();
    assert_eq!(id, 1);
    let code = match_settlement::codes::join_code_from_match_id(id).unwrap();
    let created = store
        .insert_create_match_record(id, &code, &params(id), 42)
        .unwrap();
    assert_eq!(created.match_id, 1);
    assert_eq!(created.join_code, "M1");
    let row = store.get_match_lookup_by_join_code("M1").unwrap();
    assert_eq!(row.match_id, 1);
    assert_eq!(row.entry_lamports, 1_000_000);
    assert!(matches!(row.match_status, MatchStatus::WaitingCreateTx));
    assert!(store.get_match_lookup_by_join_code("M2").is_none());
    // A second insert under the same id is refused.
    assert!(matches!(
        store.insert_create_match_record(id, &code, &params(id), 43),
        Err(AppError::Internal(_))
    ));
}

#[test]
fn confirm_updates_are_coalescing() {
    let mut store = MatchStore::new();
    let id = store.reserve_next_match_id().unwrap();
    let code = match_settlement::codes::join_code_from_match_id(id).unwrap();
    store
        .insert_create_match_record(id, &code, &params(id), 0)
        .unwrap();
    let u1 = store
        .mark_match_created_on_chain(id, "sig-a", 10, 70, 1)
        .unwrap();
    assert!(matches!(u1.match_status, MatchStatus::CreatedOnChain));
    assert_eq!(u1.create_tx_sig.as_deref(), Some("sig-a"));
    assert_eq!(u1.join_expires_at, Some(70));
    // A replay with a different signature keeps the recorded values.
    let u2 = store
        .mark_match_created_on_chain(id, "sig-b", 99, 999, 2)
        .unwrap();
    assert!(matches!(u2.match_status, MatchStatus::CreatedOnChain));
    assert_eq!(u2.create_tx_sig.as_deref(), Some("sig-a"));
    assert_eq!(u2.join_expires_at, Some(70));
    // Join-confirm with a different second player later is a conflict.
    store
        .mark_match_joined_on_chain(id, "p2", "sig-j", 20, 80, 3)
        .unwrap();
    assert!(matches!(
        store.mark_match_joined_on_chain(id, "p9", "sig-j", 20, 80, 4),
        Err(AppError::Conflict(_))
    ));
}

#[test]
fn result_submission_is_exactly_once() {
    let (mut store, id) = joined_store();
    let first = store
        .persist_result_and_enqueue(&result_params(id, "k1", Some("p2")), 2_000)
        .unwrap();
    assert!(matches!(first.match_status, MatchStatus::ResultPendingFinalize));
    assert!(matches!(first.chain_job_type, ChainJobType::Settle));
    assert!(matches!(first.chain_job_status, ChainJobStatus::Pending));
    assert_eq!(store.jobs.len(), 1);
    // The identical report is accepted and enqueues nothing new.
    let again = store
        .persist_result_and_enqueue(&result_params(id, "k1", Some("p2")), 2_001)
        .unwrap();
    assert!(matches!(again.match_status, MatchStatus::ResultPendingFinalize));
    assert!(matches!(again.chain_job_status, ChainJobStatus::Pending));
    assert_eq!(store.jobs.len(), 1);
    // A different key, winner or outcome conflicts.
    assert!(matches!(
        store.persist_result_and_enqueue(&result_params(id, "k2", Some("p2")), 2_002),
        Err(AppError::Conflict(_))
    ));
    assert!(matches!(
        store.persist_result_and_enqueue(&result_params(id, "k1", Some("p1")), 2_003),
        Err(AppError::Conflict(_))
    ));
    assert!(matches!(
        store.persist_result_and_enqueue(&result_params(id, "k1", None), 2_004),
        Err(AppError::Conflict(_))
    ));
}

#[test]
fn claims_respect_order_and_leases() {
    let (mut store, id) = joined_store();
    store
        .persist_result_and_enqueue(&result_params(id, "k1", Some("p2")), 2_000)
        .unwrap();
    // Not due before its time.
    assert!(store.claim_next_due_finalizer_job(1_999).is_none());
    let claim = store.claim_next_due_finalizer_job(2_010).unwrap();
    assert_eq!(claim.match_id, id);
    assert_eq!(claim.game_pda, "game");
    // While the lease is live nobody else can claim it.
    assert!(store.claim_next_due_finalizer_job(2_020).is_none());
    assert!(store.claim_next_due_finalizer_job(2_010 + 30).is_none());
    // Once the lease goes stale the job can be claimed again.
    let reclaimed = store.claim_next_due_finalizer_job(2_041).unwrap();
    assert_eq!(reclaimed.match_id, id);
    assert_ne!(reclaimed.lock_token, claim.lock_token);
}

#[test]
fn submitted_then_confirmed_leaves_an_audit_trail() {
    let (mut store, id) = joined_store();
    store
        .persist_result_and_enqueue(&result_params(id, "k1", Some("p2")), 2_000)
        .unwrap();
    let claim = store.claim_next_due_finalizer_job(2_010).unwrap();
    store
        .mark_job_submitted(id, claim.lock_token, "SIG1", 2_011)
        .unwrap();
    assert!(matches!(store.jobs[0].status, ChainJobStatus::Submitted));
    assert_eq!(store.jobs[0].attempt_count, 1);
    assert!(matches!(
        store.matches[0].match_status,
        MatchStatus::Finalizing
    ));
    // A stale token cannot submit.
    assert!(matches!(
        store.mark_job_submitted(id, claim.lock_token.wrapping_add(1), "SIG2", 2_012),
        Err(AppError::Conflict(_))
    ));
    store
        .mark_job_confirmed_and_finalize_match(
            id,
            claim.lock_token,
            Some("SIG1"),
            MatchStatus::Settled,
            2_020,
        )
        .unwrap();
    assert!(matches!(store.jobs[0].status, ChainJobStatus::Confirmed));
    assert_eq!(store.jobs[0].last_tx_sig.as_deref(), Some("SIG1"));
    assert!(store.jobs[0].lock_token.is_none());
    let m = &store.matches[0];
    assert!(matches!(m.match_status, MatchStatus::Settled));
    assert_eq!(m.final_tx_sig.as_deref(), Some("SIG1"));
    assert!(m.finalized_at.is_some());
    // A confirmed job can never be retried by the admin path.
    assert!(matches!(
        store.retry_finalization_job(id, 2_030),
        Err(AppError::Conflict(_))
    ));
}

#[test]
fn retrying_and_failing_release_the_lease() {
    let (mut store, id) = joined_store();
    store
        .persist_result_and_enqueue(&result_params(id, "k1", Some("p2")), 2_000)
        .unwrap();
    let claim = store.claim_next_due_finalizer_job(2_010).unwrap();
    let st = store
        .mark_job_retrying(id, claim.lock_token, "rpc timeout", 4, true, 2_011)
        .unwrap();
    assert!(matches!(st, ChainJobStatus::Retrying));
    assert_eq!(store.jobs[0].attempt_count, 1);
    assert_eq!(store.jobs[0].next_attempt_at, 2_015);
    assert!(store.jobs[0].lock_token.is_none());
    assert_eq!(store.jobs[0].last_error.as_deref(), Some("rpc timeout"));
    assert_eq!(store.matches[0].last_error.as_deref(), Some("rpc timeout"));
    // Not due again until the backoff elapses.
    assert!(store.claim_next_due_finalizer_job(2_014).is_none());
    let claim2 = store.claim_next_due_finalizer_job(2_015).unwrap();
    let st = store
        .mark_job_failed(id, claim2.lock_token, "gave up", false, 2_016)
        .unwrap();
    assert!(matches!(st, ChainJobStatus::Failed));
    // Failed jobs are not claimable, but an admin retry revives them.
    assert!(store.claim_next_due_finalizer_job(3_000).is_none());
    let revived = store.retry_finalization_job(id, 3_001).unwrap();
    assert!(matches!(revived.chain_job_status, ChainJobStatus::Pending));
    assert!(matches!(revived.match_status, MatchStatus::Finalizing));
    assert!(store.claim_next_due_finalizer_job(3_002).is_some());
}

#[test]
fn watcher_enqueues_expired_matches_only() {
    let mut store = MatchStore::new();
    // One expired match without a second player.
    let a = store.reserve_next_match_id().unwrap();
    let code_a = match_settlement::codes::join_code_from_match_id(a).unwrap();
    store
        .insert_create_match_record(a, &code_a, &params(a), 0)
        .unwrap();
    store
        .mark_match_created_on_chain(a, "sa", 10, 100, 1)
        .unwrap();
    // One match still inside its window.
    let b = store.reserve_next_match_id().unwrap();
    let code_b = match_settlement::codes::join_code_from_match_id(b).unwrap();
    store
        .insert_create_match_record(b, &code_b, &params(b), 0)
        .unwrap();
    store
        .mark_match_created_on_chain(b, "sb", 10, 9_999, 2)
        .unwrap();
    let queued = store
        .enqueue_next_expired_join_timeout_force_refund(200)
        .unwrap()
        .unwrap();
    assert_eq!(queued.match_id, a);
    assert!(matches!(queued.chain_job_status, ChainJobStatus::Pending));
    let m = &store.matches[0];
    assert!(matches!(m.match_status, MatchStatus::ResultPendingFinalize));
    assert_eq!(
        m.result_idempotency_key.as_deref(),
        Some(format!("auto-join-timeout-{}", a).as_str())
    );
    assert_eq!(m.finalization_reason_code.as_deref(), Some("join_timeout"));
    assert_eq!(
        m.finalization_reason_detail.as_deref(),
        Some("timeout_watcher")
    );
    assert!(matches!(store.jobs[0].job_type, ChainJobType::ForceRefund));
    // Nothing else is due: the still-open match stays untouched.
    assert!(store
        .enqueue_next_expired_join_timeout_force_refund(200)
        .unwrap()
        .is_none());
    assert!(matches!(
        store.matches[1].match_status,
        MatchStatus::CreatedOnChain
    ));
    // A whole tick stops once the queue is drained.
    let count = match_settlement::watcher::process_tick(&mut store, 300).unwrap();
    assert_eq!(count, 0);
}

#[test]
fn nonces_are_consumed_once() {
    let mut store = MatchStore::new();
    assert!(store.insert_nonce_if_unused("n1"));
    assert!(!store.insert_nonce_if_unused("n1"));
    assert!(store.insert_nonce_if_unused("n2"));
    assert_eq!(store.used_nonces.len(), 2);
}

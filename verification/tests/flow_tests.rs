//! End-to-end walks through the coordinator, worker decisions and the
//! HMAC gate, with the chain simulated by encoded game accounts.

use hmac::KeyInit;
use hmac::Mac;
use sha2::Digest;

use match_settlement::auth::verify_internal_hmac;
use match_settlement::config::Config;
use match_settlement::coordinator::{
    create_confirm_apply, create_confirm_precheck, create_match, get_match_by_code,
    get_match_status, join_confirm_apply, join_confirm_precheck, retry_finalization,
    submit_result, CreateConfirmPrecheck, JoinConfirmPrecheck,
};
use match_settlement::dto::{
    CreateConfirmRequest, CreateMatchRequest, JoinConfirmRequest, ResultRequest,
    RetryFinalizationRequest,
};
use match_settlement::enums::{ChainJobStatus, ChainJobType, MatchStatus, ResultOutcome};
use match_settlement::error::AppError;
use match_settlement::finalizer::{plan_claimed_job, schedule_retry_or_fail, JobPlan};
use match_settlement::game_account::{
    decode_game_account, encode_game_account, DecodedGameAccount, DecodedGameState,
};
use match_settlement::store::MatchStore;

use solana_sdk::pubkey::Pubkey;

struct World {
    program: Pubkey,
    authority: Pubkey,
    player1: Pubkey,
    player2: Pubkey,
    config: Config,
}

fn world() -> World {
    let program = Pubkey::new_unique();
    let authority = Pubkey::new_unique();
    let player1 = Pubkey::new_unique();
    let player2 = Pubkey::new_unique();
    let config = Config {
        app_bind_addr: "127.0.0.1:0".to_string(),
        database_url: String::new(),
        solana_rpc_url: String::new(),
        program_id: program.to_string(),
        authority_pubkey: authority.to_string(),
        authority_keypair_path: String::new(),
        internal_hmac_secret: "SECRET-REDACTED".to_string(),
        join_timeout_seconds: 600,
        settle_timeout_seconds: 3_600,
        finalizer_poll_ms: 500,
        timeout_watcher_poll_ms: 1_000,
    };
    World { program, authority, player1, player2, config }
}

fn game_account(w: &World, match_id: u64, state: DecodedGameState, p2: Option<Pubkey>) -> Vec<u8> {
    encode_game_account(&DecodedGameAccount {
        player1: w.player1.to_bytes().to_vec(),
        player2: p2.map(|p| p.to_bytes().to_vec()).unwrap_or_else(|| vec![0u8; 32]),
        entry_amount: 1_000_000,
        authority: w.authority.to_bytes().to_vec(),
        match_id,
        state,
        created_at: 1_000,
        joined_at: 1_100,
        bump: 254,
        vault_bump: 255,
    })
}

/// Drive a fresh store to `joined_on_chain` with a result submitted.
fn settled_up_to_result(w: &World, store: &mut MatchStore) -> i64 {
    let created = create_match(
        store,
        &w.config,
        &CreateMatchRequest {
            player1_pubkey: w.player1.to_string(),
            entry_lamports: "1000000".to_string(),
        },
        100,
    )
    .unwrap();
    let id: i64 = created.match_id.parse().unwrap();
    let owner = w.program.to_string();
    let data = game_account(w, id as u64, DecodedGameState::Created, None);
    create_confirm_apply(store, &w.config.program_id, 600, id, "CSIG", &owner, &data, 101)
        .unwrap();
    let data = game_account(w, id as u64, DecodedGameState::Joined, Some(w.player2));
    join_confirm_apply(store, &w.config.program_id, 3_600, id, "JSIG", &owner, &data, 102)
        .unwrap();
    let resp = submit_result(
        store,
        &id.to_string(),
        &ResultRequest {
            outcome: ResultOutcome::Winner,
            winner_pubkey: Some(w.player2.to_string()),
            reason_code: "gg".to_string(),
            reason_detail: None,
            idempotency_key: "k1".to_string(),
        },
        200,
    )
    .unwrap();
    assert!(matches!(resp.match_status, MatchStatus::ResultPendingFinalize));
    assert!(matches!(resp.finalization_action, ChainJobType::Settle));
    id
}

#[test]
fn happy_settle_flow() {
    let w = world();
    let mut store = MatchStore::new();
    let id = settled_up_to_result(&w, &mut store);
    let claim = store.claim_next_due_finalizer_job(210).unwrap();
    assert_eq!(claim.match_id, id);
    // On-chain still joined: the plan is to submit settle_game.
    let chain = game_account(&w, id as u64, DecodedGameState::Joined, Some(w.player2));
    let game = decode_game_account(&chain).unwrap();
    let plan = plan_claimed_job(
        &w.config.program_id,
        &w.config.authority_pubkey,
        &claim,
        &game,
    );
    let (ix, final_status) = match plan {
        JobPlan::Submit(ix, st) => (ix, st),
        _ => panic!("expected a submit plan"),
    };
    assert!(matches!(final_status, MatchStatus::Settled));
    assert_eq!(ix.program_id, w.program.to_string());
    assert_eq!(ix.accounts.len(), 5);
    assert_eq!(ix.accounts[2].pubkey, w.player2.to_string());
    assert!(ix.accounts[3].is_signer);
    let disc = sha2_prefix(b"global:settle_game");
    assert_eq!(&ix.data[..8], &disc[..]);
    assert_eq!(&ix.data[8..], &w.player2.to_bytes()[..]);
    // Submit and confirm.
    store.mark_job_submitted(id, claim.lock_token, "S1", 211).unwrap();
    store
        .mark_job_confirmed_and_finalize_match(id, claim.lock_token, Some("S1"), final_status, 212)
        .unwrap();
    let status = get_match_status(&store, &id.to_string()).unwrap();
    assert!(matches!(status.match_status, MatchStatus::Settled));
    assert_eq!(status.final_tx_sig.as_deref(), Some("S1"));
    assert!(matches!(status.chain_job_status, Some(ChainJobStatus::Confirmed)));
    assert_eq!(status.pot_lamports, "2000000");
}

fn sha2_prefix(label: &[u8]) -> Vec<u8> {
    sha2::Sha256::digest(label)[..8].to_vec()
}

#[test]
fn join_timeout_refund_flow() {
    let w = world();
    let mut store = MatchStore::new();
    let created = create_match(
        &mut store,
        &w.config,
        &CreateMatchRequest {
            player1_pubkey: w.player1.to_string(),
            entry_lamports: "1000000".to_string(),
        },
        100,
    )
    .unwrap();
    let id: i64 = created.match_id.parse().unwrap();
    let owner = w.program.to_string();
    let data = game_account(&w, id as u64, DecodedGameState::Created, None);
    create_confirm_apply(&mut store, &w.config.program_id, 600, id, "CSIG", &owner, &data, 101)
        .unwrap();
    // Past the join deadline (created_at 1000 + 600).
    let count = match_settlement::watcher::process_tick(&mut store, 1_700).unwrap();
    assert_eq!(count, 1);
    let claim = store.claim_next_due_finalizer_job(1_701).unwrap();
    assert!(matches!(claim.job_type, ChainJobType::ForceRefund));
    // On-chain still created: the plan is a refund with player1 in the
    // placeholder slot.
    let chain = game_account(&w, id as u64, DecodedGameState::Created, None);
    let game = decode_game_account(&chain).unwrap();
    let plan = plan_claimed_job(
        &w.config.program_id,
        &w.config.authority_pubkey,
        &claim,
        &game,
    );
    let (ix, final_status) = match plan {
        JobPlan::Submit(ix, st) => (ix, st),
        _ => panic!("expected a submit plan"),
    };
    assert!(matches!(final_status, MatchStatus::Refunded));
    assert_eq!(ix.accounts.len(), 6);
    assert_eq!(ix.accounts[2].pubkey, w.player1.to_string());
    assert_eq!(ix.accounts[3].pubkey, w.player1.to_string());
    assert_eq!(ix.data, sha2_prefix(b"global:force_refund"));
    store.mark_job_submitted(id, claim.lock_token, "R1", 1_702).unwrap();
    store
        .mark_job_confirmed_and_finalize_match(id, claim.lock_token, Some("R1"), final_status, 1_703)
        .unwrap();
    let status = get_match_status(&store, &id.to_string()).unwrap();
    assert!(matches!(status.match_status, MatchStatus::Refunded));
}

#[test]
fn confirms_answer_idempotently() {
    let w = world();
    let mut store = MatchStore::new();
    let id = settled_up_to_result(&w, &mut store);
    // Re-submitting create-confirm answers from the row, same body.
    let pre = create_confirm_precheck(
        &store,
        &id.to_string(),
        &CreateConfirmRequest { create_tx_sig: "OTHER".to_string() },
    )
    .unwrap();
    match pre {
        CreateConfirmPrecheck::Done(resp) => {
            assert!(resp.verified);
            assert_eq!(resp.create_tx_sig, "CSIG");
            assert_eq!(resp.join_expires_at, Some(1_600));
        },
        CreateConfirmPrecheck::NeedsChain(_) => panic!("expected an idempotent answer"),
    }
    let pre = join_confirm_precheck(
        &store,
        &id.to_string(),
        &JoinConfirmRequest { join_tx_sig: "OTHER".to_string() },
    )
    .unwrap();
    match pre {
        JoinConfirmPrecheck::Done(resp) => {
            assert!(resp.verified);
            assert_eq!(resp.join_tx_sig, "JSIG");
            assert_eq!(resp.player2_pubkey, w.player2.to_string());
        },
        JoinConfirmPrecheck::NeedsChain(_) => panic!("expected an idempotent answer"),
    }
}

#[test]
fn duplicate_result_reports() {
    let w = world();
    let mut store = MatchStore::new();
    let id = settled_up_to_result(&w, &mut store);
    // The identical report again: same body.
    let again = submit_result(
        &mut store,
        &id.to_string(),
        &ResultRequest {
            outcome: ResultOutcome::Winner,
            winner_pubkey: Some(w.player2.to_string()),
            reason_code: "gg".to_string(),
            reason_detail: None,
            idempotency_key: "k1".to_string(),
        },
        300,
    )
    .unwrap();
    assert_eq!(again.match_id, id.to_string());
    assert!(matches!(again.match_status, MatchStatus::ResultPendingFinalize));
    assert!(matches!(again.finalization_action, ChainJobType::Settle));
    // Same key but a different outcome: conflict.
    let broken = submit_result(
        &mut store,
        &id.to_string(),
        &ResultRequest {
            outcome: ResultOutcome::Broken,
            winner_pubkey: None,
            reason_code: "gg".to_string(),
            reason_detail: None,
            idempotency_key: "k1".to_string(),
        },
        301,
    );
    assert!(matches!(broken, Err(AppError::Conflict(_))));
}

#[test]
fn rpc_flake_then_recover() {
    let w = world();
    let mut store = MatchStore::new();
    let id = settled_up_to_result(&w, &mut store);
    // First attempt: submitted, then confirmation times out.
    let claim = store.claim_next_due_finalizer_job(210).unwrap();
    store.mark_job_submitted(id, claim.lock_token, "S1", 211).unwrap();
    schedule_retry_or_fail(&mut store, id, claim.lock_token, 1, "confirmation timed out", false, 212)
        .unwrap();
    assert!(matches!(store.jobs[0].status, ChainJobStatus::Retrying));
    assert_eq!(store.jobs[0].last_error.as_deref(), Some("confirmation timed out"));
    assert_eq!(store.jobs[0].next_attempt_at, 212 + 2);
    // Second attempt: same story, the backoff doubles.
    let claim = store.claim_next_due_finalizer_job(214).unwrap();
    store.mark_job_submitted(id, claim.lock_token, "S2", 215).unwrap();
    schedule_retry_or_fail(&mut store, id, claim.lock_token, 2, "confirmation timed out", false, 216)
        .unwrap();
    assert_eq!(store.jobs[0].next_attempt_at, 216 + 4);
    assert_eq!(store.jobs[0].attempt_count, 2);
    // Third attempt observes the game settled on chain and confirms.
    let claim = store.claim_next_due_finalizer_job(220).unwrap();
    let chain = game_account(&w, id as u64, DecodedGameState::Settled, Some(w.player2));
    let game = decode_game_account(&chain).unwrap();
    let plan = plan_claimed_job(
        &w.config.program_id,
        &w.config.authority_pubkey,
        &claim,
        &game,
    );
    let final_status = match plan {
        JobPlan::Confirm(st) => st,
        _ => panic!("expected a confirm plan"),
    };
    let sig = claim.last_tx_sig.clone();
    store
        .mark_job_confirmed_and_finalize_match(
            id,
            claim.lock_token,
            sig.as_deref(),
            final_status,
            221,
        )
        .unwrap();
    let status = get_match_status(&store, &id.to_string()).unwrap();
    assert!(matches!(status.match_status, MatchStatus::Settled));
    assert_eq!(status.final_tx_sig.as_deref(), Some("S2"));
}

#[test]
fn admin_retry_after_failure() {
    let w = world();
    let mut store = MatchStore::new();
    let id = settled_up_to_result(&w, &mut store);
    // Burn through the attempt budget.
    let mut now = 210;
    loop {
        let claim = match store.claim_next_due_finalizer_job(now) {
            Some(c) => c,
            None => {
                now += 61;
                continue;
            },
        };
        let st = schedule_retry_or_fail(
            &mut store,
            id,
            claim.lock_token,
            claim.attempt_count,
            "send failed",
            true,
            now,
        )
        .unwrap();
        now += 61;
        if matches!(st, ChainJobStatus::Failed) {
            break;
        }
    }
    assert!(matches!(store.jobs[0].status, ChainJobStatus::Failed));
    assert_eq!(store.jobs[0].attempt_count, 10);
    // An empty reason is refused; a real one revives the job.
    assert!(matches!(
        retry_finalization(
            &mut store,
            &id.to_string(),
            &RetryFinalizationRequest { reason: "  ".to_string() },
            now,
        ),
        Err(AppError::BadRequest(_))
    ));
    let revived = retry_finalization(
        &mut store,
        &id.to_string(),
        &RetryFinalizationRequest { reason: "operator".to_string() },
        now,
    )
    .unwrap();
    assert!(matches!(revived.match_status, MatchStatus::Finalizing));
    assert!(matches!(revived.chain_job_status, ChainJobStatus::Pending));
    assert!(store.claim_next_due_finalizer_job(now + 1).is_some());
}

fn sign(secret: &str, timestamp: &str, nonce: &str, body: &[u8]) -> String {
    let mut mac = hmac::Hmac::<sha2::Sha256>::new_from_slice(secret.as_bytes()).unwrap();
    mac.update(timestamp.as_bytes());
    mac.update(b".");
    mac.update(nonce.as_bytes());
    mac.update(b".");
    mac.update(body);
    hex::encode(mac.finalize().into_bytes())
}

#[test]
fn hmac_accepts_valid_and_rejects_replayed_requests() {
    let mut store = MatchStore::new();
    let secret = "SECRET-REDACTED";
    let body = b"{\"outcome\":\"winner\"}";
    let now = 1_700_000_000i64;
    let ts = now.to_string();
    let sig = sign(secret, &ts, "nonce-1", body);
    // A valid request passes.
    assert!(verify_internal_hmac(
        &mut store,
        secret,
        Some(&ts),
        Some("nonce-1"),
        Some(&sig),
        body,
        now,
    )
    .is_ok());
    // The identical headers and body replayed: the nonce is burned.
    assert!(matches!(
        verify_internal_hmac(
            &mut store,
            secret,
            Some(&ts),
            Some("nonce-1"),
            Some(&sig),
            body,
            now,
        ),
        Err(AppError::Unauthorized)
    ));
    // The sha256= prefix is accepted, in any mix of letter cases.
    let sig2 = format!("sha256={}", sign(secret, &ts, "nonce-2", body));
    assert!(verify_internal_hmac(
        &mut store,
        secret,
        Some(&ts),
        Some("nonce-2"),
        Some(&sig2),
        body,
        now,
    )
    .is_ok());
    let sig3 = format!("Sha256={}", sign(secret, &ts, "nonce-3", body));
    assert!(verify_internal_hmac(
        &mut store,
        secret,
        Some(&ts),
        Some("nonce-3"),
        Some(&sig3),
        body,
        now,
    )
    .is_ok());
}

#[test]
fn hmac_rejects_bad_requests() {
    let mut store = MatchStore::new();
    let secret = "SECRET-REDACTED";
    let body = b"x";
    let now = 1_700_000_000i64;
    let ts = now.to_string();
    let good = sign(secret, &ts, "n", body);
    // Empty secret.
    assert!(verify_internal_hmac(&mut store, "", Some(&ts), Some("n"), Some(&good), body, now)
        .is_err());
    // Missing headers.
    assert!(verify_internal_hmac(&mut store, secret, None, Some("n"), Some(&good), body, now)
        .is_err());
    // Wrong body under the same signature.
    assert!(verify_internal_hmac(
        &mut store,
        secret,
        Some(&ts),
        Some("n"),
        Some(&good),
        b"y",
        now,
    )
    .is_err());
    // Clock skew beyond five minutes.
    assert!(verify_internal_hmac(
        &mut store,
        secret,
        Some(&ts),
        Some("n"),
        Some(&good),
        body,
        now + 301,
    )
    .is_err());
    // Within the window it still passes.
    assert!(verify_internal_hmac(
        &mut store,
        secret,
        Some(&ts),
        Some("n"),
        Some(&good),
        body,
        now + 300,
    )
    .is_ok());
    // Odd-length hex signature.
    assert!(verify_internal_hmac(
        &mut store,
        secret,
        Some(&ts),
        Some("n2"),
        Some("abc"),
        body,
        now,
    )
    .is_err());
    // Oversized nonce.
    let long = "x".repeat(129);
    let sig = sign(secret, &ts, &long, body);
    assert!(verify_internal_hmac(
        &mut store,
        secret,
        Some(&ts),
        Some(long.as_str()),
        Some(&sig),
        body,
        now,
    )
    .is_err());
}

#[test]
fn lookup_by_code_normalizes_and_guards_terminal_matches() {
    let w = world();
    let mut store = MatchStore::new();
    let id = settled_up_to_result(&w, &mut store);
    let code = format!("m{}", match_settlement::codes::to_base36(id as u64).to_lowercase());
    let found = get_match_by_code(&store, &format!("  {code} ")).unwrap();
    assert_eq!(found.match_id, id.to_string());
    assert!(matches!(
        get_match_by_code(&store, "  "),
        Err(AppError::BadRequest(_))
    ));
    assert!(matches!(
        get_match_by_code(&store, "MZZZZ"),
        Err(AppError::NotFound(_))
    ));
    // Settle the match, then the code conflicts.
    let claim = store.claim_next_due_finalizer_job(400).unwrap();
    store
        .mark_job_confirmed_and_finalize_match(
            id,
            claim.lock_token,
            Some("S9"),
            MatchStatus::Settled,
            401,
        )
        .unwrap();
    assert!(matches!(
        get_match_by_code(&store, &code),
        Err(AppError::Conflict(_))
    ));
}

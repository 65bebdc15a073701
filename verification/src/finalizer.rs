//! Finalizer decisions: reconcile a claimed job against the on-chain
//! game account, build the settlement or refund instruction, and
//! schedule retries with exponential backoff. The ledger round-trips
//! themselves (fetch, submit, confirm) happen outside; everything that
//! decides is here.

use vstd::prelude::*;

use crate::bytes::bytes_eq;
use crate::crypto::sha256;
use crate::crypto::sha256_of;
use crate::enums::ChainJobStatus;
use crate::enums::ChainJobType;
use crate::enums::MatchStatus;
use crate::error::AppError;
use crate::game_account::DecodedGameAccount;
use crate::game_account::DecodedGameState;
use crate::pda::base58_of;
use crate::pda::pubkey_bytes_of;
use crate::pda::pubkey_from_base58;
use crate::pda::pubkey_to_base58;
use crate::store::ClaimedFinalizerJob;
use crate::store::MatchStore;
use crate::store::job_idx;
use crate::store::job_of;
use crate::store::has_job;
use crate::store::matches_progress;
use crate::store::retry_fail_job_transform;

verus! {

/// After this many attempts a failing job goes terminal.
pub const MAX_FINALIZER_ATTEMPTS: i32 = 10;

/// How often the worker polls for a submitted signature, and how many
/// times, before treating confirmation as timed out (20 s in all).
pub const CONFIRM_POLL_INTERVAL_MS: u64 = 500;

pub const CONFIRM_POLL_ATTEMPTS: usize = 40;

/// The longest backoff between attempts, in seconds.
pub const MAX_BACKOFF_SECONDS: i64 = 60;

/// The system program's address: base-58 of the all-zero key.
pub const SYSTEM_PROGRAM_ID: &'static str = "11111111111111111111111111111111";

/// Backoff before the given attempt: `min(2^attempts, 60)` seconds,
/// the exponent clamped to `1..=6`.
pub open spec fn retry_backoff_view(attempts: int) -> int {
    if attempts <= 1 {
        2
    } else if attempts == 2 {
        4
    } else if attempts == 3 {
        8
    } else if attempts == 4 {
        16
    } else if attempts == 5 {
        32
    } else {
        60
    }
}

/// Backoff before the given attempt.
pub fn retry_backoff_seconds(attempts: i32) -> (r: i64)
    ensures
        r == retry_backoff_view(attempts as int),
        2 <= r <= MAX_BACKOFF_SECONDS,
{
    if attempts <= 1 {
        2
    } else if attempts == 2 {
        4
    } else if attempts == 3 {
        8
    } else if attempts == 4 {
        16
    } else if attempts == 5 {
        32
    } else {
        60
    }
}

/// The 8-byte instruction tag of a method: the first eight bytes of
/// the SHA-256 digest of its global label.
pub open spec fn ix_discriminator_view(method: Seq<char>) -> Seq<u8> {
    sha256_of(vstd::utf8::encode_utf8("global:"@ + method)).take(8)
}

/// Compute the instruction tag of a method.
pub fn anchor_ix_discriminator(method_name: &str) -> (r: Vec<u8>)
    ensures
        r@ == ix_discriminator_view(method_name@),
        r@.len() == 8,
{
    let mut label: String = "global:".to_owned();
    label.append(method_name);
    let digest = sha256(label.as_str().as_bytes());
    let mut out: Vec<u8> = Vec::new();
    let mut k: usize = 0;
    while k < 8
        invariant
            0 <= k <= 8,
            digest@ == sha256_of(vstd::utf8::encode_utf8("global:"@ + method_name@)),
            digest@.len() == 32,
            out@ == digest@.take(k as int),
        decreases 8 - k,
    {
        out.push(digest[k]);
        assert(out@ =~= digest@.take(k + 1 as int));
        k = k + 1;
    }
    proof {
        assert(out@ =~= ix_discriminator_view(method_name@));
    }
    out
}

/// One account slot of an instruction.
#[derive(Debug, Clone)]
pub struct AccountMeta {
    pub pubkey: String,
    pub is_signer: bool,
    pub is_writable: bool,
}

/// An instruction ready to be signed and sent: program, account list,
/// and payload bytes.
#[derive(Debug, Clone)]
pub struct InstructionPlan {
    pub program_id: String,
    pub accounts: Vec<AccountMeta>,
    pub data: Vec<u8>,
}

/// One slot of the plan holds these coordinates.
pub open spec fn meta_is(m: AccountMeta, key: Seq<char>, signer: bool, writable: bool) -> bool {
    m.pubkey@ == key && m.is_signer == signer && m.is_writable == writable
}

/// A settle instruction can be built: the job carries a winner that is
/// one of the on-chain players, the game is still `Joined`, and the
/// stored addresses parse.
pub open spec fn settle_build_ok(job: ClaimedFinalizerJob, game: DecodedGameAccount) -> bool {
    &&& pubkey_bytes_of(job.game_pda@) is Some
    &&& pubkey_bytes_of(job.vault_pda@) is Some
    &&& game.state == DecodedGameState::Joined
    &&& (job.winner_pubkey matches Some(w) && pubkey_bytes_of(w@) is Some && (pubkey_bytes_of(
        w@,
    ).unwrap() == game.player1@ || pubkey_bytes_of(w@).unwrap() == game.player2@))
}

/// A refund instruction can be built: the game is still `Created` or
/// `Joined` and the stored addresses parse.
pub open spec fn refund_build_ok(job: ClaimedFinalizerJob, game: DecodedGameAccount) -> bool {
    &&& pubkey_bytes_of(job.game_pda@) is Some
    &&& pubkey_bytes_of(job.vault_pda@) is Some
    &&& (game.state == DecodedGameState::Created || game.state == DecodedGameState::Joined)
}

/// The second account slot a refund passes: the on-chain second player,
/// or the first player as a safe placeholder while nobody has joined.
pub open spec fn refund_player2_slot(game: DecodedGameAccount) -> Seq<u8> {
    if game.state == DecodedGameState::Created && game.player2@ == Seq::new(32, |i: int| 0u8) {
        game.player1@
    } else {
        game.player2@
    }
}

/// Build the finalization instruction for a claimed job against the
/// decoded game account: `settle_game` with the winner, or
/// `force_refund`.
pub fn build_finalization_instruction(
    program_id: &str,
    authority_pubkey: &str,
    game: &DecodedGameAccount,
    job: &ClaimedFinalizerJob,
) -> (r: Result<(InstructionPlan, MatchStatus), AppError>)
    requires
        game@.wf(),
    ensures
        (match r {
            Ok((plan, status)) => plan.program_id@ == program_id@ && (match job.job_type {
                ChainJobType::Settle => ({
                    let wb = pubkey_bytes_of(job.winner_pubkey.unwrap()@).unwrap();
                    &&& settle_build_ok(*job, *game)
                    &&& status == MatchStatus::Settled
                    &&& plan.data@ == ix_discriminator_view("settle_game"@) + wb
                    &&& plan.accounts@.len() == 5
                    &&& meta_is(
                        plan.accounts@[0],
                        base58_of(pubkey_bytes_of(job.game_pda@).unwrap()),
                        false,
                        true,
                    )
                    &&& meta_is(
                        plan.accounts@[1],
                        base58_of(pubkey_bytes_of(job.vault_pda@).unwrap()),
                        false,
                        true,
                    )
                    &&& meta_is(plan.accounts@[2], base58_of(wb), false, true)
                    &&& meta_is(plan.accounts@[3], authority_pubkey@, true, false)
                    &&& meta_is(plan.accounts@[4], SYSTEM_PROGRAM_ID@, false, false)
                }),
                ChainJobType::ForceRefund => ({
                    &&& refund_build_ok(*job, *game)
                    &&& status == MatchStatus::Refunded
                    &&& plan.data@ == ix_discriminator_view("force_refund"@)
                    &&& plan.accounts@.len() == 6
                    &&& meta_is(
                        plan.accounts@[0],
                        base58_of(pubkey_bytes_of(job.game_pda@).unwrap()),
                        false,
                        true,
                    )
                    &&& meta_is(
                        plan.accounts@[1],
                        base58_of(pubkey_bytes_of(job.vault_pda@).unwrap()),
                        false,
                        true,
                    )
                    &&& meta_is(plan.accounts@[2], base58_of(game.player1@), false, true)
                    &&& meta_is(plan.accounts@[3], base58_of(refund_player2_slot(*game)), false, true)
                    &&& meta_is(plan.accounts@[4], authority_pubkey@, true, false)
                    &&& meta_is(plan.accounts@[5], SYSTEM_PROGRAM_ID@, false, false)
                }),
            }),
            Err(e) => e is Internal && (match job.job_type {
                ChainJobType::Settle => !settle_build_ok(*job, *game),
                ChainJobType::ForceRefund => !refund_build_ok(*job, *game),
            }),
        }),
{
    let game_bytes = match pubkey_from_base58(job.game_pda.as_str()) {
        Some(v) => v,
        None => {
            return Err(AppError::Internal("invalid game_pda in store".to_owned()));
        },
    };
    let vault_bytes = match pubkey_from_base58(job.vault_pda.as_str()) {
        Some(v) => v,
        None => {
            return Err(AppError::Internal("invalid vault_pda in store".to_owned()));
        },
    };
    let game_key = pubkey_to_base58(game_bytes.as_slice());
    let vault_key = pubkey_to_base58(vault_bytes.as_slice());
    match job.job_type {
        ChainJobType::Settle => {
            if game.state != DecodedGameState::Joined {
                return Err(
                    AppError::Internal("cannot settle when the game is not joined".to_owned()),
                );
            }
            let winner_str = match &job.winner_pubkey {
                Some(w) => w,
                None => {
                    return Err(AppError::Internal("settle job missing winner_pubkey".to_owned()));
                },
            };
            let winner_bytes = match pubkey_from_base58(winner_str.as_str()) {
                Some(v) => v,
                None => {
                    return Err(AppError::Internal("invalid winner_pubkey in job".to_owned()));
                },
            };
            if !bytes_eq(winner_bytes.as_slice(), game.player1.as_slice()) && !bytes_eq(
                winner_bytes.as_slice(),
                game.player2.as_slice(),
            ) {
                return Err(
                    AppError::Internal(
                        "winner_pubkey in job does not match on-chain players".to_owned(),
                    ),
                );
            }
            let mut data = anchor_ix_discriminator("settle_game");
            data.extend_from_slice(winner_bytes.as_slice());
            let winner_key = pubkey_to_base58(winner_bytes.as_slice());
            let mut accounts: Vec<AccountMeta> = Vec::new();
            accounts.push(AccountMeta { pubkey: game_key, is_signer: false, is_writable: true });
            accounts.push(AccountMeta { pubkey: vault_key, is_signer: false, is_writable: true });
            accounts.push(AccountMeta { pubkey: winner_key, is_signer: false, is_writable: true });
            accounts.push(
                AccountMeta {
                    pubkey: authority_pubkey.to_owned(),
                    is_signer: true,
                    is_writable: false,
                },
            );
            accounts.push(
                AccountMeta {
                    pubkey: SYSTEM_PROGRAM_ID.to_owned(),
                    is_signer: false,
                    is_writable: false,
                },
            );
            let plan = InstructionPlan { program_id: program_id.to_owned(), accounts, data };
            Ok((plan, MatchStatus::Settled))
        },
        ChainJobType::ForceRefund => {
            if game.state != DecodedGameState::Created && game.state != DecodedGameState::Joined {
                return Err(
                    AppError::Internal(
                        "cannot refund when the game is already finalized".to_owned(),
                    ),
                );
            }
            let zeros: Vec<u8> = vec![0u8; 32];
            proof {
                assert(zeros@ =~= Seq::new(32, |i: int| 0u8));
            }
            let p2_is_default = bytes_eq(game.player2.as_slice(), zeros.as_slice());
            let p2_slot: &Vec<u8> = if game.state == DecodedGameState::Created && p2_is_default {
                &game.player1
            } else {
                &game.player2
            };
            let p1_key = pubkey_to_base58(game.player1.as_slice());
            let p2_key = pubkey_to_base58(p2_slot.as_slice());
            let data = anchor_ix_discriminator("force_refund");
            let mut accounts: Vec<AccountMeta> = Vec::new();
            accounts.push(AccountMeta { pubkey: game_key, is_signer: false, is_writable: true });
            accounts.push(AccountMeta { pubkey: vault_key, is_signer: false, is_writable: true });
            accounts.push(AccountMeta { pubkey: p1_key, is_signer: false, is_writable: true });
            accounts.push(AccountMeta { pubkey: p2_key, is_signer: false, is_writable: true });
            accounts.push(
                AccountMeta {
                    pubkey: authority_pubkey.to_owned(),
                    is_signer: true,
                    is_writable: false,
                },
            );
            accounts.push(
                AccountMeta {
                    pubkey: SYSTEM_PROGRAM_ID.to_owned(),
                    is_signer: false,
                    is_writable: false,
                },
            );
            let plan = InstructionPlan { program_id: program_id.to_owned(), accounts, data };
            Ok((plan, MatchStatus::Refunded))
        },
    }
}

/// What to do with a claimed job, given the on-chain state.
pub enum JobPlan {
    /// The on-chain authority is not ours: fail without counting an
    /// attempt.
    FailAuthority,
    /// The chain already reached the job's goal: confirm with this
    /// terminal match status.
    Confirm(MatchStatus),
    /// The chain reached the opposite terminal state: fail without
    /// counting an attempt.
    FailCross,
    /// Submit this instruction; on confirmation the match ends in this
    /// status.
    Submit(InstructionPlan, MatchStatus),
    /// The instruction could not be built: retry as a processing error.
    RetryBuild,
}

/// Decide a claimed job against the decoded game account, mirroring
/// the worker's reconciliation order: authority first, then terminal
/// states, then the instruction build.
pub fn plan_claimed_job(
    program_id: &str,
    authority_pubkey: &str,
    job: &ClaimedFinalizerJob,
    game: &DecodedGameAccount,
) -> (r: JobPlan)
    requires
        game@.wf(),
    ensures
        (match r {
            JobPlan::FailAuthority => !(pubkey_bytes_of(authority_pubkey@) matches Some(a)
                && a == game.authority@),
            JobPlan::Confirm(status) => pubkey_bytes_of(authority_pubkey@) == Some(game.authority@)
                && ((job.job_type == ChainJobType::Settle && game.state
                == DecodedGameState::Settled && status == MatchStatus::Settled) || (job.job_type
                == ChainJobType::ForceRefund && game.state == DecodedGameState::Refunded && status
                == MatchStatus::Refunded)),
            JobPlan::FailCross => pubkey_bytes_of(authority_pubkey@) == Some(game.authority@) && ((
            job.job_type == ChainJobType::Settle && game.state == DecodedGameState::Refunded) || (
            job.job_type == ChainJobType::ForceRefund && game.state == DecodedGameState::Settled)),
            JobPlan::Submit(plan, status) => pubkey_bytes_of(authority_pubkey@) == Some(
                game.authority@,
            ) && plan.program_id@ == program_id@ && (match job.job_type {
                ChainJobType::Settle => settle_build_ok(*job, *game) && game.state
                    == DecodedGameState::Joined && status == MatchStatus::Settled,
                ChainJobType::ForceRefund => refund_build_ok(*job, *game) && status
                    == MatchStatus::Refunded,
            }),
            JobPlan::RetryBuild => pubkey_bytes_of(authority_pubkey@) == Some(game.authority@)
                && (match job.job_type {
                ChainJobType::Settle => !settle_build_ok(*job, *game) && game.state
                    != DecodedGameState::Settled && game.state != DecodedGameState::Refunded,
                ChainJobType::ForceRefund => !refund_build_ok(*job, *game) && game.state
                    != DecodedGameState::Settled && game.state != DecodedGameState::Refunded,
            }),
        }),
{
    let authority_ok = match pubkey_from_base58(authority_pubkey) {
        Some(a) => bytes_eq(a.as_slice(), game.authority.as_slice()),
        None => false,
    };
    if !authority_ok {
        return JobPlan::FailAuthority;
    }
    match (job.job_type, game.state) {
        (ChainJobType::Settle, DecodedGameState::Settled) => JobPlan::Confirm(
            MatchStatus::Settled,
        ),
        (ChainJobType::ForceRefund, DecodedGameState::Refunded) => JobPlan::Confirm(
            MatchStatus::Refunded,
        ),
        (ChainJobType::Settle, DecodedGameState::Refunded) => JobPlan::FailCross,
        (ChainJobType::ForceRefund, DecodedGameState::Settled) => JobPlan::FailCross,
        _ => {
            match build_finalization_instruction(program_id, authority_pubkey, game, job) {
                Ok((plan, status)) => JobPlan::Submit(plan, status),
                Err(_) => JobPlan::RetryBuild,
            }
        },
    }
}

/// Release the lease with a retry or a terminal failure, depending on
/// how many attempts the job would then have burned: at
/// `MAX_FINALIZER_ATTEMPTS` and beyond it fails, otherwise it retries
/// after the exponential backoff.
pub fn schedule_retry_or_fail(
    store: &mut MatchStore,
    match_id: i64,
    lock_token: u128,
    attempt_count: i32,
    error_message: &str,
    increment_attempt_count: bool,
    now: i64,
) -> (r: Result<ChainJobStatus, AppError>)
    requires
        old(store).wf(),
        attempt_count >= 0,
    ensures
        final(store).wf(),
        matches_progress(old(store).matches@, final(store).matches@),
        final(store).used_nonces == old(store).used_nonces,
        final(store).next_match_id == old(store).next_match_id,
        final(store).next_job_id == old(store).next_job_id,
        (match r {
            Ok(st) => ({
                let projected = attempt_count + (if increment_attempt_count {
                    1int
                } else {
                    0int
                });
                let jj = job_idx(old(store).jobs@, match_id);
                let j = old(store).jobs@[jj];
                &&& has_job(old(store).jobs@, match_id)
                &&& j.lock_token == Some(lock_token)
                &&& st == (if projected >= MAX_FINALIZER_ATTEMPTS {
                    ChainJobStatus::Failed
                } else {
                    ChainJobStatus::Retrying
                })
                &&& final(store).jobs@ == old(store).jobs@.update(jj, final(store).jobs@[jj])
                &&& retry_fail_job_transform(
                    j,
                    final(store).jobs@[jj],
                    st,
                    error_message@,
                    (if projected >= MAX_FINALIZER_ATTEMPTS {
                        0i64
                    } else {
                        retry_backoff_view(projected) as i64
                    }),
                    increment_attempt_count,
                    now,
                )
            }),
            Err(e) => e is Conflict && *final(store) == *old(store) && (!has_job(
                old(store).jobs@,
                match_id,
            ) || job_of(old(store).jobs@, match_id).lock_token != Some(lock_token)),
        }),
{
    let projected: i32 = if increment_attempt_count {
        if attempt_count < i32::MAX {
            attempt_count + 1
        } else {
            attempt_count
        }
    } else {
        attempt_count
    };
    if projected >= MAX_FINALIZER_ATTEMPTS {
        store.mark_job_failed(match_id, lock_token, error_message, increment_attempt_count, now)
    } else {
        let backoff = retry_backoff_seconds(projected);
        store.mark_job_retrying(
            match_id,
            lock_token,
            error_message,
            backoff,
            increment_attempt_count,
            now,
        )
    }
}

} // verus!

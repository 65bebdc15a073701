//! The match store: every persisted row of the service — matches, their
//! finalization jobs, and consumed HMAC nonces — modeled as one value.
//!
//! Each operation mirrors one transaction of the persistence layer: the
//! same conditional updates, the same coalesce semantics, the same
//! guards. The store invariant [`MatchStore::wf`] and the transition
//! contracts together carry the state-machine laws: statuses only move
//! forward, a confirmed job is frozen, and at most one live lease exists
//! per job.

use vstd::prelude::*;

use crate::codes::join_code_view;
use crate::codes::lemma_join_code_injective;
use crate::enums::ChainJobStatus;
use crate::enums::ChainJobType;
use crate::enums::MatchStatus;
use crate::enums::is_terminal_status;
use crate::enums::status_rank;
use crate::enums::str_eq;
use crate::error::AppError;

verus! {

/// Seconds after which a worker's lease on a job goes stale and the job
/// can be claimed again.
pub const LEASE_SECONDS: i64 = 30;

/// One match row.
#[derive(Debug, Clone)]
pub struct MatchRecord {
    pub match_id: i64,
    pub join_code: String,
    pub program_id: String,
    pub authority_pubkey: String,
    pub game_pda: String,
    pub vault_pda: String,
    pub player1_pubkey: String,
    pub player2_pubkey: Option<String>,
    pub entry_lamports: i64,
    pub match_status: MatchStatus,
    pub winner_pubkey: Option<String>,
    pub finalization_reason_code: Option<String>,
    pub finalization_reason_detail: Option<String>,
    pub result_idempotency_key: Option<String>,
    pub result_reported_at: Option<i64>,
    pub create_tx_sig: Option<String>,
    pub join_tx_sig: Option<String>,
    pub final_tx_sig: Option<String>,
    pub created_onchain_at: Option<i64>,
    pub joined_onchain_at: Option<i64>,
    pub join_expires_at: Option<i64>,
    pub settle_expires_at: Option<i64>,
    pub last_error: Option<String>,
    pub updated_at: i64,
    pub finalized_at: Option<i64>,
}

/// One finalization job row. At most one exists per match.
#[derive(Debug, Clone)]
pub struct ChainJob {
    pub job_id: i64,
    pub match_id: i64,
    pub job_type: ChainJobType,
    pub status: ChainJobStatus,
    pub winner_pubkey: Option<String>,
    pub attempt_count: i32,
    pub last_tx_sig: Option<String>,
    pub last_error: Option<String>,
    pub next_attempt_at: i64,
    pub lock_token: Option<u128>,
    pub locked_at: Option<i64>,
    pub updated_at: i64,
}

/// The whole persisted state.
#[derive(Debug)]
pub struct MatchStore {
    pub matches: Vec<MatchRecord>,
    pub jobs: Vec<ChainJob>,
    pub used_nonces: Vec<String>,
    pub next_match_id: i64,
    pub next_job_id: i64,
}

/// Two optional strings hold the same text.
pub open spec fn opt_str_eq(a: Option<String>, b: Option<String>) -> bool {
    match (a, b) {
        (Option::None, Option::None) => true,
        (Option::Some(x), Option::Some(y)) => x@ == y@,
        _ => false,
    }
}

/// There is a match row with this id.
pub open spec fn has_match(m: Seq<MatchRecord>, id: i64) -> bool {
    exists|i: int| 0 <= i < m.len() && m[i].match_id == id
}

/// Index of the match row with this id.
pub open spec fn match_idx(m: Seq<MatchRecord>, id: i64) -> int {
    choose|i: int| 0 <= i < m.len() && m[i].match_id == id
}

/// The match row with this id.
pub open spec fn match_of(m: Seq<MatchRecord>, id: i64) -> MatchRecord {
    m[match_idx(m, id)]
}

/// There is a job row for this match.
pub open spec fn has_job(js: Seq<ChainJob>, match_id: i64) -> bool {
    exists|i: int| 0 <= i < js.len() && js[i].match_id == match_id
}

/// Index of the job row for this match.
pub open spec fn job_idx(js: Seq<ChainJob>, match_id: i64) -> int {
    choose|i: int| 0 <= i < js.len() && js[i].match_id == match_id
}

/// The job row for this match.
pub open spec fn job_of(js: Seq<ChainJob>, match_id: i64) -> ChainJob {
    js[job_idx(js, match_id)]
}

/// A nonce string is already recorded.
pub open spec fn nonce_used(ns: Seq<String>, nonce: Seq<char>) -> bool {
    exists|i: int| 0 <= i < ns.len() && ns[i]@ == nonce
}

impl MatchStore {
    /// Match rows: unique positive ids below the sequence head, join
    /// codes derived from the id, positive stakes, and an idempotency
    /// key only on matches at or past result submission.
    pub open spec fn wf_matches(self) -> bool {
        &&& 0 < self.next_match_id
        &&& forall|i: int, j: int|
            0 <= i < j < self.matches@.len() ==> #[trigger] self.matches@[i].match_id
                != #[trigger] self.matches@[j].match_id
        &&& forall|i: int|
            0 <= i < self.matches@.len() ==> 0 < #[trigger] self.matches@[i].match_id
                < self.next_match_id
        &&& forall|i: int|
            0 <= i < self.matches@.len() ==> (#[trigger] self.matches@[i].join_code)@
                == join_code_view(self.matches@[i].match_id as int)
        &&& forall|i: int|
            0 <= i < self.matches@.len() ==> #[trigger] self.matches@[i].entry_lamports > 0
        &&& forall|i: int|
            0 <= i < self.matches@.len() ==> ((#[trigger] self.matches@[i].result_idempotency_key)
                is Some ==> status_rank(self.matches@[i].match_status) >= 4)
    }

    /// Job rows: unique ids and match ids, each owned by an existing
    /// match already past result submission; a lease token and its
    /// timestamp come and go together; a confirmed job is unlocked and
    /// its match is terminal and stamped; a terminal match freezes its
    /// job; a winner is recorded exactly on settle jobs.
    pub open spec fn wf_jobs(self) -> bool {
        &&& 0 < self.next_job_id
        &&& forall|i: int, j: int|
            0 <= i < j < self.jobs@.len() ==> #[trigger] self.jobs@[i].match_id
                != #[trigger] self.jobs@[j].match_id
        &&& forall|i: int, j: int|
            0 <= i < j < self.jobs@.len() ==> #[trigger] self.jobs@[i].job_id
                != #[trigger] self.jobs@[j].job_id
        &&& forall|i: int|
            0 <= i < self.jobs@.len() ==> 0 < #[trigger] self.jobs@[i].job_id < self.next_job_id
        &&& forall|i: int|
            0 <= i < self.jobs@.len() ==> has_match(
                self.matches@,
                #[trigger] self.jobs@[i].match_id,
            )
        &&& forall|i: int|
            0 <= i < self.jobs@.len() ==> status_rank(
                match_of(self.matches@, #[trigger] self.jobs@[i].match_id).match_status,
            ) >= 4
        &&& forall|i: int|
            0 <= i < self.jobs@.len() ==> ((#[trigger] self.jobs@[i].lock_token) is Some
                <==> self.jobs@[i].locked_at is Some)
        &&& forall|i: int|
            0 <= i < self.jobs@.len() ==> (#[trigger] self.jobs@[i].status
                == ChainJobStatus::Confirmed ==> self.jobs@[i].lock_token is None
                && is_terminal_status(match_of(self.matches@, self.jobs@[i].match_id).match_status)
                && match_of(self.matches@, self.jobs@[i].match_id).finalized_at is Some)
        &&& forall|i: int|
            0 <= i < self.jobs@.len() ==> (is_terminal_status(
                match_of(self.matches@, #[trigger] self.jobs@[i].match_id).match_status,
            ) ==> self.jobs@[i].status == ChainJobStatus::Confirmed)
        &&& forall|i: int|
            0 <= i < self.jobs@.len() ==> ((#[trigger] self.jobs@[i].winner_pubkey) is Some
                <==> self.jobs@[i].job_type == ChainJobType::Settle)
        &&& forall|i: int| 0 <= i < self.jobs@.len() ==> #[trigger] self.jobs@[i].attempt_count >= 0
        &&& forall|i: int|
            0 <= i < self.matches@.len() ==> (is_terminal_status(
                (#[trigger] self.matches@[i]).match_status,
            ) ==> has_job(self.jobs@, self.matches@[i].match_id))
    }

    /// Nonces: recorded at most once each.
    pub open spec fn wf_nonces(self) -> bool {
        forall|i: int, j: int|
            0 <= i < j < self.used_nonces@.len() ==> (#[trigger] self.used_nonces@[i])@
                != (#[trigger] self.used_nonces@[j])@
    }

    /// The store invariant: every operation requires and preserves it.
    pub open spec fn wf(self) -> bool {
        self.wf_matches() && self.wf_jobs() && self.wf_nonces()
    }

    /// An empty store.
    pub fn new() -> (r: MatchStore)
        ensures
            r.wf(),
            r.matches@.len() == 0,
            r.jobs@.len() == 0,
            r.used_nonces@.len() == 0,
            r.next_match_id == 1,
    {
        MatchStore {
            matches: Vec::new(),
            jobs: Vec::new(),
            used_nonces: Vec::new(),
            next_match_id: 1,
            next_job_id: 1,
        }
    }

    /// Index of the match row with this id, if any.
    fn find_match_index(&self, match_id: i64) -> (r: Option<usize>)
        requires
            self.wf(),
        ensures
            (match r {
                Some(i) => has_match(self.matches@, match_id) && i == match_idx(
                    self.matches@,
                    match_id,
                ) && i < self.matches@.len() && self.matches@[i as int].match_id == match_id,
                None => !has_match(self.matches@, match_id),
            }),
    {
        let n = self.matches.len();
        let mut i: usize = 0;
        while i < n
            invariant
                self.wf(),
                0 <= i <= n,
                n == self.matches@.len(),
                forall|k: int| 0 <= k < i ==> #[trigger] self.matches@[k].match_id != match_id,
            decreases n - i,
        {
            if self.matches[i].match_id == match_id {
                proof {
                    lemma_match_idx_is(self.matches@, match_id, i as int);
                }
                return Some(i);
            }
            i = i + 1;
        }
        None
    }

    /// Index of the job row for this match, if any.
    fn find_job_index(&self, match_id: i64) -> (r: Option<usize>)
        requires
            self.wf(),
        ensures
            (match r {
                Some(i) => has_job(self.jobs@, match_id) && i == job_idx(self.jobs@, match_id)
                    && i < self.jobs@.len() && self.jobs@[i as int].match_id == match_id,
                None => !has_job(self.jobs@, match_id),
            }),
    {
        let n = self.jobs.len();
        let mut i: usize = 0;
        while i < n
            invariant
                self.wf(),
                0 <= i <= n,
                n == self.jobs@.len(),
                forall|k: int| 0 <= k < i ==> #[trigger] self.jobs@[k].match_id != match_id,
            decreases n - i,
        {
            if self.jobs[i].match_id == match_id {
                proof {
                    lemma_job_idx_is(self.jobs@, match_id, i as int);
                }
                return Some(i);
            }
            i = i + 1;
        }
        None
    }

    /// Hand out the next match id from the monotone sequence.
    pub fn reserve_next_match_id(&mut self) -> (r: Result<i64, AppError>)
        requires
            old(self).wf(),
        ensures
            final(self).wf(),
            final(self).matches == old(self).matches,
            final(self).jobs == old(self).jobs,
            final(self).used_nonces == old(self).used_nonces,
            (match r {
                Ok(id) => id == old(self).next_match_id && final(self).next_match_id == id + 1
                    && !has_match(old(self).matches@, id),
                Err(e) => e is Internal && old(self).next_match_id == i64::MAX && *final(self)
                    == *old(self),
            }),
    {
        if self.next_match_id == i64::MAX {
            return Err(AppError::Internal("match id sequence exhausted".to_owned()));
        }
        let id = self.next_match_id;
        self.next_match_id = id + 1;
        Ok(id)
    }

    /// Record a consumed nonce; reports whether it was fresh.
    pub fn insert_nonce_if_unused(&mut self, nonce: &str) -> (fresh: bool)
        requires
            old(self).wf(),
        ensures
            final(self).wf(),
            fresh == !nonce_used(old(self).used_nonces@, nonce@),
            fresh ==> final(self).used_nonces@.len() == old(self).used_nonces@.len() + 1
                && (final(self).used_nonces@[old(self).used_nonces@.len() as int])@ == nonce@
                && (forall|k: int|
                    0 <= k < old(self).used_nonces@.len() ==> final(self).used_nonces@[k] == old(
                        self,
                    ).used_nonces@[k]),
            !fresh ==> final(self).used_nonces == old(self).used_nonces,
            final(self).matches == old(self).matches,
            final(self).jobs == old(self).jobs,
            final(self).next_match_id == old(self).next_match_id,
            final(self).next_job_id == old(self).next_job_id,
            nonce_used(final(self).used_nonces@, nonce@),
    {
        let n = self.used_nonces.len();
        let mut i: usize = 0;
        while i < n
            invariant
                *self == *old(self),
                self.wf(),
                0 <= i <= n,
                n == self.used_nonces@.len(),
                forall|k: int| 0 <= k < i ==> (#[trigger] self.used_nonces@[k])@ != nonce@,
            decreases n - i,
        {
            if str_eq(self.used_nonces[i].as_str(), nonce) {
                return false;
            }
            i = i + 1;
        }
        let owned: String = nonce.to_owned();
        self.used_nonces.push(owned);
        proof {
            assert forall|a: int, b: int|
                0 <= a < b < self.used_nonces@.len() implies (#[trigger] self.used_nonces@[a])@
                != (#[trigger] self.used_nonces@[b])@ by {
                if b == self.used_nonces@.len() - 1 {
                    assert(self.used_nonces@[a] == old(self).used_nonces@[a]);
                }
            }
            assert((self.used_nonces@[old(self).used_nonces@.len() as int])@ == nonce@);
            assert(nonce_used(self.used_nonces@, nonce@));
        }
        true
    }

    /// Insert the row of a freshly created match, in `waiting_create_tx`.
    /// The id must come from the reserved range and carry its own code.
    pub fn insert_create_match_record(
        &mut self,
        match_id: i64,
        join_code: &str,
        params: &CreateMatchRecordParams,
        now: i64,
    ) -> (r: Result<CreatedMatchRecord, AppError>)
        requires
            old(self).wf(),
        ensures
            final(self).wf(),
            matches_progress(old(self).matches@, final(self).matches@),
            (match r {
                Ok(rec) => {
                    &&& 0 < match_id < old(self).next_match_id
                    &&& !has_match(old(self).matches@, match_id)
                    &&& join_code@ == join_code_view(match_id as int)
                    &&& params.entry_lamports > 0
                    &&& rec.match_id == match_id
                    &&& rec.join_code@ == join_code@
                    &&& final(self).matches@.len() == old(self).matches@.len() + 1
                    &&& (forall|k: int|
                        0 <= k < old(self).matches@.len() ==> final(self).matches@[k] == old(
                            self,
                        ).matches@[k])
                    &&& ({
                        let m = final(self).matches@.last();
                        &&& m.match_id == match_id
                        &&& m.join_code@ == join_code@
                        &&& m.program_id@ == params.program_id@
                        &&& m.authority_pubkey@ == params.authority_pubkey@
                        &&& m.player1_pubkey@ == params.player1_pubkey@
                        &&& m.entry_lamports == params.entry_lamports
                        &&& m.game_pda@ == params.game_pda@
                        &&& m.vault_pda@ == params.vault_pda@
                        &&& m.match_status == MatchStatus::WaitingCreateTx
                        &&& m.player2_pubkey is None
                        &&& m.winner_pubkey is None
                        &&& m.finalization_reason_code is None
                        &&& m.finalization_reason_detail is None
                        &&& m.result_idempotency_key is None
                        &&& m.result_reported_at is None
                        &&& m.create_tx_sig is None
                        &&& m.join_tx_sig is None
                        &&& m.final_tx_sig is None
                        &&& m.created_onchain_at is None
                        &&& m.joined_onchain_at is None
                        &&& m.join_expires_at is None
                        &&& m.settle_expires_at is None
                        &&& m.last_error is None
                        &&& m.updated_at == now
                        &&& m.finalized_at is None
                    })
                    &&& final(self).jobs == old(self).jobs
                    &&& final(self).used_nonces == old(self).used_nonces
                    &&& final(self).next_match_id == old(self).next_match_id
                    &&& final(self).next_job_id == old(self).next_job_id
                },
                Err(e) => e is Internal && *final(self) == *old(self) && (match_id <= 0 || match_id
                    >= old(self).next_match_id || has_match(old(self).matches@, match_id)
                    || join_code@ != join_code_view(match_id as int) || params.entry_lamports
                    <= 0),
            }),
    {
        if match_id <= 0 || match_id >= self.next_match_id {
            return Err(AppError::Internal("match_id outside the reserved range".to_owned()));
        }
        if params.entry_lamports <= 0 {
            return Err(AppError::Internal("entry_lamports must be positive".to_owned()));
        }
        if self.find_match_index(match_id).is_some() {
            return Err(AppError::Internal("match already exists".to_owned()));
        }
        let expected = match crate::codes::join_code_from_match_id(match_id) {
            Ok(c) => c,
            Err(_) => {
                return Err(AppError::Internal("match_id must be positive".to_owned()));
            },
        };
        if !str_eq(join_code, expected.as_str()) {
            return Err(AppError::Internal("join_code does not derive from match_id".to_owned()));
        }
        let rec = MatchRecord {
            match_id,
            join_code: join_code.to_owned(),
            program_id: params.program_id.clone(),
            authority_pubkey: params.authority_pubkey.clone(),
            game_pda: params.game_pda.clone(),
            vault_pda: params.vault_pda.clone(),
            player1_pubkey: params.player1_pubkey.clone(),
            player2_pubkey: None,
            entry_lamports: params.entry_lamports,
            match_status: MatchStatus::WaitingCreateTx,
            winner_pubkey: None,
            finalization_reason_code: None,
            finalization_reason_detail: None,
            result_idempotency_key: None,
            result_reported_at: None,
            create_tx_sig: None,
            join_tx_sig: None,
            final_tx_sig: None,
            created_onchain_at: None,
            joined_onchain_at: None,
            join_expires_at: None,
            settle_expires_at: None,
            last_error: None,
            updated_at: now,
            finalized_at: None,
        };
        self.matches.push(rec);
        proof {
            let pre = *old(self);
            let post = *self;
            assert forall|a: int, b: int| 0 <= a < b < post.matches@.len() implies
                #[trigger] post.matches@[a].match_id != #[trigger] post.matches@[b].match_id by {
                if b == post.matches@.len() - 1 {
                    assert(post.matches@[a] == pre.matches@[a]);
                    if pre.matches@[a].match_id == match_id {
                        assert(has_match(pre.matches@, match_id));
                    }
                }
            }
            assert(post.wf_matches());
            assert(post.wf_jobs()) by {
                assert forall|k: int| 0 <= k < post.jobs@.len() implies ({
                    let pj = #[trigger] post.jobs@[k];
                    &&& has_match(post.matches@, pj.match_id)
                    &&& status_rank(match_of(post.matches@, pj.match_id).match_status) >= 4
                    &&& (pj.status == ChainJobStatus::Confirmed ==> is_terminal_status(
                        match_of(post.matches@, pj.match_id).match_status,
                    ) && match_of(post.matches@, pj.match_id).finalized_at is Some)
                    &&& (is_terminal_status(match_of(post.matches@, pj.match_id).match_status)
                        ==> pj.status == ChainJobStatus::Confirmed)
                }) by {
                    let idk = pre.jobs@[k].match_id;
                    let w = match_idx(pre.matches@, idk);
                    assert(has_match(pre.matches@, idk));
                    lemma_match_idx_is(pre.matches@, idk, w);
                    assert(post.matches@[w].match_id == idk);
                    lemma_match_idx_is(post.matches@, idk, w);
                    assert(match_of(post.matches@, idk) == match_of(pre.matches@, idk));
                }
                assert forall|k: int| 0 <= k < post.matches@.len() implies (is_terminal_status(
                    (#[trigger] post.matches@[k]).match_status,
                ) ==> has_job(post.jobs@, post.matches@[k].match_id)) by {
                    if k < pre.matches@.len() {
                        assert(post.matches@[k] == pre.matches@[k]);
                    } else {
                        assert(post.matches@[k].match_status == MatchStatus::WaitingCreateTx);
                    }
                }
            }
        }
        Ok(CreatedMatchRecord { match_id, join_code: join_code.to_owned() })
    }

    /// Read the lookup projection of the match with this join code.
    pub fn get_match_lookup_by_join_code(&self, join_code: &str) -> (r: Option<MatchLookupRecord>)
        requires
            self.wf(),
        ensures
            (match r {
                Some(rec) => has_code(self.matches@, join_code@) && is_lookup_of(
                    rec,
                    self.matches@[code_idx(self.matches@, join_code@)],
                ),
                None => !has_code(self.matches@, join_code@),
            }),
    {
        let n = self.matches.len();
        let mut i: usize = 0;
        while i < n
            invariant
                self.wf(),
                0 <= i <= n,
                n == self.matches@.len(),
                forall|k: int| 0 <= k < i ==> (#[trigger] self.matches@[k].join_code)@ != join_code@,
            decreases n - i,
        {
            let m = &self.matches[i];
            if str_eq(m.join_code.as_str(), join_code) {
                proof {
                    lemma_code_idx_is(*self, join_code@, i as int);
                }
                return Some(MatchLookupRecord {
                    match_id: m.match_id,
                    join_code: m.join_code.clone(),
                    game_pda: m.game_pda.clone(),
                    vault_pda: m.vault_pda.clone(),
                    player1_pubkey: m.player1_pubkey.clone(),
                    entry_lamports: m.entry_lamports,
                    match_status: m.match_status,
                    join_expires_at: m.join_expires_at,
                });
            }
            i = i + 1;
        }
        None
    }


    /// Read the lookup projection of the match whose join code has
    /// exactly these UTF-8 bytes.
    pub fn get_match_lookup_by_code_bytes(&self, code: &[u8]) -> (r: Option<MatchLookupRecord>)
        requires
            self.wf(),
        ensures
            (match r {
                Some(rec) => exists|i: int|
                    0 <= i < self.matches@.len() && vstd::utf8::encode_utf8(
                        (#[trigger] self.matches@[i]).join_code@,
                    ) == code@ && is_lookup_of(rec, self.matches@[i]),
                None => forall|i: int|
                    0 <= i < self.matches@.len() ==> vstd::utf8::encode_utf8(
                        (#[trigger] self.matches@[i]).join_code@,
                    ) != code@,
            }),
    {
        let n = self.matches.len();
        let mut i: usize = 0;
        while i < n
            invariant
                self.wf(),
                0 <= i <= n,
                n == self.matches@.len(),
                forall|k: int|
                    0 <= k < i ==> vstd::utf8::encode_utf8(
                        (#[trigger] self.matches@[k]).join_code@,
                    ) != code@,
            decreases n - i,
        {
            let m = &self.matches[i];
            if crate::bytes::bytes_eq(m.join_code.as_str().as_bytes(), code) {
                return Some(MatchLookupRecord {
                    match_id: m.match_id,
                    join_code: m.join_code.clone(),
                    game_pda: m.game_pda.clone(),
                    vault_pda: m.vault_pda.clone(),
                    player1_pubkey: m.player1_pubkey.clone(),
                    entry_lamports: m.entry_lamports,
                    match_status: m.match_status,
                    join_expires_at: m.join_expires_at,
                });
            }
            i = i + 1;
        }
        None
    }

    /// Read the projection checked by create-confirm.
    pub fn get_match_for_create_confirm(&self, match_id: i64) -> (r: Option<
        CreateConfirmMatchRecord,
    >)
        requires
            self.wf(),
        ensures
            (match r {
                Some(rec) => has_match(self.matches@, match_id) && is_create_confirm_of(
                    rec,
                    match_of(self.matches@, match_id),
                ),
                None => !has_match(self.matches@, match_id),
            }),
    {
        match self.find_match_index(match_id) {
            Some(i) => {
                let m = &self.matches[i];
                let sig = match &m.create_tx_sig {
                    Some(s) => Some(s.clone()),
                    None => None,
                };
                Some(CreateConfirmMatchRecord {
                    match_id: m.match_id,
                    player1_pubkey: m.player1_pubkey.clone(),
                    authority_pubkey: m.authority_pubkey.clone(),
                    game_pda: m.game_pda.clone(),
                    entry_lamports: m.entry_lamports,
                    match_status: m.match_status,
                    create_tx_sig: sig,
                    join_expires_at: m.join_expires_at,
                })
            },
            None => None,
        }
    }

    /// Read the projection checked by join-confirm.
    pub fn get_match_for_join_confirm(&self, match_id: i64) -> (r: Option<JoinConfirmMatchRecord>)
        requires
            self.wf(),
        ensures
            (match r {
                Some(rec) => has_match(self.matches@, match_id) && is_join_confirm_of(
                    rec,
                    match_of(self.matches@, match_id),
                ),
                None => !has_match(self.matches@, match_id),
            }),
    {
        match self.find_match_index(match_id) {
            Some(i) => {
                let m = &self.matches[i];
                let p2 = match &m.player2_pubkey {
                    Some(s) => Some(s.clone()),
                    None => None,
                };
                let sig = match &m.join_tx_sig {
                    Some(s) => Some(s.clone()),
                    None => None,
                };
                Some(JoinConfirmMatchRecord {
                    match_id: m.match_id,
                    player1_pubkey: m.player1_pubkey.clone(),
                    player2_pubkey: p2,
                    authority_pubkey: m.authority_pubkey.clone(),
                    game_pda: m.game_pda.clone(),
                    entry_lamports: m.entry_lamports,
                    match_status: m.match_status,
                    join_tx_sig: sig,
                    settle_expires_at: m.settle_expires_at,
                })
            },
            None => None,
        }
    }

    /// Confirm the create transaction: step the status forward from
    /// waiting and fill the signature and stamps if still empty.
    pub fn mark_match_created_on_chain(
        &mut self,
        match_id: i64,
        create_tx_sig: &str,
        created_onchain_at: i64,
        join_expires_at: i64,
        now: i64,
    ) -> (r: Result<CreateConfirmUpdateResult, AppError>)
        requires
            old(self).wf(),
        ensures
            final(self).wf(),
            matches_progress(old(self).matches@, final(self).matches@),
            final(self).jobs == old(self).jobs,
            final(self).used_nonces == old(self).used_nonces,
            final(self).next_match_id == old(self).next_match_id,
            final(self).next_job_id == old(self).next_job_id,
            (match r {
                Ok(u) => ({
                    let i = match_idx(old(self).matches@, match_id);
                    &&& has_match(old(self).matches@, match_id)
                    &&& final(self).matches@ == old(self).matches@.update(
                        i,
                        final(self).matches@[i],
                    )
                    &&& create_confirm_transform(
                        old(self).matches@[i],
                        final(self).matches@[i],
                        create_tx_sig@,
                        created_onchain_at,
                        join_expires_at,
                        now,
                    )
                    &&& u.match_id == match_id
                    &&& u.match_status == final(self).matches@[i].match_status
                    &&& opt_str_eq(u.create_tx_sig, final(self).matches@[i].create_tx_sig)
                    &&& u.join_expires_at == final(self).matches@[i].join_expires_at
                }),
                Err(e) => e is Internal && !has_match(old(self).matches@, match_id) && *final(self)
                    == *old(self),
            }),
    {
        let i = match self.find_match_index(match_id) {
            Some(i) => i,
            None => {
                return Err(AppError::Internal("match not found for create-confirm".to_owned()));
            },
        };
        let mut rec = clone_match_record(&self.matches[i]);
        if rec.match_status == MatchStatus::WaitingCreateTx {
            rec.match_status = MatchStatus::CreatedOnChain;
        }
        if rec.create_tx_sig.is_none() {
            rec.create_tx_sig = Some(create_tx_sig.to_owned());
        }
        if rec.created_onchain_at.is_none() {
            rec.created_onchain_at = Some(created_onchain_at);
        }
        if rec.join_expires_at.is_none() {
            rec.join_expires_at = Some(join_expires_at);
        }
        rec.updated_at = now;
        let out_sig = clone_opt_string(&rec.create_tx_sig);
        let out = CreateConfirmUpdateResult {
            match_id,
            match_status: rec.match_status,
            create_tx_sig: out_sig,
            join_expires_at: rec.join_expires_at,
        };
        self.matches[i] = rec;
        proof {
            let pre = *old(self);
            let post = *self;
            if has_job(pre.jobs@, match_id) {
                let jk = job_idx(pre.jobs@, match_id);
                lemma_match_idx_is(pre.matches@, match_id, i as int);
                assert(status_rank(match_of(pre.matches@, match_id).match_status) >= 4);
            }
            lemma_wf_after_update(pre, post, i as int, false, false, 0);
        }
        Ok(out)
    }

    /// Confirm the join transaction: step the status forward from
    /// created and fill the second player, signature and stamps if
    /// still empty. A second player different from the recorded one is
    /// a conflict.
    pub fn mark_match_joined_on_chain(
        &mut self,
        match_id: i64,
        player2_pubkey: &str,
        join_tx_sig: &str,
        joined_onchain_at: i64,
        settle_expires_at: i64,
        now: i64,
    ) -> (r: Result<JoinConfirmUpdateResult, AppError>)
        requires
            old(self).wf(),
        ensures
            final(self).wf(),
            matches_progress(old(self).matches@, final(self).matches@),
            final(self).jobs == old(self).jobs,
            final(self).used_nonces == old(self).used_nonces,
            final(self).next_match_id == old(self).next_match_id,
            final(self).next_job_id == old(self).next_job_id,
            (match r {
                Ok(u) => ({
                    let i = match_idx(old(self).matches@, match_id);
                    &&& has_match(old(self).matches@, match_id)
                    &&& (match old(self).matches@[i].player2_pubkey {
                        Some(p) => p@ == player2_pubkey@,
                        None => true,
                    })
                    &&& final(self).matches@ == old(self).matches@.update(
                        i,
                        final(self).matches@[i],
                    )
                    &&& join_confirm_transform(
                        old(self).matches@[i],
                        final(self).matches@[i],
                        player2_pubkey@,
                        join_tx_sig@,
                        joined_onchain_at,
                        settle_expires_at,
                        now,
                    )
                    &&& u.match_id == match_id
                    &&& u.match_status == final(self).matches@[i].match_status
                    &&& opt_str_eq(u.player2_pubkey, final(self).matches@[i].player2_pubkey)
                    &&& opt_str_eq(u.join_tx_sig, final(self).matches@[i].join_tx_sig)
                    &&& u.settle_expires_at == final(self).matches@[i].settle_expires_at
                }),
                Err(e) => e is Conflict && *final(self) == *old(self) && (!has_match(
                    old(self).matches@,
                    match_id,
                ) || (match match_of(old(self).matches@, match_id).player2_pubkey {
                    Some(p) => p@ != player2_pubkey@,
                    None => false,
                })),
            }),
    {
        let i = match self.find_match_index(match_id) {
            Some(i) => i,
            None => {
                return Err(
                    AppError::Conflict(
                        "join-confirm update rejected due to player2 mismatch".to_owned(),
                    ),
                );
            },
        };
        let p2_mismatch = match &self.matches[i].player2_pubkey {
            Some(p) => !str_eq(p.as_str(), player2_pubkey),
            None => false,
        };
        if p2_mismatch {
            return Err(
                AppError::Conflict(
                    "join-confirm update rejected due to player2 mismatch".to_owned(),
                ),
            );
        }
        let mut rec = clone_match_record(&self.matches[i]);
        if rec.match_status == MatchStatus::CreatedOnChain {
            rec.match_status = MatchStatus::JoinedOnChain;
        }
        if rec.player2_pubkey.is_none() {
            rec.player2_pubkey = Some(player2_pubkey.to_owned());
        }
        if rec.join_tx_sig.is_none() {
            rec.join_tx_sig = Some(join_tx_sig.to_owned());
        }
        if rec.joined_onchain_at.is_none() {
            rec.joined_onchain_at = Some(joined_onchain_at);
        }
        if rec.settle_expires_at.is_none() {
            rec.settle_expires_at = Some(settle_expires_at);
        }
        rec.updated_at = now;
        let out_p2 = clone_opt_string(&rec.player2_pubkey);
        let out_sig = clone_opt_string(&rec.join_tx_sig);
        let out = JoinConfirmUpdateResult {
            match_id,
            player2_pubkey: out_p2,
            match_status: rec.match_status,
            join_tx_sig: out_sig,
            settle_expires_at: rec.settle_expires_at,
        };
        self.matches[i] = rec;
        proof {
            let pre = *old(self);
            let post = *self;
            if has_job(pre.jobs@, match_id) {
                let jk = job_idx(pre.jobs@, match_id);
                lemma_match_idx_is(pre.matches@, match_id, i as int);
                assert(status_rank(match_of(pre.matches@, match_id).match_status) >= 4);
            }
            lemma_wf_after_update(pre, post, i as int, false, false, 0);
        }
        Ok(out)
    }
    /// Read the full status projection of a match, joined with its job.
    pub fn get_match_status_record(&self, match_id: i64) -> (r: Option<MatchStatusRecord>)
        requires
            self.wf(),
        ensures
            (match r {
                Some(rec) => ({
                    let m = match_of(self.matches@, match_id);
                    &&& has_match(self.matches@, match_id)
                    &&& rec.match_id == m.match_id
                    &&& rec.join_code@ == m.join_code@
                    &&& rec.program_id@ == m.program_id@
                    &&& rec.authority_pubkey@ == m.authority_pubkey@
                    &&& rec.game_pda@ == m.game_pda@
                    &&& rec.vault_pda@ == m.vault_pda@
                    &&& rec.player1_pubkey@ == m.player1_pubkey@
                    &&& opt_str_eq(rec.player2_pubkey, m.player2_pubkey)
                    &&& rec.entry_lamports == m.entry_lamports
                    &&& rec.match_status == m.match_status
                    &&& opt_str_eq(rec.winner_pubkey, m.winner_pubkey)
                    &&& opt_str_eq(rec.finalization_reason_code, m.finalization_reason_code)
                    &&& opt_str_eq(rec.create_tx_sig, m.create_tx_sig)
                    &&& opt_str_eq(rec.join_tx_sig, m.join_tx_sig)
                    &&& rec.join_expires_at == m.join_expires_at
                    &&& rec.settle_expires_at == m.settle_expires_at
                    &&& (if has_job(self.jobs@, match_id) {
                        let j = job_of(self.jobs@, match_id);
                        &&& rec.chain_job_type == Some(j.job_type)
                        &&& rec.chain_job_status == Some(j.status)
                        &&& (m.final_tx_sig is Some ==> opt_str_eq(rec.final_tx_sig, m.final_tx_sig))
                        &&& (m.final_tx_sig is None ==> opt_str_eq(rec.final_tx_sig, j.last_tx_sig))
                        &&& (j.last_error is Some ==> opt_str_eq(rec.last_error, j.last_error))
                        &&& (j.last_error is None ==> opt_str_eq(rec.last_error, m.last_error))
                        &&& rec.updated_at == (if j.updated_at > m.updated_at {
                            j.updated_at
                        } else {
                            m.updated_at
                        })
                    } else {
                        &&& rec.chain_job_type is None
                        &&& rec.chain_job_status is None
                        &&& opt_str_eq(rec.final_tx_sig, m.final_tx_sig)
                        &&& opt_str_eq(rec.last_error, m.last_error)
                        &&& rec.updated_at == m.updated_at
                    })
                }),
                None => !has_match(self.matches@, match_id),
            }),
    {
        let i = match self.find_match_index(match_id) {
            Some(i) => i,
            None => {
                return None;
            },
        };
        let m = &self.matches[i];
        let mut rec = MatchStatusRecord {
            match_id: m.match_id,
            join_code: m.join_code.clone(),
            program_id: m.program_id.clone(),
            authority_pubkey: m.authority_pubkey.clone(),
            game_pda: m.game_pda.clone(),
            vault_pda: m.vault_pda.clone(),
            player1_pubkey: m.player1_pubkey.clone(),
            player2_pubkey: clone_opt_string(&m.player2_pubkey),
            entry_lamports: m.entry_lamports,
            match_status: m.match_status,
            chain_job_type: None,
            chain_job_status: None,
            winner_pubkey: clone_opt_string(&m.winner_pubkey),
            finalization_reason_code: clone_opt_string(&m.finalization_reason_code),
            create_tx_sig: clone_opt_string(&m.create_tx_sig),
            join_tx_sig: clone_opt_string(&m.join_tx_sig),
            final_tx_sig: clone_opt_string(&m.final_tx_sig),
            join_expires_at: m.join_expires_at,
            settle_expires_at: m.settle_expires_at,
            last_error: clone_opt_string(&m.last_error),
            updated_at: m.updated_at,
        };
        match self.find_job_index(match_id) {
            Some(jj) => {
                let j = &self.jobs[jj];
                rec.chain_job_type = Some(j.job_type);
                rec.chain_job_status = Some(j.status);
                if rec.final_tx_sig.is_none() {
                    rec.final_tx_sig = clone_opt_string(&j.last_tx_sig);
                }
                if j.last_error.is_some() {
                    rec.last_error = clone_opt_string(&j.last_error);
                }
                if j.updated_at > rec.updated_at {
                    rec.updated_at = j.updated_at;
                }
            },
            None => {},
        }
        Some(rec)
    }

    /// The result-submission transaction: conditionally stamp the match
    /// with the reported outcome and enqueue (or touch) its job. Both
    /// steps happen together or not at all; any recorded field that
    /// disagrees with the request is a conflict.
    pub fn persist_result_and_enqueue(
        &mut self,
        params: &PersistResultAndEnqueueParams,
        now: i64,
    ) -> (r: Result<PersistResultAndEnqueueResult, AppError>)
        requires
            old(self).wf(),
            params.winner_pubkey is Some <==> params.job_type == ChainJobType::Settle,
        ensures
            final(self).wf(),
            jobs_confirmed_frozen(old(self).jobs@, final(self).jobs@),
            matches_progress(old(self).matches@, final(self).matches@),
            final(self).used_nonces == old(self).used_nonces,
            final(self).next_match_id == old(self).next_match_id,
            (match r {
                Ok(res) => ({
                    let i = match_idx(old(self).matches@, params.match_id);
                    let m = old(self).matches@[i];
                    &&& has_match(old(self).matches@, params.match_id)
                    &&& result_update_allowed(
                        m,
                        params.idempotency_key@,
                        opt_view(params.winner_pubkey),
                        params.reason_code@,
                    )
                    &&& final(self).matches@ == old(self).matches@.update(
                        i,
                        final(self).matches@[i],
                    )
                    &&& result_match_transform(
                        m,
                        final(self).matches@[i],
                        params.idempotency_key@,
                        opt_view(params.winner_pubkey),
                        params.reason_code@,
                        opt_view(params.reason_detail),
                        now,
                    )
                    &&& res.match_status == final(self).matches@[i].match_status
                    &&& (if has_job(old(self).jobs@, params.match_id) {
                        let jj = job_idx(old(self).jobs@, params.match_id);
                        let j = old(self).jobs@[jj];
                        &&& j.job_type == params.job_type
                        &&& opt_view(j.winner_pubkey) == opt_view(params.winner_pubkey)
                        &&& final(self).jobs@ == old(self).jobs@.update(
                            jj,
                            final(self).jobs@[jj],
                        )
                        &&& final(self).jobs@[jj] == (ChainJob { updated_at: now, ..j })
                        &&& res.chain_job_type == j.job_type
                        &&& res.chain_job_status == j.status
                        &&& final(self).next_job_id == old(self).next_job_id
                    } else {
                        &&& final(self).jobs@.len() == old(self).jobs@.len() + 1
                        &&& (forall|k: int|
                            0 <= k < old(self).jobs@.len() ==> final(self).jobs@[k] == old(
                                self,
                            ).jobs@[k])
                        &&& is_fresh_job(
                            final(self).jobs@.last(),
                            old(self).next_job_id,
                            params.match_id,
                            params.job_type,
                            opt_view(params.winner_pubkey),
                            now,
                        )
                        &&& res.chain_job_type == params.job_type
                        &&& res.chain_job_status == ChainJobStatus::Pending
                        &&& final(self).next_job_id == old(self).next_job_id + 1
                    })
                }),
                Err(e) => *final(self) == *old(self) && (if !has_match(
                    old(self).matches@,
                    params.match_id,
                ) || !result_update_allowed(
                    match_of(old(self).matches@, params.match_id),
                    params.idempotency_key@,
                    opt_view(params.winner_pubkey),
                    params.reason_code@,
                ) || (has_job(old(self).jobs@, params.match_id) && !(job_of(
                    old(self).jobs@,
                    params.match_id,
                ).job_type == params.job_type && opt_view(
                    job_of(old(self).jobs@, params.match_id).winner_pubkey,
                ) == opt_view(params.winner_pubkey))) {
                    e is Conflict
                } else {
                    e is Internal && old(self).next_job_id == i64::MAX && !has_job(
                        old(self).jobs@,
                        params.match_id,
                    )
                }),
            }),
    {
        let i = match self.find_match_index(params.match_id) {
            Some(i) => i,
            None => {
                return Err(
                    AppError::Conflict(
                        "result conflicts with existing match finalization state or idempotency key".to_owned(),
                    ),
                );
            },
        };
        let allowed = {
            let m = &self.matches[i];
            let idem_matches = match &m.result_idempotency_key {
                Some(k) => str_eq(k.as_str(), params.idempotency_key.as_str()),
                None => false,
            };
            let status_ok = m.match_status == MatchStatus::JoinedOnChain || m.match_status
                == MatchStatus::InProgress || idem_matches;
            let idem_ok = m.result_idempotency_key.is_none() || idem_matches;
            let winner_ok = match &m.winner_pubkey {
                Some(w) => match &params.winner_pubkey {
                    Some(x) => str_eq(w.as_str(), x.as_str()),
                    None => false,
                },
                None => true,
            };
            let reason_ok = match &m.finalization_reason_code {
                Some(c) => str_eq(c.as_str(), params.reason_code.as_str()),
                None => true,
            };
            status_ok && idem_ok && winner_ok && reason_ok
        };
        if !allowed {
            return Err(
                AppError::Conflict(
                    "result conflicts with existing match finalization state or idempotency key".to_owned(),
                ),
            );
        }
        let existing = self.find_job_index(params.match_id);
        let (job_type_out, job_status_out) = match existing {
            Some(jj) => {
                let j = &self.jobs[jj];
                let same_type = j.job_type == params.job_type;
                let same_winner = match (&j.winner_pubkey, &params.winner_pubkey) {
                    (Some(a), Some(b)) => str_eq(a.as_str(), b.as_str()),
                    (None, None) => true,
                    _ => false,
                };
                if !(same_type && same_winner) {
                    return Err(
                        AppError::Conflict(
                            "existing chain job conflicts with submitted result".to_owned(),
                        ),
                    );
                }
                (j.job_type, j.status)
            },
            None => {
                if self.next_job_id == i64::MAX {
                    return Err(AppError::Internal("job id sequence exhausted".to_owned()));
                }
                (params.job_type, ChainJobStatus::Pending)
            },
        };
        // Commit point: every guard passed, rewrite the match row.
        let mut rec = clone_match_record(&self.matches[i]);
        if rec.match_status == MatchStatus::JoinedOnChain || rec.match_status
            == MatchStatus::InProgress {
            rec.match_status = MatchStatus::ResultPendingFinalize;
        }
        if rec.finalization_reason_code.is_none() {
            rec.finalization_reason_code = Some(params.reason_code.clone());
        }
        if rec.finalization_reason_detail.is_none() {
            rec.finalization_reason_detail = clone_opt_string(&params.reason_detail);
        }
        if rec.winner_pubkey.is_none() {
            rec.winner_pubkey = clone_opt_string(&params.winner_pubkey);
        }
        if rec.result_idempotency_key.is_none() {
            rec.result_idempotency_key = Some(params.idempotency_key.clone());
        }
        if rec.result_reported_at.is_none() {
            rec.result_reported_at = Some(now);
        }
        rec.updated_at = now;
        let out_status = rec.match_status;
        self.matches[i] = rec;
        match existing {
            Some(jj) => {
                let mut j2 = clone_chain_job(&self.jobs[jj]);
                j2.updated_at = now;
                self.jobs[jj] = j2;
            },
            None => {
                let job = ChainJob {
                    job_id: self.next_job_id,
                    match_id: params.match_id,
                    job_type: params.job_type,
                    status: ChainJobStatus::Pending,
                    winner_pubkey: clone_opt_string(&params.winner_pubkey),
                    attempt_count: 0,
                    last_tx_sig: None,
                    last_error: None,
                    next_attempt_at: now,
                    lock_token: None,
                    locked_at: None,
                    updated_at: now,
                };
                self.jobs.push(job);
                self.next_job_id = self.next_job_id + 1;
            },
        }
        proof {
            let pre = *old(self);
            let post = *self;
            if has_job(pre.jobs@, params.match_id) {
                let jj = job_idx(pre.jobs@, params.match_id);
                lemma_match_idx_is(pre.matches@, params.match_id, i as int);
                assert(status_rank(match_of(pre.matches@, params.match_id).match_status) >= 4);
                lemma_wf_after_update(pre, post, i as int, true, false, jj);
            } else {
                lemma_match_idx_is(pre.matches@, params.match_id, i as int);
                lemma_wf_after_update(pre, post, i as int, true, true, pre.jobs@.len() as int);
            }
        }
        Ok(PersistResultAndEnqueueResult {
            match_status: out_status,
            chain_job_type: job_type_out,
            chain_job_status: job_status_out,
        })
    }
    /// Take a lease on the most overdue runnable job, if any: lowest
    /// `(next_attempt_at, id)` among jobs that are due and whose lease
    /// is absent or stale. The claimed row gets this token and a fresh
    /// lease stamp.
    pub fn claim_with_token(&mut self, now: i64, token: u128) -> (r: Option<ClaimedFinalizerJob>)
        requires
            old(self).wf(),
        ensures
            final(self).wf(),
            jobs_confirmed_frozen(old(self).jobs@, final(self).jobs@),
            final(self).matches == old(self).matches,
            final(self).used_nonces == old(self).used_nonces,
            final(self).next_match_id == old(self).next_match_id,
            final(self).next_job_id == old(self).next_job_id,
            matches_progress(old(self).matches@, final(self).matches@),
            (match r {
                Some(c) => ({
                    let jj = job_idx(old(self).jobs@, c.match_id);
                    let j = old(self).jobs@[jj];
                    let m = match_of(old(self).matches@, c.match_id);
                    &&& has_job(old(self).jobs@, c.match_id)
                    &&& job_due(j, now)
                    &&& (forall|k: int|
                        0 <= k < old(self).jobs@.len() && job_due(
                            #[trigger] old(self).jobs@[k],
                            now,
                        ) && k != jj ==> job_before(j, old(self).jobs@[k]))
                    &&& c.chain_job_id == j.job_id
                    &&& c.lock_token == token
                    &&& c.job_type == j.job_type
                    &&& c.chain_job_status == j.status
                    &&& opt_str_eq(c.winner_pubkey, j.winner_pubkey)
                    &&& c.attempt_count == j.attempt_count
                    &&& opt_str_eq(c.last_tx_sig, j.last_tx_sig)
                    &&& c.game_pda@ == m.game_pda@
                    &&& c.vault_pda@ == m.vault_pda@
                    &&& final(self).jobs@ == old(self).jobs@.update(jj, final(self).jobs@[jj])
                    &&& final(self).jobs@[jj] == (ChainJob {
                        lock_token: Some(token),
                        locked_at: Some(now),
                        updated_at: now,
                        ..j
                    })
                }),
                None => *final(self) == *old(self) && (forall|k: int|
                    0 <= k < old(self).jobs@.len() ==> !job_due(
                        #[trigger] old(self).jobs@[k],
                        now,
                    )),
            }),
    {
        let n = self.jobs.len();
        let mut best: Option<usize> = None;
        let mut i: usize = 0;
        while i < n
            invariant
                *self == *old(self),
                self.wf(),
                0 <= i <= n,
                n == self.jobs@.len(),
                (match best {
                    Some(b) => b < i && job_due(self.jobs@[b as int], now) && (forall|k: int|
                        0 <= k < i && job_due(#[trigger] self.jobs@[k], now) && k != b
                            ==> job_before(self.jobs@[b as int], self.jobs@[k])),
                    None => forall|k: int| 0 <= k < i ==> !job_due(#[trigger] self.jobs@[k], now),
                }),
            decreases n - i,
        {
            let j = &self.jobs[i];
            let runnable = j.status == ChainJobStatus::Pending || j.status
                == ChainJobStatus::Retrying || j.status == ChainJobStatus::Submitted;
            let lease_free = match (j.lock_token, j.locked_at) {
                (Some(_), Some(l)) => now >= i64::MIN + LEASE_SECONDS && l < now - LEASE_SECONDS,
                _ => true,
            };
            if runnable && j.next_attempt_at <= now && lease_free {
                match best {
                    Some(b) => {
                        let cur_at = self.jobs[i].next_attempt_at;
                        let cur_id = self.jobs[i].job_id;
                        let best_at = self.jobs[b].next_attempt_at;
                        let best_id = self.jobs[b].job_id;
                        if cur_at < best_at || (cur_at == best_at && cur_id < best_id) {
                            best = Some(i);
                        }
                    },
                    None => {
                        best = Some(i);
                    },
                }
            }
            i = i + 1;
        }
        let bi = match best {
            Some(b) => b,
            None => {
                return None;
            },
        };
        let mut j2 = clone_chain_job(&self.jobs[bi]);
        let match_id = j2.match_id;
        let mi = match self.find_match_index(match_id) {
            Some(mi) => mi,
            None => {
                proof {
                    assert(has_match(self.matches@, match_id));
                }
                // Unreachable: a job's match always exists.
                return None;
            },
        };
        let claimed = ClaimedFinalizerJob {
            chain_job_id: j2.job_id,
            match_id,
            lock_token: token,
            job_type: j2.job_type,
            chain_job_status: j2.status,
            winner_pubkey: clone_opt_string(&j2.winner_pubkey),
            attempt_count: j2.attempt_count,
            last_tx_sig: clone_opt_string(&j2.last_tx_sig),
            game_pda: self.matches[mi].game_pda.clone(),
            vault_pda: self.matches[mi].vault_pda.clone(),
        };
        j2.lock_token = Some(token);
        j2.locked_at = Some(now);
        j2.updated_at = now;
        self.jobs[bi] = j2;
        proof {
            let pre = *old(self);
            let post = *self;
            lemma_job_idx_is(pre.jobs@, match_id, bi as int);
            lemma_match_idx_is(pre.matches@, match_id, mi as int);
            assert(post.matches@ =~= pre.matches@.update(mi as int, post.matches@[mi as int]));
            assert(!is_terminal_status(pre.matches@[mi as int].match_status)) by {
                if is_terminal_status(pre.matches@[mi as int].match_status) {
                    assert(match_of(pre.matches@, match_id) == pre.matches@[mi as int]);
                    assert(pre.jobs@[bi as int].status == ChainJobStatus::Confirmed);
                }
            }
            assert(status_rank(pre.matches@[mi as int].match_status) >= 4) by {
                assert(match_of(pre.matches@, match_id) == pre.matches@[mi as int]);
            }
            lemma_wf_after_update(pre, post, mi as int, true, false, bi as int);
        }
        Some(claimed)
    }

    /// Claim the next due job under a freshly drawn random lease token.
    pub fn claim_next_due_finalizer_job(&mut self, now: i64) -> (r: Option<ClaimedFinalizerJob>)
        requires
            old(self).wf(),
        ensures
            final(self).wf(),
            jobs_confirmed_frozen(old(self).jobs@, final(self).jobs@),
            final(self).matches == old(self).matches,
            final(self).used_nonces == old(self).used_nonces,
            final(self).next_match_id == old(self).next_match_id,
            final(self).next_job_id == old(self).next_job_id,
            (match r {
                Some(c) => ({
                    let jj = job_idx(old(self).jobs@, c.match_id);
                    let j = old(self).jobs@[jj];
                    &&& has_job(old(self).jobs@, c.match_id)
                    &&& job_due(j, now)
                    &&& (forall|k: int|
                        0 <= k < old(self).jobs@.len() && job_due(
                            #[trigger] old(self).jobs@[k],
                            now,
                        ) && k != jj ==> job_before(j, old(self).jobs@[k]))
                    &&& c.chain_job_id == j.job_id
                    &&& c.job_type == j.job_type
                    &&& c.chain_job_status == j.status
                    &&& opt_str_eq(c.winner_pubkey, j.winner_pubkey)
                    &&& c.attempt_count == j.attempt_count
                    &&& opt_str_eq(c.last_tx_sig, j.last_tx_sig)
                    &&& c.game_pda@ == match_of(old(self).matches@, c.match_id).game_pda@
                    &&& c.vault_pda@ == match_of(old(self).matches@, c.match_id).vault_pda@
                    &&& final(self).jobs@ == old(self).jobs@.update(jj, final(self).jobs@[jj])
                    &&& final(self).jobs@[jj] == (ChainJob {
                        lock_token: Some(c.lock_token),
                        locked_at: Some(now),
                        updated_at: now,
                        ..j
                    })
                }),
                None => *final(self) == *old(self) && (forall|k: int|
                    0 <= k < old(self).jobs@.len() ==> !job_due(
                        #[trigger] old(self).jobs@[k],
                        now,
                    )),
            }),
    {
        let token = crate::crypto::fresh_lock_token();
        self.claim_with_token(now, token)
    }

    /// Record a submitted transaction on the leased job and move the
    /// match on to `finalizing`. A lost lease is a conflict.
    pub fn mark_job_submitted(
        &mut self,
        match_id: i64,
        lock_token: u128,
        tx_sig: &str,
        now: i64,
    ) -> (r: Result<(), AppError>)
        requires
            old(self).wf(),
        ensures
            final(self).wf(),
            jobs_confirmed_frozen(old(self).jobs@, final(self).jobs@),
            matches_progress(old(self).matches@, final(self).matches@),
            final(self).used_nonces == old(self).used_nonces,
            final(self).next_match_id == old(self).next_match_id,
            final(self).next_job_id == old(self).next_job_id,
            (match r {
                Ok(()) => ({
                    let jj = job_idx(old(self).jobs@, match_id);
                    let j = old(self).jobs@[jj];
                    let mi = match_idx(old(self).matches@, match_id);
                    &&& has_job(old(self).jobs@, match_id)
                    &&& j.lock_token == Some(lock_token)
                    &&& final(self).jobs@ == old(self).jobs@.update(jj, final(self).jobs@[jj])
                    &&& submitted_job_transform(j, final(self).jobs@[jj], tx_sig@, now)
                    &&& final(self).matches@ == old(self).matches@.update(
                        mi,
                        final(self).matches@[mi],
                    )
                    &&& worker_match_transform(
                        old(self).matches@[mi],
                        final(self).matches@[mi],
                        true,
                        None,
                        now,
                    )
                }),
                Err(e) => e is Conflict && *final(self) == *old(self) && (!has_job(
                    old(self).jobs@,
                    match_id,
                ) || job_of(old(self).jobs@, match_id).lock_token != Some(lock_token)),
            }),
    {
        let jj = match self.find_job_index(match_id) {
            Some(jj) => jj,
            None => {
                return Err(
                    AppError::Conflict(
                        "chain job submit update lost lock or job no longer exists".to_owned(),
                    ),
                );
            },
        };
        let held = match self.jobs[jj].lock_token {
            Some(t) => t == lock_token,
            None => false,
        };
        if !held {
            return Err(
                AppError::Conflict(
                    "chain job submit update lost lock or job no longer exists".to_owned(),
                ),
            );
        }
        let mi = match self.find_match_index(match_id) {
            Some(mi) => mi,
            None => {
                proof {
                    assert(has_match(old(self).matches@, match_id));
                }
                return Err(AppError::Conflict("match row is missing".to_owned()));
            },
        };
        let mut j2 = clone_chain_job(&self.jobs[jj]);
        j2.status = ChainJobStatus::Submitted;
        j2.last_tx_sig = Some(tx_sig.to_owned());
        if j2.attempt_count < i32::MAX {
            j2.attempt_count = j2.attempt_count + 1;
        }
        j2.last_error = None;
        j2.updated_at = now;
        self.jobs[jj] = j2;
        let mut rec = clone_match_record(&self.matches[mi]);
        if rec.match_status == MatchStatus::ResultPendingFinalize {
            rec.match_status = MatchStatus::Finalizing;
        }
        rec.last_error = None;
        rec.updated_at = now;
        self.matches[mi] = rec;
        proof {
            let pre = *old(self);
            let post = *self;
            lemma_job_idx_is(pre.jobs@, match_id, jj as int);
            lemma_match_idx_is(pre.matches@, match_id, mi as int);
            assert(!is_terminal_status(pre.matches@[mi as int].match_status)) by {
                if is_terminal_status(pre.matches@[mi as int].match_status) {
                    assert(match_of(pre.matches@, match_id) == pre.matches@[mi as int]);
                    assert(pre.jobs@[jj as int].status == ChainJobStatus::Confirmed);
                    assert(pre.jobs@[jj as int].lock_token is None);
                }
            }
            assert(status_rank(pre.matches@[mi as int].match_status) >= 4) by {
                assert(match_of(pre.matches@, match_id) == pre.matches@[mi as int]);
            }
            lemma_wf_after_update(pre, post, mi as int, true, false, jj as int);
        }
        Ok(())
    }

    /// Release the lease and schedule a retry or record a terminal
    /// failure on the leased job; mirror the error on the match.
    fn mark_job_retry_or_failed(
        &mut self,
        match_id: i64,
        lock_token: u128,
        next_status: ChainJobStatus,
        error_message: &str,
        next_attempt_in_seconds: i64,
        increment_attempt_count: bool,
        now: i64,
    ) -> (r: Result<ChainJobStatus, AppError>)
        requires
            old(self).wf(),
            next_status == ChainJobStatus::Retrying || next_status == ChainJobStatus::Failed,
            next_attempt_in_seconds >= 0,
        ensures
            final(self).wf(),
            jobs_confirmed_frozen(old(self).jobs@, final(self).jobs@),
            matches_progress(old(self).matches@, final(self).matches@),
            final(self).used_nonces == old(self).used_nonces,
            final(self).next_match_id == old(self).next_match_id,
            final(self).next_job_id == old(self).next_job_id,
            (match r {
                Ok(st) => ({
                    let jj = job_idx(old(self).jobs@, match_id);
                    let j = old(self).jobs@[jj];
                    let mi = match_idx(old(self).matches@, match_id);
                    &&& st == next_status
                    &&& has_job(old(self).jobs@, match_id)
                    &&& j.lock_token == Some(lock_token)
                    &&& final(self).jobs@ == old(self).jobs@.update(jj, final(self).jobs@[jj])
                    &&& retry_fail_job_transform(
                        j,
                        final(self).jobs@[jj],
                        next_status,
                        error_message@,
                        next_attempt_in_seconds,
                        increment_attempt_count,
                        now,
                    )
                    &&& final(self).matches@ == old(self).matches@.update(
                        mi,
                        final(self).matches@[mi],
                    )
                    &&& worker_match_transform(
                        old(self).matches@[mi],
                        final(self).matches@[mi],
                        next_status == ChainJobStatus::Retrying,
                        Some(error_message@),
                        now,
                    )
                }),
                Err(e) => e is Conflict && *final(self) == *old(self) && (!has_job(
                    old(self).jobs@,
                    match_id,
                ) || job_of(old(self).jobs@, match_id).lock_token != Some(lock_token)),
            }),
    {
        let jj = match self.find_job_index(match_id) {
            Some(jj) => jj,
            None => {
                return Err(
                    AppError::Conflict(
                        "chain job retry/fail update lost lock or job no longer exists".to_owned(),
                    ),
                );
            },
        };
        let held = match self.jobs[jj].lock_token {
            Some(t) => t == lock_token,
            None => false,
        };
        if !held {
            return Err(
                AppError::Conflict(
                    "chain job retry/fail update lost lock or job no longer exists".to_owned(),
                ),
            );
        }
        let mi = match self.find_match_index(match_id) {
            Some(mi) => mi,
            None => {
                proof {
                    assert(has_match(old(self).matches@, match_id));
                }
                return Err(AppError::Conflict("match row is missing".to_owned()));
            },
        };
        let mut j2 = clone_chain_job(&self.jobs[jj]);
        j2.status = next_status;
        j2.last_error = Some(error_message.to_owned());
        if next_status == ChainJobStatus::Retrying {
            if now <= i64::MAX - next_attempt_in_seconds {
                j2.next_attempt_at = now + next_attempt_in_seconds;
            } else {
                j2.next_attempt_at = i64::MAX;
            }
        }
        if increment_attempt_count && j2.attempt_count < i32::MAX {
            j2.attempt_count = j2.attempt_count + 1;
        }
        j2.lock_token = None;
        j2.locked_at = None;
        j2.updated_at = now;
        self.jobs[jj] = j2;
        let mut rec = clone_match_record(&self.matches[mi]);
        if next_status == ChainJobStatus::Retrying && (rec.match_status
            == MatchStatus::ResultPendingFinalize || rec.match_status == MatchStatus::Finalizing) {
            rec.match_status = MatchStatus::Finalizing;
        }
        rec.last_error = Some(error_message.to_owned());
        rec.updated_at = now;
        self.matches[mi] = rec;
        proof {
            let pre = *old(self);
            let post = *self;
            lemma_job_idx_is(pre.jobs@, match_id, jj as int);
            lemma_match_idx_is(pre.matches@, match_id, mi as int);
            assert(!is_terminal_status(pre.matches@[mi as int].match_status)) by {
                if is_terminal_status(pre.matches@[mi as int].match_status) {
                    assert(match_of(pre.matches@, match_id) == pre.matches@[mi as int]);
                    assert(pre.jobs@[jj as int].status == ChainJobStatus::Confirmed);
                    assert(pre.jobs@[jj as int].lock_token is None);
                }
            }
            assert(status_rank(pre.matches@[mi as int].match_status) >= 4) by {
                assert(match_of(pre.matches@, match_id) == pre.matches@[mi as int]);
            }
            lemma_wf_after_update(pre, post, mi as int, true, false, jj as int);
        }
        Ok(next_status)
    }

    /// Schedule the leased job for another attempt after a backoff.
    pub fn mark_job_retrying(
        &mut self,
        match_id: i64,
        lock_token: u128,
        error_message: &str,
        next_attempt_in_seconds: i64,
        increment_attempt_count: bool,
        now: i64,
    ) -> (r: Result<ChainJobStatus, AppError>)
        requires
            old(self).wf(),
            next_attempt_in_seconds >= 0,
        ensures
            final(self).wf(),
            jobs_confirmed_frozen(old(self).jobs@, final(self).jobs@),
            matches_progress(old(self).matches@, final(self).matches@),
            final(self).used_nonces == old(self).used_nonces,
            final(self).next_match_id == old(self).next_match_id,
            final(self).next_job_id == old(self).next_job_id,
            (match r {
                Ok(st) => ({
                    let jj = job_idx(old(self).jobs@, match_id);
                    let j = old(self).jobs@[jj];
                    let mi = match_idx(old(self).matches@, match_id);
                    &&& st == ChainJobStatus::Retrying
                    &&& has_job(old(self).jobs@, match_id)
                    &&& j.lock_token == Some(lock_token)
                    &&& final(self).jobs@ == old(self).jobs@.update(jj, final(self).jobs@[jj])
                    &&& retry_fail_job_transform(
                        j,
                        final(self).jobs@[jj],
                        ChainJobStatus::Retrying,
                        error_message@,
                        next_attempt_in_seconds,
                        increment_attempt_count,
                        now,
                    )
                    &&& final(self).matches@ == old(self).matches@.update(
                        mi,
                        final(self).matches@[mi],
                    )
                    &&& worker_match_transform(
                        old(self).matches@[mi],
                        final(self).matches@[mi],
                        true,
                        Some(error_message@),
                        now,
                    )
                }),
                Err(e) => e is Conflict && *final(self) == *old(self) && (!has_job(
                    old(self).jobs@,
                    match_id,
                ) || job_of(old(self).jobs@, match_id).lock_token != Some(lock_token)),
            }),
    {
        self.mark_job_retry_or_failed(
            match_id,
            lock_token,
            ChainJobStatus::Retrying,
            error_message,
            next_attempt_in_seconds,
            increment_attempt_count,
            now,
        )
    }

    /// Mark the leased job terminally failed; an admin retry can revive it.
    pub fn mark_job_failed(
        &mut self,
        match_id: i64,
        lock_token: u128,
        error_message: &str,
        increment_attempt_count: bool,
        now: i64,
    ) -> (r: Result<ChainJobStatus, AppError>)
        requires
            old(self).wf(),
        ensures
            final(self).wf(),
            jobs_confirmed_frozen(old(self).jobs@, final(self).jobs@),
            matches_progress(old(self).matches@, final(self).matches@),
            final(self).used_nonces == old(self).used_nonces,
            final(self).next_match_id == old(self).next_match_id,
            final(self).next_job_id == old(self).next_job_id,
            (match r {
                Ok(st) => ({
                    let jj = job_idx(old(self).jobs@, match_id);
                    let j = old(self).jobs@[jj];
                    let mi = match_idx(old(self).matches@, match_id);
                    &&& st == ChainJobStatus::Failed
                    &&& has_job(old(self).jobs@, match_id)
                    &&& j.lock_token == Some(lock_token)
                    &&& final(self).jobs@ == old(self).jobs@.update(jj, final(self).jobs@[jj])
                    &&& retry_fail_job_transform(
                        j,
                        final(self).jobs@[jj],
                        ChainJobStatus::Failed,
                        error_message@,
                        0,
                        increment_attempt_count,
                        now,
                    )
                    &&& final(self).matches@ == old(self).matches@.update(
                        mi,
                        final(self).matches@[mi],
                    )
                    &&& worker_match_transform(
                        old(self).matches@[mi],
                        final(self).matches@[mi],
                        false,
                        Some(error_message@),
                        now,
                    )
                }),
                Err(e) => e is Conflict && *final(self) == *old(self) && (!has_job(
                    old(self).jobs@,
                    match_id,
                ) || job_of(old(self).jobs@, match_id).lock_token != Some(lock_token)),
            }),
    {
        self.mark_job_retry_or_failed(
            match_id,
            lock_token,
            ChainJobStatus::Failed,
            error_message,
            0,
            increment_attempt_count,
            now,
        )
    }

    /// Best-effort release of a lease this worker still holds.
    pub fn clear_job_lock(&mut self, match_id: i64, lock_token: u128, now: i64) -> (r: Result<
        (),
        AppError,
    >)
        requires
            old(self).wf(),
        ensures
            final(self).wf(),
            jobs_confirmed_frozen(old(self).jobs@, final(self).jobs@),
            r is Ok,
            final(self).matches == old(self).matches,
            final(self).used_nonces == old(self).used_nonces,
            final(self).next_match_id == old(self).next_match_id,
            final(self).next_job_id == old(self).next_job_id,
            (if has_job(old(self).jobs@, match_id) && job_of(old(self).jobs@, match_id).lock_token
                == Some(lock_token) {
                let jj = job_idx(old(self).jobs@, match_id);
                let j = old(self).jobs@[jj];
                &&& final(self).jobs@ == old(self).jobs@.update(jj, final(self).jobs@[jj])
                &&& final(self).jobs@[jj] == (ChainJob {
                    lock_token: None,
                    locked_at: None,
                    updated_at: now,
                    ..j
                })
            } else {
                final(self).jobs == old(self).jobs
            }),
    {
        let jj = match self.find_job_index(match_id) {
            Some(jj) => jj,
            None => {
                return Ok(());
            },
        };
        let held = match self.jobs[jj].lock_token {
            Some(t) => t == lock_token,
            None => false,
        };
        if !held {
            return Ok(());
        }
        let mut j2 = clone_chain_job(&self.jobs[jj]);
        j2.lock_token = None;
        j2.locked_at = None;
        j2.updated_at = now;
        self.jobs[jj] = j2;
        proof {
            let pre = *old(self);
            let post = *self;
            lemma_job_idx_is(pre.jobs@, match_id, jj as int);
            let match_id2 = pre.jobs@[jj as int].match_id;
            assert(has_match(pre.matches@, match_id2));
            let mi = match_idx(pre.matches@, match_id2);
            lemma_match_idx_is(pre.matches@, match_id2, mi);
            assert(post.matches@ =~= pre.matches@.update(mi, post.matches@[mi]));
            assert(status_rank(match_of(pre.matches@, match_id2).match_status) >= 4);
            if is_terminal_status(pre.matches@[mi].match_status) {
                assert(match_of(pre.matches@, match_id2) == pre.matches@[mi]);
                assert(pre.jobs@[jj as int].status == ChainJobStatus::Confirmed);
                assert(pre.jobs@[jj as int].lock_token is None);
                assert(false);
            }
            lemma_wf_after_update(pre, post, mi, true, false, jj as int);
        }
        Ok(())
    }
    /// Freeze the leased job as confirmed and move its match to the
    /// terminal status, keeping any signatures already recorded. Only
    /// `settled` or `refunded` are accepted; a lost lease is a conflict.
    pub fn mark_job_confirmed_and_finalize_match(
        &mut self,
        match_id: i64,
        lock_token: u128,
        final_tx_sig: Option<&str>,
        final_match_status: MatchStatus,
        now: i64,
    ) -> (r: Result<(), AppError>)
        requires
            old(self).wf(),
        ensures
            final(self).wf(),
            jobs_confirmed_frozen(old(self).jobs@, final(self).jobs@),
            matches_progress(old(self).matches@, final(self).matches@),
            final(self).used_nonces == old(self).used_nonces,
            final(self).next_match_id == old(self).next_match_id,
            final(self).next_job_id == old(self).next_job_id,
            (match r {
                Ok(()) => ({
                    let jj = job_idx(old(self).jobs@, match_id);
                    let j = old(self).jobs@[jj];
                    let mi = match_idx(old(self).matches@, match_id);
                    let sig = (match final_tx_sig {
                        Some(s) => Some(s@),
                        None => None,
                    });
                    &&& is_terminal_status(final_match_status)
                    &&& has_job(old(self).jobs@, match_id)
                    &&& j.lock_token == Some(lock_token)
                    &&& final(self).jobs@ == old(self).jobs@.update(jj, final(self).jobs@[jj])
                    &&& confirm_job_transform(j, final(self).jobs@[jj], sig, now)
                    &&& final(self).matches@ == old(self).matches@.update(
                        mi,
                        final(self).matches@[mi],
                    )
                    &&& finalize_match_transform(
                        old(self).matches@[mi],
                        final(self).matches@[mi],
                        final_match_status,
                        sig,
                        now,
                    )
                }),
                Err(e) => *final(self) == *old(self) && ((e is Internal && !is_terminal_status(
                    final_match_status,
                )) || (e is Conflict && is_terminal_status(final_match_status) && (!has_job(
                    old(self).jobs@,
                    match_id,
                ) || job_of(old(self).jobs@, match_id).lock_token != Some(lock_token)))),
            }),
    {
        let terminal = final_match_status == MatchStatus::Settled || final_match_status
            == MatchStatus::Refunded;
        if !terminal {
            return Err(
                AppError::Internal("final match status must be settled or refunded".to_owned()),
            );
        }
        let jj = match self.find_job_index(match_id) {
            Some(jj) => jj,
            None => {
                return Err(
                    AppError::Conflict(
                        "chain job confirm update lost lock or job no longer exists".to_owned(),
                    ),
                );
            },
        };
        let held = match self.jobs[jj].lock_token {
            Some(t) => t == lock_token,
            None => false,
        };
        if !held {
            return Err(
                AppError::Conflict(
                    "chain job confirm update lost lock or job no longer exists".to_owned(),
                ),
            );
        }
        let mi = match self.find_match_index(match_id) {
            Some(mi) => mi,
            None => {
                proof {
                    assert(has_match(old(self).matches@, match_id));
                }
                return Err(AppError::Conflict("match row is missing".to_owned()));
            },
        };
        let mut j2 = clone_chain_job(&self.jobs[jj]);
        j2.status = ChainJobStatus::Confirmed;
        if j2.last_tx_sig.is_none() {
            j2.last_tx_sig = match final_tx_sig {
                Some(s) => Some(s.to_owned()),
                None => None,
            };
        }
        j2.last_error = None;
        j2.lock_token = None;
        j2.locked_at = None;
        j2.updated_at = now;
        self.jobs[jj] = j2;
        let mut rec = clone_match_record(&self.matches[mi]);
        rec.match_status = final_match_status;
        if rec.final_tx_sig.is_none() {
            rec.final_tx_sig = match final_tx_sig {
                Some(s) => Some(s.to_owned()),
                None => None,
            };
        }
        if rec.finalized_at.is_none() {
            rec.finalized_at = Some(now);
        }
        rec.last_error = None;
        rec.updated_at = now;
        self.matches[mi] = rec;
        proof {
            let pre = *old(self);
            let post = *self;
            lemma_job_idx_is(pre.jobs@, match_id, jj as int);
            lemma_match_idx_is(pre.matches@, match_id, mi as int);
            assert(!is_terminal_status(pre.matches@[mi as int].match_status)) by {
                if is_terminal_status(pre.matches@[mi as int].match_status) {
                    assert(match_of(pre.matches@, match_id) == pre.matches@[mi as int]);
                    assert(pre.jobs@[jj as int].status == ChainJobStatus::Confirmed);
                    assert(pre.jobs@[jj as int].lock_token is None);
                }
            }
            assert(status_rank(pre.matches@[mi as int].match_status) >= 4) by {
                assert(match_of(pre.matches@, match_id) == pre.matches@[mi as int]);
            }
            lemma_wf_after_update(pre, post, mi as int, true, false, jj as int);
        }
        Ok(())
    }

    /// Revive a match's job at an admin's request: any unconfirmed job
    /// goes back to pending and due, the match back to `finalizing`.
    /// A missing match or job is not found; a finalized match is a
    /// conflict.
    pub fn retry_finalization_job(&mut self, match_id: i64, now: i64) -> (r: Result<
        RetryFinalizationResult,
        AppError,
    >)
        requires
            old(self).wf(),
        ensures
            final(self).wf(),
            jobs_confirmed_frozen(old(self).jobs@, final(self).jobs@),
            matches_progress(old(self).matches@, final(self).matches@),
            final(self).used_nonces == old(self).used_nonces,
            final(self).next_match_id == old(self).next_match_id,
            final(self).next_job_id == old(self).next_job_id,
            (match r {
                Ok(res) => ({
                    let jj = job_idx(old(self).jobs@, match_id);
                    let j = old(self).jobs@[jj];
                    let mi = match_idx(old(self).matches@, match_id);
                    &&& has_match(old(self).matches@, match_id)
                    &&& !is_terminal_status(old(self).matches@[mi].match_status)
                    &&& has_job(old(self).jobs@, match_id)
                    &&& j.status != ChainJobStatus::Confirmed
                    &&& final(self).jobs@ == old(self).jobs@.update(jj, final(self).jobs@[jj])
                    &&& admin_retry_job_transform(j, final(self).jobs@[jj], now)
                    &&& final(self).matches@ == old(self).matches@.update(
                        mi,
                        final(self).matches@[mi],
                    )
                    &&& worker_match_transform(
                        old(self).matches@[mi],
                        final(self).matches@[mi],
                        true,
                        None,
                        now,
                    )
                    &&& res.match_status == final(self).matches@[mi].match_status
                    &&& res.chain_job_status == ChainJobStatus::Pending
                }),
                Err(e) => *final(self) == *old(self) && ((e is NotFound && (!has_match(
                    old(self).matches@,
                    match_id,
                ) || !has_job(old(self).jobs@, match_id))) || (e is Conflict && has_match(
                    old(self).matches@,
                    match_id,
                ) && is_terminal_status(match_of(old(self).matches@, match_id).match_status))),
            }),
    {
        let mi = match self.find_match_index(match_id) {
            Some(mi) => mi,
            None => {
                return Err(AppError::NotFound("match".to_owned()));
            },
        };
        let current = self.matches[mi].match_status;
        if current == MatchStatus::Settled || current == MatchStatus::Refunded {
            return Err(
                AppError::Conflict("cannot retry finalization for a finalized match".to_owned()),
            );
        }
        let jj = match self.find_job_index(match_id) {
            Some(jj) => jj,
            None => {
                return Err(AppError::NotFound("finalization job".to_owned()));
            },
        };
        if self.jobs[jj].status == ChainJobStatus::Confirmed {
            proof {
                lemma_job_idx_is(self.jobs@, match_id, jj as int);
                lemma_match_idx_is(self.matches@, match_id, mi as int);
                assert(match_of(self.matches@, match_id) == self.matches@[mi as int]);
            }
            // Unreachable: a confirmed job's match is already terminal.
            return Err(
                AppError::Conflict(
                    "chain job is already confirmed; retry is not allowed".to_owned(),
                ),
            );
        }
        let mut j2 = clone_chain_job(&self.jobs[jj]);
        j2.status = ChainJobStatus::Pending;
        j2.next_attempt_at = now;
        j2.last_error = None;
        j2.lock_token = None;
        j2.locked_at = None;
        j2.updated_at = now;
        self.jobs[jj] = j2;
        let mut rec = clone_match_record(&self.matches[mi]);
        if rec.match_status == MatchStatus::ResultPendingFinalize || rec.match_status
            == MatchStatus::Finalizing {
            rec.match_status = MatchStatus::Finalizing;
        }
        rec.last_error = None;
        rec.updated_at = now;
        let out_status = rec.match_status;
        self.matches[mi] = rec;
        proof {
            let pre = *old(self);
            let post = *self;
            lemma_job_idx_is(pre.jobs@, match_id, jj as int);
            lemma_match_idx_is(pre.matches@, match_id, mi as int);
            assert(status_rank(pre.matches@[mi as int].match_status) >= 4) by {
                assert(match_of(pre.matches@, match_id) == pre.matches@[mi as int]);
            }
            lemma_wf_after_update(pre, post, mi as int, true, false, jj as int);
        }
        Ok(RetryFinalizationResult {
            match_status: out_status,
            chain_job_status: ChainJobStatus::Pending,
        })
    }

    /// One watcher step: pick the match whose join window expired
    /// longest ago (no second player, no job yet), stamp it for a
    /// timeout refund and queue the `force_refund` job.
    pub fn enqueue_next_expired_join_timeout_force_refund(&mut self, now: i64) -> (r: Result<
        Option<EnqueuedTimeoutRefund>,
        AppError,
    >)
        requires
            old(self).wf(),
        ensures
            final(self).wf(),
            jobs_confirmed_frozen(old(self).jobs@, final(self).jobs@),
            matches_progress(old(self).matches@, final(self).matches@),
            final(self).used_nonces == old(self).used_nonces,
            final(self).next_match_id == old(self).next_match_id,
            (match r {
                Ok(Some(q)) => ({
                    let mi = match_idx(old(self).matches@, q.match_id);
                    let m = old(self).matches@[mi];
                    &&& has_match(old(self).matches@, q.match_id)
                    &&& timeout_candidate(m, old(self).jobs@, now)
                    &&& (forall|k: int|
                        0 <= k < old(self).matches@.len() && timeout_candidate(
                            #[trigger] old(self).matches@[k],
                            old(self).jobs@,
                            now,
                        ) && k != mi ==> candidate_before(m, old(self).matches@[k]))
                    &&& final(self).matches@ == old(self).matches@.update(
                        mi,
                        final(self).matches@[mi],
                    )
                    &&& watcher_match_transform(m, final(self).matches@[mi], now)
                    &&& final(self).jobs@.len() == old(self).jobs@.len() + 1
                    &&& (forall|k: int|
                        0 <= k < old(self).jobs@.len() ==> final(self).jobs@[k] == old(
                            self,
                        ).jobs@[k])
                    &&& is_fresh_job(
                        final(self).jobs@.last(),
                        old(self).next_job_id,
                        q.match_id,
                        ChainJobType::ForceRefund,
                        None,
                        now,
                    )
                    &&& q.chain_job_status == ChainJobStatus::Pending
                    &&& final(self).next_job_id == old(self).next_job_id + 1
                }),
                Ok(None) => *final(self) == *old(self) && (forall|k: int|
                    0 <= k < old(self).matches@.len() ==> !timeout_candidate(
                        #[trigger] old(self).matches@[k],
                        old(self).jobs@,
                        now,
                    )),
                Err(e) => e is Internal && *final(self) == *old(self) && old(self).next_job_id
                    == i64::MAX,
            }),
    {
        if self.next_job_id == i64::MAX {
            return Err(AppError::Internal("job id sequence exhausted".to_owned()));
        }
        let n = self.matches.len();
        let mut best: Option<usize> = None;
        let mut i: usize = 0;
        while i < n
            invariant
                *self == *old(self),
                self.wf(),
                0 <= i <= n,
                n == self.matches@.len(),
                (match best {
                    Some(b) => b < i && timeout_candidate(self.matches@[b as int], self.jobs@, now)
                        && (forall|k: int|
                        0 <= k < i && timeout_candidate(
                            #[trigger] self.matches@[k],
                            self.jobs@,
                            now,
                        ) && k != b ==> candidate_before(
                            self.matches@[b as int],
                            self.matches@[k],
                        )),
                    None => forall|k: int|
                        0 <= k < i ==> !timeout_candidate(
                            #[trigger] self.matches@[k],
                            self.jobs@,
                            now,
                        ),
                }),
            decreases n - i,
        {
            let no_job = self.find_job_index(self.matches[i].match_id).is_none();
            let eligible = {
                let m = &self.matches[i];
                m.match_status == MatchStatus::CreatedOnChain && m.player2_pubkey.is_none()
                    && (match m.join_expires_at {
                    Some(e) => e <= now,
                    None => false,
                }) && no_job
            };
            if eligible {
                match best {
                    Some(b) => {
                        let ce = match self.matches[i].join_expires_at {
                            Some(e) => e,
                            None => 0,
                        };
                        let be = match self.matches[b].join_expires_at {
                            Some(e) => e,
                            None => 0,
                        };
                        if ce < be || (ce == be && self.matches[i].match_id
                            < self.matches[b].match_id) {
                            best = Some(i);
                        }
                    },
                    None => {
                        best = Some(i);
                    },
                }
            }
            i = i + 1;
        }
        let mi = match best {
            Some(b) => b,
            None => {
                return Ok(None);
            },
        };
        let match_id = self.matches[mi].match_id;
        let mut key: String = "auto-join-timeout-".to_owned();
        let digits = crate::codes::to_decimal(match_id as u64);
        key.append(digits.as_str());
        proof {
            assert(key@ =~= auto_timeout_key_view(match_id));
        }
        let mut rec = clone_match_record(&self.matches[mi]);
        rec.match_status = MatchStatus::ResultPendingFinalize;
        if rec.finalization_reason_code.is_none() {
            rec.finalization_reason_code = Some("join_timeout".to_owned());
        }
        if rec.finalization_reason_detail.is_none() {
            rec.finalization_reason_detail = Some("timeout_watcher".to_owned());
        }
        rec.winner_pubkey = None;
        if rec.result_idempotency_key.is_none() {
            rec.result_idempotency_key = Some(key);
        }
        if rec.result_reported_at.is_none() {
            rec.result_reported_at = Some(now);
        }
        rec.last_error = None;
        rec.updated_at = now;
        self.matches[mi] = rec;
        let job = ChainJob {
            job_id: self.next_job_id,
            match_id,
            job_type: ChainJobType::ForceRefund,
            status: ChainJobStatus::Pending,
            winner_pubkey: None,
            attempt_count: 0,
            last_tx_sig: None,
            last_error: None,
            next_attempt_at: now,
            lock_token: None,
            locked_at: None,
            updated_at: now,
        };
        self.jobs.push(job);
        self.next_job_id = self.next_job_id + 1;
        proof {
            let pre = *old(self);
            let post = *self;
            lemma_match_idx_is(pre.matches@, match_id, mi as int);
            lemma_wf_after_update(pre, post, mi as int, true, true, pre.jobs@.len() as int);
        }
        Ok(Some(EnqueuedTimeoutRefund { match_id, chain_job_status: ChainJobStatus::Pending }))
    }
}

/// Inputs of a fresh match row.
#[derive(Debug, Clone)]
pub struct CreateMatchRecordParams {
    pub program_id: String,
    pub authority_pubkey: String,
    pub player1_pubkey: String,
    pub entry_lamports: i64,
    pub game_pda: String,
    pub vault_pda: String,
}

/// What an insert hands back: the key of the new row.
#[derive(Debug, Clone)]
pub struct CreatedMatchRecord {
    pub match_id: i64,
    pub join_code: String,
}

/// Projection for the join-code lookup.
#[derive(Debug, Clone)]
pub struct MatchLookupRecord {
    pub match_id: i64,
    pub join_code: String,
    pub game_pda: String,
    pub vault_pda: String,
    pub player1_pubkey: String,
    pub entry_lamports: i64,
    pub match_status: MatchStatus,
    pub join_expires_at: Option<i64>,
}

/// Projection read before verifying a create transaction.
#[derive(Debug, Clone)]
pub struct CreateConfirmMatchRecord {
    pub match_id: i64,
    pub player1_pubkey: String,
    pub authority_pubkey: String,
    pub game_pda: String,
    pub entry_lamports: i64,
    pub match_status: MatchStatus,
    pub create_tx_sig: Option<String>,
    pub join_expires_at: Option<i64>,
}

/// Projection returned after the create-confirm update.
#[derive(Debug, Clone)]
pub struct CreateConfirmUpdateResult {
    pub match_id: i64,
    pub match_status: MatchStatus,
    pub create_tx_sig: Option<String>,
    pub join_expires_at: Option<i64>,
}

/// Projection read before verifying a join transaction.
#[derive(Debug, Clone)]
pub struct JoinConfirmMatchRecord {
    pub match_id: i64,
    pub player1_pubkey: String,
    pub player2_pubkey: Option<String>,
    pub authority_pubkey: String,
    pub game_pda: String,
    pub entry_lamports: i64,
    pub match_status: MatchStatus,
    pub join_tx_sig: Option<String>,
    pub settle_expires_at: Option<i64>,
}

/// Projection returned after the join-confirm update.
#[derive(Debug, Clone)]
pub struct JoinConfirmUpdateResult {
    pub match_id: i64,
    pub player2_pubkey: Option<String>,
    pub match_status: MatchStatus,
    pub join_tx_sig: Option<String>,
    pub settle_expires_at: Option<i64>,
}

/// Full projection of a match joined with its job, for status reads.
#[derive(Debug, Clone)]
pub struct MatchStatusRecord {
    pub match_id: i64,
    pub join_code: String,
    pub program_id: String,
    pub authority_pubkey: String,
    pub game_pda: String,
    pub vault_pda: String,
    pub player1_pubkey: String,
    pub player2_pubkey: Option<String>,
    pub entry_lamports: i64,
    pub match_status: MatchStatus,
    pub chain_job_type: Option<ChainJobType>,
    pub chain_job_status: Option<ChainJobStatus>,
    pub winner_pubkey: Option<String>,
    pub finalization_reason_code: Option<String>,
    pub create_tx_sig: Option<String>,
    pub join_tx_sig: Option<String>,
    pub final_tx_sig: Option<String>,
    pub join_expires_at: Option<i64>,
    pub settle_expires_at: Option<i64>,
    pub last_error: Option<String>,
    pub updated_at: i64,
}

/// The lookup projection reads this row.
pub open spec fn is_lookup_of(rec: MatchLookupRecord, m: MatchRecord) -> bool {
    &&& rec.match_id == m.match_id
    &&& rec.join_code@ == m.join_code@
    &&& rec.game_pda@ == m.game_pda@
    &&& rec.vault_pda@ == m.vault_pda@
    &&& rec.player1_pubkey@ == m.player1_pubkey@
    &&& rec.entry_lamports == m.entry_lamports
    &&& rec.match_status == m.match_status
    &&& rec.join_expires_at == m.join_expires_at
}

/// The create-confirm projection reads this row.
pub open spec fn is_create_confirm_of(rec: CreateConfirmMatchRecord, m: MatchRecord) -> bool {
    &&& rec.match_id == m.match_id
    &&& rec.player1_pubkey@ == m.player1_pubkey@
    &&& rec.authority_pubkey@ == m.authority_pubkey@
    &&& rec.game_pda@ == m.game_pda@
    &&& rec.entry_lamports == m.entry_lamports
    &&& rec.match_status == m.match_status
    &&& opt_str_eq(rec.create_tx_sig, m.create_tx_sig)
    &&& rec.join_expires_at == m.join_expires_at
}

/// The join-confirm projection reads this row.
pub open spec fn is_join_confirm_of(rec: JoinConfirmMatchRecord, m: MatchRecord) -> bool {
    &&& rec.match_id == m.match_id
    &&& rec.player1_pubkey@ == m.player1_pubkey@
    &&& opt_str_eq(rec.player2_pubkey, m.player2_pubkey)
    &&& rec.authority_pubkey@ == m.authority_pubkey@
    &&& rec.game_pda@ == m.game_pda@
    &&& rec.entry_lamports == m.entry_lamports
    &&& rec.match_status == m.match_status
    &&& opt_str_eq(rec.join_tx_sig, m.join_tx_sig)
    &&& rec.settle_expires_at == m.settle_expires_at
}

/// There is a match row with this join code.
pub open spec fn has_code(m: Seq<MatchRecord>, code: Seq<char>) -> bool {
    exists|i: int| 0 <= i < m.len() && m[i].join_code@ == code
}

/// Index of the match row with this join code.
pub open spec fn code_idx(m: Seq<MatchRecord>, code: Seq<char>) -> int {
    choose|i: int| 0 <= i < m.len() && m[i].join_code@ == code
}


/// Join codes stay unique even seen through their UTF-8 bytes: two
/// rows whose codes encode to the same bytes are the same row.
pub proof fn lemma_code_bytes_unique(s: MatchStore, i: int, j: int)
    requires
        s.wf(),
        0 <= i < s.matches@.len(),
        0 <= j < s.matches@.len(),
        vstd::utf8::encode_utf8(s.matches@[i].join_code@) == vstd::utf8::encode_utf8(
            s.matches@[j].join_code@,
        ),
    ensures
        i == j,
{
    vstd::utf8::encode_utf8_decode_utf8(s.matches@[i].join_code@);
    vstd::utf8::encode_utf8_decode_utf8(s.matches@[j].join_code@);
    assert(s.matches@[i].join_code@ == s.matches@[j].join_code@);
    if i != j {
        let ida = s.matches@[i].match_id;
        let idb = s.matches@[j].match_id;
        if i < j {
            assert(ida != idb);
        } else {
            assert(idb != ida);
        }
        lemma_join_code_injective(ida, idb);
    }
}

/// In a well-formed store join codes are as unique as match ids.
pub proof fn lemma_code_idx_is(s: MatchStore, code: Seq<char>, i: int)
    requires
        s.wf(),
        0 <= i < s.matches@.len(),
        s.matches@[i].join_code@ == code,
    ensures
        has_code(s.matches@, code),
        code_idx(s.matches@, code) == i,
{
    assert(has_code(s.matches@, code));
    let c = code_idx(s.matches@, code);
    if c != i {
        let ida = s.matches@[c].match_id;
        let idb = s.matches@[i].match_id;
        if c < i {
            assert(ida != idb);
        } else {
            assert(idb != ida);
        }
        lemma_join_code_injective(ida, idb);
    }
}

/// How create-confirm rewrites a match row: the status steps from
/// waiting to created (else stays), the signature and the two stamps
/// fill in only if still empty, everything else is untouched.
pub open spec fn create_confirm_transform(
    m: MatchRecord,
    m2: MatchRecord,
    sig: Seq<char>,
    created_at: i64,
    expires: i64,
    now: i64,
) -> bool {
    &&& m2.match_status == (if m.match_status == MatchStatus::WaitingCreateTx {
        MatchStatus::CreatedOnChain
    } else {
        m.match_status
    })
    &&& (m.create_tx_sig is Some ==> m2.create_tx_sig == m.create_tx_sig)
    &&& (m.create_tx_sig is None ==> (m2.create_tx_sig matches Some(t) && t@ == sig))
    &&& m2.created_onchain_at == (if m.created_onchain_at is Some {
        m.created_onchain_at
    } else {
        Some(created_at)
    })
    &&& m2.join_expires_at == (if m.join_expires_at is Some {
        m.join_expires_at
    } else {
        Some(expires)
    })
    &&& m2.updated_at == now
    &&& m2.match_id == m.match_id
    &&& m2.join_code == m.join_code
    &&& m2.program_id == m.program_id
    &&& m2.authority_pubkey == m.authority_pubkey
    &&& m2.game_pda == m.game_pda
    &&& m2.vault_pda == m.vault_pda
    &&& m2.player1_pubkey == m.player1_pubkey
    &&& m2.player2_pubkey == m.player2_pubkey
    &&& m2.entry_lamports == m.entry_lamports
    &&& m2.winner_pubkey == m.winner_pubkey
    &&& m2.finalization_reason_code == m.finalization_reason_code
    &&& m2.finalization_reason_detail == m.finalization_reason_detail
    &&& m2.result_idempotency_key == m.result_idempotency_key
    &&& m2.result_reported_at == m.result_reported_at
    &&& m2.join_tx_sig == m.join_tx_sig
    &&& m2.final_tx_sig == m.final_tx_sig
    &&& m2.joined_onchain_at == m.joined_onchain_at
    &&& m2.settle_expires_at == m.settle_expires_at
    &&& m2.last_error == m.last_error
    &&& m2.finalized_at == m.finalized_at
}

/// How join-confirm rewrites a match row: the status steps from created
/// to joined (else stays), the second player, the signature and the two
/// stamps fill in only if still empty, everything else is untouched.
pub open spec fn join_confirm_transform(
    m: MatchRecord,
    m2: MatchRecord,
    player2: Seq<char>,
    sig: Seq<char>,
    joined_at: i64,
    expires: i64,
    now: i64,
) -> bool {
    &&& m2.match_status == (if m.match_status == MatchStatus::CreatedOnChain {
        MatchStatus::JoinedOnChain
    } else {
        m.match_status
    })
    &&& (m.player2_pubkey is Some ==> m2.player2_pubkey == m.player2_pubkey)
    &&& (m.player2_pubkey is None ==> (m2.player2_pubkey matches Some(t) && t@ == player2))
    &&& (m.join_tx_sig is Some ==> m2.join_tx_sig == m.join_tx_sig)
    &&& (m.join_tx_sig is None ==> (m2.join_tx_sig matches Some(t) && t@ == sig))
    &&& m2.joined_onchain_at == (if m.joined_onchain_at is Some {
        m.joined_onchain_at
    } else {
        Some(joined_at)
    })
    &&& m2.settle_expires_at == (if m.settle_expires_at is Some {
        m.settle_expires_at
    } else {
        Some(expires)
    })
    &&& m2.updated_at == now
    &&& m2.match_id == m.match_id
    &&& m2.join_code == m.join_code
    &&& m2.program_id == m.program_id
    &&& m2.authority_pubkey == m.authority_pubkey
    &&& m2.game_pda == m.game_pda
    &&& m2.vault_pda == m.vault_pda
    &&& m2.player1_pubkey == m.player1_pubkey
    &&& m2.entry_lamports == m.entry_lamports
    &&& m2.winner_pubkey == m.winner_pubkey
    &&& m2.finalization_reason_code == m.finalization_reason_code
    &&& m2.finalization_reason_detail == m.finalization_reason_detail
    &&& m2.result_idempotency_key == m.result_idempotency_key
    &&& m2.result_reported_at == m.result_reported_at
    &&& m2.create_tx_sig == m.create_tx_sig
    &&& m2.final_tx_sig == m.final_tx_sig
    &&& m2.created_onchain_at == m.created_onchain_at
    &&& m2.join_expires_at == m.join_expires_at
    &&& m2.last_error == m.last_error
    &&& m2.finalized_at == m.finalized_at
}


/// Once a job row is confirmed nothing but its freshness stamp ever
/// changes again.
pub open spec fn jobs_confirmed_frozen(pre: Seq<ChainJob>, post: Seq<ChainJob>) -> bool {
    post.len() >= pre.len() && forall|k: int|
        0 <= k < pre.len() && (#[trigger] pre[k]).status == ChainJobStatus::Confirmed ==> post[k]
            == (ChainJob { updated_at: post[k].updated_at, ..pre[k] })
}

/// Statuses only ever move forward, row by row.
pub open spec fn matches_progress(pre: Seq<MatchRecord>, post: Seq<MatchRecord>) -> bool {
    post.len() >= pre.len() && forall|k: int|
        0 <= k < pre.len() ==> crate::enums::status_progress(
            (#[trigger] pre[k]).match_status,
            post[k].match_status,
        )
}

/// Copy an optional string, field for field.
fn clone_opt_string(v: &Option<String>) -> (r: Option<String>)
    ensures
        r == *v,
{
    match v {
        Some(s) => Some(s.clone()),
        None => None,
    }
}

/// Copy a match row, field for field.
fn clone_match_record(m: &MatchRecord) -> (r: MatchRecord)
    ensures
        r == *m,
{
    MatchRecord {
        match_id: m.match_id,
        join_code: m.join_code.clone(),
        program_id: m.program_id.clone(),
        authority_pubkey: m.authority_pubkey.clone(),
        game_pda: m.game_pda.clone(),
        vault_pda: m.vault_pda.clone(),
        player1_pubkey: m.player1_pubkey.clone(),
        player2_pubkey: clone_opt_string(&m.player2_pubkey),
        entry_lamports: m.entry_lamports,
        match_status: m.match_status,
        winner_pubkey: clone_opt_string(&m.winner_pubkey),
        finalization_reason_code: clone_opt_string(&m.finalization_reason_code),
        finalization_reason_detail: clone_opt_string(&m.finalization_reason_detail),
        result_idempotency_key: clone_opt_string(&m.result_idempotency_key),
        result_reported_at: m.result_reported_at,
        create_tx_sig: clone_opt_string(&m.create_tx_sig),
        join_tx_sig: clone_opt_string(&m.join_tx_sig),
        final_tx_sig: clone_opt_string(&m.final_tx_sig),
        created_onchain_at: m.created_onchain_at,
        joined_onchain_at: m.joined_onchain_at,
        join_expires_at: m.join_expires_at,
        settle_expires_at: m.settle_expires_at,
        last_error: clone_opt_string(&m.last_error),
        updated_at: m.updated_at,
        finalized_at: m.finalized_at,
    }
}

/// Copy a job row, field for field.
fn clone_chain_job(j: &ChainJob) -> (r: ChainJob)
    ensures
        r == *j,
{
    ChainJob {
        job_id: j.job_id,
        match_id: j.match_id,
        job_type: j.job_type,
        status: j.status,
        winner_pubkey: clone_opt_string(&j.winner_pubkey),
        attempt_count: j.attempt_count,
        last_tx_sig: clone_opt_string(&j.last_tx_sig),
        last_error: clone_opt_string(&j.last_error),
        next_attempt_at: j.next_attempt_at,
        lock_token: j.lock_token,
        locked_at: j.locked_at,
        updated_at: j.updated_at,
    }
}

/// Inputs of the result-submission transaction.
#[derive(Debug, Clone)]
pub struct PersistResultAndEnqueueParams {
    pub match_id: i64,
    pub job_type: ChainJobType,
    pub winner_pubkey: Option<String>,
    pub reason_code: String,
    pub reason_detail: Option<String>,
    pub idempotency_key: String,
}

/// What the result-submission transaction reports back.
#[derive(Debug, Clone)]
pub struct PersistResultAndEnqueueResult {
    pub match_status: MatchStatus,
    pub chain_job_type: ChainJobType,
    pub chain_job_status: ChainJobStatus,
}

/// What an admin retry reports back.
#[derive(Debug, Clone)]
pub struct RetryFinalizationResult {
    pub match_status: MatchStatus,
    pub chain_job_status: ChainJobStatus,
}

/// One refund job queued by the timeout watcher.
#[derive(Debug, Clone)]
pub struct EnqueuedTimeoutRefund {
    pub match_id: i64,
    pub chain_job_status: ChainJobStatus,
}

/// A job a worker has leased, joined with its match's addresses.
#[derive(Debug, Clone)]
pub struct ClaimedFinalizerJob {
    pub chain_job_id: i64,
    pub match_id: i64,
    pub lock_token: u128,
    pub job_type: ChainJobType,
    pub chain_job_status: ChainJobStatus,
    pub winner_pubkey: Option<String>,
    pub attempt_count: i32,
    pub last_tx_sig: Option<String>,
    pub game_pda: String,
    pub vault_pda: String,
}

/// The text of an optional string.
pub open spec fn opt_view(o: Option<String>) -> Option<Seq<char>> {
    match o {
        Option::Some(s) => Some(s@),
        Option::None => None,
    }
}

/// Whether the conditional update of the result submission matches this
/// row: the match is at the reporting stage or the same key was already
/// recorded, and no recorded field disagrees.
pub open spec fn result_update_allowed(
    m: MatchRecord,
    key: Seq<char>,
    winner: Option<Seq<char>>,
    reason: Seq<char>,
) -> bool {
    &&& (m.match_status == MatchStatus::JoinedOnChain || m.match_status == MatchStatus::InProgress
        || (m.result_idempotency_key matches Some(k) && k@ == key))
    &&& (match m.result_idempotency_key {
        Some(k) => k@ == key,
        None => true,
    })
    &&& (match m.winner_pubkey {
        Some(w) => winner matches Some(x) && w@ == x,
        None => true,
    })
    &&& (match m.finalization_reason_code {
        Some(c) => c@ == reason,
        None => true,
    })
}

/// How the result submission rewrites the match row.
pub open spec fn result_match_transform(
    m: MatchRecord,
    m2: MatchRecord,
    key: Seq<char>,
    winner: Option<Seq<char>>,
    reason: Seq<char>,
    detail: Option<Seq<char>>,
    now: i64,
) -> bool {
    &&& m2.match_status == (if m.match_status == MatchStatus::JoinedOnChain || m.match_status
        == MatchStatus::InProgress {
        MatchStatus::ResultPendingFinalize
    } else {
        m.match_status
    })
    &&& (m.finalization_reason_code is Some ==> m2.finalization_reason_code
        == m.finalization_reason_code)
    &&& (m.finalization_reason_code is None ==> (m2.finalization_reason_code matches Some(c) && c@
        == reason))
    &&& (m.finalization_reason_detail is Some ==> m2.finalization_reason_detail
        == m.finalization_reason_detail)
    &&& (m.finalization_reason_detail is None ==> opt_view(m2.finalization_reason_detail)
        == detail)
    &&& (m.winner_pubkey is Some ==> m2.winner_pubkey == m.winner_pubkey)
    &&& (m.winner_pubkey is None ==> opt_view(m2.winner_pubkey) == winner)
    &&& (m.result_idempotency_key is Some ==> m2.result_idempotency_key
        == m.result_idempotency_key)
    &&& (m.result_idempotency_key is None ==> (m2.result_idempotency_key matches Some(k) && k@
        == key))
    &&& m2.result_reported_at == (if m.result_reported_at is Some {
        m.result_reported_at
    } else {
        Some(now)
    })
    &&& m2.updated_at == now
    &&& m2.match_id == m.match_id
    &&& m2.join_code == m.join_code
    &&& m2.program_id == m.program_id
    &&& m2.authority_pubkey == m.authority_pubkey
    &&& m2.game_pda == m.game_pda
    &&& m2.vault_pda == m.vault_pda
    &&& m2.player1_pubkey == m.player1_pubkey
    &&& m2.player2_pubkey == m.player2_pubkey
    &&& m2.entry_lamports == m.entry_lamports
    &&& m2.create_tx_sig == m.create_tx_sig
    &&& m2.join_tx_sig == m.join_tx_sig
    &&& m2.final_tx_sig == m.final_tx_sig
    &&& m2.created_onchain_at == m.created_onchain_at
    &&& m2.joined_onchain_at == m.joined_onchain_at
    &&& m2.join_expires_at == m.join_expires_at
    &&& m2.settle_expires_at == m.settle_expires_at
    &&& m2.last_error == m.last_error
    &&& m2.finalized_at == m.finalized_at
}

/// A fresh pending job for this match.
pub open spec fn is_fresh_job(
    j: ChainJob,
    job_id: i64,
    match_id: i64,
    job_type: ChainJobType,
    winner: Option<Seq<char>>,
    now: i64,
) -> bool {
    &&& j.job_id == job_id
    &&& j.match_id == match_id
    &&& j.job_type == job_type
    &&& j.status == ChainJobStatus::Pending
    &&& opt_view(j.winner_pubkey) == winner
    &&& j.attempt_count == 0
    &&& j.last_tx_sig is None
    &&& j.last_error is None
    &&& j.next_attempt_at == now
    &&& j.lock_token is None
    &&& j.locked_at is None
    &&& j.updated_at == now
}

/// A job a worker may take now: in a runnable status, due, and not
/// under a live lease.
pub open spec fn job_due(j: ChainJob, now: i64) -> bool {
    &&& (j.status == ChainJobStatus::Pending || j.status == ChainJobStatus::Retrying || j.status
        == ChainJobStatus::Submitted)
    &&& j.next_attempt_at <= now
    &&& (j.lock_token is None || j.locked_at is None || j.locked_at.unwrap() < now - LEASE_SECONDS)
}

/// Queue order: earlier due time first, then lower id.
pub open spec fn job_before(a: ChainJob, b: ChainJob) -> bool {
    a.next_attempt_at < b.next_attempt_at || (a.next_attempt_at == b.next_attempt_at && a.job_id
        < b.job_id)
}

/// How a successful submission rewrites the job row.
pub open spec fn submitted_job_transform(j: ChainJob, j2: ChainJob, sig: Seq<char>, now: i64) -> bool {
    &&& j2.status == ChainJobStatus::Submitted
    &&& (j2.last_tx_sig matches Some(t) && t@ == sig)
    &&& j2.attempt_count == (if j.attempt_count < i32::MAX {
        j.attempt_count + 1
    } else {
        j.attempt_count as int
    })
    &&& j2.last_error is None
    &&& j2.next_attempt_at == j.next_attempt_at
    &&& j2.lock_token == j.lock_token
    &&& j2.locked_at == j.locked_at
    &&& j2.updated_at == now
    &&& j2.job_id == j.job_id
    &&& j2.match_id == j.match_id
    &&& j2.job_type == j.job_type
    &&& j2.winner_pubkey == j.winner_pubkey
}

/// How a retry or failure rewrites the job row: the lease is released,
/// the error recorded, and a retry is scheduled `backoff` seconds out.
pub open spec fn retry_fail_job_transform(
    j: ChainJob,
    j2: ChainJob,
    next_status: ChainJobStatus,
    err: Seq<char>,
    backoff: i64,
    increment: bool,
    now: i64,
) -> bool {
    &&& j2.status == next_status
    &&& (j2.last_error matches Some(t) && t@ == err)
    &&& j2.next_attempt_at == (if next_status == ChainJobStatus::Retrying {
        (if now + backoff <= i64::MAX {
            (now + backoff) as i64
        } else {
            i64::MAX
        })
    } else {
        j.next_attempt_at
    })
    &&& j2.attempt_count == (if increment && j.attempt_count < i32::MAX {
        j.attempt_count + 1
    } else {
        j.attempt_count as int
    })
    &&& j2.lock_token is None
    &&& j2.locked_at is None
    &&& j2.updated_at == now
    &&& j2.job_id == j.job_id
    &&& j2.match_id == j.match_id
    &&& j2.job_type == j.job_type
    &&& j2.winner_pubkey == j.winner_pubkey
    &&& j2.last_tx_sig == j.last_tx_sig
}

/// How the match row moves while its job is being worked: optionally on
/// to `finalizing`, with the error column rewritten.
pub open spec fn worker_match_transform(
    m: MatchRecord,
    m2: MatchRecord,
    to_finalizing: bool,
    err: Option<Seq<char>>,
    now: i64,
) -> bool {
    &&& m2.match_status == (if to_finalizing && (m.match_status
        == MatchStatus::ResultPendingFinalize || m.match_status == MatchStatus::Finalizing) {
        MatchStatus::Finalizing
    } else {
        m.match_status
    })
    &&& opt_view(m2.last_error) == err
    &&& m2.updated_at == now
    &&& m2.match_id == m.match_id
    &&& m2.join_code == m.join_code
    &&& m2.program_id == m.program_id
    &&& m2.authority_pubkey == m.authority_pubkey
    &&& m2.game_pda == m.game_pda
    &&& m2.vault_pda == m.vault_pda
    &&& m2.player1_pubkey == m.player1_pubkey
    &&& m2.player2_pubkey == m.player2_pubkey
    &&& m2.entry_lamports == m.entry_lamports
    &&& m2.winner_pubkey == m.winner_pubkey
    &&& m2.finalization_reason_code == m.finalization_reason_code
    &&& m2.finalization_reason_detail == m.finalization_reason_detail
    &&& m2.result_idempotency_key == m.result_idempotency_key
    &&& m2.result_reported_at == m.result_reported_at
    &&& m2.create_tx_sig == m.create_tx_sig
    &&& m2.join_tx_sig == m.join_tx_sig
    &&& m2.final_tx_sig == m.final_tx_sig
    &&& m2.created_onchain_at == m.created_onchain_at
    &&& m2.joined_onchain_at == m.joined_onchain_at
    &&& m2.join_expires_at == m.join_expires_at
    &&& m2.settle_expires_at == m.settle_expires_at
    &&& m2.finalized_at == m.finalized_at
}

/// How confirmation rewrites the job row: frozen as confirmed, lease
/// released, the signature kept or filled in.
pub open spec fn confirm_job_transform(
    j: ChainJob,
    j2: ChainJob,
    sig: Option<Seq<char>>,
    now: i64,
) -> bool {
    &&& j2.status == ChainJobStatus::Confirmed
    &&& (j.last_tx_sig is Some ==> j2.last_tx_sig == j.last_tx_sig)
    &&& (j.last_tx_sig is None ==> opt_view(j2.last_tx_sig) == sig)
    &&& j2.last_error is None
    &&& j2.lock_token is None
    &&& j2.locked_at is None
    &&& j2.updated_at == now
    &&& j2.next_attempt_at == j.next_attempt_at
    &&& j2.attempt_count == j.attempt_count
    &&& j2.job_id == j.job_id
    &&& j2.match_id == j.match_id
    &&& j2.job_type == j.job_type
    &&& j2.winner_pubkey == j.winner_pubkey
}

/// How confirmation rewrites the match row: the terminal status, the
/// final signature and the finalization stamp kept or filled in.
pub open spec fn finalize_match_transform(
    m: MatchRecord,
    m2: MatchRecord,
    final_status: MatchStatus,
    sig: Option<Seq<char>>,
    now: i64,
) -> bool {
    &&& m2.match_status == final_status
    &&& (m.final_tx_sig is Some ==> m2.final_tx_sig == m.final_tx_sig)
    &&& (m.final_tx_sig is None ==> opt_view(m2.final_tx_sig) == sig)
    &&& m2.finalized_at == (if m.finalized_at is Some {
        m.finalized_at
    } else {
        Some(now)
    })
    &&& m2.last_error is None
    &&& m2.updated_at == now
    &&& m2.match_id == m.match_id
    &&& m2.join_code == m.join_code
    &&& m2.program_id == m.program_id
    &&& m2.authority_pubkey == m.authority_pubkey
    &&& m2.game_pda == m.game_pda
    &&& m2.vault_pda == m.vault_pda
    &&& m2.player1_pubkey == m.player1_pubkey
    &&& m2.player2_pubkey == m.player2_pubkey
    &&& m2.entry_lamports == m.entry_lamports
    &&& m2.winner_pubkey == m.winner_pubkey
    &&& m2.finalization_reason_code == m.finalization_reason_code
    &&& m2.finalization_reason_detail == m.finalization_reason_detail
    &&& m2.result_idempotency_key == m.result_idempotency_key
    &&& m2.result_reported_at == m.result_reported_at
    &&& m2.create_tx_sig == m.create_tx_sig
    &&& m2.join_tx_sig == m.join_tx_sig
    &&& m2.created_onchain_at == m.created_onchain_at
    &&& m2.joined_onchain_at == m.joined_onchain_at
    &&& m2.join_expires_at == m.join_expires_at
    &&& m2.settle_expires_at == m.settle_expires_at
}

/// How an admin retry rewrites the job row: back to pending, due now,
/// lease and error cleared.
pub open spec fn admin_retry_job_transform(j: ChainJob, j2: ChainJob, now: i64) -> bool {
    &&& j2.status == ChainJobStatus::Pending
    &&& j2.next_attempt_at == now
    &&& j2.last_error is None
    &&& j2.lock_token is None
    &&& j2.locked_at is None
    &&& j2.updated_at == now
    &&& j2.attempt_count == j.attempt_count
    &&& j2.job_id == j.job_id
    &&& j2.match_id == j.match_id
    &&& j2.job_type == j.job_type
    &&& j2.winner_pubkey == j.winner_pubkey
    &&& j2.last_tx_sig == j.last_tx_sig
}

/// The idempotency key the timeout watcher writes for a match.
pub open spec fn auto_timeout_key_view(id: i64) -> Seq<char> {
    "auto-join-timeout-"@ + crate::codes::dec_seq(id as nat)
}

/// A match whose join window has expired with no second player and no
/// queued job yet.
pub open spec fn timeout_candidate(m: MatchRecord, js: Seq<ChainJob>, now: i64) -> bool {
    &&& m.match_status == MatchStatus::CreatedOnChain
    &&& m.player2_pubkey is None
    &&& (m.join_expires_at matches Some(e) && e <= now)
    &&& !has_job(js, m.match_id)
}

/// Watcher order: earliest expiry first, then lowest id.
pub open spec fn candidate_before(a: MatchRecord, b: MatchRecord) -> bool {
    a.join_expires_at.unwrap() < b.join_expires_at.unwrap() || (a.join_expires_at.unwrap()
        == b.join_expires_at.unwrap() && a.match_id < b.match_id)
}

/// How the watcher rewrites an expired match row: straight to
/// `result_pending_finalize`, with the timeout reason, the derived
/// idempotency key and a cleared winner.
pub open spec fn watcher_match_transform(m: MatchRecord, m2: MatchRecord, now: i64) -> bool {
    &&& m2.match_status == MatchStatus::ResultPendingFinalize
    &&& (m.finalization_reason_code is Some ==> m2.finalization_reason_code
        == m.finalization_reason_code)
    &&& (m.finalization_reason_code is None ==> (m2.finalization_reason_code matches Some(c) && c@
        == "join_timeout"@))
    &&& (m.finalization_reason_detail is Some ==> m2.finalization_reason_detail
        == m.finalization_reason_detail)
    &&& (m.finalization_reason_detail is None ==> (m2.finalization_reason_detail matches Some(d)
        && d@ == "timeout_watcher"@))
    &&& m2.winner_pubkey is None
    &&& (m.result_idempotency_key is Some ==> m2.result_idempotency_key
        == m.result_idempotency_key)
    &&& (m.result_idempotency_key is None ==> (m2.result_idempotency_key matches Some(k) && k@
        == auto_timeout_key_view(m.match_id)))
    &&& m2.result_reported_at == (if m.result_reported_at is Some {
        m.result_reported_at
    } else {
        Some(now)
    })
    &&& m2.last_error is None
    &&& m2.updated_at == now
    &&& m2.match_id == m.match_id
    &&& m2.join_code == m.join_code
    &&& m2.program_id == m.program_id
    &&& m2.authority_pubkey == m.authority_pubkey
    &&& m2.game_pda == m.game_pda
    &&& m2.vault_pda == m.vault_pda
    &&& m2.player1_pubkey == m.player1_pubkey
    &&& m2.player2_pubkey == m.player2_pubkey
    &&& m2.entry_lamports == m.entry_lamports
    &&& m2.create_tx_sig == m.create_tx_sig
    &&& m2.join_tx_sig == m.join_tx_sig
    &&& m2.final_tx_sig == m.final_tx_sig
    &&& m2.created_onchain_at == m.created_onchain_at
    &&& m2.joined_onchain_at == m.joined_onchain_at
    &&& m2.join_expires_at == m.join_expires_at
    &&& m2.settle_expires_at == m.settle_expires_at
    &&& m2.finalized_at == m.finalized_at
}

/// One match row changed (same id, code and stake) and at most one job
/// row changed or was appended for that same match: the store invariant
/// carries over. The requires spell out exactly the cross-row facts the
/// changed rows must satisfy.
#[verifier::rlimit(60)]
pub proof fn lemma_wf_after_update(
    pre: MatchStore,
    post: MatchStore,
    mi: int,
    job_touched: bool,
    appended: bool,
    ji: int,
)
    requires
        pre.wf(),
        0 <= mi < pre.matches@.len(),
        post.matches@ == pre.matches@.update(mi, post.matches@[mi]),
        post.matches@[mi].match_id == pre.matches@[mi].match_id,
        post.matches@[mi].join_code == pre.matches@[mi].join_code,
        post.matches@[mi].entry_lamports == pre.matches@[mi].entry_lamports,
        post.matches@[mi].result_idempotency_key is Some ==> status_rank(
            post.matches@[mi].match_status,
        ) >= 4,
        post.next_match_id == pre.next_match_id,
        post.used_nonces == pre.used_nonces,
        !job_touched ==> post.jobs == pre.jobs && post.next_job_id == pre.next_job_id,
        (!job_touched && has_job(pre.jobs@, pre.matches@[mi].match_id)) ==> ({
            &&& status_rank(post.matches@[mi].match_status) >= 4
            &&& (job_of(pre.jobs@, pre.matches@[mi].match_id).status == ChainJobStatus::Confirmed
                ==> is_terminal_status(post.matches@[mi].match_status)
                && post.matches@[mi].finalized_at is Some)
            &&& (is_terminal_status(post.matches@[mi].match_status) ==> job_of(
                pre.jobs@,
                pre.matches@[mi].match_id,
            ).status == ChainJobStatus::Confirmed)
        }),
        (!job_touched && !has_job(pre.jobs@, pre.matches@[mi].match_id)) ==> (is_terminal_status(
            post.matches@[mi].match_status,
        ) ==> is_terminal_status(pre.matches@[mi].match_status)),
        job_touched ==> post.jobs@[ji].match_id == pre.matches@[mi].match_id,
        (job_touched && appended) ==> ({
            &&& ji == pre.jobs@.len()
            &&& post.jobs@ == pre.jobs@.push(post.jobs@[ji])
            &&& !has_job(pre.jobs@, pre.matches@[mi].match_id)
            &&& post.jobs@[ji].job_id == pre.next_job_id
            &&& pre.next_job_id < i64::MAX
            &&& post.next_job_id == pre.next_job_id + 1
        }),
        (job_touched && !appended) ==> ({
            &&& 0 <= ji < pre.jobs@.len()
            &&& post.jobs@ == pre.jobs@.update(ji, post.jobs@[ji])
            &&& post.jobs@[ji].job_id == pre.jobs@[ji].job_id
            &&& post.jobs@[ji].match_id == pre.jobs@[ji].match_id
            &&& post.next_job_id == pre.next_job_id
        }),
        job_touched ==> ({
            &&& (post.jobs@[ji].lock_token is Some <==> post.jobs@[ji].locked_at is Some)
            &&& (post.jobs@[ji].winner_pubkey is Some <==> post.jobs@[ji].job_type
                == ChainJobType::Settle)
            &&& post.jobs@[ji].attempt_count >= 0
            &&& status_rank(post.matches@[mi].match_status) >= 4
            &&& (post.jobs@[ji].status == ChainJobStatus::Confirmed ==> post.jobs@[ji].lock_token
                is None && is_terminal_status(post.matches@[mi].match_status)
                && post.matches@[mi].finalized_at is Some)
            &&& (is_terminal_status(post.matches@[mi].match_status) ==> post.jobs@[ji].status
                == ChainJobStatus::Confirmed)
        }),
    ensures
        post.wf(),
{
    let mid = pre.matches@[mi].match_id;
    assert forall|k: int| 0 <= k < post.matches@.len() implies #[trigger] post.matches@[k].match_id
        == pre.matches@[k].match_id by {
        if k != mi {
            assert(post.matches@[k] == pre.matches@[k]);
        }
    }
    assert(post.wf_matches()) by {
        assert forall|k: int| 0 <= k < post.matches@.len() implies 0
            < (#[trigger] post.matches@[k]).match_id < post.next_match_id && (
        post.matches@[k].join_code)@ == join_code_view(post.matches@[k].match_id as int)
            && post.matches@[k].entry_lamports > 0 && (post.matches@[k].result_idempotency_key
            is Some ==> status_rank(post.matches@[k].match_status) >= 4) by {
            if k != mi {
                assert(post.matches@[k] == pre.matches@[k]);
            } else {
                assert(pre.matches@[mi].join_code@ == join_code_view(mid as int));
            }
        }
    }
    // Match lookups keep their index and, off the changed row, their value.
    assert forall|id: i64| has_match(pre.matches@, id) implies has_match(post.matches@, id)
        && match_idx(post.matches@, id) == match_idx(pre.matches@, id) && (id != mid
        ==> match_of(post.matches@, id) == match_of(pre.matches@, id)) && (id == mid ==> match_of(
        post.matches@,
        id,
    ) == post.matches@[mi]) by {
        let w = match_idx(pre.matches@, id);
        assert(0 <= w < pre.matches@.len() && pre.matches@[w].match_id == id);
        lemma_match_idx_is(pre.matches@, id, w);
        assert(post.matches@[w].match_id == id);
        lemma_match_idx_is(post.matches@, id, w);
        if id == mid {
            lemma_match_idx_is(pre.matches@, mid, mi);
        }
    }
    assert forall|id: i64| has_match(post.matches@, id) implies has_match(pre.matches@, id) by {
        let w = match_idx(post.matches@, id);
        assert(pre.matches@[w].match_id == id);
    }
    assert(post.wf_nonces());
    // Jobs, pointwise.
    assert(post.wf_jobs()) by {
        if job_touched && appended {
            assert(post.jobs@.len() == pre.jobs@.len() + 1);
            assert forall|k: int| 0 <= k < pre.jobs@.len() implies #[trigger] post.jobs@[k]
                == pre.jobs@[k] by {}
        } else if job_touched {
            assert(post.jobs@.len() == pre.jobs@.len());
        }
        assert forall|a: int, b: int| 0 <= a < b < post.jobs@.len() implies #[trigger] post.jobs@[a].match_id
            != #[trigger] post.jobs@[b].match_id && post.jobs@[a].job_id != post.jobs@[b].job_id by {
            if job_touched && appended && b == ji {
                assert(post.jobs@[a] == pre.jobs@[a]);
                if post.jobs@[a].match_id == mid {
                    assert(has_job(pre.jobs@, mid));
                }
                assert(0 < pre.jobs@[a].job_id < pre.next_job_id);
            } else if job_touched && !appended {
                assert(post.jobs@[a].match_id == pre.jobs@[a].match_id);
                assert(post.jobs@[a].job_id == pre.jobs@[a].job_id);
                assert(post.jobs@[b].match_id == pre.jobs@[b].match_id);
                assert(post.jobs@[b].job_id == pre.jobs@[b].job_id);
            }
        }
        assert forall|k: int| 0 <= k < post.jobs@.len() implies ({
            let pj = #[trigger] post.jobs@[k];
            &&& 0 < pj.job_id < post.next_job_id
            &&& has_match(post.matches@, pj.match_id)
            &&& status_rank(match_of(post.matches@, pj.match_id).match_status) >= 4
            &&& (pj.lock_token is Some <==> pj.locked_at is Some)
            &&& (pj.status == ChainJobStatus::Confirmed ==> pj.lock_token is None
                && is_terminal_status(match_of(post.matches@, pj.match_id).match_status)
                && match_of(post.matches@, pj.match_id).finalized_at is Some)
            &&& (is_terminal_status(match_of(post.matches@, pj.match_id).match_status) ==> pj.status
                == ChainJobStatus::Confirmed)
            &&& (pj.winner_pubkey is Some <==> pj.job_type == ChainJobType::Settle)
            &&& pj.attempt_count >= 0
        }) by {
            let pj = post.jobs@[k];
            if job_touched && k == ji {
                assert(pj.match_id == mid);
                assert(has_match(pre.matches@, mid)) by {
                    lemma_match_idx_is(pre.matches@, mid, mi);
                }
                assert(match_of(post.matches@, mid) == post.matches@[mi]);
            } else {
                assert(pj == pre.jobs@[k]);
                let idk = pj.match_id;
                assert(has_match(pre.matches@, idk));
                if idk == mid {
                    // The pre job for this match is this very row.
                    assert(has_job(pre.jobs@, mid));
                    lemma_job_idx_is(pre.jobs@, mid, k);
                    if job_touched {
                        if appended {
                            assert(false);
                        } else {
                            // Another job row for the same match is impossible.
                            assert(pre.jobs@[ji].match_id == mid);
                            lemma_job_idx_is(pre.jobs@, mid, ji);
                            assert(k == ji);
                            assert(false);
                        }
                    }
                    assert(match_of(post.matches@, mid) == post.matches@[mi]);
                    assert(job_of(pre.jobs@, mid) == pre.jobs@[k]);
                } else {
                    assert(match_of(post.matches@, idk) == match_of(pre.matches@, idk));
                    assert(status_rank(match_of(pre.matches@, idk).match_status) >= 4);
                }
            }
        }
        assert forall|k: int| 0 <= k < post.matches@.len() implies (is_terminal_status(
            (#[trigger] post.matches@[k]).match_status,
        ) ==> has_job(post.jobs@, post.matches@[k].match_id)) by {
            if is_terminal_status(post.matches@[k].match_status) {
                if k != mi {
                    assert(post.matches@[k] == pre.matches@[k]);
                    assert(has_job(pre.jobs@, pre.matches@[k].match_id));
                    let w = job_idx(pre.jobs@, pre.matches@[k].match_id);
                    assert(pre.jobs@[w].match_id == pre.matches@[k].match_id);
                    assert(post.jobs@[w].match_id == pre.matches@[k].match_id);
                    assert(has_job(post.jobs@, post.matches@[k].match_id));
                } else {
                    if job_touched {
                        assert(post.jobs@[ji].match_id == mid);
                        assert(has_job(post.jobs@, mid));
                    } else {
                        if has_job(pre.jobs@, mid) {
                            let w = job_idx(pre.jobs@, mid);
                            assert(pre.jobs@[w].match_id == mid);
                            assert(has_job(post.jobs@, mid));
                        } else {
                            assert(is_terminal_status(pre.matches@[mi].match_status));
                            assert(has_job(pre.jobs@, mid));
                        }
                    }
                }
            }
        }
    }
}

/// With unique ids, the witness index is the chosen one.
pub proof fn lemma_match_idx_is(m: Seq<MatchRecord>, id: i64, i: int)
    requires
        0 <= i < m.len(),
        m[i].match_id == id,
        forall|a: int, b: int|
            0 <= a < b < m.len() ==> #[trigger] m[a].match_id != #[trigger] m[b].match_id,
    ensures
        has_match(m, id),
        match_idx(m, id) == i,
        match_of(m, id) == m[i],
{
    assert(has_match(m, id));
    let c = match_idx(m, id);
    if c != i {
        if c < i {
            assert(m[c].match_id != m[i].match_id);
        } else {
            assert(m[i].match_id != m[c].match_id);
        }
    }
}

/// With unique match ids, the witness index is the chosen one.
pub proof fn lemma_job_idx_is(js: Seq<ChainJob>, match_id: i64, i: int)
    requires
        0 <= i < js.len(),
        js[i].match_id == match_id,
        forall|a: int, b: int|
            0 <= a < b < js.len() ==> #[trigger] js[a].match_id != #[trigger] js[b].match_id,
    ensures
        has_job(js, match_id),
        job_idx(js, match_id) == i,
        job_of(js, match_id) == js[i],
{
    assert(has_job(js, match_id));
    let c = job_idx(js, match_id);
    if c != i {
        if c < i {
            assert(js[c].match_id != js[i].match_id);
        } else {
            assert(js[i].match_id != js[c].match_id);
        }
    }
}

} // verus!

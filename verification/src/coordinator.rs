//! The match coordinator: the operations behind the HTTP surface.
//! Each one validates its inputs, runs the matching store transaction,
//! and shapes the response. Ledger reads happen outside; the two
//! confirm operations therefore come in two halves — a precheck that
//! says whether the chain must be consulted, and an apply that takes
//! the fetched account bytes.

use vstd::prelude::*;
use vstd::string::StringSliceAdditionalSpecFns;

use crate::codes::dec_seq;
use crate::codes::join_code_view;
use crate::codes::to_decimal;
use crate::config::Config;
use crate::dto::CreateConfirmRequest;
use crate::dto::CreateConfirmResponse;
use crate::dto::CreateMatchRequest;
use crate::dto::CreateMatchResponse;
use crate::dto::JoinConfirmRequest;
use crate::dto::JoinConfirmResponse;
use crate::dto::MatchLookupByCodeResponse;
use crate::dto::MatchStatusResponse;
use crate::dto::ResultRequest;
use crate::dto::ResultResponse;
use crate::dto::RetryFinalizationRequest;
use crate::dto::RetryFinalizationResponse;
use crate::enums::ChainJobType;
use crate::enums::MatchStatus;
use crate::enums::ResultOutcome;
use crate::enums::is_terminal_status;
use crate::enums::str_eq;
use crate::error::AppError;
use crate::bytes::ascii_upper;
use crate::bytes::trim_bytes;
use crate::bytes::trim_view;
use crate::bytes::upper_view;
use crate::game_account::DecodedGameState;
use crate::game_account::decode_game_account;
use crate::game_account::decode_ok;
use crate::game_account::decode_view;
use crate::parse::parse_i64_spec;
use crate::parse::parse_match_id;
use crate::parse::parse_u64;
use crate::parse::parse_u64_spec;
use crate::parse::trim_str;
use crate::parse::trimmed_view;
use crate::pda::base58_of;
use crate::pda::derive_match_pdas;
use crate::pda::game_pda_view;
use crate::pda::match_pdas_ok;
use crate::pda::pubkey_bytes_of;
use crate::pda::pubkey_from_base58;
use crate::pda::pubkey_to_base58;
use crate::pda::vault_pda_view;
use crate::store::CreateConfirmMatchRecord;
use crate::store::CreateMatchRecordParams;
use crate::store::JoinConfirmMatchRecord;
use crate::store::MatchStore;
use crate::store::PersistResultAndEnqueueParams;
use crate::store::create_confirm_transform;
use crate::store::has_job;
use crate::store::job_of;
use crate::store::has_match;
use crate::store::is_create_confirm_of;
use crate::store::is_join_confirm_of;
use crate::store::join_confirm_transform;
use crate::store::match_idx;
use crate::store::match_of;
use crate::store::matches_progress;
use crate::store::opt_view;
use crate::store::result_match_transform;
use crate::store::result_update_allowed;

verus! {

/// Everything `create_match` needs to succeed: a player key left after
/// trimming, a stake that parses into `1..=i64::MAX`, room in the id
/// sequence, and derivable addresses.
pub open spec fn create_match_accepted(
    st: MatchStore,
    config: Config,
    req: CreateMatchRequest,
) -> bool {
    &&& trimmed_view(req.player1_pubkey@).len() > 0
    &&& (parse_u64_spec(vstd::utf8::encode_utf8(req.entry_lamports@)) matches Some(e) && 0 < e <= (
    i64::MAX as u64))
    &&& st.next_match_id < i64::MAX
    &&& match_pdas_ok(
        config.program_id@,
        config.authority_pubkey@,
        trimmed_view(req.player1_pubkey@),
        st.next_match_id,
    )
}

/// Create a match: validate the request, reserve the next id, derive
/// the two addresses and insert the `waiting_create_tx` row.
pub fn create_match(
    store: &mut MatchStore,
    config: &Config,
    req: &CreateMatchRequest,
    now: i64,
) -> (r: Result<CreateMatchResponse, AppError>)
    requires
        old(store).wf(),
    ensures
        final(store).wf(),
        matches_progress(old(store).matches@, final(store).matches@),
        final(store).jobs == old(store).jobs,
        final(store).used_nonces == old(store).used_nonces,
        r is Ok <==> create_match_accepted(*old(store), *config, *req),
        (match r {
            Ok(resp) => ({
                let id = old(store).next_match_id;
                let p1 = trimmed_view(req.player1_pubkey@);
                let e = parse_u64_spec(vstd::utf8::encode_utf8(req.entry_lamports@)).unwrap();
                &&& resp.match_id@ == dec_seq(id as nat)
                &&& resp.join_code@ == join_code_view(id as int)
                &&& resp.program_id@ == config.program_id@
                &&& resp.authority_pubkey@ == config.authority_pubkey@
                &&& resp.game_pda@ == game_pda_view(
                    config.program_id@,
                    config.authority_pubkey@,
                    p1,
                    id,
                )
                &&& resp.vault_pda@ == vault_pda_view(
                    config.program_id@,
                    config.authority_pubkey@,
                    p1,
                    id,
                )
                &&& resp.entry_lamports@ == dec_seq(e as nat)
                &&& resp.join_timeout_seconds == config.join_timeout_seconds
                &&& resp.settle_timeout_seconds == config.settle_timeout_seconds
                &&& resp.match_status == MatchStatus::WaitingCreateTx
                &&& final(store).next_match_id == id + 1
                &&& final(store).matches@.len() == old(store).matches@.len() + 1
                &&& (forall|k: int|
                    0 <= k < old(store).matches@.len() ==> final(store).matches@[k]
                        == old(store).matches@[k])
                &&& ({
                    let m = final(store).matches@.last();
                    &&& m.match_id == id
                    &&& m.join_code@ == join_code_view(id as int)
                    &&& m.program_id@ == config.program_id@
                    &&& m.authority_pubkey@ == config.authority_pubkey@
                    &&& m.player1_pubkey@ == p1
                    &&& m.entry_lamports == e
                    &&& m.game_pda@ == resp.game_pda@
                    &&& m.vault_pda@ == resp.vault_pda@
                    &&& m.match_status == MatchStatus::WaitingCreateTx
                })
            }),
            Err(e) => final(store).matches == old(store).matches && (
            if trimmed_view(req.player1_pubkey@).len() == 0 || !(parse_u64_spec(
                vstd::utf8::encode_utf8(req.entry_lamports@),
            ) matches Some(v) && 0 < v <= (i64::MAX as u64)) {
                e is BadRequest && *final(store) == *old(store)
            } else if old(store).next_match_id == i64::MAX {
                e is Internal && *final(store) == *old(store)
            } else {
                final(store).next_match_id == old(store).next_match_id + 1 && (if pubkey_bytes_of(
                    config.program_id@,
                ) is None || pubkey_bytes_of(config.authority_pubkey@) is None || pubkey_bytes_of(
                    trimmed_view(req.player1_pubkey@),
                ) is None {
                    e is BadRequest
                } else {
                    e is Internal
                })
            }),
        }),
{
    let player1 = trim_str(req.player1_pubkey.as_str());
    if player1.is_empty() {
        return Err(AppError::BadRequest("player1_pubkey is required".to_owned()));
    }
    let entry = match parse_u64(req.entry_lamports.as_str().as_bytes()) {
        Some(e) => e,
        None => {
            return Err(
                AppError::BadRequest("entry_lamports must be a positive integer string".to_owned()),
            );
        },
    };
    if entry == 0 {
        return Err(AppError::BadRequest("entry_lamports must be > 0".to_owned()));
    }
    if entry > i64::MAX as u64 {
        return Err(
            AppError::BadRequest("entry_lamports is too large for backend storage".to_owned()),
        );
    }
    let match_id = match store.reserve_next_match_id() {
        Ok(id) => id,
        Err(e) => {
            return Err(e);
        },
    };
    let join_code = match crate::codes::join_code_from_match_id(match_id) {
        Ok(c) => c,
        Err(e) => {
            return Err(e);
        },
    };
    let pdas = match derive_match_pdas(
        config.program_id.as_str(),
        config.authority_pubkey.as_str(),
        player1,
        match_id,
    ) {
        Ok(p) => p,
        Err(e) => {
            return Err(e);
        },
    };
    let params = CreateMatchRecordParams {
        program_id: config.program_id.clone(),
        authority_pubkey: config.authority_pubkey.clone(),
        player1_pubkey: player1.to_owned(),
        entry_lamports: entry as i64,
        game_pda: pdas.game_pda.clone(),
        vault_pda: pdas.vault_pda.clone(),
    };
    let created = match store.insert_create_match_record(
        match_id,
        join_code.as_str(),
        &params,
        now,
    ) {
        Ok(c) => c,
        Err(e) => {
            return Err(e);
        },
    };
    Ok(CreateMatchResponse {
        match_id: to_decimal(match_id as u64),
        join_code: created.join_code,
        program_id: config.program_id.clone(),
        authority_pubkey: config.authority_pubkey.clone(),
        game_pda: pdas.game_pda,
        vault_pda: pdas.vault_pda,
        entry_lamports: to_decimal(entry),
        join_timeout_seconds: config.join_timeout_seconds,
        settle_timeout_seconds: config.settle_timeout_seconds,
        match_status: MatchStatus::WaitingCreateTx,
    })
}

/// The trimmed, upcased byte form of a user-supplied join code.
pub open spec fn normalized_code(s: Seq<char>) -> Seq<u8> {
    upper_view(trim_view(vstd::utf8::encode_utf8(s)))
}

/// Look a match up by its join code (trimmed and upcased first). A
/// settled or refunded match can no longer be joined and conflicts.
pub fn get_match_by_code(store: &MatchStore, join_code: &str) -> (r: Result<
    MatchLookupByCodeResponse,
    AppError,
>)
    requires
        store.wf(),
    ensures
        r is Ok <==> (normalized_code(join_code@).len() > 0 && (exists|i: int|
            0 <= i < store.matches@.len() && vstd::utf8::encode_utf8(
                (#[trigger] store.matches@[i]).join_code@,
            ) == normalized_code(join_code@) && !is_terminal_status(
                store.matches@[i].match_status,
            ))),
        (match r {
            Ok(resp) => exists|i: int|
                0 <= i < store.matches@.len() && vstd::utf8::encode_utf8(
                    (#[trigger] store.matches@[i]).join_code@,
                ) == normalized_code(join_code@) && !is_terminal_status(
                    store.matches@[i].match_status,
                ) && resp.match_id@ == dec_seq(store.matches@[i].match_id as nat)
                    && resp.join_code@ == store.matches@[i].join_code@ && resp.game_pda@
                    == store.matches@[i].game_pda@ && resp.vault_pda@
                    == store.matches@[i].vault_pda@ && resp.player1_pubkey@
                    == store.matches@[i].player1_pubkey@ && resp.entry_lamports@ == dec_seq(
                    store.matches@[i].entry_lamports as nat,
                ) && resp.match_status == store.matches@[i].match_status && resp.join_expires_at
                    == store.matches@[i].join_expires_at,
            Err(e) => (if normalized_code(join_code@).len() == 0 {
                e is BadRequest
            } else if (forall|i: int|
                0 <= i < store.matches@.len() ==> vstd::utf8::encode_utf8(
                    (#[trigger] store.matches@[i]).join_code@,
                ) != normalized_code(join_code@)) {
                e is NotFound
            } else {
                e is Conflict && (forall|i: int|
                    (0 <= i < store.matches@.len() && vstd::utf8::encode_utf8(
                        (#[trigger] store.matches@[i]).join_code@,
                    ) == normalized_code(join_code@)) ==> is_terminal_status(
                        store.matches@[i].match_status,
                    ))
            }),
        }),
{
    let trimmed = trim_bytes(join_code.as_bytes());
    let normalized = ascii_upper(trimmed.as_slice());
    if normalized.len() == 0 {
        return Err(AppError::BadRequest("join_code is required".to_owned()));
    }
    let row = match store.get_match_lookup_by_code_bytes(normalized.as_slice()) {
        Some(row) => row,
        None => {
            return Err(AppError::NotFound("match".to_owned()));
        },
    };
    if row.match_status == MatchStatus::Settled || row.match_status == MatchStatus::Refunded {
        proof {
            let i0 = choose|i: int|
                0 <= i < store.matches@.len() && vstd::utf8::encode_utf8(
                    (#[trigger] store.matches@[i]).join_code@,
                ) == normalized@ && crate::store::is_lookup_of(row, store.matches@[i]);
            assert forall|k: int|
                (0 <= k < store.matches@.len() && vstd::utf8::encode_utf8(
                    (#[trigger] store.matches@[k]).join_code@,
                ) == normalized_code(join_code@)) implies is_terminal_status(
                store.matches@[k].match_status,
            ) by {
                crate::store::lemma_code_bytes_unique(*store, k, i0);
            }
        }
        return Err(AppError::Conflict("match is no longer active".to_owned()));
    }
    Ok(MatchLookupByCodeResponse {
        match_id: to_decimal(row.match_id as u64),
        join_code: row.join_code,
        game_pda: row.game_pda,
        vault_pda: row.vault_pda,
        player1_pubkey: row.player1_pubkey,
        entry_lamports: to_decimal(row.entry_lamports as u64),
        match_status: row.match_status,
        join_expires_at: row.join_expires_at,
    })
}

/// What a create-confirm precheck decided.
pub enum CreateConfirmPrecheck {
    /// The match is already past `waiting_create_tx`: answer from the
    /// stored row, no chain read needed.
    Done(CreateConfirmResponse),
    /// The chain must be consulted for this row's game account.
    NeedsChain(CreateConfirmMatchRecord),
}

/// First half of create-confirm: validate, load the row, and either
/// answer idempotently or ask for the on-chain account.
pub fn create_confirm_precheck(
    store: &MatchStore,
    match_id_raw: &str,
    req: &CreateConfirmRequest,
) -> (r: Result<CreateConfirmPrecheck, AppError>)
    requires
        store.wf(),
    ensures
        r is Ok <==> (req.create_tx_sig@.len() > 0 && (parse_i64_spec(
            trim_view(match_id_raw.spec_bytes()),
        ) matches Some(v) && v > 0 && has_match(store.matches@, v))),
        (match r {
            Ok(pre) => req.create_tx_sig@.len() > 0 && (match pre {
                CreateConfirmPrecheck::Done(resp) => ({
                    let id = parse_i64_spec(trim_view(match_id_raw.spec_bytes())).unwrap();
                    let m = match_of(store.matches@, id);
                    &&& parse_i64_spec(trim_view(match_id_raw.spec_bytes())) matches Some(v) && v
                        > 0
                    &&& has_match(store.matches@, id)
                    &&& m.match_status != MatchStatus::WaitingCreateTx
                    &&& resp.match_id@ == dec_seq(id as nat)
                    &&& resp.verified
                    &&& resp.match_status == m.match_status
                    &&& (match m.create_tx_sig {
                        Some(s) => resp.create_tx_sig@ == s@,
                        None => resp.create_tx_sig@ == req.create_tx_sig@,
                    })
                    &&& resp.join_expires_at == m.join_expires_at
                }),
                CreateConfirmPrecheck::NeedsChain(rec) => ({
                    let id = parse_i64_spec(trim_view(match_id_raw.spec_bytes())).unwrap();
                    &&& parse_i64_spec(trim_view(match_id_raw.spec_bytes())) matches Some(v) && v
                        > 0
                    &&& has_match(store.matches@, id)
                    &&& match_of(store.matches@, id).match_status == MatchStatus::WaitingCreateTx
                    &&& is_create_confirm_of(rec, match_of(store.matches@, id))
                }),
            }),
            Err(e) => (if req.create_tx_sig@.len() == 0 || !(parse_i64_spec(
                trim_view(match_id_raw.spec_bytes()),
            ) matches Some(v) && v > 0) {
                e is BadRequest
            } else {
                e is NotFound && !has_match(
                    store.matches@,
                    parse_i64_spec(trim_view(match_id_raw.spec_bytes())).unwrap(),
                )
            }),
        }),
{
    if req.create_tx_sig.as_str().is_empty() {
        return Err(AppError::BadRequest("create_tx_sig is required".to_owned()));
    }
    let match_id = match parse_match_id(match_id_raw) {
        Ok(id) => id,
        Err(e) => {
            return Err(e);
        },
    };
    let row = match store.get_match_for_create_confirm(match_id) {
        Some(row) => row,
        None => {
            return Err(AppError::NotFound("match".to_owned()));
        },
    };
    if row.match_status != MatchStatus::WaitingCreateTx {
        let sig = match row.create_tx_sig {
            Some(s) => s,
            None => req.create_tx_sig.clone(),
        };
        return Ok(
            CreateConfirmPrecheck::Done(
                CreateConfirmResponse {
                    match_id: to_decimal(match_id as u64),
                    verified: true,
                    match_status: row.match_status,
                    create_tx_sig: sig,
                    join_expires_at: row.join_expires_at,
                },
            ),
        );
    }
    Ok(CreateConfirmPrecheck::NeedsChain(row))
}

/// The stored row and the decoded account agree on who created what.
pub open spec fn create_chain_checks_ok(m: crate::store::MatchRecord, data: Seq<u8>) -> bool {
    &&& decode_ok(data)
    &&& decode_view(data).state == DecodedGameState::Created
    &&& base58_of(decode_view(data).player1) == m.player1_pubkey@
    &&& base58_of(decode_view(data).authority) == m.authority_pubkey@
    &&& decode_view(data).match_id == m.match_id as u64
    &&& decode_view(data).entry_amount == m.entry_lamports as u64
}

/// Second half of create-confirm: check the fetched account against
/// the stored row and step the match to `created_on_chain`.
pub fn create_confirm_apply(
    store: &mut MatchStore,
    program_id: &str,
    join_timeout_seconds: i64,
    match_id: i64,
    create_tx_sig: &str,
    owner: &str,
    account_data: &[u8],
    now: i64,
) -> (r: Result<CreateConfirmResponse, AppError>)
    requires
        old(store).wf(),
    ensures
        final(store).wf(),
        matches_progress(old(store).matches@, final(store).matches@),
        final(store).jobs == old(store).jobs,
        final(store).used_nonces == old(store).used_nonces,
        r is Ok <==> (pubkey_bytes_of(program_id@) is Some && pubkey_bytes_of(owner@)
            == pubkey_bytes_of(program_id@) && decode_ok(account_data@) && has_match(
            old(store).matches@,
            match_id,
        ) && create_chain_checks_ok(match_of(old(store).matches@, match_id), account_data@)
            && i64::MIN <= decode_view(account_data@).created_at + join_timeout_seconds
            <= i64::MAX),
        (match r {
            Ok(resp) => ({
                let i = match_idx(old(store).matches@, match_id);
                let m = old(store).matches@[i];
                let g = decode_view(account_data@);
                &&& pubkey_bytes_of(program_id@) is Some
                &&& pubkey_bytes_of(owner@) == pubkey_bytes_of(program_id@)
                &&& has_match(old(store).matches@, match_id)
                &&& create_chain_checks_ok(m, account_data@)
                &&& g.created_at + join_timeout_seconds <= i64::MAX
                &&& g.created_at + join_timeout_seconds >= i64::MIN
                &&& final(store).matches@ == old(store).matches@.update(
                    i,
                    final(store).matches@[i],
                )
                &&& create_confirm_transform(
                    m,
                    final(store).matches@[i],
                    create_tx_sig@,
                    g.created_at,
                    (g.created_at + join_timeout_seconds) as i64,
                    now,
                )
                &&& resp.match_id@ == dec_seq(match_id as nat)
                &&& resp.verified
                &&& resp.match_status == final(store).matches@[i].match_status
                &&& (match final(store).matches@[i].create_tx_sig {
                    Some(s) => resp.create_tx_sig@ == s@,
                    None => resp.create_tx_sig@ == create_tx_sig@,
                })
                &&& resp.join_expires_at == final(store).matches@[i].join_expires_at
            }),
            Err(e) => *final(store) == *old(store) && (if !(pubkey_bytes_of(program_id@) is Some
                && pubkey_bytes_of(owner@) == pubkey_bytes_of(program_id@)) || !decode_ok(
                account_data@,
            ) {
                e is BadRequest
            } else if !has_match(old(store).matches@, match_id) {
                e is NotFound
            } else if !create_chain_checks_ok(
                match_of(old(store).matches@, match_id),
                account_data@,
            ) {
                e is Conflict
            } else {
                e is Internal && !(i64::MIN <= decode_view(account_data@).created_at
                    + join_timeout_seconds <= i64::MAX)
            }),
        }),
{
    let pid_bytes = match pubkey_from_base58(program_id) {
        Some(v) => v,
        None => {
            return Err(
                AppError::BadRequest("failed to verify on-chain game account".to_owned()),
            );
        },
    };
    let owner_bytes = match pubkey_from_base58(owner) {
        Some(v) => v,
        None => {
            return Err(
                AppError::BadRequest("failed to verify on-chain game account".to_owned()),
            );
        },
    };
    if !crate::bytes::bytes_eq(owner_bytes.as_slice(), pid_bytes.as_slice()) {
        return Err(AppError::BadRequest("unexpected game account owner".to_owned()));
    }
    let decoded = match decode_game_account(account_data) {
        Ok(g) => g,
        Err(_) => {
            return Err(
                AppError::BadRequest("failed to verify on-chain game account".to_owned()),
            );
        },
    };
    let row = match store.get_match_for_create_confirm(match_id) {
        Some(row) => row,
        None => {
            return Err(AppError::NotFound("match".to_owned()));
        },
    };
    if decoded.state != DecodedGameState::Created {
        return Err(AppError::Conflict("game account is not in Created state".to_owned()));
    }
    let p1_b58 = pubkey_to_base58(decoded.player1.as_slice());
    if !str_eq(p1_b58.as_str(), row.player1_pubkey.as_str()) {
        return Err(AppError::Conflict("game.player1 does not match backend record".to_owned()));
    }
    let auth_b58 = pubkey_to_base58(decoded.authority.as_slice());
    if !str_eq(auth_b58.as_str(), row.authority_pubkey.as_str()) {
        return Err(
            AppError::Conflict("game.authority does not match backend record".to_owned()),
        );
    }
    if decoded.match_id != row.match_id as u64 {
        return Err(AppError::Conflict("game.match_id does not match backend record".to_owned()));
    }
    if decoded.entry_amount != row.entry_lamports as u64 {
        return Err(
            AppError::Conflict("game.entry_amount does not match backend record".to_owned()),
        );
    }
    let created_at = decoded.created_at;
    let join_expires_at = if join_timeout_seconds >= 0 {
        if created_at <= i64::MAX - join_timeout_seconds {
            created_at + join_timeout_seconds
        } else {
            return Err(AppError::Internal("join deadline overflows".to_owned()));
        }
    } else {
        if created_at >= i64::MIN - join_timeout_seconds {
            created_at + join_timeout_seconds
        } else {
            return Err(AppError::Internal("join deadline overflows".to_owned()));
        }
    };
    let updated = match store.mark_match_created_on_chain(
        match_id,
        create_tx_sig,
        created_at,
        join_expires_at,
        now,
    ) {
        Ok(u) => u,
        Err(e) => {
            return Err(e);
        },
    };
    let sig = match updated.create_tx_sig {
        Some(s) => s,
        None => create_tx_sig.to_owned(),
    };
    Ok(CreateConfirmResponse {
        match_id: to_decimal(match_id as u64),
        verified: true,
        match_status: updated.match_status,
        create_tx_sig: sig,
        join_expires_at: updated.join_expires_at,
    })
}


/// What a join-confirm precheck decided.
pub enum JoinConfirmPrecheck {
    /// The match is already past the join stage: answer from the row.
    Done(JoinConfirmResponse),
    /// The chain must be consulted for this row's game account.
    NeedsChain(JoinConfirmMatchRecord),
}

/// First half of join-confirm: validate, load the row, and either
/// answer idempotently, reject a match that is not yet create-confirmed,
/// or ask for the on-chain account.
pub fn join_confirm_precheck(
    store: &MatchStore,
    match_id_raw: &str,
    req: &JoinConfirmRequest,
) -> (r: Result<JoinConfirmPrecheck, AppError>)
    requires
        store.wf(),
    ensures
        r is Ok <==> (req.join_tx_sig@.len() > 0 && (parse_i64_spec(
            trim_view(match_id_raw.spec_bytes()),
        ) matches Some(v) && v > 0 && has_match(store.matches@, v) && ({
            let m = match_of(store.matches@, v);
            m.match_status == MatchStatus::CreatedOnChain || (crate::enums::status_rank(
                m.match_status,
            ) >= 2 && m.player2_pubkey is Some)
        }))),
        (match r {
            Ok(pre) => req.join_tx_sig@.len() > 0 && (match pre {
                JoinConfirmPrecheck::Done(resp) => ({
                    let id = parse_i64_spec(trim_view(match_id_raw.spec_bytes())).unwrap();
                    let m = match_of(store.matches@, id);
                    &&& parse_i64_spec(trim_view(match_id_raw.spec_bytes())) matches Some(v) && v
                        > 0
                    &&& has_match(store.matches@, id)
                    &&& crate::enums::status_rank(m.match_status) >= 2
                    &&& m.player2_pubkey is Some
                    &&& resp.match_id@ == dec_seq(id as nat)
                    &&& resp.verified
                    &&& resp.match_status == m.match_status
                    &&& resp.player2_pubkey@ == m.player2_pubkey.unwrap()@
                    &&& (match m.join_tx_sig {
                        Some(s) => resp.join_tx_sig@ == s@,
                        None => resp.join_tx_sig@ == req.join_tx_sig@,
                    })
                    &&& resp.settle_expires_at == m.settle_expires_at
                }),
                JoinConfirmPrecheck::NeedsChain(rec) => ({
                    let id = parse_i64_spec(trim_view(match_id_raw.spec_bytes())).unwrap();
                    &&& parse_i64_spec(trim_view(match_id_raw.spec_bytes())) matches Some(v) && v
                        > 0
                    &&& has_match(store.matches@, id)
                    &&& match_of(store.matches@, id).match_status == MatchStatus::CreatedOnChain
                    &&& is_join_confirm_of(rec, match_of(store.matches@, id))
                }),
            }),
            Err(e) => (if req.join_tx_sig@.len() == 0 || !(parse_i64_spec(
                trim_view(match_id_raw.spec_bytes()),
            ) matches Some(v) && v > 0) {
                e is BadRequest
            } else if !has_match(
                store.matches@,
                parse_i64_spec(trim_view(match_id_raw.spec_bytes())).unwrap(),
            ) {
                e is NotFound
            } else {
                e is Conflict && ({
                    let m = match_of(
                        store.matches@,
                        parse_i64_spec(trim_view(match_id_raw.spec_bytes())).unwrap(),
                    );
                    m.match_status == MatchStatus::WaitingCreateTx || (crate::enums::status_rank(
                        m.match_status,
                    ) >= 2 && m.player2_pubkey is None)
                })
            }),
        }),
{
    if req.join_tx_sig.as_str().is_empty() {
        return Err(AppError::BadRequest("join_tx_sig is required".to_owned()));
    }
    let match_id = match parse_match_id(match_id_raw) {
        Ok(id) => id,
        Err(e) => {
            return Err(e);
        },
    };
    let row = match store.get_match_for_join_confirm(match_id) {
        Some(row) => row,
        None => {
            return Err(AppError::NotFound("match".to_owned()));
        },
    };
    if row.match_status != MatchStatus::CreatedOnChain {
        if row.match_status == MatchStatus::WaitingCreateTx {
            return Err(
                AppError::Conflict(
                    "match is not ready for join-confirm (create not verified yet)".to_owned(),
                ),
            );
        }
        let player2 = match row.player2_pubkey {
            Some(p) => p,
            None => {
                return Err(
                    AppError::Conflict(
                        "match is past join stage but player2 is missing".to_owned(),
                    ),
                );
            },
        };
        let sig = match row.join_tx_sig {
            Some(s) => s,
            None => req.join_tx_sig.clone(),
        };
        return Ok(
            JoinConfirmPrecheck::Done(
                JoinConfirmResponse {
                    match_id: to_decimal(match_id as u64),
                    verified: true,
                    match_status: row.match_status,
                    player2_pubkey: player2,
                    join_tx_sig: sig,
                    settle_expires_at: row.settle_expires_at,
                },
            ),
        );
    }
    Ok(JoinConfirmPrecheck::NeedsChain(row))
}

/// The 32-byte zero key, which marks an unset player slot on chain.
pub open spec fn zero_pubkey() -> Seq<u8> {
    Seq::new(32, |i: int| 0u8)
}

/// The stored row and the decoded account agree on the joined game.
pub open spec fn join_chain_checks_ok(m: crate::store::MatchRecord, data: Seq<u8>) -> bool {
    &&& decode_ok(data)
    &&& decode_view(data).state == DecodedGameState::Joined
    &&& base58_of(decode_view(data).player1) == m.player1_pubkey@
    &&& base58_of(decode_view(data).authority) == m.authority_pubkey@
    &&& decode_view(data).match_id == m.match_id as u64
    &&& decode_view(data).entry_amount == m.entry_lamports as u64
    &&& decode_view(data).player2 != zero_pubkey()
    &&& decode_view(data).player2 != decode_view(data).player1
}

/// Second half of join-confirm: check the fetched account against the
/// stored row, record the second player and step the match to
/// `joined_on_chain`.
pub fn join_confirm_apply(
    store: &mut MatchStore,
    program_id: &str,
    settle_timeout_seconds: i64,
    match_id: i64,
    join_tx_sig: &str,
    owner: &str,
    account_data: &[u8],
    now: i64,
) -> (r: Result<JoinConfirmResponse, AppError>)
    requires
        old(store).wf(),
    ensures
        final(store).wf(),
        matches_progress(old(store).matches@, final(store).matches@),
        final(store).jobs == old(store).jobs,
        final(store).used_nonces == old(store).used_nonces,
        r is Ok <==> (pubkey_bytes_of(program_id@) is Some && pubkey_bytes_of(owner@)
            == pubkey_bytes_of(program_id@) && decode_ok(account_data@) && has_match(
            old(store).matches@,
            match_id,
        ) && join_chain_checks_ok(match_of(old(store).matches@, match_id), account_data@)
            && i64::MIN <= decode_view(account_data@).joined_at + settle_timeout_seconds
            <= i64::MAX && (match match_of(old(store).matches@, match_id).player2_pubkey {
            Some(p) => p@ == base58_of(decode_view(account_data@).player2),
            None => true,
        })),
        (match r {
            Ok(resp) => ({
                let i = match_idx(old(store).matches@, match_id);
                let m = old(store).matches@[i];
                let g = decode_view(account_data@);
                &&& pubkey_bytes_of(program_id@) is Some
                &&& pubkey_bytes_of(owner@) == pubkey_bytes_of(program_id@)
                &&& has_match(old(store).matches@, match_id)
                &&& join_chain_checks_ok(m, account_data@)
                &&& (match m.player2_pubkey {
                    Some(p) => p@ == base58_of(g.player2),
                    None => true,
                })
                &&& g.joined_at + settle_timeout_seconds <= i64::MAX
                &&& g.joined_at + settle_timeout_seconds >= i64::MIN
                &&& final(store).matches@ == old(store).matches@.update(
                    i,
                    final(store).matches@[i],
                )
                &&& join_confirm_transform(
                    m,
                    final(store).matches@[i],
                    base58_of(g.player2),
                    join_tx_sig@,
                    g.joined_at,
                    (g.joined_at + settle_timeout_seconds) as i64,
                    now,
                )
                &&& resp.match_id@ == dec_seq(match_id as nat)
                &&& resp.verified
                &&& resp.match_status == final(store).matches@[i].match_status
                &&& (match final(store).matches@[i].player2_pubkey {
                    Some(p) => resp.player2_pubkey@ == p@,
                    None => resp.player2_pubkey@ == base58_of(g.player2),
                })
                &&& (match final(store).matches@[i].join_tx_sig {
                    Some(s) => resp.join_tx_sig@ == s@,
                    None => resp.join_tx_sig@ == join_tx_sig@,
                })
                &&& resp.settle_expires_at == final(store).matches@[i].settle_expires_at
            }),
            Err(e) => *final(store) == *old(store) && (if !(pubkey_bytes_of(program_id@) is Some
                && pubkey_bytes_of(owner@) == pubkey_bytes_of(program_id@)) || !decode_ok(
                account_data@,
            ) {
                e is BadRequest
            } else if !has_match(old(store).matches@, match_id) {
                e is NotFound
            } else if !join_chain_checks_ok(
                match_of(old(store).matches@, match_id),
                account_data@,
            ) {
                e is Conflict
            } else if !(i64::MIN <= decode_view(account_data@).joined_at + settle_timeout_seconds
                <= i64::MAX) {
                e is Internal
            } else {
                e is Conflict && (match match_of(old(store).matches@, match_id).player2_pubkey {
                    Some(p) => p@ != base58_of(decode_view(account_data@).player2),
                    None => false,
                })
            }),
        }),
{
    let pid_bytes = match pubkey_from_base58(program_id) {
        Some(v) => v,
        None => {
            return Err(
                AppError::BadRequest("failed to verify on-chain game account".to_owned()),
            );
        },
    };
    let owner_bytes = match pubkey_from_base58(owner) {
        Some(v) => v,
        None => {
            return Err(
                AppError::BadRequest("failed to verify on-chain game account".to_owned()),
            );
        },
    };
    if !crate::bytes::bytes_eq(owner_bytes.as_slice(), pid_bytes.as_slice()) {
        return Err(AppError::BadRequest("unexpected game account owner".to_owned()));
    }
    let decoded = match decode_game_account(account_data) {
        Ok(g) => g,
        Err(_) => {
            return Err(
                AppError::BadRequest("failed to verify on-chain game account".to_owned()),
            );
        },
    };
    let row = match store.get_match_for_join_confirm(match_id) {
        Some(row) => row,
        None => {
            return Err(AppError::NotFound("match".to_owned()));
        },
    };
    if decoded.state != DecodedGameState::Joined {
        return Err(AppError::Conflict("game account is not in Joined state".to_owned()));
    }
    let p1_b58 = pubkey_to_base58(decoded.player1.as_slice());
    if !str_eq(p1_b58.as_str(), row.player1_pubkey.as_str()) {
        return Err(AppError::Conflict("game.player1 does not match backend record".to_owned()));
    }
    let auth_b58 = pubkey_to_base58(decoded.authority.as_slice());
    if !str_eq(auth_b58.as_str(), row.authority_pubkey.as_str()) {
        return Err(
            AppError::Conflict("game.authority does not match backend record".to_owned()),
        );
    }
    if decoded.match_id != row.match_id as u64 {
        return Err(AppError::Conflict("game.match_id does not match backend record".to_owned()));
    }
    if decoded.entry_amount != row.entry_lamports as u64 {
        return Err(
            AppError::Conflict("game.entry_amount does not match backend record".to_owned()),
        );
    }
    let zeros: Vec<u8> = vec![0u8; 32];
    proof {
        assert(zeros@ =~= zero_pubkey());
    }
    if crate::bytes::bytes_eq(decoded.player2.as_slice(), zeros.as_slice()) {
        return Err(AppError::Conflict("game.player2 is still default pubkey".to_owned()));
    }
    if crate::bytes::bytes_eq(decoded.player2.as_slice(), decoded.player1.as_slice()) {
        return Err(AppError::Conflict("game.player2 cannot equal game.player1".to_owned()));
    }
    let joined_at = decoded.joined_at;
    let settle_expires_at = if settle_timeout_seconds >= 0 {
        if joined_at <= i64::MAX - settle_timeout_seconds {
            joined_at + settle_timeout_seconds
        } else {
            return Err(AppError::Internal("settle deadline overflows".to_owned()));
        }
    } else {
        if joined_at >= i64::MIN - settle_timeout_seconds {
            joined_at + settle_timeout_seconds
        } else {
            return Err(AppError::Internal("settle deadline overflows".to_owned()));
        }
    };
    let player2_b58 = pubkey_to_base58(decoded.player2.as_slice());
    let updated = match store.mark_match_joined_on_chain(
        match_id,
        player2_b58.as_str(),
        join_tx_sig,
        joined_at,
        settle_expires_at,
        now,
    ) {
        Ok(u) => u,
        Err(e) => {
            return Err(e);
        },
    };
    let p2 = match updated.player2_pubkey {
        Some(p) => p,
        None => player2_b58,
    };
    let sig = match updated.join_tx_sig {
        Some(s) => s,
        None => join_tx_sig.to_owned(),
    };
    Ok(JoinConfirmResponse {
        match_id: to_decimal(match_id as u64),
        verified: true,
        match_status: updated.match_status,
        player2_pubkey: p2,
        join_tx_sig: sig,
        settle_expires_at: updated.settle_expires_at,
    })
}

/// The request fields pass shape validation: a non-empty idempotency
/// key and reason code, and a winner exactly when the outcome names one.
pub open spec fn submit_shape_ok(req: ResultRequest) -> bool {
    &&& trimmed_view(req.idempotency_key@).len() > 0
    &&& trimmed_view(req.reason_code@).len() > 0
    &&& (req.outcome == ResultOutcome::Winner ==> (req.winner_pubkey matches Some(w)
        && trimmed_view(w@).len() > 0))
    &&& (req.outcome == ResultOutcome::Broken ==> (match req.winner_pubkey {
        Some(w) => trimmed_view(w@).len() == 0,
        None => true,
    }))
}

/// The winner the report names, trimmed, when the outcome names one.
pub open spec fn submit_winner_view(req: ResultRequest) -> Option<Seq<char>> {
    if req.outcome == ResultOutcome::Winner {
        Some(trimmed_view(req.winner_pubkey.unwrap()@))
    } else {
        None
    }
}

/// The job type a report asks for.
pub open spec fn submit_action(req: ResultRequest) -> ChainJobType {
    if req.outcome == ResultOutcome::Winner {
        ChainJobType::Settle
    } else {
        ChainJobType::ForceRefund
    }
}

/// Everything `submit_result` needs to succeed: a positive id, a
/// well-shaped report, a match past the join stage, a winner who is
/// one of its players, no recorded field disagreeing, a compatible
/// job if one exists, and room in the job id sequence otherwise.
pub open spec fn submit_result_accepted(
    st: MatchStore,
    match_id_raw: &str,
    req: ResultRequest,
) -> bool {
    &&& (parse_i64_spec(trim_view(match_id_raw.spec_bytes())) matches Some(v) && v > 0)
    &&& submit_shape_ok(req)
    &&& ({
        let id = parse_i64_spec(trim_view(match_id_raw.spec_bytes())).unwrap();
        let m = match_of(st.matches@, id);
        let winner = submit_winner_view(req);
        &&& has_match(st.matches@, id)
        &&& m.match_status != MatchStatus::WaitingCreateTx
        &&& m.match_status != MatchStatus::CreatedOnChain
        &&& (req.outcome == ResultOutcome::Winner ==> m.player2_pubkey is Some && (winner.unwrap()
            == m.player1_pubkey@ || winner.unwrap() == m.player2_pubkey.unwrap()@))
        &&& result_update_allowed(
            m,
            trimmed_view(req.idempotency_key@),
            winner,
            trimmed_view(req.reason_code@),
        )
        &&& (has_job(st.jobs@, id) ==> job_of(st.jobs@, id).job_type == submit_action(req)
            && opt_view(job_of(st.jobs@, id).winner_pubkey) == winner)
        &&& (!has_job(st.jobs@, id) ==> st.next_job_id < i64::MAX)
    })
}

/// Submit a match result: validate the report, check the winner
/// against the stored players, and run the exactly-once enqueue
/// transaction.
pub fn submit_result(
    store: &mut MatchStore,
    match_id_raw: &str,
    req: &ResultRequest,
    now: i64,
) -> (r: Result<ResultResponse, AppError>)
    requires
        old(store).wf(),
    ensures
        final(store).wf(),
        matches_progress(old(store).matches@, final(store).matches@),
        final(store).used_nonces == old(store).used_nonces,
        final(store).next_match_id == old(store).next_match_id,
        r is Ok <==> submit_result_accepted(*old(store), match_id_raw, *req),
        (match r {
            Ok(resp) => ({
                let id = parse_i64_spec(trim_view(match_id_raw.spec_bytes())).unwrap();
                let i = match_idx(old(store).matches@, id);
                let m = old(store).matches@[i];
                let key = trimmed_view(req.idempotency_key@);
                let reason = trimmed_view(req.reason_code@);
                let winner = (if req.outcome == ResultOutcome::Winner {
                    Some(trimmed_view(req.winner_pubkey.unwrap()@))
                } else {
                    None
                });
                &&& parse_i64_spec(trim_view(match_id_raw.spec_bytes())) matches Some(v) && v > 0
                &&& submit_shape_ok(*req)
                &&& has_match(old(store).matches@, id)
                &&& m.match_status != MatchStatus::WaitingCreateTx
                &&& m.match_status != MatchStatus::CreatedOnChain
                &&& (req.outcome == ResultOutcome::Winner ==> m.player2_pubkey is Some && (
                winner.unwrap() == m.player1_pubkey@ || winner.unwrap()
                    == m.player2_pubkey.unwrap()@))
                &&& result_update_allowed(m, key, winner, reason)
                &&& final(store).matches@ == old(store).matches@.update(
                    i,
                    final(store).matches@[i],
                )
                &&& result_match_transform(
                    m,
                    final(store).matches@[i],
                    key,
                    winner,
                    reason,
                    (match req.reason_detail {
                        Some(d) => (if trimmed_view(d@).len() > 0 {
                            Some(trimmed_view(d@))
                        } else {
                            None
                        }),
                        None => None,
                    }),
                    now,
                )
                &&& resp.match_id@ == dec_seq(id as nat)
                &&& resp.match_status == final(store).matches@[i].match_status
                &&& resp.finalization_action == (if req.outcome == ResultOutcome::Winner {
                    ChainJobType::Settle
                } else {
                    ChainJobType::ForceRefund
                })
                &&& (if has_job(old(store).jobs@, id) {
                    let j = crate::store::job_of(old(store).jobs@, id);
                    &&& j.job_type == resp.finalization_action
                    &&& opt_view(j.winner_pubkey) == winner
                    &&& resp.chain_job_status == j.status
                    &&& final(store).jobs@.len() == old(store).jobs@.len()
                } else {
                    &&& resp.chain_job_status == crate::enums::ChainJobStatus::Pending
                    &&& final(store).jobs@.len() == old(store).jobs@.len() + 1
                    &&& crate::store::is_fresh_job(
                        final(store).jobs@.last(),
                        old(store).next_job_id,
                        id,
                        resp.finalization_action,
                        winner,
                        now,
                    )
                })
            }),
            Err(e) => final(store).matches == old(store).matches && final(store).jobs == old(
                store,
            ).jobs && (if !(parse_i64_spec(trim_view(match_id_raw.spec_bytes())) matches Some(v)
                && v > 0) || trimmed_view(req.idempotency_key@).len() == 0 || trimmed_view(
                req.reason_code@,
            ).len() == 0 {
                e is BadRequest
            } else if !has_match(
                old(store).matches@,
                parse_i64_spec(trim_view(match_id_raw.spec_bytes())).unwrap(),
            ) {
                e is NotFound
            } else {
                let m = match_of(
                    old(store).matches@,
                    parse_i64_spec(trim_view(match_id_raw.spec_bytes())).unwrap(),
                );
                let id = parse_i64_spec(trim_view(match_id_raw.spec_bytes())).unwrap();
                if m.match_status == MatchStatus::WaitingCreateTx || m.match_status
                    == MatchStatus::CreatedOnChain {
                    e is Conflict
                } else if req.outcome == ResultOutcome::Winner && !(req.winner_pubkey
                    matches Some(w) && trimmed_view(w@).len() > 0) {
                    e is BadRequest
                } else if req.outcome == ResultOutcome::Winner && m.player2_pubkey is None {
                    e is Conflict
                } else if req.outcome == ResultOutcome::Winner && !(submit_winner_view(
                    *req,
                ).unwrap() == m.player1_pubkey@ || submit_winner_view(*req).unwrap()
                    == m.player2_pubkey.unwrap()@) {
                    e is Conflict
                } else if req.outcome == ResultOutcome::Broken && (req.winner_pubkey
                    matches Some(w) && trimmed_view(w@).len() > 0) {
                    e is BadRequest
                } else if !result_update_allowed(
                    m,
                    trimmed_view(req.idempotency_key@),
                    submit_winner_view(*req),
                    trimmed_view(req.reason_code@),
                ) || (has_job(old(store).jobs@, id) && !(job_of(old(store).jobs@, id).job_type
                    == submit_action(*req) && opt_view(job_of(old(store).jobs@, id).winner_pubkey)
                    == submit_winner_view(*req))) {
                    e is Conflict
                } else {
                    e is Internal && old(store).next_job_id == i64::MAX
                }
            }),
        }),
{
    let match_id = match parse_match_id(match_id_raw) {
        Ok(id) => id,
        Err(e) => {
            return Err(e);
        },
    };
    let idempotency_key = trim_str(req.idempotency_key.as_str());
    if idempotency_key.is_empty() {
        return Err(AppError::BadRequest("idempotency_key is required".to_owned()));
    }
    let reason_code = trim_str(req.reason_code.as_str());
    if reason_code.is_empty() {
        return Err(AppError::BadRequest("reason_code is required".to_owned()));
    }
    let reason_detail: Option<String> = match &req.reason_detail {
        Some(d) => {
            let t = trim_str(d.as_str());
            if t.is_empty() {
                None
            } else {
                Some(t.to_owned())
            }
        },
        None => None,
    };
    let match_row = match store.get_match_status_record(match_id) {
        Some(row) => row,
        None => {
            return Err(AppError::NotFound("match".to_owned()));
        },
    };
    if match_row.match_status == MatchStatus::WaitingCreateTx || match_row.match_status
        == MatchStatus::CreatedOnChain {
        return Err(AppError::Conflict("match is not ready for result submission".to_owned()));
    }
    let winner_pubkey: Option<String> = match req.outcome {
        ResultOutcome::Winner => {
            proof {
                reveal_strlit("");
            }
            let winner_raw = match &req.winner_pubkey {
                Some(w) => trim_str(w.as_str()),
                None => "",
            };
            if winner_raw.is_empty() {
                return Err(
                    AppError::BadRequest("winner_pubkey is required when outcome=winner".to_owned()),
                );
            }
            let player2 = match &match_row.player2_pubkey {
                Some(p) => p,
                None => {
                    return Err(
                        AppError::Conflict("match has no player2 recorded yet".to_owned()),
                    );
                },
            };
            if !str_eq(winner_raw, match_row.player1_pubkey.as_str()) && !str_eq(
                winner_raw,
                player2.as_str(),
            ) {
                return Err(
                    AppError::Conflict("winner_pubkey must match player1 or player2".to_owned()),
                );
            }
            Some(winner_raw.to_owned())
        },
        ResultOutcome::Broken => {
            let extra = match &req.winner_pubkey {
                Some(w) => !trim_str(w.as_str()).is_empty(),
                None => false,
            };
            if extra {
                return Err(
                    AppError::BadRequest(
                        "winner_pubkey must be omitted when outcome=broken".to_owned(),
                    ),
                );
            }
            None
        },
    };
    let finalization_action = match req.outcome {
        ResultOutcome::Winner => ChainJobType::Settle,
        ResultOutcome::Broken => ChainJobType::ForceRefund,
    };
    let params = PersistResultAndEnqueueParams {
        match_id,
        job_type: finalization_action,
        winner_pubkey,
        reason_code: reason_code.to_owned(),
        reason_detail,
        idempotency_key: idempotency_key.to_owned(),
    };
    proof {
        assert(opt_view(params.winner_pubkey) == submit_winner_view(*req));
        assert(params.idempotency_key@ == trimmed_view(req.idempotency_key@));
        assert(params.reason_code@ == trimmed_view(req.reason_code@));
        assert(params.job_type == submit_action(*req));
    }
    let persisted = match store.persist_result_and_enqueue(&params, now) {
        Ok(p) => p,
        Err(e) => {
            return Err(e);
        },
    };
    Ok(ResultResponse {
        match_id: to_decimal(match_id as u64),
        match_status: persisted.match_status,
        finalization_action: persisted.chain_job_type,
        chain_job_status: persisted.chain_job_status,
    })
}

/// Read the full status projection of a match, pot included.
pub fn get_match_status(store: &MatchStore, match_id_raw: &str) -> (r: Result<
    MatchStatusResponse,
    AppError,
>)
    requires
        store.wf(),
    ensures
        r is Ok <==> (parse_i64_spec(trim_view(match_id_raw.spec_bytes())) matches Some(v) && v
            > 0 && has_match(store.matches@, v)),
        (match r {
            Ok(resp) => ({
                let id = parse_i64_spec(trim_view(match_id_raw.spec_bytes())).unwrap();
                let m = match_of(store.matches@, id);
                &&& parse_i64_spec(trim_view(match_id_raw.spec_bytes())) matches Some(v) && v > 0
                &&& has_match(store.matches@, id)
                &&& resp.match_id@ == dec_seq(id as nat)
                &&& resp.join_code@ == m.join_code@
                &&& resp.entry_lamports@ == dec_seq(m.entry_lamports as nat)
                &&& resp.pot_lamports@ == dec_seq((2 * m.entry_lamports) as nat)
                &&& resp.match_status == m.match_status
                &&& resp.join_expires_at == m.join_expires_at
                &&& resp.settle_expires_at == m.settle_expires_at
                &&& (has_job(store.jobs@, id) ==> resp.chain_job_type == Some(
                    crate::store::job_of(store.jobs@, id).job_type,
                ) && resp.chain_job_status == Some(crate::store::job_of(store.jobs@, id).status))
                &&& (!has_job(store.jobs@, id) ==> resp.chain_job_type is None
                    && resp.chain_job_status is None)
            }),
            Err(e) => (if !(parse_i64_spec(trim_view(match_id_raw.spec_bytes())) matches Some(v)
                && v > 0) {
                e is BadRequest
            } else {
                e is NotFound && !has_match(
                    store.matches@,
                    parse_i64_spec(trim_view(match_id_raw.spec_bytes())).unwrap(),
                )
            }),
        }),
{
    let match_id = match parse_match_id(match_id_raw) {
        Ok(id) => id,
        Err(e) => {
            return Err(e);
        },
    };
    let row = match store.get_match_status_record(match_id) {
        Some(row) => row,
        None => {
            return Err(AppError::NotFound("match".to_owned()));
        },
    };
    let entry_u64 = row.entry_lamports as u64;
    let pot_u64 = entry_u64 * 2;
    Ok(MatchStatusResponse {
        match_id: to_decimal(match_id as u64),
        join_code: row.join_code,
        program_id: row.program_id,
        authority_pubkey: row.authority_pubkey,
        game_pda: row.game_pda,
        vault_pda: row.vault_pda,
        player1_pubkey: row.player1_pubkey,
        player2_pubkey: row.player2_pubkey,
        entry_lamports: to_decimal(entry_u64),
        pot_lamports: to_decimal(pot_u64),
        match_status: row.match_status,
        chain_job_type: row.chain_job_type,
        chain_job_status: row.chain_job_status,
        winner_pubkey: row.winner_pubkey,
        finalization_reason_code: row.finalization_reason_code,
        create_tx_sig: row.create_tx_sig,
        join_tx_sig: row.join_tx_sig,
        final_tx_sig: row.final_tx_sig,
        join_expires_at: row.join_expires_at,
        settle_expires_at: row.settle_expires_at,
        last_error: row.last_error,
        updated_at: row.updated_at,
    })
}

/// Revive a match's finalization at an admin's request. The reason is
/// required; the store transaction does the rest.
pub fn retry_finalization(
    store: &mut MatchStore,
    match_id_raw: &str,
    req: &RetryFinalizationRequest,
    now: i64,
) -> (r: Result<RetryFinalizationResponse, AppError>)
    requires
        old(store).wf(),
    ensures
        final(store).wf(),
        matches_progress(old(store).matches@, final(store).matches@),
        final(store).used_nonces == old(store).used_nonces,
        final(store).next_match_id == old(store).next_match_id,
        final(store).next_job_id == old(store).next_job_id,
        r is Ok <==> (trimmed_view(req.reason@).len() > 0 && (parse_i64_spec(
            trim_view(match_id_raw.spec_bytes()),
        ) matches Some(v) && v > 0 && has_match(old(store).matches@, v) && !is_terminal_status(
            match_of(old(store).matches@, v).match_status,
        ) && has_job(old(store).jobs@, v))),
        (match r {
            Ok(resp) => ({
                let id = parse_i64_spec(trim_view(match_id_raw.spec_bytes())).unwrap();
                let jj = crate::store::job_idx(old(store).jobs@, id);
                let mi = match_idx(old(store).matches@, id);
                &&& parse_i64_spec(trim_view(match_id_raw.spec_bytes())) matches Some(v) && v > 0
                &&& trimmed_view(req.reason@).len() > 0
                &&& has_match(old(store).matches@, id)
                &&& !is_terminal_status(old(store).matches@[mi].match_status)
                &&& has_job(old(store).jobs@, id)
                &&& final(store).jobs@ == old(store).jobs@.update(jj, final(store).jobs@[jj])
                &&& crate::store::admin_retry_job_transform(
                    old(store).jobs@[jj],
                    final(store).jobs@[jj],
                    now,
                )
                &&& final(store).matches@ == old(store).matches@.update(
                    mi,
                    final(store).matches@[mi],
                )
                &&& crate::store::worker_match_transform(
                    old(store).matches@[mi],
                    final(store).matches@[mi],
                    true,
                    None,
                    now,
                )
                &&& resp.match_id@ == dec_seq(id as nat)
                &&& resp.match_status == final(store).matches@[mi].match_status
                &&& resp.chain_job_status == crate::enums::ChainJobStatus::Pending
            }),
            Err(e) => *final(store) == *old(store) && (if trimmed_view(req.reason@).len() == 0
                || !(parse_i64_spec(trim_view(match_id_raw.spec_bytes())) matches Some(v) && v
                > 0) {
                e is BadRequest
            } else if !has_match(
                old(store).matches@,
                parse_i64_spec(trim_view(match_id_raw.spec_bytes())).unwrap(),
            ) {
                e is NotFound
            } else if is_terminal_status(
                match_of(
                    old(store).matches@,
                    parse_i64_spec(trim_view(match_id_raw.spec_bytes())).unwrap(),
                ).match_status,
            ) {
                e is Conflict
            } else {
                e is NotFound && !has_job(
                    old(store).jobs@,
                    parse_i64_spec(trim_view(match_id_raw.spec_bytes())).unwrap(),
                )
            }),
        }),
{
    if trim_str(req.reason.as_str()).is_empty() {
        return Err(AppError::BadRequest("reason is required".to_owned()));
    }
    let match_id = match parse_match_id(match_id_raw) {
        Ok(id) => id,
        Err(e) => {
            return Err(e);
        },
    };
    let retried = match store.retry_finalization_job(match_id, now) {
        Ok(res) => res,
        Err(e) => {
            return Err(e);
        },
    };
    Ok(RetryFinalizationResponse {
        match_id: to_decimal(match_id as u64),
        match_status: retried.match_status,
        chain_job_status: retried.chain_job_status,
    })
}

} // verus!

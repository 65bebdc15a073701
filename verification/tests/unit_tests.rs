//! Unit checks of the codecs, parsers and small helpers.

use sha2::Digest;

use match_settlement::codes::{join_code_from_match_id, to_base36, to_decimal};
use match_settlement::enums::{
    chain_job_status_to_db, chain_job_type_to_db, match_status_to_db, match_status_to_final_db,
    parse_chain_job_status, parse_chain_job_type, parse_match_status, ChainJobStatus, ChainJobType,
    MatchStatus,
};
use match_settlement::error::AppError;
use match_settlement::finalizer::{anchor_ix_discriminator, retry_backoff_seconds};
use match_settlement::game_account::{
    decode_game_account, encode_game_account, game_account_discriminator, DecodedGameAccount,
    DecodedGameState, GameDecodeError,
};
use match_settlement::parse::{parse_i64, parse_match_id, parse_timestamp, parse_u64, trim_str};
use match_settlement::pda::derive_match_pdas;

fn sample_account(state: DecodedGameState) -> DecodedGameAccount {
    DecodedGameAccount {
        player1: vec![1u8; 32],
        player2: vec![2u8; 32],
        entry_amount: 1_000_000,
        authority: vec![3u8; 32],
        match_id: 7,
        state,
        created_at: 1_700_000_000,
        joined_at: 1_700_000_100,
        bump: 254,
        vault_bump: 255,
    }
}

#[test]
fn base36_renders_like_the_formula() {
    assert_eq!(to_base36(0), "0");
    assert_eq!(to_base36(35), "Z");
    assert_eq!(to_base36(36), "10");
    assert_eq!(to_base36(12345), "9IX");
    assert_eq!(to_decimal(0), "0");
    assert_eq!(to_decimal(9876543210), "9876543210");
}

#[test]
fn join_codes_derive_from_the_id() {
    assert_eq!(join_code_from_match_id(1).unwrap(), "M1");
    assert_eq!(join_code_from_match_id(35).unwrap(), "MZ");
    assert_eq!(join_code_from_match_id(36).unwrap(), "M10");
    assert!(matches!(join_code_from_match_id(0), Err(AppError::Internal(_))));
    assert!(matches!(join_code_from_match_id(-5), Err(AppError::Internal(_))));
}

#[test]
fn join_codes_are_injective_on_a_range() {
    let mut seen = std::collections::HashSet::new();
    for id in 1..2000i64 {
        assert!(seen.insert(join_code_from_match_id(id).unwrap()));
    }
}

#[test]
fn decimal_parsers_follow_std() {
    for s in ["0", "42", "+42", "18446744073709551615"] {
        assert_eq!(parse_u64(s.as_bytes()), s.parse::<u64>().ok(), "{s}");
    }
    for s in ["", "-", "+", "4 2", "18446744073709551616", "-1", "99999999999999999999"] {
        assert_eq!(parse_u64(s.as_bytes()), s.parse::<u64>().ok(), "{s}");
    }
    for s in [
        "0",
        "-1",
        "+17",
        "9223372036854775807",
        "-9223372036854775808",
        "9223372036854775808",
        "-9223372036854775809",
        "12x",
        "",
    ] {
        assert_eq!(parse_i64(s.as_bytes()), s.parse::<i64>().ok(), "{s}");
    }
}

#[test]
fn match_id_parsing_trims_and_requires_positive() {
    assert_eq!(parse_match_id(" 12 ").unwrap(), 12);
    assert!(matches!(parse_match_id("0"), Err(AppError::BadRequest(_))));
    assert!(matches!(parse_match_id("-3"), Err(AppError::BadRequest(_))));
    assert!(matches!(parse_match_id("x"), Err(AppError::BadRequest(_))));
    assert_eq!(parse_timestamp(" -5 ").unwrap(), -5);
    assert!(matches!(parse_timestamp("nope"), Err(AppError::Unauthorized)));
}

#[test]
fn trimming_matches_ascii_trim() {
    assert_eq!(trim_str("  abc\t"), "abc");
    assert_eq!(trim_str(""), "");
    assert_eq!(trim_str(" \n "), "");
    assert_eq!(trim_str("x"), "x");
}

#[test]
fn status_spellings_round_trip() {
    let statuses = [
        MatchStatus::WaitingCreateTx,
        MatchStatus::CreatedOnChain,
        MatchStatus::JoinedOnChain,
        MatchStatus::InProgress,
        MatchStatus::ResultPendingFinalize,
        MatchStatus::Finalizing,
        MatchStatus::Settled,
        MatchStatus::Refunded,
    ];
    for s in statuses {
        assert_eq!(parse_match_status(match_status_to_db(s)), Some(s));
    }
    assert_eq!(parse_match_status("bogus"), None);
    for t in [ChainJobType::Settle, ChainJobType::ForceRefund] {
        assert_eq!(parse_chain_job_type(chain_job_type_to_db(t)), Some(t));
    }
    for st in [
        ChainJobStatus::Pending,
        ChainJobStatus::Submitted,
        ChainJobStatus::Retrying,
        ChainJobStatus::Confirmed,
        ChainJobStatus::Failed,
    ] {
        assert_eq!(parse_chain_job_status(chain_job_status_to_db(st)), Some(st));
    }
    assert_eq!(match_status_to_final_db(MatchStatus::Settled), Some("settled"));
    assert_eq!(match_status_to_final_db(MatchStatus::Finalizing), None);
}

#[test]
fn error_kinds_map_to_status_codes() {
    assert_eq!(AppError::BadRequest(String::new()).status_code(), 400);
    assert_eq!(AppError::Unauthorized.status_code(), 401);
    assert_eq!(AppError::NotFound(String::new()).status_code(), 404);
    assert_eq!(AppError::Conflict(String::new()).status_code(), 409);
    assert_eq!(AppError::NotImplemented(String::new()).status_code(), 501);
    assert_eq!(AppError::Internal(String::new()).status_code(), 500);
}

#[test]
fn game_account_discriminator_is_the_sha256_prefix() {
    let digest = sha2::Sha256::digest(b"account:Game");
    assert_eq!(game_account_discriminator(), digest[..8].to_vec());
    let ix = anchor_ix_discriminator("settle_game");
    let digest = sha2::Sha256::digest(b"global:settle_game");
    assert_eq!(ix, digest[..8].to_vec());
}

#[test]
fn game_account_round_trips_bit_for_bit() {
    for state in [
        DecodedGameState::Created,
        DecodedGameState::Joined,
        DecodedGameState::Settled,
        DecodedGameState::Refunded,
    ] {
        let acc = sample_account(state);
        let bytes = encode_game_account(&acc);
        assert_eq!(bytes.len(), 139);
        let back = decode_game_account(&bytes).unwrap();
        assert_eq!(encode_game_account(&back), bytes);
        assert_eq!(back.state, state);
        assert_eq!(back.player1, acc.player1);
        assert_eq!(back.player2, acc.player2);
        assert_eq!(back.entry_amount, acc.entry_amount);
        assert_eq!(back.authority, acc.authority);
        assert_eq!(back.match_id, acc.match_id);
        assert_eq!(back.created_at, acc.created_at);
        assert_eq!(back.joined_at, acc.joined_at);
        assert_eq!(back.bump, acc.bump);
        assert_eq!(back.vault_bump, acc.vault_bump);
    }
}

#[test]
fn game_account_decoding_rejects_bad_input() {
    let acc = sample_account(DecodedGameState::Created);
    let bytes = encode_game_account(&acc);
    assert!(matches!(
        decode_game_account(&bytes[..100]),
        Err(GameDecodeError::TooShort)
    ));
    let mut wrong_tag = bytes.clone();
    wrong_tag[..8].copy_from_slice(b"account:");
    assert!(matches!(
        decode_game_account(&wrong_tag),
        Err(GameDecodeError::BadDiscriminator)
    ));
    let mut bad_state = bytes.clone();
    bad_state[120] = 9;
    assert!(matches!(
        decode_game_account(&bad_state),
        Err(GameDecodeError::BadStateByte)
    ));
}

#[test]
fn backoff_is_exponential_and_capped() {
    assert_eq!(retry_backoff_seconds(0), 2);
    assert_eq!(retry_backoff_seconds(1), 2);
    assert_eq!(retry_backoff_seconds(2), 4);
    assert_eq!(retry_backoff_seconds(3), 8);
    assert_eq!(retry_backoff_seconds(4), 16);
    assert_eq!(retry_backoff_seconds(5), 32);
    assert_eq!(retry_backoff_seconds(6), 60);
    assert_eq!(retry_backoff_seconds(9), 60);
}

#[test]
fn pda_derivation_matches_the_ledger_sdk() {
    let program = solana_sdk::pubkey::Pubkey::new_unique();
    let authority = solana_sdk::pubkey::Pubkey::new_unique();
    let player1 = solana_sdk::pubkey::Pubkey::new_unique();
    let match_id: i64 = 42;
    let pdas = derive_match_pdas(
        &program.to_string(),
        &authority.to_string(),
        &player1.to_string(),
        match_id,
    )
    .unwrap();
    let (game, _) = solana_sdk::pubkey::Pubkey::find_program_address(
        &[
            b"game",
            player1.as_ref(),
            authority.as_ref(),
            &(match_id as u64).to_le_bytes(),
        ],
        &program,
    );
    let (vault, _) =
        solana_sdk::pubkey::Pubkey::find_program_address(&[b"vault", game.as_ref()], &program);
    assert_eq!(pdas.game_pda, game.to_string());
    assert_eq!(pdas.vault_pda, vault.to_string());
    assert!(matches!(
        derive_match_pdas("not a key", &authority.to_string(), &player1.to_string(), 1),
        Err(AppError::BadRequest(_))
    ));
    assert!(matches!(
        derive_match_pdas(&program.to_string(), &authority.to_string(), &player1.to_string(), -1),
        Err(AppError::BadRequest(_))
    ));
}

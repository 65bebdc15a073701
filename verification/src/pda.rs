//! Derivation of the two program addresses of a match: the game account
//! and its vault. The base-58 codec and the address search live in the
//! ledger SDK behind trusted wrappers; the seed layout is verified here.

use vstd::prelude::*;
use vstd::string::StringSliceAdditionalSpecFns;

use std::str::FromStr;

use crate::bytes::le_bytes_of;
use crate::bytes::u64_to_le_bytes;
use crate::error::AppError;

verus! {

/// The 32 raw bytes a base-58 pubkey string stands for, if it decodes:
/// a pure function of the string alone.
pub uninterp spec fn pubkey_bytes_of(s: Seq<char>) -> Option<Seq<u8>>;

/// The base-58 rendering of 32 raw pubkey bytes: a pure function of the
/// bytes alone.
pub uninterp spec fn base58_of(b: Seq<u8>) -> Seq<char>;

/// The program-derived address for a seed list and program id, if the
/// search finds one: a pure function of seeds and program id alone.
pub uninterp spec fn pda_of(seeds: Seq<Seq<u8>>, program_id: Seq<u8>) -> Option<Seq<u8>>;

/// Relies on `solana_sdk::pubkey::Pubkey::from_str`: decodes a base-58
/// string of exactly 32 bytes, rejecting oversized strings, other
/// lengths and non-alphabet characters.
#[verifier::external_body]
pub(crate) fn pubkey_from_base58(s: &str) -> (r: Option<Vec<u8>>)
    ensures
        (match r {
            Some(v) => pubkey_bytes_of(s@) == Some(v@) && v@.len() == 32,
            None => pubkey_bytes_of(s@) is None,
        }),
{
    match solana_sdk::pubkey::Pubkey::from_str(s) {
        Ok(pk) => Some(pk.to_bytes().to_vec()),
        Err(_) => None,
    }
}

/// Relies on `solana_sdk::pubkey::Pubkey`'s `Display`: the base-58
/// rendering of the 32 bytes.
#[verifier::external_body]
pub(crate) fn pubkey_to_base58(b: &[u8]) -> (r: String)
    requires
        b@.len() == 32,
    ensures
        r@ == base58_of(b@),
{
    let mut arr = [0u8; 32];
    arr.copy_from_slice(b);
    solana_sdk::pubkey::Pubkey::new_from_array(arr).to_string()
}

/// Relies on `solana_sdk::pubkey::Pubkey::try_find_program_address`: the
/// first off-curve address over descending bump seeds, `None` when the
/// seeds are too many or too long or no bump works. The returned address
/// is a SHA-256 digest, 32 bytes.
#[verifier::external_body]
pub(crate) fn find_program_address(seeds: &Vec<Vec<u8>>, program_id: &[u8]) -> (r: Option<Vec<u8>>)
    requires
        program_id@.len() == 32,
    ensures
        (match r {
            Some(v) => pda_of(seeds.deep_view(), program_id@) == Some(v@) && v@.len() == 32,
            None => pda_of(seeds.deep_view(), program_id@) is None,
        }),
{
    let mut arr = [0u8; 32];
    arr.copy_from_slice(program_id);
    let pk = solana_sdk::pubkey::Pubkey::new_from_array(arr);
    let refs: Vec<&[u8]> = seeds.iter().map(|s| s.as_slice()).collect();
    solana_sdk::pubkey::Pubkey::try_find_program_address(refs.as_slice(), &pk)
        .map(|(addr, _)| addr.to_bytes().to_vec())
}

/// The two derived addresses of a match, base-58 encoded.
#[derive(Debug, Clone)]
pub struct MatchPdas {
    pub game_pda: String,
    pub vault_pda: String,
}

/// Seed list of the game account: `"game"`, player one, authority, and
/// the little-endian match id.
pub open spec fn game_seeds_view(player1: Seq<u8>, authority: Seq<u8>, match_id: u64) -> Seq<
    Seq<u8>,
> {
    seq!["game".spec_bytes(), player1, authority, le_bytes_of(match_id as nat, 8)]
}

/// Seed list of the vault: `"vault"` and the game address.
pub open spec fn vault_seeds_view(game_pda: Seq<u8>) -> Seq<Seq<u8>> {
    seq!["vault".spec_bytes(), game_pda]
}

/// Everything `derive_match_pdas` needs to succeed: a non-negative id,
/// three well-formed pubkey strings, and both address searches finding
/// a bump.
pub open spec fn match_pdas_ok(
    program_id: Seq<char>,
    authority_pubkey: Seq<char>,
    player1_pubkey: Seq<char>,
    match_id: i64,
) -> bool {
    &&& match_id >= 0
    &&& pubkey_bytes_of(program_id) is Some
    &&& pubkey_bytes_of(authority_pubkey) is Some
    &&& pubkey_bytes_of(player1_pubkey) is Some
    &&& pda_of(
        game_seeds_view(
            pubkey_bytes_of(player1_pubkey).unwrap(),
            pubkey_bytes_of(authority_pubkey).unwrap(),
            match_id as u64,
        ),
        pubkey_bytes_of(program_id).unwrap(),
    ) is Some
    &&& pda_of(
        vault_seeds_view(
            pda_of(
                game_seeds_view(
                    pubkey_bytes_of(player1_pubkey).unwrap(),
                    pubkey_bytes_of(authority_pubkey).unwrap(),
                    match_id as u64,
                ),
                pubkey_bytes_of(program_id).unwrap(),
            ).unwrap(),
        ),
        pubkey_bytes_of(program_id).unwrap(),
    ) is Some
}

/// The game address of a match, when everything is well-formed.
pub open spec fn game_pda_view(
    program_id: Seq<char>,
    authority_pubkey: Seq<char>,
    player1_pubkey: Seq<char>,
    match_id: i64,
) -> Seq<char> {
    base58_of(
        pda_of(
            game_seeds_view(
                pubkey_bytes_of(player1_pubkey).unwrap(),
                pubkey_bytes_of(authority_pubkey).unwrap(),
                match_id as u64,
            ),
            pubkey_bytes_of(program_id).unwrap(),
        ).unwrap(),
    )
}

/// The vault address of a match, when everything is well-formed.
pub open spec fn vault_pda_view(
    program_id: Seq<char>,
    authority_pubkey: Seq<char>,
    player1_pubkey: Seq<char>,
    match_id: i64,
) -> Seq<char> {
    base58_of(
        pda_of(
            vault_seeds_view(
                pda_of(
                    game_seeds_view(
                        pubkey_bytes_of(player1_pubkey).unwrap(),
                        pubkey_bytes_of(authority_pubkey).unwrap(),
                        match_id as u64,
                    ),
                    pubkey_bytes_of(program_id).unwrap(),
                ).unwrap(),
            ),
            pubkey_bytes_of(program_id).unwrap(),
        ).unwrap(),
    )
}

/// Derive the game and vault addresses of a match from the configured
/// program and authority, the first player, and the match id.
pub fn derive_match_pdas(
    program_id: &str,
    authority_pubkey: &str,
    player1_pubkey: &str,
    match_id: i64,
) -> (r: Result<MatchPdas, AppError>)
    ensures
        (match r {
            Ok(pdas) => match_pdas_ok(program_id@, authority_pubkey@, player1_pubkey@, match_id)
                && pdas.game_pda@ == game_pda_view(
                program_id@,
                authority_pubkey@,
                player1_pubkey@,
                match_id,
            ) && pdas.vault_pda@ == vault_pda_view(
                program_id@,
                authority_pubkey@,
                player1_pubkey@,
                match_id,
            ),
            Err(e) => !match_pdas_ok(program_id@, authority_pubkey@, player1_pubkey@, match_id)
                && (if match_id < 0 || pubkey_bytes_of(program_id@) is None || pubkey_bytes_of(
                    authority_pubkey@,
                ) is None || pubkey_bytes_of(player1_pubkey@) is None {
                    e is BadRequest
                } else {
                    e is Internal
                }),
        }),
{
    if match_id < 0 {
        return Err(AppError::BadRequest("match_id must be non-negative".to_owned()));
    }
    let program_bytes = match pubkey_from_base58(program_id) {
        Some(v) => v,
        None => {
            return Err(AppError::BadRequest("invalid program id".to_owned()));
        },
    };
    let authority_bytes = match pubkey_from_base58(authority_pubkey) {
        Some(v) => v,
        None => {
            return Err(AppError::BadRequest("invalid authority pubkey".to_owned()));
        },
    };
    let player1_bytes = match pubkey_from_base58(player1_pubkey) {
        Some(v) => v,
        None => {
            return Err(AppError::BadRequest("invalid player1 pubkey".to_owned()));
        },
    };
    let match_id_bytes = u64_to_le_bytes(match_id as u64);
    let mut game_seeds: Vec<Vec<u8>> = Vec::new();
    game_seeds.push(vstd::slice::slice_to_vec("game".as_bytes()));
    game_seeds.push(player1_bytes);
    game_seeds.push(authority_bytes);
    game_seeds.push(match_id_bytes);
    proof {
        assert(game_seeds.deep_view() =~~= game_seeds_view(
            pubkey_bytes_of(player1_pubkey@).unwrap(),
            pubkey_bytes_of(authority_pubkey@).unwrap(),
            match_id as u64,
        ));
    }
    let game_bytes = match find_program_address(&game_seeds, program_bytes.as_slice()) {
        Some(v) => v,
        None => {
            return Err(AppError::Internal("no viable game address".to_owned()));
        },
    };
    let mut vault_seeds: Vec<Vec<u8>> = Vec::new();
    vault_seeds.push(vstd::slice::slice_to_vec("vault".as_bytes()));
    vault_seeds.push(game_bytes.clone());
    proof {
        assert(vault_seeds.deep_view() =~~= vault_seeds_view(game_bytes@));
    }
    let vault_bytes = match find_program_address(&vault_seeds, program_bytes.as_slice()) {
        Some(v) => v,
        None => {
            return Err(AppError::Internal("no viable vault address".to_owned()));
        },
    };
    let game_pda = pubkey_to_base58(game_bytes.as_slice());
    let vault_pda = pubkey_to_base58(vault_bytes.as_slice());
    Ok(MatchPdas { game_pda, vault_pda })
}

} // verus!

//! Codec for the on-chain `Game` account: an 8-byte SHA-256 tag
//! followed by a fixed little-endian layout of 131 bytes.

use vstd::prelude::*;
use vstd::string::StringSliceAdditionalSpecFns;

use crate::bytes::le_bytes_of;
use crate::bytes::le_val;
use crate::bytes::lemma_le_bytes_of_len;
use crate::bytes::lemma_le_bytes_round_trip;
use crate::bytes::lemma_le_round_trip;
use crate::bytes::lemma_le_val_bound;
use crate::bytes::pow256;
use crate::crypto::sha256;
use crate::crypto::sha256_of;

verus! {

/// Total length of an encoded game account: tag plus body.
pub const GAME_ACCOUNT_LEN: usize = 139;

/// The four states the on-chain program stores in the account.
#[derive(Clone, Copy, Debug, PartialEq, Eq, Structural)]
pub enum DecodedGameState {
    Created,
    Joined,
    Settled,
    Refunded,
}

/// The byte the program stores for a state.
pub open spec fn state_code(s: DecodedGameState) -> u8 {
    match s {
        DecodedGameState::Created => 0,
        DecodedGameState::Joined => 1,
        DecodedGameState::Settled => 2,
        DecodedGameState::Refunded => 3,
    }
}

/// The state a stored byte stands for, if any.
pub open spec fn state_of_code(b: u8) -> Option<DecodedGameState> {
    if b == 0 {
        Some(DecodedGameState::Created)
    } else if b == 1 {
        Some(DecodedGameState::Joined)
    } else if b == 2 {
        Some(DecodedGameState::Settled)
    } else if b == 3 {
        Some(DecodedGameState::Refunded)
    } else {
        None
    }
}

/// A decoded game account. Public keys are raw 32-byte values.
#[derive(Debug, Clone)]
pub struct DecodedGameAccount {
    pub player1: Vec<u8>,
    pub player2: Vec<u8>,
    pub entry_amount: u64,
    pub authority: Vec<u8>,
    pub match_id: u64,
    pub state: DecodedGameState,
    pub created_at: i64,
    pub joined_at: i64,
    pub bump: u8,
    pub vault_bump: u8,
}

/// Mathematical image of a decoded account.
pub struct GameAccountView {
    pub player1: Seq<u8>,
    pub player2: Seq<u8>,
    pub entry_amount: u64,
    pub authority: Seq<u8>,
    pub match_id: u64,
    pub state: DecodedGameState,
    pub created_at: i64,
    pub joined_at: i64,
    pub bump: u8,
    pub vault_bump: u8,
}

impl View for DecodedGameAccount {
    type V = GameAccountView;

    open spec fn view(&self) -> GameAccountView {
        GameAccountView {
            player1: self.player1@,
            player2: self.player2@,
            entry_amount: self.entry_amount,
            authority: self.authority@,
            match_id: self.match_id,
            state: self.state,
            created_at: self.created_at,
            joined_at: self.joined_at,
            bump: self.bump,
            vault_bump: self.vault_bump,
        }
    }
}

impl GameAccountView {
    /// The three key fields hold raw 32-byte public keys.
    pub open spec fn wf(self) -> bool {
        self.player1.len() == 32 && self.player2.len() == 32 && self.authority.len() == 32
    }
}

/// The 8-byte tag in front of every game account: the first eight bytes
/// of the SHA-256 digest of the account's type tag.
pub open spec fn game_discriminator_view() -> Seq<u8> {
    sha256_of("account:Game".spec_bytes()).take(8)
}

/// Compute the account tag.
pub fn game_account_discriminator() -> (r: Vec<u8>)
    ensures
        r@ == game_discriminator_view(),
        r@.len() == 8,
{
    let digest = sha256("account:Game".as_bytes());
    let mut out: Vec<u8> = Vec::new();
    let mut k: usize = 0;
    while k < 8
        invariant
            0 <= k <= 8,
            digest@ == sha256_of("account:Game".spec_bytes()),
            digest@.len() == 32,
            out@ == digest@.take(k as int),
        decreases 8 - k,
    {
        out.push(digest[k]);
        assert(out@ =~= digest@.take(k + 1 as int));
        k = k + 1;
    }
    proof {
        assert(out@ =~= game_discriminator_view());
    }
    out
}

/// The encoded body of an account view.
pub open spec fn encode_body_view(v: GameAccountView) -> Seq<u8> {
    v.player1 + v.player2 + le_bytes_of(v.entry_amount as nat, 8) + v.authority + le_bytes_of(
        v.match_id as nat,
        8,
    ) + seq![state_code(v.state)] + le_bytes_of((v.created_at as u64) as nat, 8) + le_bytes_of(
        (v.joined_at as u64) as nat,
        8,
    ) + seq![v.bump] + seq![v.vault_bump]
}

/// The full encoding: tag then body.
pub open spec fn encode_view(v: GameAccountView) -> Seq<u8> {
    game_discriminator_view() + encode_body_view(v)
}

/// Whether a byte string decodes as a game account.
pub open spec fn decode_ok(data: Seq<u8>) -> bool {
    data.len() >= GAME_ACCOUNT_LEN && data.subrange(0, 8) == game_discriminator_view()
        && state_of_code(data[120]) is Some
}

/// The account view a byte string decodes to.
pub open spec fn decode_view(data: Seq<u8>) -> GameAccountView {
    GameAccountView {
        player1: data.subrange(8, 40),
        player2: data.subrange(40, 72),
        entry_amount: le_val(data.subrange(72, 80)) as u64,
        authority: data.subrange(80, 112),
        match_id: le_val(data.subrange(112, 120)) as u64,
        state: (match state_of_code(data[120]) {
            Some(s) => s,
            None => DecodedGameState::Created,
        }),
        created_at: (le_val(data.subrange(121, 129)) as u64) as i64,
        joined_at: (le_val(data.subrange(129, 137)) as u64) as i64,
        bump: data[137],
        vault_bump: data[138],
    }
}

/// Why a byte string failed to decode.
#[derive(Clone, Copy, Debug, PartialEq, Eq, Structural)]
pub enum GameDecodeError {
    TooShort,
    BadDiscriminator,
    BadStateByte,
}

/// Read `n` bytes at the cursor, advancing it.
pub fn read_fixed(data: &[u8], i: &mut usize, n: usize) -> (r: Option<Vec<u8>>)
    ensures
        (match r {
            Some(v) => *old(i) + n <= data@.len() && v@ == data@.subrange(
                *old(i) as int,
                *old(i) + n,
            ) && *final(i) == *old(i) + n,
            None => *old(i) + n > data@.len() && *final(i) == *old(i),
        }),
{
    if n > data.len() || *i > data.len() - n {
        return None;
    }
    let start = *i;
    let mut out: Vec<u8> = Vec::new();
    let mut k: usize = 0;
    while k < n
        invariant
            0 <= k <= n,
            start + n <= data@.len(),
            data@.len() <= usize::MAX,
            out@ == data@.subrange(start as int, start + k),
        decreases n - k,
    {
        out.push(data[start + k]);
        assert(out@ =~= data@.subrange(start as int, start + k + 1));
        k = k + 1;
    }
    *i = start + n;
    Some(out)
}

proof fn lemma_i64_cast_round(x: i64)
    ensures
        ((x as u64) as i64) == x,
{
    assert(((x as u64) as i64) == x) by (bit_vector);
}

proof fn lemma_u64_cast_round(x: u64)
    ensures
        ((x as i64) as u64) == x,
{
    assert(((x as i64) as u64) == x) by (bit_vector);
}

proof fn lemma_pow256_8()
    ensures
        pow256(8) == 0x1_0000_0000_0000_0000,
{
    assert(pow256(0) == 1);
    assert(pow256(1) == 256);
    assert(pow256(2) == 0x1_0000);
    assert(pow256(3) == 0x100_0000);
    assert(pow256(4) == 0x1_0000_0000);
    assert(pow256(5) == 0x100_0000_0000);
    assert(pow256(6) == 0x1_0000_0000_0000);
    assert(pow256(7) == 0x100_0000_0000_0000);
    assert(pow256(8) == 0x1_0000_0000_0000_0000);
}

/// The `u64` value of eight little-endian bytes.
pub fn le_bytes_to_u64(v: &[u8]) -> (r: u64)
    requires
        v@.len() == 8,
    ensures
        r == le_val(v@),
{
    proof {
        lemma_le_val_bound(v@);
        lemma_pow256_8();
    }
    let mut acc: u64 = 0;
    let mut k: usize = 8;
    while k > 0
        invariant
            0 <= k <= 8,
            v@.len() == 8,
            acc == le_val(v@.skip(k as int)),
            le_val(v@) < pow256(8),
            pow256(8) == 0x1_0000_0000_0000_0000,
        decreases k,
    {
        proof {
            lemma_le_val_bound(v@.skip(k - 1 as int));
            assert(v@.skip(k - 1 as int).skip(1) =~= v@.skip(k as int));
            assert(le_val(v@.skip(k - 1 as int)) == v@[k - 1] + 256 * le_val(v@.skip(k as int)));
            assert(pow256(v@.skip(k - 1 as int).len()) <= pow256(8)) by {
                lemma_pow256_le(v@.skip(k - 1 as int).len(), 8);
            }
        }
        acc = acc * 256 + (v[k - 1] as u64);
        k = k - 1;
    }
    proof {
        assert(v@.skip(0) =~= v@);
    }
    acc
}

proof fn lemma_pow256_le(a: nat, b: nat)
    requires
        a <= b,
    ensures
        pow256(a) <= pow256(b),
    decreases b,
{
    if a < b {
        lemma_pow256_le(a, (b - 1) as nat);
        crate::bytes::lemma_pow256_positive((b - 1) as nat);
    }
}

/// Read a little-endian `u64` at the cursor.
pub fn read_u64(data: &[u8], i: &mut usize) -> (r: Option<u64>)
    ensures
        (match r {
            Some(v) => *old(i) + 8 <= data@.len() && v == le_val(
                data@.subrange(*old(i) as int, *old(i) + 8),
            ) && *final(i) == *old(i) + 8,
            None => *old(i) + 8 > data@.len() && *final(i) == *old(i),
        }),
{
    match read_fixed(data, i, 8) {
        Some(v) => Some(le_bytes_to_u64(v.as_slice())),
        None => None,
    }
}

/// Read a little-endian `i64` at the cursor.
pub fn read_i64(data: &[u8], i: &mut usize) -> (r: Option<i64>)
    ensures
        (match r {
            Some(v) => *old(i) + 8 <= data@.len() && v == (le_val(
                data@.subrange(*old(i) as int, *old(i) + 8),
            ) as u64) as i64 && *final(i) == *old(i) + 8,
            None => *old(i) + 8 > data@.len() && *final(i) == *old(i),
        }),
{
    match read_u64(data, i) {
        Some(v) => Some(v as i64),
        None => None,
    }
}

/// Read one byte at the cursor.
pub fn read_u8(data: &[u8], i: &mut usize) -> (r: Option<u8>)
    ensures
        (match r {
            Some(v) => *old(i) + 1 <= data@.len() && v == data@[*old(i) as int] && *final(i) == *old(i)
                + 1,
            None => *old(i) + 1 > data@.len() && *final(i) == *old(i),
        }),
{
    if *i < data.len() {
        let b = data[*i];
        *i = *i + 1;
        Some(b)
    } else {
        None
    }
}

/// Decode a game account byte string: exactly the strings accepted by
/// `decode_ok` succeed, and the decoded fields are the layout's reads.
pub fn decode_game_account(data: &[u8]) -> (r: Result<DecodedGameAccount, GameDecodeError>)
    ensures
        (match r {
            Ok(g) => decode_ok(data@) && g@ == decode_view(data@) && g@.wf(),
            Err(e) => !decode_ok(data@) && (match e {
                GameDecodeError::TooShort => data@.len() < GAME_ACCOUNT_LEN,
                GameDecodeError::BadDiscriminator => data@.len() >= GAME_ACCOUNT_LEN
                    && data@.subrange(0, 8) != game_discriminator_view(),
                GameDecodeError::BadStateByte => data@.len() >= GAME_ACCOUNT_LEN
                    && data@.subrange(0, 8) == game_discriminator_view() && state_of_code(
                    data@[120],
                ) is None,
            }),
        }),
{
    if data.len() < GAME_ACCOUNT_LEN {
        return Err(GameDecodeError::TooShort);
    }
    let expected = game_account_discriminator();
    let mut i: usize = 0;
    let head = match read_fixed(data, &mut i, 8) {
        Some(v) => v,
        None => {
            return Err(GameDecodeError::TooShort);
        },
    };
    if !crate::bytes::bytes_eq(head.as_slice(), expected.as_slice()) {
        return Err(GameDecodeError::BadDiscriminator);
    }
    let player1 = match read_fixed(data, &mut i, 32) {
        Some(v) => v,
        None => {
            return Err(GameDecodeError::TooShort);
        },
    };
    let player2 = match read_fixed(data, &mut i, 32) {
        Some(v) => v,
        None => {
            return Err(GameDecodeError::TooShort);
        },
    };
    let entry_amount = match read_u64(data, &mut i) {
        Some(v) => v,
        None => {
            return Err(GameDecodeError::TooShort);
        },
    };
    let authority = match read_fixed(data, &mut i, 32) {
        Some(v) => v,
        None => {
            return Err(GameDecodeError::TooShort);
        },
    };
    let match_id = match read_u64(data, &mut i) {
        Some(v) => v,
        None => {
            return Err(GameDecodeError::TooShort);
        },
    };
    let state_byte = match read_u8(data, &mut i) {
        Some(v) => v,
        None => {
            return Err(GameDecodeError::TooShort);
        },
    };
    let state = if state_byte == 0 {
        DecodedGameState::Created
    } else if state_byte == 1 {
        DecodedGameState::Joined
    } else if state_byte == 2 {
        DecodedGameState::Settled
    } else if state_byte == 3 {
        DecodedGameState::Refunded
    } else {
        return Err(GameDecodeError::BadStateByte);
    };
    let created_at = match read_i64(data, &mut i) {
        Some(v) => v,
        None => {
            return Err(GameDecodeError::TooShort);
        },
    };
    let joined_at = match read_i64(data, &mut i) {
        Some(v) => v,
        None => {
            return Err(GameDecodeError::TooShort);
        },
    };
    let bump = match read_u8(data, &mut i) {
        Some(v) => v,
        None => {
            return Err(GameDecodeError::TooShort);
        },
    };
    let vault_bump = match read_u8(data, &mut i) {
        Some(v) => v,
        None => {
            return Err(GameDecodeError::TooShort);
        },
    };
    Ok(DecodedGameAccount {
        player1,
        player2,
        entry_amount,
        authority,
        match_id,
        state,
        created_at,
        joined_at,
        bump,
        vault_bump,
    })
}

/// Encode an account view back to bytes; the exact inverse of decoding.
pub fn encode_game_account(g: &DecodedGameAccount) -> (r: Vec<u8>)
    requires
        g@.wf(),
    ensures
        r@ == encode_view(g@),
        r@.len() == GAME_ACCOUNT_LEN,
{
    let mut out = game_account_discriminator();
    out.extend_from_slice(g.player1.as_slice());
    out.extend_from_slice(g.player2.as_slice());
    let mut entry = crate::bytes::u64_to_le_bytes(g.entry_amount);
    out.append(&mut entry);
    out.extend_from_slice(g.authority.as_slice());
    let mut mid = crate::bytes::u64_to_le_bytes(g.match_id);
    out.append(&mut mid);
    let state_byte: u8 = match g.state {
        DecodedGameState::Created => 0,
        DecodedGameState::Joined => 1,
        DecodedGameState::Settled => 2,
        DecodedGameState::Refunded => 3,
    };
    out.push(state_byte);
    let mut created = crate::bytes::u64_to_le_bytes(g.created_at as u64);
    out.append(&mut created);
    let mut joined = crate::bytes::u64_to_le_bytes(g.joined_at as u64);
    out.append(&mut joined);
    out.push(g.bump);
    out.push(g.vault_bump);
    proof {
        assert(out@ =~= encode_view(g@));
    }
    out
}

/// Decoding an encoded view gives the view back, bit for bit the other
/// way around as well: the two directions of the codec law.
pub proof fn lemma_encode_then_decode(v: GameAccountView)
    requires
        v.wf(),
    ensures
        decode_ok(encode_view(v)),
        decode_view(encode_view(v)) == v,
{
    let data = encode_view(v);
    lemma_le_bytes_of_len(v.entry_amount as nat, 8);
    lemma_le_bytes_of_len(v.match_id as nat, 8);
    lemma_le_bytes_of_len((v.created_at as u64) as nat, 8);
    lemma_le_bytes_of_len((v.joined_at as u64) as nat, 8);
    assert(data.len() == GAME_ACCOUNT_LEN);
    assert(data.subrange(0, 8) =~= game_discriminator_view());
    assert(data[120] == state_code(v.state));
    assert(data.subrange(8, 40) =~= v.player1);
    assert(data.subrange(40, 72) =~= v.player2);
    assert(data.subrange(72, 80) =~= le_bytes_of(v.entry_amount as nat, 8));
    assert(data.subrange(80, 112) =~= v.authority);
    assert(data.subrange(112, 120) =~= le_bytes_of(v.match_id as nat, 8));
    assert(data.subrange(121, 129) =~= le_bytes_of((v.created_at as u64) as nat, 8));
    assert(data.subrange(129, 137) =~= le_bytes_of((v.joined_at as u64) as nat, 8));
    assert(data[137] == v.bump);
    assert(data[138] == v.vault_bump);
    lemma_pow256_8();
    lemma_le_round_trip(v.entry_amount as nat, 8);
    lemma_le_round_trip(v.match_id as nat, 8);
    lemma_le_round_trip((v.created_at as u64) as nat, 8);
    lemma_le_round_trip((v.joined_at as u64) as nat, 8);
    lemma_i64_cast_round(v.created_at);
    lemma_i64_cast_round(v.joined_at);
    let d = decode_view(data);
    assert(d.player1 == v.player1);
    assert(d.entry_amount == v.entry_amount);
    assert(d.state == v.state);
    assert(d.created_at == v.created_at);
    assert(d.joined_at == v.joined_at);
}

/// Re-encoding a decoded byte string of exactly the account length gives
/// the same bytes back.
pub proof fn lemma_decode_then_encode(data: Seq<u8>)
    requires
        decode_ok(data),
        data.len() == GAME_ACCOUNT_LEN,
    ensures
        encode_view(decode_view(data)) == data,
{
    let v = decode_view(data);
    lemma_le_bytes_round_trip(data.subrange(72, 80));
    lemma_le_val_bound(data.subrange(72, 80));
    lemma_le_bytes_round_trip(data.subrange(112, 120));
    lemma_le_val_bound(data.subrange(112, 120));
    lemma_le_bytes_round_trip(data.subrange(121, 129));
    lemma_le_val_bound(data.subrange(121, 129));
    lemma_le_bytes_round_trip(data.subrange(129, 137));
    lemma_le_val_bound(data.subrange(129, 137));
    lemma_pow256_8();
    lemma_u64_cast_round(le_val(data.subrange(121, 129)) as u64);
    lemma_u64_cast_round(le_val(data.subrange(129, 137)) as u64);
    assert(state_of_code(data[120]) is Some);
    assert(state_code(v.state) == data[120]);
    assert(encode_view(v) =~= data);
}

} // verus!

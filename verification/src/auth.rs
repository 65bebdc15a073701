//! HMAC authentication of internal and admin requests.
//!
//! A request carries a timestamp, a nonce and a signature header; the
//! MAC is HMAC-SHA-256 over `timestamp "." nonce "." body`, verified
//! over the exact body bytes before anything parses them. A fresh nonce
//! is consumed on success; replaying a request fails.

use vstd::prelude::*;
use vstd::string::StringSliceAdditionalSpecFns;

use crate::bytes::ascii_upper;
use crate::bytes::trim_bytes;
use crate::bytes::trim_view;
use crate::bytes::upper_view;
use crate::crypto::hex_decode;
use crate::crypto::hex_decode_ok;
use crate::crypto::hex_decode_val;
use crate::crypto::hmac_sha256_of;
use crate::crypto::hmac_sha256_verify;
use crate::error::AppError;
use crate::parse::parse_i64;
use crate::parse::parse_i64_spec;
use crate::store::MatchStore;
use crate::store::nonce_used;

verus! {

/// The widest clock skew an internal request may carry, in seconds.
pub const MAX_CLOCK_SKEW_SECONDS: i64 = 300;

/// The longest accepted nonce, in bytes after trimming.
pub const MAX_NONCE_LEN: usize = 128;

/// The bytes the MAC covers: timestamp, dot, nonce, dot, body.
pub open spec fn mac_message(ts: Seq<u8>, nonce: Seq<u8>, body: Seq<u8>) -> Seq<u8> {
    ts + seq![46u8] + nonce + seq![46u8] + body
}

/// The signature header with an optional `sha256=` prefix removed;
/// the prefix may come in any mix of letter cases.
pub open spec fn strip_sig_prefix(s: Seq<u8>) -> Seq<u8> {
    if s.len() >= 7 && upper_view(s.take(7)) == "SHA256=".spec_bytes() {
        s.skip(7)
    } else {
        s
    }
}

/// Everything the verifier checks before touching the nonce store:
/// a non-empty secret, three ASCII headers, a nonce of accepted size,
/// a parsable timestamp within the skew window, a hex signature, and
/// the right MAC over the exact body bytes.
pub open spec fn hmac_request_ok(
    secret: Seq<u8>,
    timestamp: Option<Seq<u8>>,
    nonce: Option<Seq<u8>>,
    signature: Option<Seq<u8>>,
    body: Seq<u8>,
    now: i64,
) -> bool {
    &&& secret.len() > 0
    &&& timestamp is Some
    &&& nonce is Some
    &&& signature is Some
    &&& ({
        let ts = trim_view(timestamp.unwrap());
        let nc = trim_view(nonce.unwrap());
        let sig = strip_sig_prefix(trim_view(signature.unwrap()));
        &&& 0 < nc.len() <= MAX_NONCE_LEN
        &&& parse_i64_spec(ts) is Some
        &&& -MAX_CLOCK_SKEW_SECONDS <= now - parse_i64_spec(ts).unwrap() <= MAX_CLOCK_SKEW_SECONDS
        &&& sig.len() > 0
        &&& hex_decode_ok(sig)
        &&& hex_decode_val(sig) == hmac_sha256_of(secret, mac_message(ts, nc, body))
    })
}

/// Verify the three authentication headers of an internal request and
/// consume its nonce. Succeeds exactly when the headers verify and the
/// nonce has never been used; the nonce is recorded on success and the
/// store is untouched on failure.
pub fn verify_internal_hmac(
    store: &mut MatchStore,
    secret: &str,
    timestamp: Option<&str>,
    nonce: Option<&str>,
    signature: Option<&str>,
    raw_body: &[u8],
    now: i64,
) -> (r: Result<(), AppError>)
    requires
        old(store).wf(),
    ensures
        final(store).wf(),
        final(store).matches == old(store).matches,
        final(store).jobs == old(store).jobs,
        (match r {
            Ok(()) => hmac_request_ok(
                secret.spec_bytes(),
                (match timestamp {
                    Some(t) => Some(t.spec_bytes()),
                    None => None,
                }),
                (match nonce {
                    Some(n) => Some(n.spec_bytes()),
                    None => None,
                }),
                (match signature {
                    Some(s) => Some(s.spec_bytes()),
                    None => None,
                }),
                raw_body@,
                now,
            ) && (nonce matches Some(n) && vstd::string::is_ascii(n)) && !nonce_used(
                old(store).used_nonces@,
                crate::parse::trimmed_view(nonce.unwrap()@),
            ) && nonce_used(
                final(store).used_nonces@,
                crate::parse::trimmed_view(nonce.unwrap()@),
            ),
            Err(e) => e is Unauthorized && final(store).used_nonces == old(store).used_nonces && !(
            hmac_request_ok(
                secret.spec_bytes(),
                (match timestamp {
                    Some(t) => Some(t.spec_bytes()),
                    None => None,
                }),
                (match nonce {
                    Some(n) => Some(n.spec_bytes()),
                    None => None,
                }),
                (match signature {
                    Some(s) => Some(s.spec_bytes()),
                    None => None,
                }),
                raw_body@,
                now,
            ) && (nonce matches Some(n) && vstd::string::is_ascii(n)) && !nonce_used(
                old(store).used_nonces@,
                crate::parse::trimmed_view(nonce.unwrap()@),
            )),
        }),
{
    broadcast use vstd::string::is_ascii_spec_bytes;

    if secret.as_bytes().len() == 0 {
        return Err(AppError::Unauthorized);
    }
    let timestamp_raw = match timestamp {
        Some(t) => t,
        None => {
            return Err(AppError::Unauthorized);
        },
    };
    let nonce_raw = match nonce {
        Some(n) => n,
        None => {
            return Err(AppError::Unauthorized);
        },
    };
    let signature_raw = match signature {
        Some(s) => s,
        None => {
            return Err(AppError::Unauthorized);
        },
    };
    if !nonce_raw.is_ascii() {
        return Err(AppError::Unauthorized);
    }
    let ts_bytes = trim_bytes(timestamp_raw.as_bytes());
    let nonce_trimmed = crate::parse::trim_str(nonce_raw);
    let nonce_bytes = trim_bytes(nonce_raw.as_bytes());
    if nonce_bytes.len() == 0 || nonce_bytes.len() > MAX_NONCE_LEN {
        return Err(AppError::Unauthorized);
    }
    let ts = match parse_i64(ts_bytes.as_slice()) {
        Some(t) => t,
        None => {
            return Err(AppError::Unauthorized);
        },
    };
    let lower_ok = if now >= i64::MIN + MAX_CLOCK_SKEW_SECONDS {
        ts >= now - MAX_CLOCK_SKEW_SECONDS
    } else {
        true
    };
    let upper_ok = if now <= i64::MAX - MAX_CLOCK_SKEW_SECONDS {
        ts <= now + MAX_CLOCK_SKEW_SECONDS
    } else {
        true
    };
    if !(lower_ok && upper_ok) {
        return Err(AppError::Unauthorized);
    }
    let sig_trimmed = trim_bytes(signature_raw.as_bytes());
    let sig_hex = strip_prefix_bytes(sig_trimmed.as_slice());
    if sig_hex.len() == 0 {
        return Err(AppError::Unauthorized);
    }
    let provided = match hex_decode(sig_hex.as_slice()) {
        Some(v) => v,
        None => {
            return Err(AppError::Unauthorized);
        },
    };
    let mut message: Vec<u8> = Vec::new();
    let mut ts_part = ts_bytes.clone();
    let mut nonce_part = nonce_bytes.clone();
    message.append(&mut ts_part);
    message.push(46);
    message.append(&mut nonce_part);
    message.push(46);
    message.extend_from_slice(raw_body);
    proof {
        assert(message@ =~= mac_message(
            trim_view(timestamp_raw.spec_bytes()),
            trim_view(nonce_raw.spec_bytes()),
            raw_body@,
        ));
    }
    if !hmac_sha256_verify(secret.as_bytes(), message.as_slice(), provided.as_slice()) {
        return Err(AppError::Unauthorized);
    }
    let fresh = store.insert_nonce_if_unused(nonce_trimmed);
    if !fresh {
        return Err(AppError::Unauthorized);
    }
    Ok(())
}

/// The signature header bytes with an optional case-mixed `sha256=`
/// prefix removed.
fn strip_prefix_bytes(s: &[u8]) -> (r: Vec<u8>)
    ensures
        r@ == strip_sig_prefix(s@),
{
    let upper: [u8; 7] = [83, 72, 65, 50, 53, 54, 61];
    proof {
        reveal_strlit("SHA256=");
        assert(vstd::utf8::is_ascii_chars("SHA256="@));
        vstd::utf8::is_ascii_chars_encode_utf8("SHA256="@);
        assert(upper@ =~= "SHA256=".spec_bytes());
    }
    if s.len() >= 7 {
        let head = vstd::slice::slice_subrange(s, 0, 7);
        let head_upper = ascii_upper(head);
        proof {
            assert(s@.take(7) =~= head@);
        }
        if crate::bytes::bytes_eq(head_upper.as_slice(), upper.as_slice()) {
            let rest = vstd::slice::slice_subrange(s, 7, s.len());
            proof {
                assert(rest@ =~= strip_sig_prefix(s@));
            }
            return vstd::slice::slice_to_vec(rest);
        }
    }
    proof {
        assert(s@ =~= strip_sig_prefix(s@));
    }
    vstd::slice::slice_to_vec(s)
}

} // verus!

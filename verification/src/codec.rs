//! The persisted record format for a credential.
//!
//! A credential is written to durable storage wholesale, as one byte
//! record: eight little-endian bytes for the issuance timestamp, eight for
//! the validity window, then the UTF-8 bytes of the token string to the
//! end of the record. Both integers are non-negative, so they travel as
//! unsigned values. A record that is too short, carries an out-of-range
//! integer, or whose tail is not UTF-8 does not decode; the host treats
//! such a record as "no cached credential".

use vstd::prelude::*;

use vstd::bytes::lemma_auto_spec_u64_to_from_le_bytes;
use vstd::bytes::spec_u64_to_le_bytes;
use vstd::bytes::u64_from_le_bytes;
use vstd::bytes::u64_to_le_bytes;
use vstd::slice::slice_subrange;
use vstd::slice::slice_to_vec;
use vstd::string::StrSliceExecFns;
use vstd::utf8::decode_utf8;
use vstd::utf8::decode_utf8_encode_utf8;
use vstd::utf8::encode_utf8;
use vstd::utf8::encode_utf8_decode_utf8;
use vstd::utf8::encode_utf8_valid_utf8;
use vstd::utf8::valid_utf8;

use crate::client::AccessToken;

verus! {

/// A credential fit for persistence: issued at or after the epoch, with a
/// non-negative validity window.
pub open spec fn spec_valid_token(t: AccessToken) -> bool {
    &&& 0 <= t.dt
    &&& 0 <= t.expires_in
}

/// The byte record a credential serializes to.
pub open spec fn spec_record_bytes(t: AccessToken) -> Seq<u8> {
    spec_u64_to_le_bytes(t.dt as u64) + spec_u64_to_le_bytes(t.expires_in as u64)
        + encode_utf8(t.access_token@)
}

/// Serializes a credential to its byte record.
pub fn encode_record(t: &AccessToken) -> (r: Vec<u8>)
    requires
        spec_valid_token(*t),
    ensures
        r@ == spec_record_bytes(*t),
{
    let mut out = u64_to_le_bytes(t.dt as u64);
    let mut win = u64_to_le_bytes(t.expires_in as u64);
    out.append(&mut win);
    let mut tok = t.access_token.as_str().as_bytes_vec();
    out.append(&mut tok);
    proof {
        assert(out@ =~= spec_record_bytes(*t));
    }
    out
}

/// Relies on `String::from_utf8`: it succeeds exactly on valid UTF-8 and
/// the resulting string is made of those very bytes.
#[verifier::external_body]
fn bytes_to_string(v: Vec<u8>) -> (r: Option<String>)
    ensures
        r is Some <==> valid_utf8(v@),
        r is Some ==> r->0@ == decode_utf8(v@),
{
    String::from_utf8(v).ok()
}

/// Deserializes a byte record. Succeeds exactly on the records that some
/// valid credential serializes to, and then returns a credential whose
/// record these bytes are; on anything else it returns nothing.
pub fn decode_record(bytes: &[u8]) -> (r: Option<AccessToken>)
    ensures
        r matches Some(t) ==> spec_valid_token(t) && bytes@ == spec_record_bytes(t),
        r is None ==> forall|t: AccessToken|
            spec_valid_token(t) ==> bytes@ != spec_record_bytes(t),
{
    let n = bytes.len();
    if n < 16 {
        proof {
            lemma_auto_spec_u64_to_from_le_bytes();
            assert forall|t: AccessToken|
                spec_valid_token(t) implies bytes@ != spec_record_bytes(t) by {
                assert(spec_record_bytes(t).len() >= 16);
            }
        }
        return None;
    }
    let head = slice_subrange(bytes, 0, 8);
    let dt_u = u64_from_le_bytes(head);
    let mid = slice_subrange(bytes, 8, 16);
    let win_u = u64_from_le_bytes(mid);
    if dt_u > (i64::MAX as u64) || win_u > (i64::MAX as u64) {
        proof {
            lemma_auto_spec_u64_to_from_le_bytes();
            assert forall|t: AccessToken|
                spec_valid_token(t) implies bytes@ != spec_record_bytes(t) by {
                if bytes@ == spec_record_bytes(t) {
                    assert(bytes@.subrange(0, 8) =~= spec_u64_to_le_bytes(t.dt as u64));
                    assert(bytes@.subrange(8, 16) =~= spec_u64_to_le_bytes(
                        t.expires_in as u64,
                    ));
                }
            }
        }
        return None;
    }
    let tail = slice_subrange(bytes, 16, n);
    let tok_bytes = slice_to_vec(tail);
    match bytes_to_string(tok_bytes) {
        Some(token) => {
            let t = AccessToken { access_token: token, expires_in: win_u as i64, dt: dt_u as i64 };
            proof {
                lemma_auto_spec_u64_to_from_le_bytes();
                decode_utf8_encode_utf8(tail@);
                assert(bytes@ =~= spec_record_bytes(t));
            }
            Some(t)
        },
        None => {
            proof {
                lemma_auto_spec_u64_to_from_le_bytes();
                assert forall|t: AccessToken|
                    spec_valid_token(t) implies bytes@ != spec_record_bytes(t) by {
                    if bytes@ == spec_record_bytes(t) {
                        encode_utf8_valid_utf8(t.access_token@);
                        assert(bytes@.subrange(16, n as int) =~= encode_utf8(t.access_token@));
                    }
                }
            }
            None
        },
    }
}

/// Persistence round trip: serializing is injective, so reading back the
/// record a valid credential was saved as yields that credential, field
/// for field (the token compared by its characters).
pub proof fn lemma_record_round_trip(t1: AccessToken, t2: AccessToken)
    requires
        spec_valid_token(t1),
        spec_valid_token(t2),
        spec_record_bytes(t1) == spec_record_bytes(t2),
    ensures
        t1.dt == t2.dt,
        t1.expires_in == t2.expires_in,
        t1.access_token@ == t2.access_token@,
{
    lemma_auto_spec_u64_to_from_le_bytes();
    let b1 = spec_record_bytes(t1);
    let b2 = spec_record_bytes(t2);
    assert(b1.subrange(0, 8) =~= spec_u64_to_le_bytes(t1.dt as u64));
    assert(b2.subrange(0, 8) =~= spec_u64_to_le_bytes(t2.dt as u64));
    assert(b1.subrange(8, 16) =~= spec_u64_to_le_bytes(t1.expires_in as u64));
    assert(b2.subrange(8, 16) =~= spec_u64_to_le_bytes(t2.expires_in as u64));
    assert(b1.subrange(16, b1.len() as int) =~= encode_utf8(t1.access_token@));
    assert(b2.subrange(16, b2.len() as int) =~= encode_utf8(t2.access_token@));
    encode_utf8_decode_utf8(t1.access_token@);
    encode_utf8_decode_utf8(t2.access_token@);
}

} // verus!

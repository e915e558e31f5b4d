//! The signer: HMAC-SHA1 over the canonical message, rendered as a lowercase
//! hexadecimal string.

use vstd::prelude::*;
use vstd::utf8::encode_utf8;
use crate::decimal::spec_digit_char;

verus! {

/// The HMAC-SHA1 authentication code of `msg` under `key`: a 20-byte digest
/// that is a function of the key and message bytes alone.
pub uninterp spec fn hmac_sha1_of(key: Seq<u8>, msg: Seq<u8>) -> Seq<u8>;

/// Relies on crypto::hmac::Hmac over crypto::sha1::Sha1: computes the
/// HMAC-SHA1 authentication code, a deterministic 20-byte digest of the key
/// and message bytes alone.
#[verifier::external_body]
fn hmac_sha1(key: &[u8], msg: &[u8]) -> (r: Vec<u8>)
    ensures
        r@ == hmac_sha1_of(key@, msg@),
        r@.len() == 20,
{
    let mut mac = crypto::hmac::Hmac::new(crypto::sha1::Sha1::new(), key);
    crypto::mac::Mac::input(&mut mac, msg);
    let result = crypto::mac::Mac::result(&mut mac);
    result.code().to_vec()
}

/// The lowercase hexadecimal digit character for `d`.
pub open spec fn spec_hex_digit(d: int) -> char {
    if d < 10 {
        spec_digit_char(d)
    } else if d == 10 {
        'a'
    } else if d == 11 {
        'b'
    } else if d == 12 {
        'c'
    } else if d == 13 {
        'd'
    } else if d == 14 {
        'e'
    } else {
        'f'
    }
}

/// The two lowercase hexadecimal digits of `b`, high nibble first.
pub open spec fn spec_hex_byte(b: u8) -> Seq<char> {
    seq![spec_hex_digit(b as int / 16), spec_hex_digit(b as int % 16)]
}

/// The lowercase hexadecimal rendering of `bytes`.
pub open spec fn spec_hex(bytes: Seq<u8>) -> Seq<char>
    decreases bytes.len(),
{
    if bytes.len() == 0 {
        Seq::empty()
    } else {
        spec_hex_byte(bytes[0]) + spec_hex(bytes.drop_first())
    }
}

/// `c` is a lowercase hexadecimal digit.
pub open spec fn is_hex_char(c: char) -> bool {
    ('0' <= c && c <= '9') || ('a' <= c && c <= 'f')
}

/// Law: a hexadecimal rendering has two digits per byte — an even length —
/// and every character is a lowercase hexadecimal digit.
pub proof fn lemma_hex_format(bytes: Seq<u8>)
    ensures
        spec_hex(bytes).len() == 2 * bytes.len(),
        forall|i: int| 0 <= i < spec_hex(bytes).len() ==> is_hex_char(#[trigger] spec_hex(bytes)[i]),
    decreases bytes.len(),
{
    if bytes.len() != 0 {
        lemma_hex_format(bytes.drop_first());
        assert(is_hex_char(spec_hex_digit(bytes[0] as int / 16)));
        assert(is_hex_char(spec_hex_digit(bytes[0] as int % 16)));
        assert forall|i: int| 0 <= i < spec_hex(bytes).len() implies is_hex_char(
            #[trigger] spec_hex(bytes)[i],
        ) by {
            if i >= 2 {
                assert(spec_hex(bytes)[i] == spec_hex(bytes.drop_first())[i - 2]);
            }
        }
    }
}

/// Relies on rustc_serialize::hex::ToHex for byte slices: two lowercase
/// hexadecimal digits per byte, high nibble first.
#[verifier::external_body]
fn bytes_to_hex(b: &[u8]) -> (r: String)
    ensures
        r@ == spec_hex(b@),
{
    rustc_serialize::hex::ToHex::to_hex(b)
}

/// The signature of `msg` under `key`: the HMAC-SHA1 digest of the UTF-8
/// bytes of the message, keyed by the UTF-8 bytes of the key, rendered as
/// lowercase hexadecimal.
pub open spec fn spec_sign(msg: Seq<char>, key: Seq<char>) -> Seq<char> {
    spec_hex(hmac_sha1_of(encode_utf8(key), encode_utf8(msg)))
}

/// Signs the canonical message with the shared secret. The result is always
/// a 40-character (even-length) lowercase hexadecimal string: two digits for
/// each of the 20 digest bytes.
pub fn sign(msg: String, key: String) -> (r: String)
    ensures
        r@ == spec_sign(msg@, key@),
        r@.len() == 40,
        r@.len() % 2 == 0,
        forall|i: int| 0 <= i < r@.len() ==> is_hex_char(#[trigger] r@[i]),
{
    let digest = hmac_sha1(key.as_str().as_bytes(), msg.as_str().as_bytes());
    let r = bytes_to_hex(digest.as_slice());
    proof {
        lemma_hex_format(hmac_sha1_of(encode_utf8(key@), encode_utf8(msg@)));
    }
    r
}

/// Law: signing is deterministic — for a fixed message and key, any two
/// results that meet `sign`'s contract are the same string, so repeated
/// calls (and independent re-signers) agree bit for bit.
pub proof fn lemma_sign_deterministic(
    msg: Seq<char>,
    key: Seq<char>,
    r1: Seq<char>,
    r2: Seq<char>,
)
    requires
        r1 == spec_sign(msg, key),
        r2 == spec_sign(msg, key),
    ensures
        r1 == r2,
{
}

} // verus!

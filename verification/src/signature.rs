//! Request signing: HMAC-SHA256 of the query string, written as lowercase hex.

use vstd::prelude::*;
use vstd::string::StringSliceAdditionalSpecFns;
use hmac::{Hmac, Mac, NewMac};
use sha2::Sha256;

verus! {

/// The HMAC-SHA256 tag of `msg` under `key`.
pub uninterp spec fn hmac_sha256(key: Seq<u8>, msg: Seq<u8>) -> Seq<u8>;

/// The lowercase hexadecimal digit of a value below sixteen.
pub open spec fn hex_digit(v: int) -> char {
    if v < 10 {
        (48 + v) as char
    } else {
        (87 + v) as char
    }
}

/// Two lowercase hex digits per byte, high nibble first.
pub open spec fn hex_lower(bytes: Seq<u8>) -> Seq<char> {
    Seq::new(
        2 * bytes.len(),
        |i: int|
            if i % 2 == 0 {
                hex_digit(bytes[i / 2] as int / 16)
            } else {
                hex_digit(bytes[i / 2] as int % 16)
            },
    )
}

/// Every character is a lowercase hexadecimal digit.
pub open spec fn is_lower_hex(s: Seq<char>) -> bool {
    forall|i: int| 0 <= i < s.len() ==> ('0' <= #[trigger] s[i] <= '9' || 'a' <= s[i] <= 'f')
}

/// The signature that the exchange expects for a query string.
pub open spec fn spec_signature(secret_key: Seq<u8>, query: Seq<u8>) -> Seq<char> {
    hex_lower(hmac_sha256(secret_key, query))
}

/// Computes HMAC-SHA256 with `hmac::Hmac<sha2::Sha256>`: `new_from_slice`, `update`,
/// `finalize`. Trusted: the tag is the named HMAC of the key and the message, and
/// it is 32 bytes long (the output size of SHA-256). `new_from_slice` accepts keys
/// of every length (longer keys are hashed first), so the `unwrap` never fails.
#[verifier::external_body]
fn hmac_sha256_tag(key: &[u8], msg: &[u8]) -> (tag: Vec<u8>)
    ensures
        tag@ == hmac_sha256(key@, msg@),
        tag@.len() == 32,
{
    let mut mac = Hmac::<Sha256>::new_from_slice(key).unwrap();
    mac.update(msg);
    mac.finalize().into_bytes().to_vec()
}

/// Calls `hex::encode`. Trusted: the result is the bytes written as lowercase
/// hexadecimal, two digits per byte, high nibble first.
#[verifier::external_body]
fn hex_encode(bytes: &[u8]) -> (text: String)
    ensures
        text@ == hex_lower(bytes@),
{
    hex::encode(bytes)
}

/// Signs a query string with the account's secret key: the HMAC-SHA256 of the
/// query's UTF-8 bytes under the key's UTF-8 bytes, as 64 lowercase hex digits.
pub fn get_signature(secret_key: &str, request: &str) -> (signature: String)
    ensures
        signature@ == spec_signature(secret_key.spec_bytes(), request.spec_bytes()),
        signature@.len() == 64,
        is_lower_hex(signature@),
{
    let tag = hmac_sha256_tag(secret_key.as_bytes(), request.as_bytes());
    proof {
        hex_lower_shape(tag@);
    }
    hex_encode(tag.as_slice())
}

/// Hex encoding writes lowercase hex digits, two per byte.
pub proof fn hex_lower_shape(bytes: Seq<u8>)
    ensures
        hex_lower(bytes).len() == 2 * bytes.len(),
        is_lower_hex(hex_lower(bytes)),
{
    let h = hex_lower(bytes);
    assert forall|i: int| 0 <= i < h.len() implies ('0' <= #[trigger] h[i] <= '9' || 'a' <= h[i] <= 'f') by {
        let b = bytes[i / 2] as int;
        assert(0 <= b / 16 < 16 && 0 <= b % 16 < 16);
    }
}

proof fn hex_digit_injective(a: int, b: int)
    requires
        0 <= a < 16,
        0 <= b < 16,
        hex_digit(a) == hex_digit(b),
    ensures
        a == b,
{
}

/// Different tags never give the same hex text: equal signatures come only
/// from equal HMAC tags.
pub proof fn hex_lower_injective(a: Seq<u8>, b: Seq<u8>)
    requires
        hex_lower(a) == hex_lower(b),
    ensures
        a == b,
{
    hex_lower_shape(a);
    hex_lower_shape(b);
    assert(a.len() == b.len());
    assert forall|k: int| 0 <= k < a.len() implies a[k] == b[k] by {
        let x = a[k] as int;
        let y = b[k] as int;
        let ha = hex_lower(a);
        let hb = hex_lower(b);
        assert((2 * k) / 2 == k && (2 * k) % 2 == 0);
        assert((2 * k + 1) / 2 == k && (2 * k + 1) % 2 == 1);
        assert(ha[2 * k] == hex_digit(x / 16));
        assert(hb[2 * k] == hex_digit(y / 16));
        assert(ha[2 * k + 1] == hex_digit(x % 16));
        assert(hb[2 * k + 1] == hex_digit(y % 16));
        hex_digit_injective(x / 16, y / 16);
        hex_digit_injective(x % 16, y % 16);
    }
    assert(a =~= b);
}

} // verus!

//! Stored passwords: the upper-case hexadecimal MD5 digest of the password's UTF-8 bytes.

use vstd::prelude::*;

verus! {

/// Number of bytes in a digest.
pub const DIGEST_BYTES: usize = 16;

/// The MD5 digest of a byte string, as `md5::compute` gives it.
pub uninterp spec fn md5_digest(data: Seq<u8>) -> Seq<u8>;

/// The upper-case hexadecimal digit for a value below 16.
pub open spec fn hex_digit(value: int) -> char {
    if value < 10 {
        ('0' as int + value) as char
    } else {
        ('A' as int + value - 10) as char
    }
}

/// Bytes written as upper-case hexadecimal, two digits each, the high one first.
pub open spec fn upper_hex(bytes: Seq<u8>) -> Seq<char> {
    Seq::new(
        2 * bytes.len(),
        |i: int|
            if i % 2 == 0 {
                hex_digit(bytes[i / 2] as int / 16)
            } else {
                hex_digit(bytes[i / 2] as int % 16)
            },
    )
}

/// How a password is stored.
pub open spec fn stored_form(password: Seq<char>) -> Seq<char> {
    upper_hex(md5_digest(vstd::utf8::encode_utf8(password)))
}

/// The digits `0` to `9` and `A` to `F`.
pub open spec fn is_upper_hex_digit(c: char) -> bool {
    ('0' <= c <= '9') || ('A' <= c <= 'F')
}

/// The hexadecimal form has two digits for each byte, all of them upper-case.
pub proof fn lemma_upper_hex_shape(bytes: Seq<u8>)
    ensures
        upper_hex(bytes).len() == 2 * bytes.len(),
        forall|i: int| 0 <= i < 2 * bytes.len() ==> is_upper_hex_digit(#[trigger] upper_hex(bytes)[i]),
{
    assert forall|i: int| 0 <= i < 2 * bytes.len() implies is_upper_hex_digit(
        #[trigger] upper_hex(bytes)[i],
    ) by {
        let value = if i % 2 == 0 {
            bytes[i / 2] as int / 16
        } else {
            bytes[i / 2] as int % 16
        };
        assert(0 <= value < 16);
        assert(upper_hex(bytes)[i] == hex_digit(value));
    }
}

/// Different bytes have different hexadecimal forms: to compare two stored forms is to
/// compare the digests.
pub proof fn lemma_upper_hex_injective(a: Seq<u8>, b: Seq<u8>)
    requires
        upper_hex(a) == upper_hex(b),
    ensures
        a == b,
{
    assert(upper_hex(a).len() == 2 * a.len());
    assert(upper_hex(b).len() == 2 * b.len());
    assert forall|i: int| 0 <= i < a.len() implies a[i] == b[i] by {
        let (high_a, low_a) = (a[i] as int / 16, a[i] as int % 16);
        let (high_b, low_b) = (b[i] as int / 16, b[i] as int % 16);
        assert(upper_hex(a)[2 * i] == hex_digit(high_a));
        assert(upper_hex(b)[2 * i] == hex_digit(high_b));
        assert(upper_hex(a)[2 * i + 1] == hex_digit(low_a));
        assert(upper_hex(b)[2 * i + 1] == hex_digit(low_b));
        assert(hex_digit(high_a) as int == (if high_a < 10 { 48 + high_a } else { 55 + high_a }));
        assert(hex_digit(high_b) as int == (if high_b < 10 { 48 + high_b } else { 55 + high_b }));
        assert(hex_digit(low_a) as int == (if low_a < 10 { 48 + low_a } else { 55 + low_a }));
        assert(hex_digit(low_b) as int == (if low_b < 10 { 48 + low_b } else { 55 + low_b }));
        assert(high_a == high_b && low_a == low_b);
    }
    assert(a =~= b);
}

/// `md5::compute`, the digest handed out as its 16 bytes.
#[verifier::external_body]
fn compute_digest(data: &[u8]) -> (digest: [u8; 16])
    ensures
        digest@ == md5_digest(data@),
{
    md5::compute(data).0
}

/// The `UpperHex` form of `md5::Digest`: each byte as two upper-case hexadecimal digits.
#[verifier::external_body]
fn format_digest(digest: &[u8; 16]) -> (text: String)
    ensures
        text@ == upper_hex(digest@),
{
    format!("{:X}", md5::Digest(*digest))
}

/// Whether `stored` is the stored form of a password with this digest.
pub fn digest_matches(stored: &str, digest: &[u8; 16]) -> (same: bool)
    ensures
        same == (stored@ == upper_hex(digest@)),
{
    let text = format_digest(digest);
    stored.to_owned() == text
}

/// The form in which a password is stored.
pub fn hash_password(password: &str) -> (stored: String)
    ensures
        stored@ == stored_form(password@),
        stored@.len() == 2 * md5_digest(vstd::utf8::encode_utf8(password@)).len(),
{
    let digest = compute_digest(password.as_bytes());
    format_digest(&digest)
}

/// Whether `stored` is the stored form of `password`.
pub fn password_matches(stored: &str, password: &str) -> (same: bool)
    ensures
        same == (stored@ == stored_form(password@)),
{
    let digest = compute_digest(password.as_bytes());
    digest_matches(stored, &digest)
}

} // verus!

//! Salted password digests: SHA-256 of the password followed by the salt,
//! written as lower-case hexadecimal.

use vstd::prelude::*;
use vstd::utf8::*;
use crate::ids::{lower_hex, lower_hex_digit};

verus! {

/// The SHA-256 digest of a byte sequence (FIPS 180-4).
pub uninterp spec fn sha256(data: Seq<u8>) -> Seq<u8>;

/// Calls `sha2::Sha256::digest` (the `Digest` trait's one-shot form of
/// `new`, `update`, `finalize`). The output type is a 32-byte array.
#[verifier::external_body]
fn sha256_digest(data: &[u8]) -> (res: Vec<u8>)
    ensures
        res@ == sha256(data@),
        res@.len() == 32,
{
    <sha2::Sha256 as sha2::Digest>::digest(data).to_vec()
}

/// The stored form of a password: the lower-case hexadecimal SHA-256 digest
/// of the UTF-8 bytes of the password followed by the salt.
pub open spec fn password_hash(password: Seq<char>, salt: Seq<char>) -> Seq<char> {
    lower_hex(sha256(encode_utf8(password + salt)))
}

fn hex_digit_text(n: u8) -> (res: &'static str)
    requires
        n < 16,
    ensures
        res@ == seq![lower_hex_digit(n)],
{
    if n == 0 { proof { reveal_strlit("0"); } "0" }
    else if n == 1 { proof { reveal_strlit("1"); } "1" }
    else if n == 2 { proof { reveal_strlit("2"); } "2" }
    else if n == 3 { proof { reveal_strlit("3"); } "3" }
    else if n == 4 { proof { reveal_strlit("4"); } "4" }
    else if n == 5 { proof { reveal_strlit("5"); } "5" }
    else if n == 6 { proof { reveal_strlit("6"); } "6" }
    else if n == 7 { proof { reveal_strlit("7"); } "7" }
    else if n == 8 { proof { reveal_strlit("8"); } "8" }
    else if n == 9 { proof { reveal_strlit("9"); } "9" }
    else if n == 10 { proof { reveal_strlit("a"); } "a" }
    else if n == 11 { proof { reveal_strlit("b"); } "b" }
    else if n == 12 { proof { reveal_strlit("c"); } "c" }
    else if n == 13 { proof { reveal_strlit("d"); } "d" }
    else if n == 14 { proof { reveal_strlit("e"); } "e" }
    else { proof { reveal_strlit("f"); } "f" }
}

/// Writes bytes as lower-case hexadecimal, two digits per byte.
pub fn to_lower_hex(bytes: &[u8]) -> (res: String)
    ensures
        res@ == lower_hex(bytes@),
{
    let mut res = String::new();
    let n = bytes.len();
    let mut i: usize = 0;
    while i < n
        invariant
            n == bytes@.len(),
            i <= n,
            res@ == lower_hex(bytes@.subrange(0, i as int)),
        decreases n - i,
    {
        let b = bytes[i];
        res.append(hex_digit_text(b / 16));
        res.append(hex_digit_text(b % 16));
        proof {
            let done = bytes@.subrange(0, i as int + 1);
            assert(lower_hex(done) =~= lower_hex(bytes@.subrange(0, i as int)) + seq![
                lower_hex_digit(b / 16),
                lower_hex_digit(b % 16),
            ]);
        }
        i = i + 1;
    }
    assert(bytes@.subrange(0, n as int) =~= bytes@);
    res
}

/// Computes the stored form of a password with its salt.
pub fn password_digest(password: &str, salt: &str) -> (res: String)
    ensures
        res@ == password_hash(password@, salt@),
        res@.len() == 64,
{
    let mut salted = password.to_owned();
    salted.append(salt);
    let digest = sha256_digest(salted.as_str().as_bytes());
    to_lower_hex(digest.as_slice())
}

/// Whether a password with the stored salt matches the stored hash.
pub fn password_matches(password: &str, salt: &str, stored_hash: &str) -> (res: bool)
    ensures
        res == (password_hash(password@, salt@) == stored_hash@),
{
    let computed = password_digest(password, salt);
    crate::text::text_equals(computed.as_str(), stored_hash)
}

} // verus!

//! Twelve-byte document identifiers and their hexadecimal text form.

use vstd::prelude::*;

verus! {

/// A document identifier: twelve raw bytes, written as 24 hexadecimal digits.
#[derive(Clone, Copy, Debug)]
pub struct ObjectId {
    pub bytes: [u8; 12],
}

impl View for ObjectId {
    type V = Seq<u8>;

    open spec fn view(&self) -> Seq<u8> {
        self.bytes@
    }
}

/// The value of a hexadecimal digit, upper or lower case.
pub open spec fn hex_digit_value(c: char) -> Option<u8> {
    if c == '0' { Some(0u8) }
    else if c == '1' { Some(1u8) }
    else if c == '2' { Some(2u8) }
    else if c == '3' { Some(3u8) }
    else if c == '4' { Some(4u8) }
    else if c == '5' { Some(5u8) }
    else if c == '6' { Some(6u8) }
    else if c == '7' { Some(7u8) }
    else if c == '8' { Some(8u8) }
    else if c == '9' { Some(9u8) }
    else if c == 'a' || c == 'A' { Some(10u8) }
    else if c == 'b' || c == 'B' { Some(11u8) }
    else if c == 'c' || c == 'C' { Some(12u8) }
    else if c == 'd' || c == 'D' { Some(13u8) }
    else if c == 'e' || c == 'E' { Some(14u8) }
    else if c == 'f' || c == 'F' { Some(15u8) }
    else { None }
}

/// The lower-case hexadecimal digit for a value below 16.
pub open spec fn lower_hex_digit(n: u8) -> char {
    if n == 0 { '0' }
    else if n == 1 { '1' }
    else if n == 2 { '2' }
    else if n == 3 { '3' }
    else if n == 4 { '4' }
    else if n == 5 { '5' }
    else if n == 6 { '6' }
    else if n == 7 { '7' }
    else if n == 8 { '8' }
    else if n == 9 { '9' }
    else if n == 10 { 'a' }
    else if n == 11 { 'b' }
    else if n == 12 { 'c' }
    else if n == 13 { 'd' }
    else if n == 14 { 'e' }
    else { 'f' }
}

/// Two lower-case hexadecimal digits per byte, high half first.
pub open spec fn lower_hex(bytes: Seq<u8>) -> Seq<char> {
    Seq::new(
        2 * bytes.len(),
        |i: int|
            if i % 2 == 0 {
                lower_hex_digit(bytes[i / 2] / 16)
            } else {
                lower_hex_digit(bytes[i / 2] % 16)
            },
    )
}

/// A text is an identifier when it is exactly 24 hexadecimal digits.
pub open spec fn is_object_id_text(text: Seq<char>) -> bool {
    &&& text.len() == 24
    &&& forall|i: int| 0 <= i < 24 ==> (#[trigger] hex_digit_value(text[i])) is Some
}

/// The twelve bytes that 24 hexadecimal digits stand for, high half first.
pub open spec fn object_id_bytes(text: Seq<char>) -> Seq<u8> {
    Seq::new(
        12,
        |i: int|
            (hex_digit_value(text[2 * i])->0 * 16 + hex_digit_value(text[2 * i + 1])->0) as u8,
    )
}

/// The identifier that a text denotes, if it denotes one.
pub open spec fn object_id_of(text: Seq<char>) -> Option<Seq<u8>> {
    if is_object_id_text(text) {
        Some(object_id_bytes(text))
    } else {
        None
    }
}

/// Calls `bson::oid::ObjectId::parse_str` (re-exported by `mongodb`). Per its
/// source, the text is hex-decoded (either case) and must yield exactly
/// twelve bytes: so it succeeds exactly on 24 hexadecimal digits, and the
/// identifier's bytes are the decoded digits.
#[verifier::external_body]
fn bson_parse_object_id(text: &str) -> (res: Option<ObjectId>)
    ensures
        res is Some <==> is_object_id_text(text@),
        res matches Some(id) ==> id@ == object_id_bytes(text@),
{
    match mongodb::bson::oid::ObjectId::parse_str(text) {
        Ok(id) => Some(ObjectId { bytes: id.bytes() }),
        Err(_) => None,
    }
}

/// Calls `bson::oid::ObjectId::to_hex`, which per its source is
/// `hex::encode` of the twelve bytes: lower-case digits, high half first.
#[verifier::external_body]
fn bson_object_id_to_hex(id: ObjectId) -> (res: String)
    ensures
        res@ == lower_hex(id@),
{
    mongodb::bson::oid::ObjectId::from_bytes(id.bytes).to_hex()
}

impl ObjectId {
    /// Parses an identifier from its 24-digit hexadecimal text.
    pub fn parse(text: &str) -> (res: Option<ObjectId>)
        ensures
            match res {
                Some(id) => object_id_of(text@) == Some(id@),
                None => object_id_of(text@) is None,
            },
    {
        bson_parse_object_id(text)
    }

    /// The identifier's text: 24 lower-case hexadecimal digits.
    pub fn to_hex(&self) -> (res: String)
        ensures
            res@ == lower_hex(self@),
    {
        bson_object_id_to_hex(*self)
    }
}

proof fn lemma_digit_roundtrip(n: u8)
    requires
        0 <= n < 16,
    ensures
        hex_digit_value(lower_hex_digit(n)) == Some(n),
{
}

/// Writing an identifier as text and reading it back gives the same identifier.
pub proof fn lemma_object_id_text_roundtrip(id: ObjectId)
    ensures
        object_id_of(lower_hex(id@)) == Some(id@),
        lower_hex(id@).len() == 24,
{
    let b = id@;
    let t = lower_hex(b);
    assert forall|i: int| 0 <= i < 24 implies (#[trigger] hex_digit_value(t[i])) is Some by {
        lemma_digit_roundtrip(b[i / 2] / 16);
        lemma_digit_roundtrip(b[i / 2] % 16);
    }
    assert forall|i: int| 0 <= i < 12 implies #[trigger] object_id_bytes(t)[i] == b[i] by {
        lemma_digit_roundtrip(b[i] / 16);
        lemma_digit_roundtrip(b[i] % 16);
        assert(t[2 * i] == lower_hex_digit(b[i] / 16));
        assert(t[2 * i + 1] == lower_hex_digit(b[i] % 16));
    }
    assert(object_id_bytes(t) =~= b);
}

/// The text of bytes is two digits per byte, each a decimal digit or a
/// lower-case letter a to f, the first giving the byte's high half and the
/// second its low half.
pub proof fn lemma_lower_hex_digits(bytes: Seq<u8>)
    ensures
        lower_hex(bytes).len() == 2 * bytes.len(),
        forall|i: int|
            0 <= i < lower_hex(bytes).len() ==> {
                let c = #[trigger] lower_hex(bytes)[i];
                ('0' <= c <= '9') || ('a' <= c <= 'f')
            },
        forall|i: int|
            0 <= i < bytes.len() ==> hex_digit_value(#[trigger] lower_hex(bytes)[2 * i]) == Some(
                (bytes[i] / 16) as u8,
            ) && hex_digit_value(lower_hex(bytes)[2 * i + 1]) == Some((bytes[i] % 16) as u8),
{
    assert forall|i: int| 0 <= i < lower_hex(bytes).len() implies {
        let c = #[trigger] lower_hex(bytes)[i];
        ('0' <= c <= '9') || ('a' <= c <= 'f')
    } by {
        lemma_digit_roundtrip(bytes[i / 2] / 16);
        lemma_digit_roundtrip(bytes[i / 2] % 16);
    }
    assert forall|i: int| 0 <= i < bytes.len() implies hex_digit_value(#[trigger] lower_hex(bytes)[2 * i]) == Some(
        (bytes[i] / 16) as u8,
    ) && hex_digit_value(lower_hex(bytes)[2 * i + 1]) == Some((bytes[i] % 16) as u8) by {
        lemma_digit_roundtrip(bytes[i] / 16);
        lemma_digit_roundtrip(bytes[i] % 16);
        assert(lower_hex(bytes)[2 * i] == lower_hex_digit(bytes[i] / 16));
        assert(lower_hex(bytes)[2 * i + 1] == lower_hex_digit(bytes[i] % 16));
    }
}

} // verus!

//! Twelve-byte document identifiers and their lowercase hexadecimal text form.

use vstd::prelude::*;

verus! {

/// A document identifier: twelve raw bytes.
#[derive(Debug, Clone, Copy, PartialEq, Eq)]
pub struct ObjectId {
    pub bytes: [u8; 12],
}

/// The lowercase hexadecimal digit for a value below sixteen.
pub open spec fn hex_digit(v: int) -> char {
    if v < 10 {
        (v + 48) as char
    } else {
        (v + 87) as char
    }
}

/// Two lowercase hexadecimal digits per byte, high nibble first.
pub open spec fn hex_encode(bytes: Seq<u8>) -> Seq<char> {
    Seq::new(
        2 * bytes.len(),
        |k: int|
            if k % 2 == 0 {
                hex_digit(bytes[k / 2] as int / 16)
            } else {
                hex_digit(bytes[k / 2] as int % 16)
            },
    )
}

/// Whether a character is a hexadecimal digit of either case.
pub open spec fn is_hex_char(c: char) -> bool {
    ('0' <= c && c <= '9') || ('a' <= c && c <= 'f') || ('A' <= c && c <= 'F')
}

/// The value of a hexadecimal digit of either case.
pub open spec fn hex_value(c: char) -> int {
    if '0' <= c && c <= '9' {
        c as int - 48
    } else if 'a' <= c && c <= 'f' {
        c as int - 87
    } else {
        c as int - 55
    }
}

/// Whether text is the hexadecimal form of a document identifier: exactly
/// twenty-four hexadecimal digits, either case.
pub open spec fn is_object_id_hex(s: Seq<char>) -> bool {
    s.len() == 24 && forall|i: int| 0 <= i < s.len() ==> #[trigger] is_hex_char(s[i])
}

/// The bytes that pairs of hexadecimal digits stand for.
pub open spec fn hex_decode(s: Seq<char>) -> Seq<u8> {
    Seq::new(s.len() / 2, |i: int| (hex_value(s[2 * i]) * 16 + hex_value(s[2 * i + 1])) as u8)
}

/// Decoding the hexadecimal form of any bytes gives the bytes back.
pub proof fn lemma_hex_round_trip(bytes: Seq<u8>)
    ensures
        hex_decode(hex_encode(bytes)) =~= bytes,
        forall|i: int| 0 <= i < hex_encode(bytes).len() ==> #[trigger] is_hex_char(hex_encode(bytes)[i]),
{
    let h = hex_encode(bytes);
    assert forall|i: int| 0 <= i < bytes.len() implies hex_decode(h)[i] == bytes[i] by {
        let b = bytes[i] as int;
        assert(h[2 * i] == hex_digit(b / 16));
        assert((2 * i + 1) % 2 == 1 && (2 * i + 1) / 2 == i);
        assert(h[2 * i + 1] == hex_digit(b % 16));
    }
    assert forall|k: int| 0 <= k < h.len() implies #[trigger] is_hex_char(h[k]) by {
        let b = bytes[k / 2] as int;
    }
}

/// Calls `bson::oid::ObjectId::to_hex` on the identifier's bytes. That
/// function is `hex::encode`, whose table is `0123456789abcdef`, high nibble
/// first: the contract claims exactly that text.
#[verifier::external_body]
fn hex_of_bytes(bytes: [u8; 12]) -> (res: String)
    ensures
        res@ == hex_encode(bytes@),
{
    bson::oid::ObjectId::from_bytes(bytes).to_hex()
}

/// Calls `bson::oid::ObjectId::parse_str`, which `hex::decode`s the text's
/// bytes and accepts exactly twelve of them. The contract claims success on
/// exactly twenty-four hexadecimal digits of either case (any other
/// character, multi-byte ones included, gives a non-digit byte), and that the
/// bytes are the decoded pairs.
#[verifier::external_body]
fn bytes_of_hex(s: &str) -> (res: Option<[u8; 12]>)
    ensures
        res is Some <==> is_object_id_hex(s@),
        res matches Some(b) ==> b@ == hex_decode(s@),
{
    match bson::oid::ObjectId::parse_str(s) {
        Ok(oid) => Some(oid.bytes()),
        Err(_) => None,
    }
}

impl ObjectId {
    /// The twenty-four lowercase hexadecimal digits of the identifier.
    pub fn to_hex(&self) -> (res: String)
        ensures
            res@ == hex_encode(self.bytes@),
            res@.len() == 24,
    {
        hex_of_bytes(self.bytes)
    }

    /// Reads an identifier from its hexadecimal form; `None` unless the text
    /// is exactly twenty-four hexadecimal digits.
    pub fn parse_str(s: &str) -> (res: Option<ObjectId>)
        ensures
            res is Some <==> is_object_id_hex(s@),
            res matches Some(id) ==> id.bytes@ == hex_decode(s@),
    {
        match bytes_of_hex(s) {
            Some(b) => Some(ObjectId { bytes: b }),
            None => None,
        }
    }
}

/// Reading back the hexadecimal form of an identifier gives the identifier:
/// the text is accepted and decodes to the same bytes.
pub proof fn lemma_parse_str_of_to_hex(id: ObjectId)
    ensures
        is_object_id_hex(hex_encode(id.bytes@)),
        hex_decode(hex_encode(id.bytes@)) == id.bytes@,
{
    lemma_hex_round_trip(id.bytes@);
    let h = hex_encode(id.bytes@);
    assert forall|i: int| 0 <= i < h.len() implies #[trigger] is_hex_char(h[i]) by {}
}

} // verus!

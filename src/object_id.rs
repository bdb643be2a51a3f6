use vstd::prelude::*;

verus! {

/// True when `c` is an ASCII hexadecimal digit (either case).
pub open spec fn is_hex_digit(c: char) -> bool {
    ('0' <= c && c <= '9') || ('a' <= c && c <= 'f') || ('A' <= c && c <= 'F')
}

/// Numeric value of a hexadecimal digit.
pub open spec fn hex_value(c: char) -> int {
    if '0' <= c && c <= '9' {
        c as int - '0' as int
    } else if 'a' <= c && c <= 'f' {
        c as int - 'a' as int + 10
    } else {
        c as int - 'A' as int + 10
    }
}

/// Lower-case hexadecimal digit for a value below 16.
pub open spec fn hex_char(n: int) -> char {
    if n < 10 {
        (n + '0' as int) as char
    } else {
        (n - 10 + 'a' as int) as char
    }
}

/// The textual form of an identifier: exactly 24 hexadecimal digits.
pub open spec fn is_object_id_text(s: Seq<char>) -> bool {
    &&& s.len() == 24
    &&& forall|i: int| 0 <= i < s.len() ==> is_hex_digit(#[trigger] s[i])
}

/// The 12 bytes that an identifier text denotes, two digits per byte.
pub open spec fn object_id_bytes(s: Seq<char>) -> Seq<u8> {
    Seq::new(12, |i: int| (hex_value(s[2 * i]) * 16 + hex_value(s[2 * i + 1])) as u8)
}

/// Lower-case hexadecimal text of a byte sequence, two digits per byte.
pub open spec fn hex_text(b: Seq<u8>) -> Seq<char> {
    Seq::new(
        2 * b.len(),
        |i: int|
            if i % 2 == 0 {
                hex_char(b[i / 2] as int / 16)
            } else {
                hex_char(b[i / 2] as int % 16)
            },
    )
}

/// What parsing an identifier text yields.
pub open spec fn parse_id(s: Seq<char>) -> Option<ObjectId> {
    if is_object_id_text(s) {
        Some(ObjectId { bytes: choose|a: [u8; 12]| a@ == object_id_bytes(s) })
    } else {
        None
    }
}

/// A document identifier as the store assigns it: 12 bytes.
#[derive(Clone, Copy, Debug, PartialEq, Eq, Hash)]
pub struct ObjectId {
    pub bytes: [u8; 12],
}

/// Relies on bson's `ObjectId::parse_str`, which hex-decodes the text
/// (either case) and accepts exactly 12 decoded bytes.
#[verifier::external_body]
fn decode_object_id(s: &str) -> (r: Option<[u8; 12]>)
    ensures
        r is Some <==> is_object_id_text(s@),
        r is Some ==> r->Some_0@ == object_id_bytes(s@),
{
    mongodb::bson::oid::ObjectId::parse_str(s).ok().map(|o| o.bytes())
}

/// Relies on bson's `ObjectId::to_hex`: lower-case hex of the 12 bytes.
#[verifier::external_body]
fn encode_object_id(b: [u8; 12]) -> (r: String)
    ensures
        r@ == hex_text(b@),
{
    mongodb::bson::oid::ObjectId::from_bytes(b).to_hex()
}

impl ObjectId {
    /// Parses the 24-digit hexadecimal form; `None` for any other text.
    pub fn parse_str(s: &str) -> (r: Option<ObjectId>)
        ensures
            r == parse_id(s@),
    {
        match decode_object_id(s) {
            Some(bytes) => {
                proof {
                    let a = choose|a: [u8; 12]| a@ == object_id_bytes(s@);
                    assert(a@ == bytes@);
                    assert(a == bytes);
                }
                Some(ObjectId { bytes })
            },
            None => None,
        }
    }

    /// Lower-case 24-digit hexadecimal form.
    pub fn to_hex(&self) -> (r: String)
        ensures
            r@ == hex_text(self.bytes@),
    {
        encode_object_id(self.bytes)
    }
}

} // verus!

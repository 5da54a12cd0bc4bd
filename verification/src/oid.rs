//! Record identifiers: twelve opaque bytes whose canonical text form is 24
//! lower-case hexadecimal digits.

use vstd::prelude::*;

use crate::error::{ErrorKind, ServiceError, ServiceErrorView};

verus! {

/// Number of bytes in an identifier.
pub const ID_BYTES: usize = 12;

/// The sixteen digits of the canonical encoding, by value.
pub open spec fn hex_digits() -> Seq<char> {
    seq!['0', '1', '2', '3', '4', '5', '6', '7', '8', '9', 'a', 'b', 'c', 'd', 'e', 'f']
}

/// The value of a hexadecimal digit of either case; `None` for any other character.
pub open spec fn hex_value(c: char) -> Option<int> {
    match c {
        '0' => Some(0int),
        '1' => Some(1int),
        '2' => Some(2int),
        '3' => Some(3int),
        '4' => Some(4int),
        '5' => Some(5int),
        '6' => Some(6int),
        '7' => Some(7int),
        '8' => Some(8int),
        '9' => Some(9int),
        'a' | 'A' => Some(10int),
        'b' | 'B' => Some(11int),
        'c' | 'C' => Some(12int),
        'd' | 'D' => Some(13int),
        'e' | 'E' => Some(14int),
        'f' | 'F' => Some(15int),
        _ => None,
    }
}

/// The canonical text of `bytes`: two lower-case digits per byte, high nibble first.
pub open spec fn hex_of(bytes: Seq<u8>) -> Seq<char> {
    Seq::new(
        2 * bytes.len(),
        |i: int|
            if i % 2 == 0 {
                hex_digits()[bytes[i / 2] as int / 16]
            } else {
                hex_digits()[bytes[i / 2] as int % 16]
            },
    )
}

/// Whether `text` is the text of an identifier: exactly 24 hexadecimal digits.
pub open spec fn is_hex_id(text: Seq<char>) -> bool {
    &&& text.len() == 2 * ID_BYTES
    &&& forall|i: int| 0 <= i < text.len() ==> (#[trigger] hex_value(text[i])) is Some
}

/// The bytes that a text of hexadecimal digits stands for.
pub open spec fn bytes_of_hex(text: Seq<char>) -> Seq<u8> {
    Seq::new(
        text.len() / 2,
        |i: int| (16 * hex_value(text[2 * i]).unwrap() + hex_value(text[2 * i + 1]).unwrap()) as u8,
    )
}

/// The error for a text that spells no identifier.
pub open spec fn not_an_identifier(text: Seq<char>) -> ServiceErrorView {
    ServiceErrorView { kind: ErrorKind::Identifier, message: rejection_text(text) }
}

/// The identifier of a record.
#[derive(Clone, Copy, Debug, PartialEq, Eq, Hash)]
pub struct ObjectId {
    bytes: [u8; 12],
}

impl View for ObjectId {
    type V = Seq<u8>;

    closed spec fn view(&self) -> Seq<u8> {
        self.bytes@
    }
}

impl DeepView for ObjectId {
    type V = Seq<u8>;

    open spec fn deep_view(&self) -> Seq<u8> {
        self@
    }
}

/// The message with which bson's `ObjectId::parse_str` rejects `text`. It is
/// the same for the same text.
pub uninterp spec fn rejection_text(text: Seq<char>) -> Seq<char>;

/// `ObjectId::to_hex` of bson, on the identifier made of `bytes`: the text
/// holds two lower-case hexadecimal digits for each byte, in order.
#[verifier::external_body]
fn bson_to_hex(bytes: [u8; 12]) -> (text: String)
    ensures
        text@ == hex_of(bytes@),
{
    mongodb::bson::oid::ObjectId::from_bytes(bytes).to_hex()
}

/// `ObjectId::parse_str` of bson: it accepts exactly the texts of 24
/// hexadecimal digits, of either case, and yields the bytes they spell.
#[verifier::external_body]
fn bson_parse_str(text: &str) -> (parsed: Option<[u8; 12]>)
    ensures
        parsed is Some <==> is_hex_id(text@),
        parsed matches Some(bytes) ==> bytes@ == bytes_of_hex(text@),
{
    match mongodb::bson::oid::ObjectId::parse_str(text) {
        Ok(id) => Some(id.bytes()),
        Err(_) => None,
    }
}

/// What the error of bson's `ObjectId::parse_str` on `text` displays; the
/// empty text where there is no error.
#[verifier::external_body]
fn bson_rejection(text: &str) -> (message: String)
    requires
        !is_hex_id(text@),
    ensures
        message@ == rejection_text(text@),
{
    match mongodb::bson::oid::ObjectId::parse_str(text) {
        Ok(_) => String::new(),
        Err(e) => e.to_string(),
    }
}

impl ObjectId {
    pub fn from_bytes(bytes: [u8; 12]) -> (id: ObjectId)
        ensures
            id@ == bytes@,
    {
        ObjectId { bytes }
    }

    pub fn bytes(&self) -> (bytes: [u8; 12])
        ensures
            bytes@ == self@,
    {
        self.bytes
    }

    /// The canonical text of this identifier.
    pub fn to_hex(&self) -> (text: String)
        ensures
            text@ == hex_of(self@),
    {
        bson_to_hex(self.bytes)
    }

    /// Reads an identifier from its text. Every text of 24 hexadecimal digits
    /// is accepted, and nothing else.
    pub fn parse_str(text: &str) -> (parsed: Result<ObjectId, ServiceError>)
        ensures
            parsed is Ok <==> is_hex_id(text@),
            parsed matches Ok(id) ==> id@ == bytes_of_hex(text@),
            parsed matches Err(e) ==> e@ == not_an_identifier(text@),
    {
        match bson_parse_str(text) {
            Some(bytes) => Ok(ObjectId { bytes }),
            None => Err(
                ServiceError { kind: ErrorKind::Identifier, message: bson_rejection(text) },
            ),
        }
    }
}

/// Each of the sixteen canonical digits reads back as its own value.
proof fn lemma_digit_value(n: int)
    requires
        0 <= n < 16,
    ensures
        hex_value(hex_digits()[n]) == Some(n),
{
    if n == 0 {
    } else if n == 1 {
    } else if n == 2 {
    } else if n == 3 {
    } else if n == 4 {
    } else if n == 5 {
    } else if n == 6 {
    } else if n == 7 {
    } else if n == 8 {
    } else if n == 9 {
    } else if n == 10 {
    } else if n == 11 {
    } else if n == 12 {
    } else if n == 13 {
    } else if n == 14 {
    } else {
    }
}

/// Encoding bytes as text and reading the text back yields the bytes.
pub proof fn lemma_hex_round_trip(bytes: Seq<u8>)
    ensures
        hex_of(bytes).len() == 2 * bytes.len(),
        forall|i: int| 0 <= i < hex_of(bytes).len() ==> (#[trigger] hex_value(hex_of(bytes)[i])) is Some,
        bytes_of_hex(hex_of(bytes)) == bytes,
{
    let text = hex_of(bytes);
    assert forall|i: int| 0 <= i < text.len() implies (#[trigger] hex_value(text[i])) is Some by {
        let b = bytes[i / 2] as int;
        lemma_digit_value(b / 16);
        lemma_digit_value(b % 16);
    }
    assert forall|i: int| 0 <= i < bytes.len() implies bytes_of_hex(text)[i] == bytes[i] by {
        let b = bytes[i] as int;
        assert((2 * i) / 2 == i && (2 * i + 1) / 2 == i);
        assert((2 * i) % 2 == 0 && (2 * i + 1) % 2 == 1);
        lemma_digit_value(b / 16);
        lemma_digit_value(b % 16);
        assert(text[2 * i] == hex_digits()[b / 16]);
        assert(text[2 * i + 1] == hex_digits()[b % 16]);
        assert(16 * (b / 16) + b % 16 == b);
    }
    assert(bytes_of_hex(text) =~= bytes);
}

/// An identifier survives the trip through its canonical text: the text of
/// any identifier is accepted by [`ObjectId::parse_str`], which reads the same
/// identifier from it.
pub proof fn lemma_identifier_round_trip(id: ObjectId)
    ensures
        is_hex_id(hex_of(id@)),
        bytes_of_hex(hex_of(id@)) == id@,
{
    lemma_hex_round_trip(id@);
    assert(id@.len() == 12) by {
        vstd::array::array_len_matches_n::<u8, 12>(&id.bytes);
    }
}

} // verus!

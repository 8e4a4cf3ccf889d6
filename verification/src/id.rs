//! Account identifiers: twelve bytes, written as twenty-four hexadecimal
//! digits.

use mongodb::bson::oid::ObjectId;
use vstd::prelude::*;

verus! {

/// Whether `c` is one of `0`-`9`, `a`-`f`, `A`-`F`.
pub open spec fn is_hex_digit(c: char) -> bool {
    ||| '0' <= c <= '9'
    ||| 'a' <= c <= 'f'
    ||| 'A' <= c <= 'F'
}

/// The number, below sixteen, that the hexadecimal digit `c` stands for.
pub open spec fn hex_value(c: char) -> int
    recommends
        is_hex_digit(c),
{
    if '0' <= c <= '9' {
        c as int - '0' as int
    } else if 'a' <= c <= 'f' {
        c as int - 'a' as int + 10
    } else {
        c as int - 'A' as int + 10
    }
}

/// The lower-case hexadecimal digit for `v`.
pub open spec fn hex_digit(v: int) -> char
    recommends
        0 <= v < 16,
{
    if v < 10 {
        ('0' as int + v) as char
    } else {
        ('a' as int + (v - 10)) as char
    }
}

/// Whether `text` names an identifier: exactly twenty-four hexadecimal digits.
pub open spec fn is_id_text(text: Seq<char>) -> bool {
    &&& text.len() == 24
    &&& forall|i: int| 0 <= i < 24 ==> is_hex_digit(#[trigger] text[i])
}

/// The twelve bytes that the digits of `text` spell, two digits to a byte,
/// the high half first.
pub open spec fn id_bytes(text: Seq<char>) -> Seq<u8>
    recommends
        is_id_text(text),
{
    Seq::new(12, |i: int| (16 * hex_value(text[2 * i]) + hex_value(text[2 * i + 1])) as u8)
}

/// The twenty-four lower-case digits that spell `bytes`.
pub open spec fn id_text(bytes: Seq<u8>) -> Seq<char>
    recommends
        bytes.len() == 12,
{
    Seq::new(
        24,
        |i: int|
            if i % 2 == 0 {
                hex_digit(bytes[i / 2] as int / 16)
            } else {
                hex_digit(bytes[i / 2] as int % 16)
            },
    )
}

/// Writing an identifier as text and reading the text back gives the
/// identifier again.
pub proof fn lemma_text_round_trip(bytes: Seq<u8>)
    requires
        bytes.len() == 12,
    ensures
        is_id_text(id_text(bytes)),
        id_bytes(id_text(bytes)) == bytes,
{
    let text = id_text(bytes);
    assert(id_bytes(text) =~= bytes);
}

/// The error of `ObjectId::parse_str` in the bson crate. It is carried, never
/// looked into.
#[verifier::external_type_specification]
#[verifier::external_body]
pub struct ExObjectIdError(mongodb::bson::oid::Error);

/// Calls `ObjectId::parse_str` of the bson crate, as mongodb hands it on, and
/// gives the identifier it made as its bytes.
///
/// Trusted, not proved: that the call succeeds on exactly the texts of
/// twenty-four hexadecimal digits, of either case, and that byte `i` of the
/// identifier is sixteen times the value of digit `2 * i` plus the value of
/// digit `2 * i + 1`.
#[verifier::external_body]
fn parse_object_id(text: &str) -> (parsed: Result<[u8; 12], mongodb::bson::oid::Error>)
    ensures
        parsed.is_ok() <==> is_id_text(text@),
        parsed matches Ok(bytes) ==> bytes@ == id_bytes(text@),
{
    match ObjectId::parse_str(text) {
        Ok(id) => Ok(id.bytes()),
        Err(error) => Err(error),
    }
}

/// Calls `ObjectId::to_hex` of the bson crate on the identifier with these
/// bytes.
///
/// Trusted, not proved: that the text has two lower-case hexadecimal digits
/// for each byte, in order, the high half of a byte first.
#[verifier::external_body]
fn object_id_hex(bytes: [u8; 12]) -> (text: String)
    ensures
        text@ == id_text(bytes@),
{
    ObjectId::from_bytes(bytes).to_hex()
}

/// The identifier under which the store keeps an account.
#[derive(Clone, Copy, Debug, PartialEq, Eq, Hash)]
pub struct AccountId {
    pub bytes: [u8; 12],
}

impl View for AccountId {
    type V = Seq<u8>;

    open spec fn view(&self) -> Seq<u8> {
        self.bytes@
    }
}

impl AccountId {
    /// The identifier with these bytes.
    pub fn from_bytes(bytes: [u8; 12]) -> (id: AccountId)
        ensures
            id@ == bytes@,
    {
        AccountId { bytes }
    }

    /// The bytes of the identifier.
    pub fn bytes(&self) -> (bytes: [u8; 12])
        ensures
            bytes@ == self@,
    {
        self.bytes
    }

    /// Reads an identifier from the text that names it. Text that is not
    /// twenty-four hexadecimal digits names none.
    pub fn parse(text: &str) -> (id: Option<AccountId>)
        ensures
            id.is_some() <==> is_id_text(text@),
            id matches Some(found) ==> found@ == id_bytes(text@),
    {
        match parse_object_id(text) {
            Ok(bytes) => Some(AccountId { bytes }),
            Err(_) => None,
        }
    }

    /// The text that names the identifier, in lower-case digits.
    pub fn to_hex(&self) -> (text: String)
        ensures
            text@ == id_text(self@),
            is_id_text(text@),
            id_bytes(text@) == self@,
    {
        proof {
            lemma_text_round_trip(self@);
        }
        object_id_hex(self.bytes)
    }
}

} // verus!

use vstd::prelude::*;

verus! {

/// A hexadecimal digit, in either case.
pub open spec fn is_hex_digit(c: char) -> bool {
    ('0' <= c && c <= '9') || ('a' <= c && c <= 'f') || ('A' <= c && c <= 'F')
}

/// The number that a hexadecimal digit stands for.
pub open spec fn hex_value(c: char) -> int {
    if '0' <= c && c <= '9' {
        c as int - '0' as int
    } else if 'a' <= c && c <= 'f' {
        c as int - 'a' as int + 10
    } else {
        c as int - 'A' as int + 10
    }
}

/// The identifier format: exactly twenty-four hexadecimal digits.
pub open spec fn is_identifier_text(s: Seq<char>) -> bool {
    &&& s.len() == 24
    &&& forall|i: int| 0 <= i < 24 ==> is_hex_digit(#[trigger] s[i])
}

/// The twelve bytes that a well-formed identifier text spells, two digits
/// to the byte, the high one first.
pub open spec fn identifier_bytes(s: Seq<char>) -> Seq<u8> {
    Seq::new(12, |i: int| (16 * hex_value(s[2 * i]) + hex_value(s[2 * i + 1])) as u8)
}

/// `bson::oid::ObjectId::parse_str`, with the parsed identifier handed back as
/// its twelve bytes. The driver decodes the text as hexadecimal, two digits to
/// the byte, and accepts it exactly when that yields twelve bytes: when the
/// text is twenty-four hexadecimal digits of either case.
#[verifier::external_body]
pub(crate) fn parse_str(s: &str) -> (id: Option<[u8; 12]>)
    ensures
        id is Some <==> is_identifier_text(s@),
        id is Some ==> id->0@ == identifier_bytes(s@),
{
    match mongodb::bson::oid::ObjectId::parse_str(s) {
        Ok(oid) => Some(oid.bytes()),
        Err(_) => None,
    }
}

} // verus!

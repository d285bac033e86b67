//! Identifiers. Every id of the scheduler is a UUID, held here as the
//! `u128` whose big-endian bytes are the UUID's bytes.

use vstd::prelude::*;

verus! {

/// `16` to the power `n`.
pub open spec fn pow16(n: nat) -> int
    decreases n,
{
    if n == 0 {
        1
    } else {
        16 * pow16((n - 1) as nat)
    }
}

/// The `k`-th hexadecimal digit of `x`, counting from the most significant
/// of its 32 digits.
pub open spec fn nibble(x: u128, k: int) -> int {
    (x as int / pow16((31 - k) as nat)) % 16
}

/// The lower-case character of a hexadecimal digit.
pub open spec fn hex_char(v: int) -> char {
    if v < 10 {
        (v + 48) as char
    } else {
        (v + 87) as char
    }
}

/// Which of the 32 digits stands at position `i` of the hyphenated form.
pub open spec fn digit_at(i: int) -> int {
    i - (if i > 8 { 1int } else { 0 }) - (if i > 13 { 1int } else { 0 }) - (if i > 18 { 1int } else { 0 })
        - (if i > 23 { 1int } else { 0 })
}

/// The hyphenated lower-case form of a UUID, such as
/// `67e55044-10b1-426f-9247-bb680e5fe0c8`.
pub open spec fn hyphenated_text(x: u128) -> Seq<char> {
    Seq::new(
        36,
        |i: int|
            if i == 8 || i == 13 || i == 18 || i == 23 {
                '-'
            } else {
                hex_char(nibble(x, digit_at(i)))
            },
    )
}

/// What `uuid::Uuid::new_v5` derives from a namespace and a name (a SHA-1
/// based derivation).
pub uninterp spec fn uuid_v5_of(namespace: u128, name: Seq<u8>) -> u128;

/// What `uuid::Uuid::parse_str` makes of a text: the UUID that it denotes,
/// or the text (the `Display`) of the error that the parser reports.
pub uninterp spec fn uuid_parse_outcome(text: Seq<char>) -> Result<u128, Seq<char>>;

/// `uuid::Uuid::to_string` (its `Display`): the hyphenated lower-case form,
/// which `uuid::Uuid::parse_str` reads back as the same UUID.
#[verifier::external_body]
pub(crate) fn uuid_string(id: u128) -> (s: String)
    ensures
        s@ == hyphenated_text(id),
        uuid_parse_outcome(s@) is Ok && uuid_parse_outcome(s@)->Ok_0 == id,
{
    uuid::Uuid::from_u128(id).to_string()
}

/// `uuid::Uuid::new_v5`: the name-based UUID of `name` in `namespace`.
#[verifier::external_body]
pub(crate) fn uuid_v5(namespace: u128, name: &[u8]) -> (id: u128)
    ensures
        id == uuid_v5_of(namespace, name@),
{
    uuid::Uuid::new_v5(&uuid::Uuid::from_u128(namespace), name).as_u128()
}

/// A parse result, with the error's text taken by its view.
pub open spec fn parse_result_view(r: Result<u128, String>) -> Result<u128, Seq<char>> {
    match r {
        Ok(id) => Ok(id),
        Err(m) => Err(m@),
    }
}

/// `uuid::Uuid::parse_str`: the UUID that `text` denotes, or the text of the
/// parser's error. The hyphenated lower-case form of a UUID denotes that UUID.
#[verifier::external_body]
pub(crate) fn uuid_parse(text: &str) -> (r: Result<u128, String>)
    ensures
        parse_result_view(r) == uuid_parse_outcome(text@),
        forall|x: u128| text@ == #[trigger] hyphenated_text(x) ==> (r is Ok && r->Ok_0 == x),
{
    match uuid::Uuid::parse_str(text) {
        Ok(u) => Ok(u.as_u128()),
        Err(e) => Err(e.to_string()),
    }
}

/// `uuid::Uuid::new_v4`: a fresh random UUID. Nothing is stated of its value.
#[verifier::external_body]
pub(crate) fn uuid_new_v4() -> (id: u128) {
    uuid::Uuid::new_v4().as_u128()
}

} // verus!

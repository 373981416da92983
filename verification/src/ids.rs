//! Identifiers of users, pages, sessions and categories: 128-bit UUIDs,
//! written in their hyphenated lowercase form and read back with the
//! `uuid` crate's parser.
use vstd::prelude::*;
use vstd::arithmetic::power::pow;

verus! {

#[verifier::external_type_specification]
#[verifier::external_body]
pub struct ExUuidError(uuid::Error);

/// Lowercase hexadecimal digit for `n` in `0..16`.
pub open spec fn hex_digit(n: int) -> char {
    if n < 10 {
        (48 + n) as char
    } else {
        (87 + n) as char
    }
}

/// The `k`-th hexadecimal digit of `id`, counting from the most significant (`k` in `0..32`).
pub open spec fn nibble(id: u128, k: int) -> int {
    (id as int / pow(16, (31 - k) as nat)) % 16
}

/// Position of a hyphen in the hyphenated form.
pub open spec fn is_hyphen_position(p: int) -> bool {
    p == 8 || p == 13 || p == 18 || p == 23
}

/// Which hexadecimal digit stands at position `p` of the hyphenated form.
pub open spec fn digit_at(p: int) -> int {
    p - (if p > 8 { 1int } else { 0 }) - (if p > 13 { 1int } else { 0 }) - (if p > 18 {
        1int
    } else {
        0
    }) - (if p > 23 { 1int } else { 0 })
}

/// Hyphenated lowercase form of a UUID, such as
/// `67e55044-10b1-426f-9247-bb680e5fe0c8`: 32 hexadecimal digits, most
/// significant first, in groups of 8, 4, 4, 4 and 12.
pub open spec fn uuid_text(id: u128) -> Seq<char> {
    Seq::new(
        36,
        |p: int|
            if is_hyphen_position(p) {
                '-'
            } else {
                hex_digit(nibble(id, digit_at(p)))
            },
    )
}

/// What `uuid::Uuid::parse_str` makes of a string: the UUID's 128-bit value,
/// or `None` where it reports an error.
pub uninterp spec fn uuid_parse(s: Seq<char>) -> Option<u128>;

/// Writes a UUID the way `uuid::Uuid`'s `Display` does.
///
/// Trusted: `Display for uuid::Uuid` formats the hyphenated lowercase form
/// (`LowerHex`, `format_hyphenated` in the crate's `fmt.rs`), and
/// `Uuid::from_u128` takes the value's bytes most significant first.
#[verifier::external_body]
pub fn uuid_to_string(id: u128) -> (r: String)
    ensures
        r@ == uuid_text(id),
{
    uuid::Uuid::from_u128(id).to_string()
}

/// Parses a UUID with `uuid::Uuid::parse_str`.
///
/// Trusted: the result is `uuid_parse` of the input, and the hyphenated
/// form that `uuid_to_string` writes parses back to its own value (the
/// crate documents that every format it generates is accepted, and its
/// `parse_hyphenated` reads the digits most significant first).
#[verifier::external_body]
pub fn parse_uuid(s: &str) -> (r: Result<u128, uuid::Error>)
    ensures
        r is Ok <==> uuid_parse(s@) is Some,
        r matches Ok(v) ==> uuid_parse(s@) == Some(v),
        r is Ok <== exists|id: u128| #[trigger] uuid_text(id) == s@,
        r matches Ok(v) ==> forall|id: u128| #[trigger] uuid_text(id) == s@ ==> v == id,
{
    uuid::Uuid::parse_str(s).map(|u| u.as_u128())
}

/// The hyphenated form is made of lowercase hexadecimal digits and hyphens,
/// so it holds no whitespace and no comma.
pub proof fn lemma_uuid_text_chars(id: u128)
    ensures
        uuid_text(id).len() == 36,
        forall|p: int|
            0 <= p < 36 ==> {
                let c = #[trigger] uuid_text(id)[p];
                c == '-' || ('0' <= c <= '9') || ('a' <= c <= 'f')
            },
{
    assert forall|p: int| 0 <= p < 36 implies {
        let c = #[trigger] uuid_text(id)[p];
        c == '-' || ('0' <= c <= '9') || ('a' <= c <= 'f')
    } by {
        if !is_hyphen_position(p) {
            let n = nibble(id, digit_at(p));
            assert(0 <= n < 16);
        }
    }
}

} // verus!

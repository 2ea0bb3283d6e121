//! Identifiers: entity ids are the 64-bit form of an engine entity, synced
//! ids are 128-bit UUIDs, written on the wire in their hyphenated text form.
use vstd::prelude::*;
use uuid::Uuid;

verus! {

/// The lower-case hexadecimal digit of `n` (`0 <= n < 16`).
pub open spec fn hex_digit(n: int) -> char {
    if n < 10 {
        ((n + 48) as u32) as char
    } else {
        ((n + 87) as u32) as char
    }
}

/// The `i`-th hexadecimal digit of `v`, counted from the most significant one
/// (`0 <= i < 32`).
pub open spec fn nibble(v: u128, i: int) -> int {
    (v as int / vstd::arithmetic::power2::pow2((4 * (31 - i)) as nat) as int) % 16
}

/// Which of the 32 digits stands at position `k` of the hyphenated text.
pub open spec fn digit_index(k: int) -> int {
    if k < 8 {
        k
    } else if k < 13 {
        k - 1
    } else if k < 18 {
        k - 2
    } else if k < 23 {
        k - 3
    } else {
        k - 4
    }
}

/// Positions of the four hyphens in the hyphenated text.
pub open spec fn is_hyphen_position(k: int) -> bool {
    k == 8 || k == 13 || k == 18 || k == 23
}

/// The hyphenated lower-case text of a UUID: 32 hexadecimal digits, most
/// significant first, grouped 8-4-4-4-12 by hyphens.
pub open spec fn uuid_text(v: u128) -> Seq<char> {
    Seq::new(36, |k: int| if is_hyphen_position(k) { '-' } else { hex_digit(nibble(v, digit_index(k))) })
}

/// What `uuid::Uuid::parse_str` reads from a text, as a 128-bit value.
pub uninterp spec fn uuid_parsed(s: Seq<char>) -> Option<u128>;

/// A version-4 UUID as a 128-bit value, most significant byte first: its
/// version nibble (bits 76 to 79) is 4 and its variant (bits 62 and 63) is
/// the RFC 4122 one, `0b10`.
pub open spec fn is_random_uuid(v: u128) -> bool {
    (v >> 76u128) & 0xfu128 == 4u128 && (v >> 62u128) & 0x3u128 == 2u128
}

/// A fresh random UUID, from `uuid::Uuid::new_v4`, which sets the version and
/// variant bits of a random value. The other bits come from a random source
/// and are left unsaid.
#[verifier::external_body]
pub(crate) fn new_uuid() -> (r: u128)
    ensures
        is_random_uuid(r),
{
    Uuid::new_v4().as_u128()
}

/// The hyphenated text of a UUID, from `uuid::Uuid::from_u128` and its
/// `Display`, which the crate documents as the lower-case hyphenated form.
#[verifier::external_body]
pub(crate) fn uuid_to_text(v: u128) -> (s: String)
    ensures
        s@ == uuid_text(v),
{
    Uuid::from_u128(v).to_string()
}

/// `uuid::Uuid::parse_str`: the value the text stands for. Its result is
/// named; the crate documents that it reads back every format it writes, so
/// the hyphenated text of `v` is read as `v`. Which other texts it accepts is
/// left unsaid.
#[verifier::external_body]
pub(crate) fn parse_uuid(s: &str) -> (r: Option<u128>)
    ensures
        r == uuid_parsed(s@),
        forall|v: u128| s@ == uuid_text(v) ==> r == Some(v),
{
    match Uuid::parse_str(s) {
        Ok(u) => Some(u.as_u128()),
        Err(_) => None,
    }
}

/// Every character of a UUID's hyphenated text is a digit, a letter from
/// `a` to `f`, or a hyphen; in particular none is a slash.
pub proof fn lemma_uuid_text_chars(v: u128)
    ensures
        uuid_text(v).len() == 36,
        forall|k: int| 0 <= k < 36 ==> {
            let c = #[trigger] uuid_text(v)[k];
            (is_hyphen_position(k) && c == '-') || (!is_hyphen_position(k) && (('0' <= c && c <= '9') || ('a' <= c && c <= 'f')))
        },
{
    assert forall|k: int| 0 <= k < 36 implies {
        let c = #[trigger] uuid_text(v)[k];
        (is_hyphen_position(k) && c == '-') || (!is_hyphen_position(k) && (('0' <= c && c <= '9') || ('a' <= c && c <= 'f')))
    } by {
        if !is_hyphen_position(k) {
            let n = nibble(v, digit_index(k));
            assert(0 <= n < 16);
        }
    }
}

} // verus!

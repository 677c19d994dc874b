//! Record identifiers: 128-bit values, shown and read in the hyphenated
//! hexadecimal UUID form.

use vstd::prelude::*;
use vstd::arithmetic::power2::pow2;

verus! {

/// The lowercase hexadecimal digit for `n` (0..=15).
pub open spec fn hex_digit(n: int) -> char {
    if n < 10 {
        (n + 48) as char
    } else {
        (n - 10 + 97) as char
    }
}

/// The `k`-th hexadecimal digit of `id` (0..32), most significant first.
pub open spec fn nibble(id: u128, k: int) -> int {
    ((id as nat) / pow2((4 * (31 - k)) as nat)) as int % 16
}

/// Whether position `i` of the hyphenated form holds a hyphen.
pub open spec fn is_hyphen_position(i: int) -> bool {
    i == 8 || i == 13 || i == 18 || i == 23
}

/// How many hyphens stand before position `i` of the hyphenated form.
pub open spec fn hyphens_before(i: int) -> int {
    if i < 8 {
        0
    } else if i < 13 {
        1
    } else if i < 18 {
        2
    } else if i < 23 {
        3
    } else {
        4
    }
}

/// The hyphenated lowercase form `xxxxxxxx-xxxx-xxxx-xxxx-xxxxxxxxxxxx` of an id.
pub open spec fn uuid_hyphenated(id: u128) -> Seq<char> {
    Seq::new(
        36,
        |i: int|
            if is_hyphen_position(i) {
                '-'
            } else {
                hex_digit(nibble(id, i - hyphens_before(i)))
            },
    )
}

/// What `uuid::Uuid::parse_str` reads from a text, as a 128-bit value (`None` when it rejects it).
pub uninterp spec fn uuid_parse_result(s: Seq<char>) -> Option<u128>;

/// `uuid::Uuid::parse_str`, read back as the id's 128-bit value
/// (`Uuid::as_u128`). The result is named, not described: the crate accepts
/// the simple, hyphenated, braced and URN forms.
#[verifier::external_body]
pub fn parse_uuid(s: &str) -> (r: Option<u128>)
    ensures
        r == uuid_parse_result(s@),
{
    match uuid::Uuid::parse_str(s) {
        Ok(u) => Some(u.as_u128()),
        Err(_) => None,
    }
}

/// `Display` of `uuid::Uuid::from_u128(id)`: the crate shows an id in the
/// hyphenated lowercase form, and its `parse_str` reads every form it
/// produces back to the same id.
#[verifier::external_body]
pub fn uuid_text(id: u128) -> (s: String)
    ensures
        s@ == uuid_hyphenated(id),
        uuid_parse_result(s@) == Some(id),
{
    uuid::Uuid::from_u128(id).to_string()
}

/// The hyphenated form holds only hexadecimal digits and hyphens; in
/// particular it holds no `:`.
pub proof fn lemma_uuid_text_has_no_colon(id: u128)
    ensures
        uuid_hyphenated(id).len() == 36,
        forall|i: int| 0 <= i < 36 ==> #[trigger] uuid_hyphenated(id)[i] != ':',
{
    assert forall|i: int| 0 <= i < 36 implies #[trigger] uuid_hyphenated(id)[i] != ':' by {
        if !is_hyphen_position(i) {
            let k = i - hyphens_before(i);
            let q = ((id as nat) / pow2((4 * (31 - k)) as nat)) as int;
            assert(nibble(id, k) == q % 16);
            assert(0 <= q % 16 < 16) by (nonlinear_arith);
        }
    }
}

} // verus!

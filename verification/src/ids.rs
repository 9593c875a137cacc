//! Fresh identifiers.

use vstd::prelude::*;

use crate::text::text;

verus! {

pub open spec fn is_hex_digit(c: char) -> bool {
    '0' <= c <= '9' || 'a' <= c <= 'f'
}

/// What the text of a fresh identifier looks like: 32 small hexadecimal digits.
pub open spec fn is_fresh(s: Seq<char>) -> bool {
    s.len() == 32 && forall|i: int| 0 <= i < s.len() ==> is_hex_digit(#[trigger] s[i])
}

/// `uuid::Uuid::now_v7`, written by `simple`: 32 small hexadecimal digits. Which
/// ones depends on time and chance.
#[verifier::external_body]
pub(crate) fn fresh_id() -> (r: String)
    ensures
        is_fresh(r@),
{
    uuid::Uuid::now_v7().simple().to_string()
}

/// The identifier with the letter of its kind in front.
pub open spec fn tagged(tag: Seq<char>, fresh: Seq<char>) -> Seq<char> {
    tag + fresh
}

pub fn tag_id(tag: &str, fresh: &str) -> (r: String)
    ensures
        r@ == tagged(tag@, fresh@),
{
    text(tag).concat(fresh)
}

} // verus!

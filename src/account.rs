use vstd::prelude::*;

verus! {

/// Whether `c` is a lower-case ASCII letter or an ASCII digit.
pub open spec fn is_id_alnum(c: char) -> bool {
    ('a' <= c && c <= 'z') || ('0' <= c && c <= '9')
}

/// Whether `c` separates the parts of an account identifier.
pub open spec fn is_id_separator(c: char) -> bool {
    c == '-' || c == '_' || c == '.'
}

/// A well-formed account identifier: 2 to 64 characters, each a lower-case
/// letter, a digit or a separator (`-`, `_`, `.`), neither starting nor ending
/// with a separator, and with no two separators in a row.
pub open spec fn valid_account_id(s: Seq<char>) -> bool {
    &&& 2 <= s.len() <= 64
    &&& forall|i: int| 0 <= i < s.len() ==> is_id_alnum(#[trigger] s[i]) || is_id_separator(s[i])
    &&& !is_id_separator(s[0])
    &&& !is_id_separator(s[s.len() - 1])
    &&& forall|i: int| 0 <= i < s.len() - 1 ==> !(is_id_separator(#[trigger] s[i]) && is_id_separator(s[i + 1]))
}

/// Relies on near_sdk::env::is_valid_account_id, which checks the identifier's
/// bytes against the account naming rules: between 2 and 64 bytes, only
/// `a-z`, `0-9`, `-`, `_` and `.`, no separator first, last or next to another.
/// Any byte outside ASCII is refused, so the rule reads the same on characters.
#[verifier::external_body]
pub(crate) fn is_valid_account_id(account_id: &String) -> (r: bool)
    ensures
        r == valid_account_id(account_id@),
{
    near_sdk::env::is_valid_account_id(account_id.as_bytes())
}

} // verus!

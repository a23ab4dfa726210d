//! Well-formedness of account identifiers.
//!
//! An account identifier is 2 to 64 characters of lowercase letters and
//! digits, with single `-`, `_` or `.` separators strictly between
//! alphanumeric characters. The executable check is verified against the
//! spec-level predicate [`valid_account_id`] character by character.

use vstd::prelude::*;

verus! {

/// The shortest account identifier accepted by the ledger.
pub const MIN_ACCOUNT_ID_LEN: usize = 2;

/// The longest account identifier accepted by the ledger.
pub const MAX_ACCOUNT_ID_LEN: usize = 64;

/// A lowercase letter or a decimal digit.
pub open spec fn is_account_alnum(c: char) -> bool {
    ('a' <= c && c <= 'z') || ('0' <= c && c <= '9')
}

/// A separator character: allowed only singly, between alphanumerics.
pub open spec fn is_account_separator(c: char) -> bool {
    c == '-' || c == '_' || c == '.'
}

/// What makes a sequence of characters a well-formed account identifier.
pub open spec fn valid_account_id(s: Seq<char>) -> bool {
    &&& MIN_ACCOUNT_ID_LEN <= s.len() <= MAX_ACCOUNT_ID_LEN
    &&& forall|i: int|
        0 <= i < s.len() ==> is_account_alnum(#[trigger] s[i]) || is_account_separator(s[i])
    &&& forall|i: int|
        0 < i < s.len() ==> !(is_account_separator(#[trigger] s[i]) && is_account_separator(
            s[i - 1],
        ))
    &&& !is_account_separator(s[0])
    &&& !is_account_separator(s[s.len() - 1])
}

/// Whether one character may stand in an account identifier, and whether it
/// is a separator there.
fn classify_char(c: char) -> (r: Option<bool>)
    ensures
        r is Some <==> is_account_alnum(c) || is_account_separator(c),
        r is Some ==> (r->0 <==> is_account_separator(c)),
{
    let u = c as u32;
    if (u >= 'a' as u32 && u <= 'z' as u32) || (u >= '0' as u32 && u <= '9' as u32) {
        Some(false)
    } else if u == '-' as u32 || u == '_' as u32 || u == '.' as u32 {
        Some(true)
    } else {
        None
    }
}

/// Decides [`valid_account_id`] for an identifier held as a string.
pub fn is_valid_account_id(account_id: &str) -> (r: bool)
    ensures
        r == valid_account_id(account_id@),
{
    let n = account_id.unicode_len();
    if n < MIN_ACCOUNT_ID_LEN || n > MAX_ACCOUNT_ID_LEN {
        return false;
    }
    // An identifier may neither begin with a separator nor hold two in a row,
    // so it stays valid exactly while the previous character, taken as a
    // separator at the start, never meets another separator.
    let mut last_char_is_separator = true;
    let mut i: usize = 0;
    while i < n
        invariant
            n == account_id@.len(),
            MIN_ACCOUNT_ID_LEN <= n <= MAX_ACCOUNT_ID_LEN,
            0 <= i <= n,
            forall|j: int|
                0 <= j < i ==> is_account_alnum(#[trigger] account_id@[j]) || is_account_separator(
                    account_id@[j],
                ),
            forall|j: int|
                0 < j < i ==> !(is_account_separator(#[trigger] account_id@[j])
                    && is_account_separator(account_id@[j - 1])),
            i == 0 ==> last_char_is_separator,
            i > 0 ==> last_char_is_separator == is_account_separator(account_id@[i - 1]),
            i > 0 ==> !is_account_separator(account_id@[0]),
        decreases n - i,
    {
        let c = account_id.get_char(i);
        match classify_char(c) {
            None => {
                return false;
            },
            Some(current_char_is_separator) => {
                if current_char_is_separator && last_char_is_separator {
                    return false;
                }
                last_char_is_separator = current_char_is_separator;
            },
        }
        i += 1;
    }
    !last_char_is_separator
}

/// Whether the signer of the current transaction is the account the contract
/// itself is deployed to: the original administrator gate.
pub fn only_admin(current_account_id: &String, signer_account_id: &String) -> (r: bool)
    ensures
        r == (current_account_id@ == signer_account_id@),
{
    *current_account_id == *signer_account_id
}

} // verus!

//! Identifier validation and normalization.
//!
//! A normalized identifier is lowercase, 1 to 200 characters long, built
//! from `[a-z0-9._-]` with at most one `:` separator, which may be neither
//! the first nor the last character. Raw input is trimmed and lowercased
//! before validation, so identifiers are case- and edge-whitespace-
//! insensitive at input but stored normalized.

use vstd::prelude::*;
use vstd::string::*;

use crate::registry::RegistryError;

verus! {

/// A character the identifier alphabet accepts unconditionally.
pub open spec fn is_id_char(c: char) -> bool {
    ||| 97 <= c as u32 && c as u32 <= 122  // 'a'..='z'
    ||| 48 <= c as u32 && c as u32 <= 57  // '0'..='9'
    ||| c == '.'
    ||| c == '_'
    ||| c == '-'
}

/// A character that may appear somewhere in an identifier: the alphabet
/// plus the `:` separator, whose position is constrained by `valid_id`.
pub open spec fn is_id_or_sep(c: char) -> bool {
    is_id_char(c) || c == ':'
}

/// The shape every stored identifier has: 1 to 200 characters, each from
/// the identifier alphabet, with at most one `:`, not at either edge.
pub open spec fn valid_id(s: Seq<char>) -> bool {
    &&& 1 <= s.len() <= 200
    &&& forall|i: int| 0 <= i < s.len() ==> is_id_or_sep(#[trigger] s[i])
    &&& s[0] != ':'
    &&& s[s.len() - 1] != ':'
    &&& forall|i: int, j: int|
        #![trigger s[i], s[j]]
        0 <= i < j < s.len() ==> !(s[i] == ':' && s[j] == ':')
}

/// What `str::trim` returns for a given character sequence.
pub uninterp spec fn trimmed_of(s: Seq<char>) -> Seq<char>;

/// What `str::to_lowercase` returns for a given character sequence.
pub uninterp spec fn lower_of(s: Seq<char>) -> Seq<char>;

/// The sequence an identifier is validated against: the raw input trimmed,
/// then lowercased.
pub open spec fn normalized_of(raw: Seq<char>) -> Seq<char> {
    lower_of(trimmed_of(raw))
}

/// Relies on str::trim: it removes leading and trailing whitespace and
/// nothing else, so a string whose characters all lie in the identifier
/// alphabet (which contains no whitespace) comes back unchanged.
#[verifier::external_body]
fn trim_str(s: &str) -> (r: &str)
    ensures
        r@ == trimmed_of(s@),
        (forall|i: int| 0 <= i < s@.len() ==> is_id_or_sep(#[trigger] s@[i])) ==> r@ == s@,
{
    s.trim()
}

/// Relies on str::to_lowercase: the result depends on the characters
/// alone, and characters of the identifier alphabet are already lowercase
/// (or caseless), so such a string comes back unchanged.
#[verifier::external_body]
fn lowercase_str(s: &str) -> (r: String)
    ensures
        r@ == lower_of(s@),
        (forall|i: int| 0 <= i < s@.len() ==> is_id_or_sep(#[trigger] s@[i])) ==> r@ == s@,
{
    s.to_lowercase()
}

/// A sequence outside the 1..=200 length window can never be a valid
/// identifier, whatever its characters.
pub proof fn lemma_length_bounds_invalid(s: Seq<char>)
    ensures
        s.len() < 1 || s.len() > 200 ==> !valid_id(s),
{
}

/// Validate and normalize a raw identifier.
///
/// The input is trimmed and lowercased; the result is `Ok` exactly when
/// that normalized sequence is a valid identifier, and carries it
/// verbatim. An input that is already a valid identifier is returned
/// unchanged, so normalization is idempotent on its own output.
pub fn normalize_id(raw: &str) -> (r: Result<String, RegistryError>)
    ensures
        match r {
            Ok(s) => s@ == normalized_of(raw@) && valid_id(normalized_of(raw@)),
            Err(e) => !valid_id(normalized_of(raw@)) && e is InvalidId,
        },
        valid_id(raw@) ==> (r matches Ok(s) && s@ == raw@),
{
    let t = trim_str(raw);
    let s = lowercase_str(t);
    proof {
        if valid_id(raw@) {
            assert(forall|k: int| 0 <= k < raw@.len() ==> is_id_or_sep(#[trigger] raw@[k]));
            assert(t@ == raw@);
            assert(s@ == raw@);
        }
    }
    let n = s.as_str().unicode_len();
    if n < 1 || n > 200 {
        return Err(RegistryError::InvalidId(invalid_id_message(raw)));
    }
    let mut seen_colon = false;
    let mut i: usize = 0;
    while i < n
        invariant
            s@ == normalized_of(raw@),
            valid_id(raw@) ==> s@ == raw@,
            n == s@.len(),
            1 <= n <= 200,
            0 <= i <= n,
            forall|k: int| 0 <= k < i ==> is_id_or_sep(#[trigger] s@[k]),
            forall|k: int| 0 <= k < i && #[trigger] s@[k] == ':' ==> 0 < k < n - 1,
            seen_colon <==> exists|k: int| 0 <= k < i && #[trigger] s@[k] == ':',
            forall|k: int, l: int|
                #![trigger s@[k], s@[l]]
                0 <= k < l < i ==> !(s@[k] == ':' && s@[l] == ':'),
        decreases n - i,
    {
        let c = s.as_str().get_char(i);
        let u = c as u32;
        if (97 <= u && u <= 122) || (48 <= u && u <= 57) || c == '.' || c == '_' || c == '-' {
            // plain identifier character
        } else if c == ':' && !seen_colon && i > 0 && i + 1 < n {
            seen_colon = true;
        } else {
            proof {
                if c == ':' {
                    if seen_colon {
                        let k = choose|k: int| 0 <= k < i && s@[k] == ':';
                        assert(s@[k] == ':' && s@[i as int] == ':');
                    }
                }
                assert(!valid_id(s@));
            }
            return Err(RegistryError::InvalidId(invalid_id_message(raw)));
        }
        i += 1;
    }
    Ok(s)
}

/// Diagnostic text for a rejected identifier; the exact wording is not
/// part of any contract.
fn invalid_id_message(raw: &str) -> String {
    let mut m = String::from_str("invalid identifier: ");
    m.append(raw);
    m
}

} // verus!

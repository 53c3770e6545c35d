use vstd::prelude::*;

use crate::text::join3;

verus! {

/// `s` with every occurrence of the character `from` replaced by `to`.
pub open spec fn replace_char(s: Seq<char>, from: char, to: Seq<char>) -> Seq<char>
    decreases s.len(),
{
    if s.len() == 0 {
        Seq::empty()
    } else {
        replace_char(s.drop_last(), from, to) + if s.last() == from {
            to
        } else {
            seq![s.last()]
        }
    }
}

/// Relies on `str::replace` with a character pattern: every occurrence of
/// the character, scanning left to right, is replaced by the given text.
#[verifier::external_body]
pub(crate) fn replace(s: &str, from: char, to: &str) -> (r: String)
    ensures
        r@ == replace_char(s@, from, to@),
{
    s.replace(from, to)
}

pub open spec fn sanitize_name_spec(prefix: Seq<char>, name: Seq<char>) -> Seq<char> {
    replace_char(prefix + "-"@ + name, '_', "-"@)
}

/// `prefix-name` with underscores turned into dashes, as resource names
/// require.
pub fn sanitize_name(prefix: &str, name: &str) -> (r: String)
    ensures
        r@ == sanitize_name_spec(prefix@, name@),
{
    let joined = join3(prefix, "-", name);
    replace(joined.as_str(), '_', "-")
}

pub open spec fn managed_db_name_spec(max_size: nat, prefix: Seq<char>, name: Seq<char>) -> Seq<
    char,
> {
    let limit = max_size - prefix.len();
    let full = prefix + replace_char(replace_char(name, '_', ""@), '-', ""@);
    if full.len() > limit {
        full.subrange(0, limit)
    } else {
        full
    }
}

/// A managed database name: the prefix followed by the name without
/// underscores and dashes, cut to `max_size` less the prefix's length.
pub fn managed_db_name_sanitizer(max_size: usize, prefix: &str, name: &str) -> (r: String)
    requires
        prefix@.len() <= max_size,
    ensures
        r@ == managed_db_name_spec(max_size as nat, prefix@, name@),
{
    let limit = max_size - prefix.unicode_len();
    let no_underscore = replace(name, '_', "");
    let cleaned = replace(no_underscore.as_str(), '-', "");
    let mut full = String::from_str(prefix);
    full.append(cleaned.as_str());
    if full.as_str().unicode_len() > limit {
        String::from_str(full.as_str().substring_char(0, limit))
    } else {
        full
    }
}

/// The first `n` characters of `s`, or all of it when shorter.
pub fn cut(s: &str, n: usize) -> (r: String)
    ensures
        r@ == if s@.len() > n {
            s@.subrange(0, n as int)
        } else {
            s@
        },
{
    let len = s.unicode_len();
    if len > n {
        String::from_str(s.substring_char(0, n))
    } else {
        String::from_str(s)
    }
}

} // verus!

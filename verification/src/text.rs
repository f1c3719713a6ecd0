use vstd::prelude::*;

verus! {

/// Appends `c` to `s`.
///
/// Trusted: calls `String::push`, which the standard library documents as
/// appending the given character to the end of the string.
#[verifier::external_body]
pub(crate) fn push_char(s: &mut String, c: char)
    ensures
        final(s)@ == old(s)@.push(c),
{
    s.push(c);
}

/// Removes the last character of `s` and returns it, or `None` when `s`
/// is empty.
///
/// Trusted: calls `String::pop`, which the standard library documents as
/// removing the last character and returning it, and returning `None`
/// (leaving the string as it was) when the string is empty.
#[verifier::external_body]
pub(crate) fn pop_char(s: &mut String) -> (r: Option<char>)
    ensures
        old(s)@.len() == 0 ==> r is None && final(s)@ == old(s)@,
        old(s)@.len() > 0 ==> r == Some(old(s)@.last()) && final(s)@ == old(s)@.drop_last(),
{
    s.pop()
}

/// Whether `prefix` is a prefix of `s`.
///
/// Trusted: calls `str::starts_with` with a `&str` pattern, which the
/// standard library documents as returning `true` exactly when the pattern
/// matches a prefix of the string.
#[verifier::external_body]
pub(crate) fn starts_with(s: &str, prefix: &str) -> (r: bool)
    ensures
        r == prefix@.is_prefix_of(s@),
{
    s.starts_with(prefix)
}

} // verus!

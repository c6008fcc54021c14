//! Small operations on text that the path and name rules are built from.

use vstd::prelude::*;

verus! {

/// The path separator written into every path this crate builds.
pub open spec fn slash() -> Seq<char> {
    seq!['/']
}

/// Whether `c` separates path components on any supported platform.
pub open spec fn is_separator(c: char) -> bool {
    c == '/' || c == '\\'
}

/// Executable form of [`is_separator`].
pub fn char_is_separator(c: char) -> (r: bool)
    ensures
        r == is_separator(c),
{
    c == '/' || c == '\\'
}

/// `base` joined with the relative path `rel`: a separator is put between
/// the two unless `base` is empty or already ends with one.
pub open spec fn join_spec(base: Seq<char>, rel: Seq<char>) -> Seq<char> {
    if base.len() == 0 {
        rel
    } else if is_separator(base.last()) {
        base + rel
    } else {
        base + slash() + rel
    }
}

/// A copy of `a` followed by `b`.
pub fn chain(a: &str, b: &str) -> (r: String)
    ensures
        r@ == a@ + b@,
{
    let mut out = String::from_str(a);
    out.append(b);
    out
}

/// Joins a directory and a relative path, see [`join_spec`].
pub fn join_path(base: &str, rel: &str) -> (r: String)
    ensures
        r@ == join_spec(base@, rel@),
{
    let n = base.unicode_len();
    if n == 0 {
        String::from_str(rel)
    } else if char_is_separator(base.get_char(n - 1)) {
        chain(base, rel)
    } else {
        proof {
            reveal_strlit("/");
            assert("/"@ =~= slash());
        }
        let with_slash = chain(base, "/");
        chain(with_slash.as_str(), rel)
    }
}

/// What `str::to_lowercase` returns for a text.
pub uninterp spec fn lowercase_of(text: Seq<char>) -> Seq<char>;

/// Calls `str::to_lowercase`.
///
/// Trusted: the result is a function of the text alone, each character
/// replaced by its lowercase form as Unicode defines it, whatever the
/// locale. The function has no failure case.
#[verifier::external_body]
pub(crate) fn lowercase(text: &str) -> (r: String)
    ensures
        r@ == lowercase_of(text@),
{
    text.to_lowercase()
}

} // verus!

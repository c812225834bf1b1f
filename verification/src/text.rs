//! Text that the server puts together.

use vstd::prelude::*;
use vstd::string::*;

verus! {

/// `name` inside the directory `dir`.
pub open spec fn inside(dir: Seq<char>, name: Seq<char>) -> Seq<char> {
    dir + "/"@ + name
}

/// The path of `name` inside the directory `dir`.
pub fn join(dir: &str, name: &str) -> (path: String)
    ensures
        path@ == inside(dir@, name@),
        path@ == dir@ + "/"@ + name@,
{
    let mut path = String::from_str(dir);
    path.append("/");
    path.append(name);
    path
}

/// Two names are the same if they give the same path inside one directory.
pub proof fn names_inside_a_directory_stay_apart(dir: Seq<char>, a: Seq<char>, b: Seq<char>)
    requires
        inside(dir, a) == inside(dir, b),
    ensures
        a == b,
{
    let prefix = dir + "/"@;
    assert(inside(dir, a).skip(prefix.len() as int) =~= a);
    assert(inside(dir, b).skip(prefix.len() as int) =~= b);
}

/// What `str::to_lowercase` makes of a text.
pub uninterp spec fn lowercase(text: Seq<char>) -> Seq<char>;

/// `text` in lower case, by `str::to_lowercase` of std.
///
/// Trusted: the result is a function of the text alone, as Unicode's lower-case
/// mapping gives it. How single characters are mapped is not stated.
#[verifier::external_body]
pub(crate) fn to_lowercase(text: &str) -> (lower: String)
    ensures
        lower@ == lowercase(text@),
{
    text.to_lowercase()
}

} // verus!

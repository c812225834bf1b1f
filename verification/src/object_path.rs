//! Paths in an object store.

use slatedb::object_store::path::Path;
use vstd::prelude::*;

verus! {

/// The text of the path that `object_store::path::Path::from` makes of a text.
pub uninterp spec fn object_path(text: Seq<char>) -> Seq<char>;

/// Whether a character is a letter or digit of ASCII, `-` or `_`.
pub open spec fn is_plain_char(c: char) -> bool {
    ||| 'a' <= c <= 'z'
    ||| 'A' <= c <= 'Z'
    ||| '0' <= c <= '9'
    ||| c == '-'
    ||| c == '_'
}

/// Whether every segment of a text, between its `/`, is of plain characters only;
/// segments may be empty.
pub open spec fn has_plain_segments(text: Seq<char>) -> bool {
    forall|i: int| 0 <= i < text.len() ==> is_plain_char(#[trigger] text[i]) || text[i] == '/'
}

/// Whether a text is a sequence of non-empty segments of plain characters, with
/// one `/` between each two of them.
pub open spec fn is_plain_path(text: Seq<char>) -> bool {
    &&& has_plain_segments(text)
    &&& text.len() > 0 ==> text[0] != '/' && text.last() != '/'
    &&& forall|i: int, j: int|
        0 <= i < text.len() && j == i + 1 && j < text.len() && #[trigger] text[i] == '/'
            ==> #[trigger] text[j] != '/'
}

/// Whether encoding a path once more changes it exactly if it holds a `%`.
pub open spec fn only_percent_is_encoded_again(path: Seq<char>) -> bool {
    object_path(path) == path <==> !path.contains('%')
}

/// What is known of the object-store path for a text: a plain path stays as it is,
/// plain segments give no `%`, and encoding it again changes it exactly if it
/// holds a `%`.
pub open spec fn is_encoding_of(path: Seq<char>, text: Seq<char>) -> bool {
    &&& path == object_path(text)
    &&& is_plain_path(text) ==> path == text
    &&& has_plain_segments(text) ==> !path.contains('%')
    &&& only_percent_is_encoded_again(path)
}

/// The text of the object-store path for `text`, by `Path::from(String)` of
/// `object_store` and `Path`'s `to_string`.
///
/// Trusted: the result is a function of the text alone. `Path::from` drops empty
/// segments and percent-encodes what object stores handle badly, `%` included.
/// So a plain path stays as it is, segments of plain characters give no `%`, and a
/// result goes through `Path::from` unchanged exactly if it holds no `%`. Which
/// other characters are encoded, and how, is not stated.
#[verifier::external_body]
pub(crate) fn to_object_path(text: String) -> (path: String)
    ensures
        path@ == object_path(text@),
        is_plain_path(text@) ==> path@ == text@,
        has_plain_segments(text@) ==> !path@.contains('%'),
        only_percent_is_encoded_again(path@),
{
    Path::from(text).to_string()
}

} // verus!

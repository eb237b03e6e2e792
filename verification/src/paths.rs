//! File names and extensions of paths written as text.

use vstd::prelude::*;
use crate::text::chars_of;

verus! {

/// The file name of the path `path`: its last component, where that is an
/// ordinary name, under the path syntax of the platform the library is
/// built for.
pub uninterp spec fn path_file_name(path: Seq<char>) -> Option<Seq<char>>;

/// The extension of a file named `name`: what follows its last dot, unless
/// the name has no dot or only the one it starts with. (`..` is no file
/// name.)
pub open spec fn extension_of(name: Seq<char>) -> Option<Seq<char>> {
    match name.index_of_last('.') {
        Some(dot) if dot > 0 => Some(name.skip(dot + 1)),
        _ => None,
    }
}

/// The file name of `path`, as `std::path::Path::file_name` finds it.
///
/// Not verified: the contract only gives the result its name,
/// `path_file_name`. Since `path` is valid Unicode, so is each of its
/// components, and nothing is lost in handing the name back as a `String`.
#[verifier::external_body]
pub(crate) fn file_name(path: &str) -> (name: Option<String>)
    ensures
        match name {
            Some(n) => path_file_name(path@) == Some(n@),
            None => path_file_name(path@).is_none(),
        },
{
    match std::path::Path::new(path).file_name() {
        Some(name) => Some(name.to_string_lossy().into_owned()),
        None => None,
    }
}

/// Whether a file named `name` has the extension `extension`.
pub fn has_extension(name: &str, extension: &str) -> (b: bool)
    ensures
        b == (extension_of(name@) == Some(extension@)),
{
    let chars = chars_of(name);
    let wanted = chars_of(extension);
    let ghost s = name@;
    proof {
        s.index_of_last_ensures('.');
    }
    let mut dot: usize = chars.len();
    while dot > 0 && chars[dot - 1] != '.'
        invariant
            chars@ == s,
            dot <= s.len(),
            forall|j: int| dot <= j < s.len() ==> #[trigger] s[j] != '.',
        decreases dot,
    {
        dot -= 1;
    }
    if dot <= 1 {
        return false;
    }
    assert(s.index_of_last('.') == Some(dot - 1));
    let ghost rest = s.skip(dot as int);
    assert(extension_of(s) == Some(rest));
    if chars.len() - dot != wanted.len() {
        return false;
    }
    let mut i: usize = 0;
    while i < wanted.len()
        invariant
            chars@ == s,
            wanted@ == extension@,
            rest == s.skip(dot as int),
            1 < dot <= s.len() <= usize::MAX,
            s == name@,
            extension_of(s) == Some(rest),
            s.len() - dot == wanted@.len(),
            i <= wanted@.len(),
            forall|j: int| 0 <= j < i ==> rest[j] == wanted@[j],
        decreases wanted@.len() - i,
    {
        if chars[dot + i] != wanted[i] {
            assert(rest[i as int] != extension@[i as int]);
            return false;
        }
        i += 1;
    }
    assert(rest =~= extension@);
    true
}

} // verus!

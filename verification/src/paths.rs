//! Path arithmetic on text. Paths are taken the POSIX way: `/` separates the
//! parts, and a path is absolute when it starts with `/`. Nothing here looks
//! at a file system.

use crate::text::chars_of;
use crate::text::push_chars;
use crate::text::string_of;
use vstd::prelude::*;

verus! {

/// A path is absolute when it starts at the root.
pub open spec fn is_absolute(path: Seq<char>) -> bool {
    path.len() > 0 && path[0] == '/'
}

/// `relative` taken from the directory `base`: an absolute `relative` stands
/// for itself, and otherwise the two are put together with exactly one
/// separator between them unless `base` is empty or already ends with one.
pub open spec fn joined(base: Seq<char>, relative: Seq<char>) -> Seq<char> {
    if is_absolute(relative) {
        relative
    } else if base.len() == 0 || base.last() == '/' {
        base + relative
    } else {
        base + seq!['/'] + relative
    }
}

/// The path names the home directory by a leading `~`: the tilde stands alone
/// or a separator follows it.
pub open spec fn names_home(path: Seq<char>) -> bool {
    &&& path.len() > 0
    &&& path[0] == '~'
    &&& (path.len() == 1 || path[1] == '/' || path[1] == '\\')
}

/// What tilde expansion may make of `input`: a path that does not name the
/// home directory is left alone, and in one that does, the tilde is replaced
/// by some text (the home directory, or the tilde itself where no home
/// directory is known).
pub open spec fn tilde_outcome(input: Seq<char>, output: Seq<char>) -> bool {
    if names_home(input) {
        exists|home: Seq<char>| output == #[trigger] (home + input.skip(1))
    } else {
        output == input
    }
}

/// Expands a leading `~` with `shellexpand::tilde`. That function returns its
/// input unchanged unless the input is `~` alone or starts with `~/` (on
/// Windows also `~\`); then it puts the home directory that `dirs::home_dir`
/// reports in place of the tilde, or returns the input unchanged if no home
/// directory is known. Which directory that is depends on the environment, so
/// the contract only says that the rest of the path is kept.
#[verifier::external_body]
pub(crate) fn expand_tilde(path: &str) -> (expanded: String)
    ensures
        tilde_outcome(path@, expanded@),
{
    shellexpand::tilde(path).into_owned()
}

/// Whether the path is absolute.
pub fn path_is_absolute(path: &str) -> (absolute: bool)
    ensures
        absolute == is_absolute(path@),
{
    let chars = chars_of(path);
    chars.len() > 0 && chars[0] == '/'
}

/// `relative` taken from the directory `base`.
pub fn join_paths(base: &str, relative: &str) -> (path: String)
    ensures
        path@ == joined(base@, relative@),
{
    let base_chars = chars_of(base);
    let relative_chars = chars_of(relative);
    let mut path: Vec<char> = Vec::new();
    if relative_chars.len() > 0 && relative_chars[0] == '/' {
        push_chars(&mut path, &relative_chars);
    } else {
        let n: usize = base_chars.len();
        push_chars(&mut path, &base_chars);
        if n > 0 && base_chars[n - 1] != '/' {
            path.push('/');
        }
        push_chars(&mut path, &relative_chars);
    }
    assert(path@ =~= joined(base@, relative@));
    string_of(&path)
}

/// Joining a relative path onto an absolute directory gives an absolute path
/// that starts with the directory and ends with the relative path.
pub proof fn joined_stays_below(base: Seq<char>, relative: Seq<char>)
    requires
        is_absolute(base),
        !is_absolute(relative),
    ensures
        is_absolute(joined(base, relative)),
        joined(base, relative).take(base.len() as int) == base,
        joined(base, relative).skip(joined(base, relative).len() - relative.len()) == relative,
{
    let path = joined(base, relative);
    assert(path.take(base.len() as int) =~= base);
    assert(path.skip(path.len() - relative.len()) =~= relative);
}

/// The extension of the file that `path` names: what stands after the last
/// dot of the file name, if the file name has a dot that is not its first
/// character.
pub uninterp spec fn path_extension(path: Seq<char>) -> Option<Seq<char>>;

/// Asks `std::path::Path::extension` for the extension of the file that a
/// path names. The contract gives the answer a name.
#[verifier::external_body]
pub(crate) fn extension_of(path: &str) -> (extension: Option<String>)
    ensures
        match extension {
            Some(extension) => path_extension(path@) == Some(extension@),
            None => path_extension(path@) is None,
        },
{
    std::path::Path::new(path).extension().and_then(|e| e.to_str()).map(|e| e.to_owned())
}

/// The way from the directory `base` to `path`, if there is one.
pub uninterp spec fn path_difference(path: Seq<char>, base: Seq<char>) -> Option<Seq<char>>;

/// Asks `pathdiff::diff_paths` for the way from a directory to a path, which
/// goes up with `..` where the two part and is none where only the directory
/// is absolute or the directory itself goes up. The contract gives the
/// answer a name.
#[verifier::external_body]
pub(crate) fn relative_to(path: &str, base: &str) -> (way: Option<String>)
    ensures
        match way {
            Some(way) => path_difference(path@, base@) == Some(way@),
            None => path_difference(path@, base@) is None,
        },
{
    pathdiff::diff_paths(path, base).map(|way| way.to_string_lossy().into_owned())
}

} // verus!

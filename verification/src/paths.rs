//! Pure path helpers: marker expansion and name/parent extraction on
//! canonical path strings. The caller supplies the home directory and the
//! current working directory as plain values.

use crate::strutil;
use vstd::prelude::*;
use vstd::string::StrSliceExecFns;

verus! {

/// The marker that stands for the current working directory.
pub open spec fn pwd_marker() -> Seq<char> {
    seq!['P', 'W', 'D']
}

/// The marker that stands for the home directory.
pub open spec fn tilde() -> Seq<char> {
    seq!['~']
}

/// Marker expansion: a leading `PWD` is replaced (once) by the working
/// directory; otherwise every `~` is replaced by the home directory.
pub open spec fn expand_path_spec(p: Seq<char>, home: Seq<char>, cwd: Seq<char>) -> Seq<char> {
    if pwd_marker().is_prefix_of(p) {
        cwd + p.skip(3)
    } else {
        strutil::replace_all_spec(p, tilde(), home)
    }
}

/// Expands the `PWD` and `~` markers in `path`.
pub fn expand_path(path: &str, home: &str, cwd: &str) -> (r: String)
    ensures
        r@ == expand_path_spec(path@, home@, cwd@),
{
    proof {
        reveal_strlit("PWD");
        assert("PWD"@ =~= pwd_marker());
        reveal_strlit("~");
        assert("~"@ =~= tilde());
    }
    if strutil::str_starts_with(path, "PWD") {
        let n = path.unicode_len();
        let tail = path.substring_char(3, n);
        proof {
            assert(tail@ =~= path@.skip(3));
        }
        strutil::concat_str(cwd, tail)
    } else {
        strutil::replace_all(path, "~", home)
    }
}

/// Whether a declared working directory must be resolved against the host
/// filesystem: it starts with a home or working-directory marker.
pub open spec fn workdir_needs_resolution_spec(w: Seq<char>) -> bool {
    tilde().is_prefix_of(w) || pwd_marker().is_prefix_of(w)
}

/// Tests `workdir_needs_resolution_spec`.
pub fn workdir_needs_resolution(w: &str) -> (r: bool)
    ensures
        r == workdir_needs_resolution_spec(w@),
{
    proof {
        reveal_strlit("PWD");
        assert("PWD"@ =~= pwd_marker());
        reveal_strlit("~");
        assert("~"@ =~= tilde());
    }
    strutil::str_starts_with(w, "~") || strutil::str_starts_with(w, "PWD")
}

/// The last path component of `p` (everything after the last separator, or
/// all of `p` when it has none).
pub open spec fn file_name_spec(p: Seq<char>) -> Seq<char> {
    match strutil::last_index_spec(p, '/') {
        None => p,
        Some(i) => p.skip(i + 1),
    }
}

/// Returns the last path component of `p`.
pub fn file_name_of(p: &str) -> (r: String)
    ensures
        r@ == file_name_spec(p@),
{
    let n = p.unicode_len();
    proof {
        strutil::lemma_last_index_in_range(p@, '/');
    }
    match strutil::last_index_of(p, '/') {
        None => p.to_owned(),
        Some(i) => {
            let tail = p.substring_char(i + 1, n);
            proof {
                assert(tail@ =~= p@.skip(i + 1));
            }
            tail.to_owned()
        },
    }
}

/// The parent directory of a canonical path: everything before the last
/// separator, the root when the last separator is the first character, and
/// the empty sequence when there is none.
pub open spec fn parent_dir_spec(p: Seq<char>) -> Seq<char> {
    match strutil::last_index_spec(p, '/') {
        None => Seq::<char>::empty(),
        Some(i) => if i == 0 {
            p.take(1)
        } else {
            p.take(i)
        },
    }
}

/// Returns the parent directory of a canonical path.
pub fn parent_dir_of(p: &str) -> (r: String)
    ensures
        r@ == parent_dir_spec(p@),
{
    proof {
        strutil::lemma_last_index_in_range(p@, '/');
    }
    match strutil::last_index_of(p, '/') {
        None => String::new(),
        Some(i) => {
            if i == 0 {
                let head = p.substring_char(0, 1);
                head.to_owned()
            } else {
                let head = p.substring_char(0, i);
                head.to_owned()
            }
        },
    }
}

/// Whether a path names a command file (carries the command-file extension).
pub open spec fn is_command_file_spec(p: Seq<char>) -> bool {
    seq!['.', 'm', 'c', 'd'].is_suffix_of(p)
}

/// Tests `is_command_file_spec`.
pub fn is_command_file(p: &str) -> (r: bool)
    ensures
        r == is_command_file_spec(p@),
{
    proof {
        reveal_strlit(".mcd");
        assert(".mcd"@ =~= seq!['.', 'm', 'c', 'd']);
    }
    strutil::str_ends_with(p, ".mcd")
}

} // verus!

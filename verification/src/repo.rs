//! Pure list operations behind repository management: adding a repository
//! only when it is not yet configured, and removing a configured one.

use crate::strutil;
use vstd::prelude::*;

verus! {

/// The first index in `rs` equal to `r`.
pub open spec fn find_str_spec(rs: Seq<Seq<char>>, r: Seq<char>) -> Option<int>
    decreases rs.len(),
{
    if rs.len() == 0 {
        None
    } else if rs[0] == r {
        Some(0int)
    } else {
        match find_str_spec(rs.skip(1), r) {
            None => None,
            Some(j) => Some(j + 1),
        }
    }
}

/// A found index is inside the list and holds the string.
pub proof fn lemma_find_str_in_range(rs: Seq<Seq<char>>, r: Seq<char>)
    ensures
        match find_str_spec(rs, r) {
            None => true,
            Some(i) => 0 <= i < rs.len() && rs[i] == r,
        },
    decreases rs.len(),
{
    if rs.len() > 0 && rs[0] != r {
        lemma_find_str_in_range(rs.skip(1), r);
    }
}

/// Finds the first entry equal to `needle`.
pub fn find_str(items: &Vec<String>, needle: &str) -> (r: Option<usize>)
    ensures
        match r {
            None => find_str_spec(items.deep_view(), needle@) is None,
            Some(i) => find_str_spec(items.deep_view(), needle@) == Some(i as int),
        },
{
    let n = items.len();
    let mut i: usize = 0;
    proof {
        assert(items.deep_view().skip(0) =~= items.deep_view());
    }
    while i < n
        invariant
            n == items@.len(),
            i <= n,
            find_str_spec(items.deep_view(), needle@) == match find_str_spec(
                items.deep_view().skip(i as int),
                needle@,
            ) {
                None => Option::<int>::None,
                Some(j) => Some(j + i),
            },
        decreases n - i,
    {
        proof {
            let tail = items.deep_view().skip(i as int);
            assert(tail[0] == items.deep_view()[i as int]);
            assert(tail.skip(1) =~= items.deep_view().skip(i + 1));
        }
        if strutil::str_eq(items[i].as_str(), needle) {
            return Some(i);
        }
        i += 1;
    }
    proof {
        assert(items.deep_view().skip(n as int).len() == 0);
    }
    None
}

/// Appends `repo` to the configured repositories unless it is present
/// already; the flag says whether anything was added.
pub fn add_repository(repos: Vec<String>, repo: &str) -> (r: (Vec<String>, bool))
    ensures
        find_str_spec(repos.deep_view(), repo@) is Some ==> r.0.deep_view() == repos.deep_view()
            && r.1 == false,
        find_str_spec(repos.deep_view(), repo@) is None ==> r.0.deep_view()
            == repos.deep_view().push(repo@) && r.1 == true,
{
    let ghost pre = repos.deep_view();
    match find_str(&repos, repo) {
        Some(_) => (repos, false),
        None => {
            let mut out = repos;
            out.push(repo.to_owned());
            proof {
                assert(out.deep_view() =~= pre.push(repo@));
            }
            (out, true)
        },
    }
}

/// Removes the first occurrence of `repo` from the configured
/// repositories; the flag says whether anything was removed.
pub fn remove_repository(repos: Vec<String>, repo: &str) -> (r: (Vec<String>, bool))
    ensures
        find_str_spec(repos.deep_view(), repo@) is None ==> r.0.deep_view() == repos.deep_view()
            && r.1 == false,
        match find_str_spec(repos.deep_view(), repo@) {
            Some(i) => r.0.deep_view() == repos.deep_view().remove(i) && r.1 == true,
            None => true,
        },
{
    let ghost pre = repos.deep_view();
    let ghost pre_seq = repos@;
    proof {
        lemma_find_str_in_range(repos.deep_view(), repo@);
    }
    match find_str(&repos, repo) {
        None => (repos, false),
        Some(i) => {
            let mut out = repos;
            out.remove(i);
            proof {
                broadcast use vstd::seq_lib::group_seq_properties;

                assert(out@ == pre_seq.remove(i as int));
                assert forall|k: int| 0 <= k < out@.len() implies out.deep_view()[k] == pre.remove(
                    i as int,
                )[k] by {
                    if k < i {
                        assert(out@[k] == pre_seq[k]);
                    } else {
                        assert(out@[k] == pre_seq[k + 1]);
                    }
                }
                assert(out.deep_view() =~= pre.remove(i as int));
            }
            (out, true)
        },
    }
}

} // verus!

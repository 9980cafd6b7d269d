//! Volume mounts and the path resolver.
//!
//! The resolver answers, for one host path, whether an existing
//! directory-backed mount already contains it (most specific mount first) and
//! what its in-container address is; when none does, it synthesizes the mount
//! the path needs under a reserved in-container prefix.
//!
//! Filesystem facts are injected: a [`ProbedPath`] carries the canonical path
//! together with its anchor (the closest existing directory a mount can be
//! made of), and each existing mount comes with a flag saying whether its
//! host path is a directory.

use crate::strutil;
use vstd::prelude::*;
use vstd::string::StrSliceExecFns;
use vstd::string::StringExecFns;

verus! {

/// Spec-level image of a [`VolumeMount`].
pub ghost struct MountView {
    pub from: Seq<char>,
    pub to: Seq<char>,
    pub options: Option<Seq<char>>,
}

/// The mounting of a host directory (or file) at a target path inside a
/// container, with optional mount options such as `ro`.
/// Both paths are expected to be absolute.
#[derive(Debug, Clone, Hash, PartialEq, Eq)]
pub struct VolumeMount {
    pub from: String,
    pub to: String,
    pub options: Option<String>,
}

impl View for VolumeMount {
    type V = MountView;

    open spec fn view(&self) -> MountView {
        MountView {
            from: self.from@,
            to: self.to@,
            options: match self.options {
                Some(s) => Some(s@),
                None => None,
            },
        }
    }
}

impl DeepView for VolumeMount {
    type V = MountView;

    open spec fn deep_view(&self) -> MountView {
        self@
    }
}

/// Spec-level image of a [`ProbedPath`].
pub ghost struct ProbeView {
    pub path: Seq<char>,
    pub anchor: Seq<char>,
}

/// What the host filesystem reports about one path: `path` is its canonical
/// absolute form, and `anchor` is the closest existing directory a mount can
/// be made of — the path itself when it is a directory, its parent when it is
/// a regular file, and the nearest existing ancestor directory otherwise.
#[derive(Debug, Clone)]
pub struct ProbedPath {
    pub path: String,
    pub anchor: String,
}

impl View for ProbedPath {
    type V = ProbeView;

    open spec fn view(&self) -> ProbeView {
        ProbeView { path: self.path@, anchor: self.anchor@ }
    }
}

impl DeepView for ProbedPath {
    type V = ProbeView;

    open spec fn deep_view(&self) -> ProbeView {
        self@
    }
}

/// Spec-level image of a [`DynamicVolumeMount`].
pub ghost struct DynamicMountView {
    pub mount: Option<MountView>,
    pub path_within_mounted_volume: Seq<char>,
}

/// A path to be referenced inside the container, and optionally a mount that
/// must exist for that path to be available. `mount` being `None` means some
/// existing volume already contains the path.
#[derive(Debug, PartialEq, Eq)]
pub struct DynamicVolumeMount {
    pub mount: Option<VolumeMount>,
    pub path_within_mounted_volume: String,
}

impl View for DynamicVolumeMount {
    type V = DynamicMountView;

    open spec fn view(&self) -> DynamicMountView {
        DynamicMountView {
            mount: match self.mount {
                Some(m) => Some(m@),
                None => None,
            },
            path_within_mounted_volume: self.path_within_mounted_volume@,
        }
    }
}

/// Mount specificity: the number of separators in its host path, which
/// orders mounts by how deeply nested they are.
pub open spec fn path_depth(s: Seq<char>) -> nat {
    strutil::count_char_spec(s, '/')
}

/// `from` with exactly one trailing separator.
pub open spec fn with_trailing_sep(from: Seq<char>) -> Seq<char> {
    if from.len() > 0 && from[from.len() - 1] == '/' {
        from
    } else {
        from + seq!['/']
    }
}

/// The mount rooted at `from` contains `p`: either exactly, or as a
/// descendant (so that `from` plus one separator is a prefix of `p`).
pub open spec fn covers(from: Seq<char>, p: Seq<char>) -> bool {
    from == p || with_trailing_sep(from).is_prefix_of(p)
}

/// In-container address of `p` under a mount of `from` at `to`: the matched
/// `from` prefix is replaced by `to`.
pub open spec fn rewritten(p: Seq<char>, from: Seq<char>, to: Seq<char>) -> Seq<char> {
    to + p.skip(from.len() as int)
}

/// Mount `i` is directory-backed and contains `p`.
pub open spec fn candidate(mounts: Seq<MountView>, dirs: Seq<bool>, p: Seq<char>, i: int) -> bool {
    0 <= i < mounts.len() && dirs[i] && covers(mounts[i].from, p)
}

/// The mount the resolver picks for `p`: the most specific (deepest host
/// path) directory-backed mount containing `p`; among equally deep ones the
/// earliest wins.
pub open spec fn best_candidate(mounts: Seq<MountView>, dirs: Seq<bool>, p: Seq<char>) -> Option<
    int,
>
    decreases mounts.len(),
{
    if mounts.len() == 0 {
        None
    } else {
        let i = mounts.len() - 1;
        let prev = best_candidate(mounts.drop_last(), dirs.drop_last(), p);
        if candidate(mounts, dirs, p, i) {
            match prev {
                None => Some(i),
                Some(j) => if path_depth(mounts[i].from) > path_depth(mounts[j].from) {
                    Some(i)
                } else {
                    Some(j)
                },
            }
        } else {
            prev
        }
    }
}

/// The reserved in-container prefix under which synthesized mounts live.
pub open spec fn mnt_prefix() -> Seq<char> {
    seq!['/', '_', 'm', 'n', 't']
}

/// The mount synthesized for an uncovered path with anchor `anchor`.
pub open spec fn synthesized_mount(anchor: Seq<char>) -> MountView {
    MountView { from: anchor, to: mnt_prefix() + anchor, options: None }
}

/// Outcome of resolving `probe` against existing mounts: rewritten address
/// under the chosen mount, or a synthesized mount plus the fixed-prefix
/// address.
pub open spec fn resolve_spec(
    probe: ProbeView,
    mounts: Seq<MountView>,
    dirs: Seq<bool>,
) -> DynamicMountView {
    match best_candidate(mounts, dirs, probe.path) {
        Some(i) => DynamicMountView {
            mount: None,
            path_within_mounted_volume: rewritten(probe.path, mounts[i].from, mounts[i].to),
        },
        None => DynamicMountView {
            mount: Some(synthesized_mount(probe.anchor)),
            path_within_mounted_volume: mnt_prefix() + probe.path,
        },
    }
}

/// A mount that contains a path is never longer than the path.
pub proof fn lemma_covers_len(from: Seq<char>, p: Seq<char>)
    requires
        covers(from, p),
    ensures
        from.len() <= p.len(),
{
    if from != p {
        assert(with_trailing_sep(from).is_prefix_of(p));
    }
}

/// What the chosen index satisfies: it is a candidate of maximal depth, and
/// when no index is chosen there is no candidate at all.
pub proof fn lemma_best_candidate_characterization(
    mounts: Seq<MountView>,
    dirs: Seq<bool>,
    p: Seq<char>,
)
    requires
        mounts.len() == dirs.len(),
    ensures
        match best_candidate(mounts, dirs, p) {
            None => forall|i: int| !candidate(mounts, dirs, p, i),
            Some(j) => candidate(mounts, dirs, p, j) && forall|i: int|
                candidate(mounts, dirs, p, i) ==> path_depth(mounts[i].from) <= path_depth(
                    mounts[j].from,
                ),
        },
    decreases mounts.len(),
{
    if mounts.len() > 0 {
        let m2 = mounts.drop_last();
        let d2 = dirs.drop_last();
        lemma_best_candidate_characterization(m2, d2, p);
        let i = mounts.len() - 1;
        assert(forall|k: int| 0 <= k < i ==> m2[k] == mounts[k]);
        assert(forall|k: int| 0 <= k < i ==> d2[k] == dirs[k]);
        assert(forall|k: int| 0 <= k < i ==> candidate(mounts, dirs, p, k) == candidate(
            m2,
            d2,
            p,
            k,
        ));
    }
}

/// Tests `covers` on strings.
fn covers_exec(from: &String, p: &String) -> (r: bool)
    ensures
        r == covers(from@, p@),
{
    if strutil::str_eq(from.as_str(), p.as_str()) {
        true
    } else {
        let n = from.as_str().unicode_len();
        let pref: String = if n > 0 && from.as_str().get_char(n - 1) == '/' {
            from.clone()
        } else {
            strutil::concat_str(from.as_str(), "/")
        };
        proof {
            reveal_strlit("/");
            assert("/"@ =~= seq!['/']);
            assert(pref@ == with_trailing_sep(from@));
        }
        strutil::str_starts_with(p.as_str(), pref.as_str())
    }
}

/// Resolves one probed host path against the existing mounts.
///
/// `host_dirs[i]` says whether `existent_mounts[i].from` is a directory on
/// the host; only directory-backed mounts can contain other paths.
pub fn get_dynamic_volume_mounts(
    path: &ProbedPath,
    existent_mounts: &Vec<VolumeMount>,
    host_dirs: &Vec<bool>,
) -> (r: DynamicVolumeMount)
    requires
        existent_mounts@.len() == host_dirs@.len(),
    ensures
        r@ == resolve_spec(path@, existent_mounts.deep_view(), host_dirs@),
{
    let ghost mounts_v = existent_mounts.deep_view();
    let ghost dirs_v = host_dirs@;
    let ghost p = path.path@;
    let n = existent_mounts.len();
    let mut best: Option<usize> = None;
    let mut i: usize = 0;
    while i < n
        invariant
            n == existent_mounts@.len(),
            host_dirs@.len() == n,
            mounts_v == existent_mounts.deep_view(),
            dirs_v == host_dirs@,
            p == path.path@,
            i <= n,
            match best {
                None => best_candidate(mounts_v.take(i as int), dirs_v.take(i as int), p) is None,
                Some(b) => b < i && best_candidate(mounts_v.take(i as int), dirs_v.take(i as int), p)
                    == Some(b as int),
            },
        decreases n - i,
    {
        let is_cand = if host_dirs[i] {
            covers_exec(&existent_mounts[i].from, &path.path)
        } else {
            false
        };
        let ghost old_best = best;
        if is_cand {
            match best {
                None => {
                    best = Some(i);
                },
                Some(b) => {
                    let di = strutil::count_char(existent_mounts[i].from.as_str(), '/');
                    let db = strutil::count_char(existent_mounts[b].from.as_str(), '/');
                    if di > db {
                        best = Some(i);
                    }
                },
            }
        }
        proof {
            let pre = mounts_v.take(i as int);
            let pred = dirs_v.take(i as int);
            let cur = mounts_v.take(i + 1);
            let curd = dirs_v.take(i + 1);
            assert(cur.drop_last() =~= pre);
            assert(curd.drop_last() =~= pred);
            assert(cur[i as int] == mounts_v[i as int]);
            assert(mounts_v[i as int] == existent_mounts@[i as int]@);
            assert(candidate(cur, curd, p, i as int) == is_cand);
            assert(forall|k: int| 0 <= k < i ==> cur[k] == pre[k] && curd[k] == pred[k]);
        }
        i += 1;
    }
    proof {
        assert(mounts_v.take(n as int) =~= mounts_v);
        assert(dirs_v.take(n as int) =~= dirs_v);
        lemma_best_candidate_characterization(mounts_v, dirs_v, p);
    }
    match best {
        Some(b) => {
            let from_len = existent_mounts[b].from.as_str().unicode_len();
            let p_len = path.path.as_str().unicode_len();
            proof {
                lemma_covers_len(mounts_v[b as int].from, p);
            }
            let suffix = path.path.as_str().substring_char(from_len, p_len);
            proof {
                assert(suffix@ =~= p.skip(mounts_v[b as int].from.len() as int));
            }
            let addr = strutil::concat_str(existent_mounts[b].to.as_str(), suffix);
            DynamicVolumeMount { mount: None, path_within_mounted_volume: addr }
        },
        None => {
            proof {
                reveal_strlit("/_mnt");
                assert("/_mnt"@ =~= mnt_prefix());
            }
            let to = strutil::concat_str("/_mnt", path.anchor.as_str());
            let addr = strutil::concat_str("/_mnt", path.path.as_str());
            let r = DynamicVolumeMount {
                mount: Some(VolumeMount { from: path.anchor.clone(), to, options: None }),
                path_within_mounted_volume: addr,
            };
            proof {
                assert(r@.mount == Some(synthesized_mount(path@.anchor)));
            }
            r
        },
    }
}

/// A volume-mounting string that does not have the `FROM:TO[:OPTIONS]`
/// shape; it is carried in the error verbatim.
#[derive(Debug, Clone, PartialEq, Eq)]
pub struct MountParseError {
    pub mount: String,
}

impl MountParseError {
    /// A human-readable account of the error.
    pub fn message(&self) -> (r: String)
        ensures
            r@ == "Failed to parse volume mounting '"@ + self.mount@
                + "'. Expected format: FROM:TO[:OPTIONS]"@,
    {
        let mut out = strutil::concat_str("Failed to parse volume mounting '", self.mount.as_str());
        out.append("'. Expected format: FROM:TO[:OPTIONS]");
        out
    }
}

/// What parsing a `FROM:TO[:OPTIONS]` string yields: the text before the
/// first colon and the text after it (up to a second colon) are
/// marker-expanded into the host and container paths; the text between the
/// second and third colons (or the rest) becomes the options. A string
/// without a colon does not parse.
pub open spec fn parse_mount_spec(s: Seq<char>, home: Seq<char>, cwd: Seq<char>) -> Option<
    MountView,
> {
    match strutil::find_char_spec(s, ':') {
        None => None,
        Some(i) => {
            let from = crate::paths::expand_path_spec(s.take(i), home, cwd);
            let rest = s.skip(i + 1);
            match strutil::find_char_spec(rest, ':') {
                None => Some(
                    MountView {
                        from,
                        to: crate::paths::expand_path_spec(rest, home, cwd),
                        options: None,
                    },
                ),
                Some(j) => {
                    let to = crate::paths::expand_path_spec(rest.take(j), home, cwd);
                    let rest2 = rest.skip(j + 1);
                    let opts = match strutil::find_char_spec(rest2, ':') {
                        None => rest2,
                        Some(k) => rest2.take(k),
                    };
                    Some(MountView { from, to, options: Some(opts) })
                },
            }
        },
    }
}

/// Builds a `VolumeMount` out of a volume-mounting string of the form
/// `/some/source/path:/some/destination:options`, expanding the `~` and
/// `PWD` markers in both paths against the injected home and working
/// directories.
pub fn parse_volume_mounting(mount: &str, home: &str, cwd: &str) -> (r: Result<
    VolumeMount,
    MountParseError,
>)
    ensures
        match parse_mount_spec(mount@, home@, cwd@) {
            None => r matches Err(e) && e.mount@ == mount@,
            Some(mv) => r matches Ok(vm) && vm@ == mv,
        },
{
    let n = mount.unicode_len();
    proof {
        strutil::lemma_find_char_in_range(mount@, ':');
    }
    let i = match strutil::find_char(mount, ':') {
        None => {
            return Err(MountParseError { mount: mount.to_owned() });
        },
        Some(i) => i,
    };
    let from_part = mount.substring_char(0, i);
    let rest = mount.substring_char(i + 1, n);
    proof {
        assert(from_part@ =~= mount@.take(i as int));
        assert(rest@ =~= mount@.skip(i + 1));
        strutil::lemma_find_char_in_range(rest@, ':');
    }
    let from = crate::paths::expand_path(from_part, home, cwd);
    let rn = rest.unicode_len();
    match strutil::find_char(rest, ':') {
        None => {
            let to = crate::paths::expand_path(rest, home, cwd);
            Ok(VolumeMount { from, to, options: None })
        },
        Some(j) => {
            let to_part = rest.substring_char(0, j);
            let rest2 = rest.substring_char(j + 1, rn);
            proof {
                assert(to_part@ =~= rest@.take(j as int));
                assert(rest2@ =~= rest@.skip(j + 1));
                strutil::lemma_find_char_in_range(rest2@, ':');
            }
            let to = crate::paths::expand_path(to_part, home, cwd);
            let r2n = rest2.unicode_len();
            let opts = match strutil::find_char(rest2, ':') {
                None => rest2.to_owned(),
                Some(k) => {
                    let o = rest2.substring_char(0, k);
                    proof {
                        assert(o@ =~= rest2@.take(k as int));
                    }
                    o.to_owned()
                },
            };
            Ok(VolumeMount { from, to, options: Some(opts) })
        },
    }
}

/// Law: a path below an existing directory-backed mount resolves inside that
/// mount — the in-container address starts with the mount's target path —
/// and no new mount is produced.
pub proof fn lemma_resolve_covered_by_single_mount(m: MountView, probe: ProbeView)
    requires
        covers(m.from, probe.path),
    ensures
        resolve_spec(probe, seq![m], seq![true]).mount is None,
        m.to.is_prefix_of(resolve_spec(probe, seq![m], seq![true]).path_within_mounted_volume),
{
    reveal_with_fuel(best_candidate, 3);
    let mounts = seq![m];
    let dirs = seq![true];
    assert(mounts.drop_last() =~= Seq::<MountView>::empty());
    assert(dirs.drop_last() =~= Seq::<bool>::empty());
    assert(candidate(mounts, dirs, probe.path, 0));
    assert(best_candidate(mounts, dirs, probe.path) == Some(0int));
    let r = resolve_spec(probe, mounts, dirs);
    assert(r.path_within_mounted_volume == rewritten(probe.path, m.from, m.to));
    assert(m.to =~= r.path_within_mounted_volume.subrange(0, m.to.len() as int));
}

/// Law: when two directory-backed mounts of different specificity both
/// contain a path, resolution does not depend on the order in which they are
/// given.
pub proof fn lemma_resolve_order_independent(m1: MountView, m2: MountView, probe: ProbeView)
    requires
        covers(m1.from, probe.path),
        covers(m2.from, probe.path),
        path_depth(m1.from) != path_depth(m2.from),
    ensures
        resolve_spec(probe, seq![m1, m2], seq![true, true]) == resolve_spec(
            probe,
            seq![m2, m1],
            seq![true, true],
        ),
{
    reveal_with_fuel(best_candidate, 4);
    let p = probe.path;
    let a = seq![m1, m2];
    let b = seq![m2, m1];
    let dd = seq![true, true];
    assert(a.drop_last() =~= seq![m1]);
    assert(b.drop_last() =~= seq![m2]);
    assert(dd.drop_last() =~= seq![true]);
    assert(seq![m1].drop_last() =~= Seq::<MountView>::empty());
    assert(seq![m2].drop_last() =~= Seq::<MountView>::empty());
    assert(seq![true].drop_last() =~= Seq::<bool>::empty());
    assert(candidate(seq![m1], seq![true], p, 0));
    assert(candidate(seq![m2], seq![true], p, 0));
    assert(best_candidate(seq![m1], seq![true], p) == Some(0int));
    assert(best_candidate(seq![m2], seq![true], p) == Some(0int));
    assert(candidate(a, dd, p, 1));
    assert(candidate(b, dd, p, 1));
    if path_depth(m1.from) > path_depth(m2.from) {
        assert(best_candidate(a, dd, p) == Some(0int));
        assert(best_candidate(b, dd, p) == Some(1int));
    } else {
        assert(best_candidate(a, dd, p) == Some(1int));
        assert(best_candidate(b, dd, p) == Some(0int));
    }
}

/// Law: with no existing mounts, a probed path yields exactly the mount of
/// its anchor (for a file, its parent directory — never the file itself) and
/// the fixed-prefix in-container address of the full path.
pub proof fn lemma_resolve_uncovered(probe: ProbeView)
    ensures
        resolve_spec(probe, Seq::<MountView>::empty(), Seq::<bool>::empty()).mount == Some(
            synthesized_mount(probe.anchor),
        ),
        resolve_spec(
            probe,
            Seq::<MountView>::empty(),
            Seq::<bool>::empty(),
        ).path_within_mounted_volume == mnt_prefix() + probe.path,
{
}

} // verus!

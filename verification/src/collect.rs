//! The dynamic mount collector: applies the path resolver across a whole
//! argument list, gathering the new mounts (each at most once) and the
//! rewritten arguments.
//!
//! An argument comes with the probe of the host filesystem made for it:
//! `None` when the argument does not name an existing host path (it is then
//! passed through verbatim), `Some` with its canonical path and anchor
//! otherwise.

use crate::strutil;
use crate::volumes::DynamicVolumeMount;
use crate::volumes::MountView;
use crate::volumes::ProbeView;
use crate::volumes::ProbedPath;
use crate::volumes::VolumeMount;
use crate::volumes::get_dynamic_volume_mounts;
use crate::volumes::resolve_spec;
use vstd::prelude::*;

verus! {

/// Spec-level image of a [`ProbedArg`].
pub ghost struct ArgView {
    pub value: Seq<char>,
    pub probe: Option<ProbeView>,
}

/// One caller-supplied argument together with what the host filesystem
/// reports about it.
#[derive(Debug, Clone)]
pub struct ProbedArg {
    pub value: String,
    pub probe: Option<ProbedPath>,
}

impl View for ProbedArg {
    type V = ArgView;

    open spec fn view(&self) -> ArgView {
        ArgView {
            value: self.value@,
            probe: match self.probe {
                Some(p) => Some(p@),
                None => None,
            },
        }
    }
}

impl DeepView for ProbedArg {
    type V = ArgView;

    open spec fn deep_view(&self) -> ArgView {
        self@
    }
}

/// What collecting over `args` yields: the deduplicated sequence of new
/// mounts in order of first need, and the rewritten argument list.
pub open spec fn collect_spec(
    args: Seq<ArgView>,
    mounts: Seq<MountView>,
    dirs: Seq<bool>,
) -> (Seq<MountView>, Seq<Seq<char>>)
    decreases args.len(),
{
    if args.len() == 0 {
        (Seq::<MountView>::empty(), Seq::<Seq<char>>::empty())
    } else {
        let prev = collect_spec(args.drop_last(), mounts, dirs);
        let a = args.last();
        match a.probe {
            None => (prev.0, prev.1.push(a.value)),
            Some(pb) => {
                let rv = resolve_spec(pb, mounts, dirs);
                let ms = match rv.mount {
                    None => prev.0,
                    Some(m) => if prev.0.contains(m) {
                        prev.0
                    } else {
                        prev.0.push(m)
                    },
                };
                (ms, prev.1.push(rv.path_within_mounted_volume))
            },
        }
    }
}

/// Character-wise equality of two mounts, as the deduplication compares
/// them.
fn mount_eq(a: &VolumeMount, b: &VolumeMount) -> (r: bool)
    ensures
        r == (a@ == b@),
{
    let fe = strutil::str_eq(a.from.as_str(), b.from.as_str());
    let te = strutil::str_eq(a.to.as_str(), b.to.as_str());
    let oe = match (&a.options, &b.options) {
        (Option::None, Option::None) => true,
        (Option::Some(x), Option::Some(y)) => strutil::str_eq(x.as_str(), y.as_str()),
        _ => false,
    };
    fe && te && oe
}

/// Whether `m` already stands in `v`.
fn contains_mount(v: &Vec<VolumeMount>, m: &VolumeMount) -> (r: bool)
    ensures
        r == v.deep_view().contains(m@),
{
    let mut i: usize = 0;
    let n = v.len();
    while i < n
        invariant
            n == v@.len(),
            i <= n,
            forall|j: int| 0 <= j < i ==> v.deep_view()[j] != m@,
        decreases n - i,
    {
        if mount_eq(&v[i], m) {
            proof {
                assert(v.deep_view()[i as int] == m@);
            }
            return true;
        }
        i += 1;
    }
    false
}

/// Applies the path resolver to every argument: arguments whose probe shows
/// an existing host path are rewritten to their in-container address and the
/// mounts they need are gathered — each distinct mount exactly once — while
/// all other arguments pass through unchanged.
pub fn get_dynamic_volumes_and_new_args(
    args: &Vec<ProbedArg>,
    existent_vols: &Vec<VolumeMount>,
    host_dirs: &Vec<bool>,
) -> (r: (Vec<VolumeMount>, Vec<String>))
    requires
        existent_vols@.len() == host_dirs@.len(),
    ensures
        r.0.deep_view() == collect_spec(
            args.deep_view(),
            existent_vols.deep_view(),
            host_dirs@,
        ).0,
        r.1.deep_view() == collect_spec(
            args.deep_view(),
            existent_vols.deep_view(),
            host_dirs@,
        ).1,
{
    let ghost args_v = args.deep_view();
    let ghost mounts_v = existent_vols.deep_view();
    let ghost dirs_v = host_dirs@;
    let mut new_mounts: Vec<VolumeMount> = Vec::new();
    let mut new_args: Vec<String> = Vec::new();
    let n = args.len();
    proof {
        assert(new_mounts.deep_view() =~= collect_spec(args_v.take(0), mounts_v, dirs_v).0);
        assert(new_args.deep_view() =~= collect_spec(args_v.take(0), mounts_v, dirs_v).1);
    }
    let mut i: usize = 0;
    while i < n
        invariant
            n == args@.len(),
            args_v == args.deep_view(),
            mounts_v == existent_vols.deep_view(),
            dirs_v == host_dirs@,
            existent_vols@.len() == host_dirs@.len(),
            i <= n,
            new_mounts.deep_view() == collect_spec(args_v.take(i as int), mounts_v, dirs_v).0,
            new_args.deep_view() == collect_spec(args_v.take(i as int), mounts_v, dirs_v).1,
        decreases n - i,
    {
        let ghost pre_mounts = new_mounts.deep_view();
        let ghost pre_args = new_args.deep_view();
        match &args[i].probe {
            None => {
                new_args.push(args[i].value.clone());
            },
            Some(pp) => {
                let dynamic_mount = get_dynamic_volume_mounts(pp, existent_vols, host_dirs);
                match dynamic_mount.mount {
                    Some(m) => {
                        if !contains_mount(&new_mounts, &m) {
                            new_mounts.push(m);
                        }
                    },
                    None => {},
                }
                new_args.push(dynamic_mount.path_within_mounted_volume);
            },
        }
        proof {
            let cur = args_v.take(i + 1);
            assert(cur.drop_last() =~= args_v.take(i as int));
            assert(cur.last() == args_v[i as int]);
            assert(args_v[i as int] == args@[i as int].deep_view());
            assert(new_mounts.deep_view() =~= collect_spec(cur, mounts_v, dirs_v).0);
            assert(new_args.deep_view() =~= collect_spec(cur, mounts_v, dirs_v).1);
        }
        i += 1;
    }
    proof {
        assert(args_v.take(n as int) =~= args_v);
    }
    (new_mounts, new_args)
}

/// Law: however many arguments reference paths under the same directory, the
/// collected set holds each needed mount exactly once — it never holds two
/// equal mounts, and the mount every unresolved argument needs stands in it.
pub proof fn lemma_collected_mounts_deduplicated(
    args: Seq<ArgView>,
    mounts: Seq<MountView>,
    dirs: Seq<bool>,
)
    ensures
        forall|i: int, j: int|
            0 <= i < j < collect_spec(args, mounts, dirs).0.len() ==> collect_spec(
                args,
                mounts,
                dirs,
            ).0[i] != collect_spec(args, mounts, dirs).0[j],
        forall|k: int|
            #![trigger args[k]]
            0 <= k < args.len() ==> match args[k].probe {
                Some(pb) => match resolve_spec(pb, mounts, dirs).mount {
                    Some(m) => collect_spec(args, mounts, dirs).0.contains(m),
                    None => true,
                },
                None => true,
            },
    decreases args.len(),
{
    if args.len() > 0 {
        lemma_collected_mounts_deduplicated(args.drop_last(), mounts, dirs);
        let prev = collect_spec(args.drop_last(), mounts, dirs);
        let ms = collect_spec(args, mounts, dirs).0;
        // the step either keeps the set or pushes a mount it did not hold
        assert forall|i: int, j: int| 0 <= i < j < ms.len() implies ms[i] != ms[j] by {
            if j < prev.0.len() {
                assert(prev.0[i] != prev.0[j]);
            } else {
                assert(j == prev.0.len() && ms.len() == prev.0.len() + 1);
                assert(!prev.0.contains(ms[j]));
                assert(ms[i] == prev.0[i]);
            }
        }
        assert forall|k: int| #![trigger args[k]] 0 <= k < args.len() implies match args[k].probe {
            Some(pb) => match resolve_spec(pb, mounts, dirs).mount {
                Some(m) => ms.contains(m),
                None => true,
            },
            None => true,
        } by {
            if k < args.len() - 1 {
                assert(args.drop_last()[k] == args[k]);
                match args[k].probe {
                    Some(pb) => {
                        match resolve_spec(pb, mounts, dirs).mount {
                            Some(m) => {
                                assert(prev.0.contains(m));
                                let w = choose|w: int| 0 <= w < prev.0.len() && prev.0[w] == m;
                                assert(ms[w] == m);
                                assert(ms.contains(m));
                            },
                            None => {},
                        }
                    },
                    None => {},
                }
            } else {
                let a = args.last();
                match a.probe {
                    Some(pb) => {
                        match resolve_spec(pb, mounts, dirs).mount {
                            Some(m) => {
                                if prev.0.contains(m) {
                                    let w = choose|w: int|
                                        0 <= w < prev.0.len() && prev.0[w] == m;
                                    assert(ms[w] == m);
                                } else {
                                    assert(ms[prev.0.len() as int] == m);
                                }
                                assert(ms.contains(m));
                            },
                            None => {},
                        }
                    },
                    None => {},
                }
            }
        }
    }
}

} // verus!

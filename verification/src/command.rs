//! The command declaration consumed by the invocation engine, and the pure
//! operations on whole command lists: merging by name, lookup, and registry
//! version substitution.

use crate::strutil;
use vstd::prelude::*;
use vstd::string::StrSliceExecFns;

verus! {

/// Spec-level image of a [`Cmd`].
pub ghost struct CmdView {
    pub name: Seq<char>,
    pub group: Seq<char>,
    pub version: Seq<char>,
    pub description: Seq<char>,
    pub registry: Seq<char>,
    pub volumes: Seq<Seq<char>>,
    pub user: Seq<char>,
    pub workdir: Option<Seq<char>>,
    pub enable_dynamic_volume_mounts: bool,
    pub needs_tty: bool,
    pub needs_ssh: bool,
    pub command_path: Option<Seq<char>>,
    pub align_with_host_user: bool,
    pub extra: Seq<(Seq<char>, Seq<char>)>,
}

/// A declared command: metadata, the image it maps to, and everything the
/// invocation engine needs — declared volume mounts, working directory,
/// whether dynamic mounts, a tty or ssh forwarding are wanted, and whether
/// the container user is aligned with the host user.
///
/// `command_path`, when present, is the path of the command file itself on
/// the local filesystem: such a command is not published anywhere and must
/// be built into an image on the fly.
#[derive(Debug, Clone, PartialEq, Eq)]
pub struct Cmd {
    pub name: String,
    pub group: String,
    pub version: String,
    pub description: String,
    pub registry: String,
    pub volumes: Vec<String>,
    pub user: String,
    pub workdir: Option<String>,
    pub enable_dynamic_volume_mounts: bool,
    pub needs_tty: bool,
    pub needs_ssh: bool,
    pub command_path: Option<String>,
    pub align_with_host_user: bool,
    pub extra: Vec<(String, String)>,
}

impl View for Cmd {
    type V = CmdView;

    open spec fn view(&self) -> CmdView {
        CmdView {
            name: self.name@,
            group: self.group@,
            version: self.version@,
            description: self.description@,
            registry: self.registry@,
            volumes: self.volumes.deep_view(),
            user: self.user@,
            workdir: self.workdir.deep_view(),
            enable_dynamic_volume_mounts: self.enable_dynamic_volume_mounts,
            needs_tty: self.needs_tty,
            needs_ssh: self.needs_ssh,
            command_path: self.command_path.deep_view(),
            align_with_host_user: self.align_with_host_user,
            extra: self.extra.deep_view(),
        }
    }
}

impl DeepView for Cmd {
    type V = CmdView;

    open spec fn deep_view(&self) -> CmdView {
        self@
    }
}

/// The version placeholder that a manifest registry reference may carry.
pub open spec fn version_marker() -> Seq<char> {
    seq!['$', '{', 'v', 'e', 'r', 's', 'i', 'o', 'n', '}']
}

/// Replaces every version placeholder in a registry reference by the
/// command's version.
pub fn resolve_registry_version(registry: &str, version: &str) -> (r: String)
    ensures
        r@ == strutil::replace_all_spec(registry@, version_marker(), version@),
{
    proof {
        reveal_strlit("${version}");
        assert("${version}"@ =~= version_marker());
    }
    strutil::replace_all(registry, "${version}", version)
}

/// A command as a manifest declares it, with the version placeholder in its
/// registry reference resolved.
pub open spec fn finalized_cmd(c: CmdView) -> CmdView {
    CmdView {
        registry: strutil::replace_all_spec(c.registry, version_marker(), c.version),
        ..c
    }
}

/// Resolves the version placeholder in every manifest command's registry
/// reference; all other fields pass through unchanged.
pub fn finalize_manifest_commands(cmds: Vec<Cmd>) -> (r: Vec<Cmd>)
    ensures
        r.deep_view().len() == cmds.deep_view().len(),
        forall|i: int|
            0 <= i < r.deep_view().len() ==> r.deep_view()[i] == finalized_cmd(
                cmds.deep_view()[i],
            ),
{
    let ghost cmds_v = cmds.deep_view();
    let mut out: Vec<Cmd> = Vec::new();
    let n = cmds.len();
    let mut cmds = cmds;
    let mut i: usize = 0;
    proof {
        assert(cmds.deep_view() =~= cmds_v.skip(0));
    }
    while i < n
        invariant
            n == cmds_v.len(),
            cmds@.len() == n - i,
            cmds.deep_view() == cmds_v.skip(i as int),
            i <= n,
            out@.len() == i,
            forall|j: int| 0 <= j < i ==> out.deep_view()[j] == finalized_cmd(cmds_v[j]),
        decreases n - i,
    {
        let ghost pre = cmds.deep_view();
        let ghost pre_seq = cmds@;
        let c = cmds.remove(0);
        proof {
            broadcast use vstd::seq_lib::group_seq_properties;

            assert(pre[0] == cmds_v[i as int]);
            assert(c.deep_view() == pre[0]);
            assert forall|k: int| 0 <= k < cmds@.len() implies cmds.deep_view()[k] == cmds_v.skip(
                i + 1,
            )[k] by {
                assert(cmds@[k] == pre_seq[k + 1]);
                assert(cmds.deep_view()[k] == pre[k + 1]);
            }
            assert(cmds.deep_view() =~= cmds_v.skip(i + 1));
        }
        let registry = resolve_registry_version(c.registry.as_str(), c.version.as_str());
        let done = Cmd { registry, ..c };
        let ghost done_v = done.deep_view();
        let ghost pre_out = out.deep_view();
        out.push(done);
        proof {
            assert(done_v == finalized_cmd(cmds_v[i as int]));
            assert forall|j: int| 0 <= j < i + 1 implies out.deep_view()[j] == finalized_cmd(
                cmds_v[j],
            ) by {
                if j < i {
                    assert(out.deep_view()[j] == pre_out[j]);
                } else {
                    assert(out.deep_view()[j] == done_v);
                }
            }
        }
        i += 1;
    }
    out
}

/// The first index in `cmds` whose command bears `name`.
pub open spec fn find_command_spec(cmds: Seq<CmdView>, name: Seq<char>) -> Option<int>
    decreases cmds.len(),
{
    if cmds.len() == 0 {
        None
    } else if cmds[0].name == name {
        Some(0int)
    } else {
        match find_command_spec(cmds.skip(1), name) {
            None => None,
            Some(j) => Some(j + 1),
        }
    }
}

/// A found index is inside the list and bears the name.
pub proof fn lemma_find_command_in_range(cmds: Seq<CmdView>, name: Seq<char>)
    ensures
        match find_command_spec(cmds, name) {
            None => true,
            Some(i) => 0 <= i < cmds.len() && cmds[i].name == name,
        },
    decreases cmds.len(),
{
    if cmds.len() > 0 && cmds[0].name != name {
        lemma_find_command_in_range(cmds.skip(1), name);
    }
}

/// Finds the first command bearing `name`.
pub fn find_command(cmds: &Vec<Cmd>, name: &str) -> (r: Option<usize>)
    ensures
        match r {
            None => find_command_spec(cmds.deep_view(), name@) is None,
            Some(i) => find_command_spec(cmds.deep_view(), name@) == Some(i as int),
        },
{
    let n = cmds.len();
    let mut i: usize = 0;
    proof {
        assert(cmds.deep_view().skip(0) =~= cmds.deep_view());
    }
    while i < n
        invariant
            n == cmds@.len(),
            i <= n,
            find_command_spec(cmds.deep_view(), name@) == match find_command_spec(
                cmds.deep_view().skip(i as int),
                name@,
            ) {
                None => Option::<int>::None,
                Some(j) => Some(j + i),
            },
            forall|j: int| 0 <= j < i ==> cmds.deep_view()[j].name != name@,
        decreases n - i,
    {
        if strutil::str_eq(cmds[i].name.as_str(), name) {
            proof {
                let tail = cmds.deep_view().skip(i as int);
                assert(tail[0] == cmds.deep_view()[i as int]);
            }
            return Some(i);
        }
        proof {
            let tail = cmds.deep_view().skip(i as int);
            assert(tail[0] == cmds.deep_view()[i as int]);
            assert(tail.skip(1) =~= cmds.deep_view().skip(i + 1));
        }
        i += 1;
    }
    proof {
        assert(cmds.deep_view().skip(n as int).len() == 0);
    }
    None
}

/// Merging commands by name: a later command with an already-present name
/// replaces the earlier one in place, and the replaced name is recorded as a
/// warning.
pub open spec fn merge_spec(cmds: Seq<CmdView>) -> (Seq<CmdView>, Seq<Seq<char>>)
    decreases cmds.len(),
{
    if cmds.len() == 0 {
        (Seq::<CmdView>::empty(), Seq::<Seq<char>>::empty())
    } else {
        let prev = merge_spec(cmds.drop_last());
        let c = cmds.last();
        match find_command_spec(prev.0, c.name) {
            None => (prev.0.push(c), prev.1),
            Some(i) => (prev.0.update(i, c), prev.1.push(c.name)),
        }
    }
}

/// Merges a command list so every name appears once — the last declaration
/// of a name wins and keeps the position of the first — and reports each
/// overwritten name.
pub fn merge_commands_by_name(cmds: Vec<Cmd>) -> (r: (Vec<Cmd>, Vec<String>))
    ensures
        r.0.deep_view() == merge_spec(cmds.deep_view()).0,
        r.1.deep_view() == merge_spec(cmds.deep_view()).1,
{
    let ghost cmds_v = cmds.deep_view();
    let mut out: Vec<Cmd> = Vec::new();
    let mut overwritten: Vec<String> = Vec::new();
    let n = cmds.len();
    proof {
        assert(out.deep_view() =~= merge_spec(cmds_v.take(0)).0);
        assert(overwritten.deep_view() =~= merge_spec(cmds_v.take(0)).1);
    }
    let mut cmds = cmds;
    let mut i: usize = 0;
    proof {
        assert(cmds.deep_view() =~= cmds_v.skip(0));
    }
    while i < n
        invariant
            n == cmds_v.len(),
            cmds@.len() == n - i,
            cmds.deep_view() == cmds_v.skip(i as int),
            i <= n,
            out.deep_view() == merge_spec(cmds_v.take(i as int)).0,
            overwritten.deep_view() == merge_spec(cmds_v.take(i as int)).1,
        decreases n - i,
    {
        let ghost pre = cmds.deep_view();
        let ghost pre_seq = cmds@;
        let c = cmds.remove(0);
        proof {
            broadcast use vstd::seq_lib::group_seq_properties;

            assert(pre[0] == cmds_v[i as int]);
            assert(c.deep_view() == pre[0]);
            assert(cmds@ == pre_seq.remove(0));
            assert forall|k: int| 0 <= k < cmds@.len() implies cmds.deep_view()[k] == cmds_v.skip(
                i + 1,
            )[k] by {
                assert(cmds@[k] == pre_seq[k + 1]);
                assert(cmds.deep_view()[k] == pre[k + 1]);
            }
            assert(cmds.deep_view() =~= cmds_v.skip(i + 1));
        }
        let ghost cur = cmds_v.take(i + 1);
        let name_pos = find_command(&out, c.name.as_str());
        proof {
            lemma_find_command_in_range(out.deep_view(), c.name@);
        }
        match name_pos {
            None => {
                out.push(c);
            },
            Some(j) => {
                overwritten.push(c.name.clone());
                out.remove(j);
                out.insert(j, c);
            },
        }
        proof {
            assert(cur.drop_last() =~= cmds_v.take(i as int));
            assert(cur.last() == cmds_v[i as int]);
            assert(out.deep_view() =~= merge_spec(cur).0);
            assert(overwritten.deep_view() =~= merge_spec(cur).1);
        }
        i += 1;
    }
    proof {
        assert(cmds_v.take(n as int) =~= cmds_v);
    }
    (out, overwritten)
}

/// Law: after a merge, every command name appears at most once.
pub proof fn lemma_merged_names_unique(cmds: Seq<CmdView>)
    ensures
        forall|i: int, j: int|
            0 <= i < j < merge_spec(cmds).0.len() ==> merge_spec(cmds).0[i].name != merge_spec(
                cmds,
            ).0[j].name,
    decreases cmds.len(),
{
    if cmds.len() > 0 {
        lemma_merged_names_unique(cmds.drop_last());
        let prev = merge_spec(cmds.drop_last()).0;
        let c = cmds.last();
        let ms = merge_spec(cmds).0;
        lemma_find_command_in_range(prev, c.name);
        lemma_find_command_none(prev, c.name);
        assert forall|i: int, j: int| 0 <= i < j < ms.len() implies ms[i].name != ms[j].name by {
            match find_command_spec(prev, c.name) {
                None => {
                    if j == prev.len() {
                        assert(ms[j] == c);
                        assert(prev[i].name != c.name);
                    } else {
                        assert(ms[i] == prev[i] && ms[j] == prev[j]);
                    }
                },
                Some(w) => {
                    assert(ms =~= prev.update(w, c));
                    if i == w {
                        assert(ms[j] == prev[j]);
                        assert(prev[w].name == c.name);
                    } else if j == w {
                        assert(ms[i] == prev[i]);
                        assert(prev[w].name == c.name);
                    } else {
                        assert(ms[i] == prev[i] && ms[j] == prev[j]);
                    }
                },
            }
        }
    }
}

/// When no index is found, no entry bears the name.
pub proof fn lemma_find_command_none(cmds: Seq<CmdView>, name: Seq<char>)
    ensures
        find_command_spec(cmds, name) is None ==> forall|i: int|
            0 <= i < cmds.len() ==> cmds[i].name != name,
    decreases cmds.len(),
{
    if cmds.len() > 0 {
        lemma_find_command_none(cmds.skip(1), name);
        if find_command_spec(cmds, name) is None {
            assert forall|i: int| 0 <= i < cmds.len() implies cmds[i].name != name by {
                if i > 0 {
                    assert(cmds.skip(1)[i - 1] == cmds[i]);
                }
            }
        }
    }
}

} // verus!

//! The invocation assembler and serializer: merging declared, dynamic,
//! workdir-inferred and ssh-forwarding mounts with environment variables
//! into one `DockerRun` description, and rendering it as the argument
//! vector of the container runtime's `run` subcommand.

use crate::collect::ArgView;
use crate::collect::ProbedArg;
use crate::collect::collect_spec;
use crate::collect::get_dynamic_volumes_and_new_args;
use crate::paths;
use crate::strutil;
use crate::volumes::DynamicVolumeMount;
use crate::volumes::MountView;
use crate::volumes::ProbeView;
use crate::volumes::ProbedPath;
use crate::volumes::VolumeMount;
use crate::volumes::get_dynamic_volume_mounts;
use crate::volumes::resolve_spec;
use crate::command::Cmd;
use crate::command::CmdView;
use vstd::prelude::*;
use vstd::string::StrSliceExecFns;
use vstd::string::StringExecFns;

verus! {

/// Spec-level image of an [`EnvVar`].
pub ghost struct EnvView {
    pub key: Seq<char>,
    pub val: Seq<char>,
}

/// One environment variable handed to the container.
#[derive(Debug, Clone, PartialEq, Eq)]
pub struct EnvVar {
    pub key: String,
    pub val: String,
}

impl View for EnvVar {
    type V = EnvView;

    open spec fn view(&self) -> EnvView {
        EnvView { key: self.key@, val: self.val@ }
    }
}

impl DeepView for EnvVar {
    type V = EnvView;

    open spec fn deep_view(&self) -> EnvView {
        self@
    }
}

/// Spec-level image of a [`DockerRun`].
pub ghost struct DockerRunView {
    pub image_name: Seq<char>,
    pub interactive: bool,
    pub tty: bool,
    pub user: Option<Seq<char>>,
    pub env_vars: Seq<EnvView>,
    pub volumes: Seq<MountView>,
    pub workdir: Option<Seq<char>>,
    pub args: Seq<Seq<char>>,
}

/// Everything needed to run one command via the container runtime: image,
/// interactivity, user, environment, volumes, working directory and the
/// command's own arguments, all in their final order.
#[derive(Debug, PartialEq, Eq)]
pub struct DockerRun {
    pub image_name: String,
    pub interactive: bool,
    pub tty: bool,
    pub user: Option<String>,
    pub env_vars: Vec<EnvVar>,
    pub volumes: Vec<VolumeMount>,
    pub workdir: Option<String>,
    pub args: Vec<String>,
}

impl View for DockerRun {
    type V = DockerRunView;

    open spec fn view(&self) -> DockerRunView {
        DockerRunView {
            image_name: self.image_name@,
            interactive: self.interactive,
            tty: self.tty,
            user: self.user.deep_view(),
            env_vars: self.env_vars.deep_view(),
            volumes: self.volumes.deep_view(),
            workdir: self.workdir.deep_view(),
            args: self.args.deep_view(),
        }
    }
}

/// The `--env` arguments: one `--env KEY=VAL` pair per variable, in order.
pub open spec fn env_flag_args(es: Seq<EnvView>) -> Seq<Seq<char>>
    decreases es.len(),
{
    if es.len() == 0 {
        Seq::<Seq<char>>::empty()
    } else {
        env_flag_args(es.drop_last()) + seq![
            "--env"@,
            es.last().key + seq!['='] + es.last().val,
        ]
    }
}

/// How one mount renders: `FROM:TO` with the options appended when present.
pub open spec fn volume_arg(m: MountView) -> Seq<char> {
    match m.options {
        None => m.from + seq![':'] + m.to,
        Some(o) => m.from + seq![':'] + m.to + seq![':'] + o,
    }
}

/// The `--volume` arguments: one `--volume FROM:TO[:OPTS]` pair per mount,
/// in order.
pub open spec fn volume_flag_args(vs: Seq<MountView>) -> Seq<Seq<char>>
    decreases vs.len(),
{
    if vs.len() == 0 {
        Seq::<Seq<char>>::empty()
    } else {
        volume_flag_args(vs.drop_last()) + seq!["--volume"@, volume_arg(vs.last())]
    }
}

/// The full argument vector for the runtime's `run` subcommand, in the
/// fixed order: flags, environment, volumes, workdir, image, arguments.
pub open spec fn run_args_spec(d: DockerRunView) -> Seq<Seq<char>> {
    seq!["run"@] + (if d.interactive {
        seq!["-i"@]
    } else {
        Seq::<Seq<char>>::empty()
    }) + (if d.tty {
        seq!["-t"@]
    } else {
        Seq::<Seq<char>>::empty()
    }) + (match d.user {
        Some(u) => seq!["--user"@, u],
        None => Seq::<Seq<char>>::empty(),
    }) + env_flag_args(d.env_vars) + volume_flag_args(d.volumes) + (match d.workdir {
        Some(w) => seq!["--workdir"@, w],
        None => Seq::<Seq<char>>::empty(),
    }) + seq![d.image_name] + d.args
}

/// Renders a `DockerRun` as the argument vector of the runtime's `run`
/// subcommand, preserving the fixed flag order exactly.
pub fn docker_run_to_args(docker_run: &DockerRun) -> (r: Vec<String>)
    ensures
        r.deep_view() == run_args_spec(docker_run@),
{
    let mut out: Vec<String> = Vec::new();
    out.push("run".to_owned());
    if docker_run.interactive {
        out.push("-i".to_owned());
    }
    if docker_run.tty {
        out.push("-t".to_owned());
    }
    match &docker_run.user {
        Some(u) => {
            out.push("--user".to_owned());
            out.push(u.clone());
        },
        None => {},
    }
    let ghost prefix_env = out.deep_view();
    proof {
        assert(prefix_env =~= seq!["run"@] + (if docker_run@.interactive {
            seq!["-i"@]
        } else {
            Seq::<Seq<char>>::empty()
        }) + (if docker_run@.tty {
            seq!["-t"@]
        } else {
            Seq::<Seq<char>>::empty()
        }) + (match docker_run@.user {
            Some(u) => seq!["--user"@, u],
            None => Seq::<Seq<char>>::empty(),
        }));
    }
    let ghost envs_v = docker_run.env_vars.deep_view();
    let n_env = docker_run.env_vars.len();
    let mut i: usize = 0;
    proof {
        assert(envs_v.take(0) =~= Seq::<EnvView>::empty());
        assert(out.deep_view() =~= prefix_env + env_flag_args(envs_v.take(0)));
    }
    while i < n_env
        invariant
            n_env == docker_run.env_vars@.len(),
            envs_v == docker_run.env_vars.deep_view(),
            i <= n_env,
            out.deep_view() == prefix_env + env_flag_args(envs_v.take(i as int)),
        decreases n_env - i,
    {
        let ghost pre_out = out.deep_view();
        out.push("--env".to_owned());
        let mut kv = docker_run.env_vars[i].key.clone();
        kv.append("=");
        kv.append(docker_run.env_vars[i].val.as_str());
        let ghost kv_v = kv@;
        out.push(kv);
        proof {
            reveal_strlit("=");
            assert("="@ =~= seq!['=']);
            let cur = envs_v.take(i + 1);
            assert(cur.drop_last() =~= envs_v.take(i as int));
            assert(cur.last() == envs_v[i as int]);
            assert(envs_v[i as int] == docker_run.env_vars@[i as int]@);
            assert(kv_v =~= envs_v[i as int].key + seq!['='] + envs_v[i as int].val);
            assert(out.deep_view() =~= pre_out.push("--env"@).push(kv_v));
            assert(out.deep_view() =~= prefix_env + env_flag_args(cur));
        }
        i += 1;
    }
    proof {
        assert(envs_v.take(n_env as int) =~= envs_v);
    }
    let ghost prefix_vol = out.deep_view();
    let ghost vols_v = docker_run.volumes.deep_view();
    let n_vol = docker_run.volumes.len();
    let mut j: usize = 0;
    proof {
        assert(vols_v.take(0) =~= Seq::<MountView>::empty());
        assert(out.deep_view() =~= prefix_vol + volume_flag_args(vols_v.take(0)));
    }
    while j < n_vol
        invariant
            n_vol == docker_run.volumes@.len(),
            vols_v == docker_run.volumes.deep_view(),
            j <= n_vol,
            out.deep_view() == prefix_vol + volume_flag_args(vols_v.take(j as int)),
        decreases n_vol - j,
    {
        let ghost pre_out = out.deep_view();
        out.push("--volume".to_owned());
        let mut fv = docker_run.volumes[j].from.clone();
        fv.append(":");
        fv.append(docker_run.volumes[j].to.as_str());
        match &docker_run.volumes[j].options {
            Some(opts) => {
                fv.append(":");
                fv.append(opts.as_str());
            },
            None => {},
        }
        proof {
            reveal_strlit(":");
            assert(":"@ =~= seq![':']);
            assert(fv@ =~= volume_arg(docker_run.volumes@[j as int]@));
        }
        let ghost fv_v = fv@;
        out.push(fv);
        proof {
            let cur = vols_v.take(j + 1);
            assert(cur.drop_last() =~= vols_v.take(j as int));
            assert(cur.last() == vols_v[j as int]);
            assert(vols_v[j as int] == docker_run.volumes@[j as int]@);
            assert(out.deep_view() =~= pre_out.push("--volume"@).push(fv_v));
            assert(out.deep_view() =~= prefix_vol + volume_flag_args(cur));
        }
        j += 1;
    }
    proof {
        assert(vols_v.take(n_vol as int) =~= vols_v);
    }
    match &docker_run.workdir {
        Some(w) => {
            out.push("--workdir".to_owned());
            out.push(w.clone());
        },
        None => {},
    }
    out.push(docker_run.image_name.clone());
    let ghost prefix_args = out.deep_view();
    proof {
        assert(prefix_args =~= prefix_vol + volume_flag_args(vols_v) + (
        match docker_run@.workdir {
            Some(w) => seq!["--workdir"@, w],
            None => Seq::<Seq<char>>::empty(),
        }) + seq![docker_run@.image_name]);
    }
    let ghost args_v = docker_run.args.deep_view();
    let n_args = docker_run.args.len();
    let mut k: usize = 0;
    proof {
        assert(args_v.take(0) =~= Seq::<Seq<char>>::empty());
        assert(out.deep_view() =~= prefix_args + args_v.take(0));
    }
    while k < n_args
        invariant
            n_args == docker_run.args@.len(),
            args_v == docker_run.args.deep_view(),
            k <= n_args,
            out.deep_view() == prefix_args + args_v.take(k as int),
        decreases n_args - k,
    {
        let ghost pre_out = out.deep_view();
        out.push(docker_run.args[k].clone());
        proof {
            let cur = args_v.take(k + 1);
            assert(cur.drop_last() =~= args_v.take(k as int));
            assert(cur.last() == args_v[k as int]);
            assert(out.deep_view() =~= pre_out.push(args_v[k as int]));
            assert(out.deep_view() =~= prefix_args + cur);
        }
        k += 1;
    }
    proof {
        assert(args_v.take(n_args as int) =~= args_v);
        assert(out.deep_view() =~= run_args_spec(docker_run@));
    }
    out
}

/// Renders the dry-run line exactly as it is printed: the runtime name
/// followed by all arguments, space-separated.
pub fn dry_run_line(docker_args: &Vec<String>) -> (r: String)
    ensures
        r@ == "docker "@ + strutil::join_spaces_spec(docker_args.deep_view()),
{
    let joined = strutil::join_spaces(docker_args);
    strutil::concat_str("docker ", joined.as_str())
}

/// The invoking user's numeric identity, injected as plain values so the
/// engine needs no process-wide lookups.
#[derive(Debug, Clone)]
pub struct HostIdentity {
    pub uid: String,
    pub gid: String,
}

/// A non-fatal condition met while assembling an invocation; the invocation
/// still proceeds.
#[derive(Debug, Clone, PartialEq, Eq)]
pub enum Warning {
    /// ssh forwarding was required but no auth socket is present in the
    /// environment; the invocation goes on without forwarding.
    SshSocketMissing,
}

impl Warning {
    /// A human-readable account of the warning.
    pub fn message(&self) -> (r: String)
        ensures
            r@
                == "This command requires access to SSH, most likely to clone a git repo. But the SSH auth socket was not found."@,
    {
        "This command requires access to SSH, most likely to clone a git repo. But the SSH auth socket was not found.".to_owned()
    }
}

/// A declared working directory that cannot be honored: a command-author
/// error, fatal before any invocation.
#[derive(Debug, Clone, PartialEq, Eq)]
pub enum WorkdirError {
    /// The declared working directory does not exist on the host.
    Missing { workdir: String },
    /// The declared working directory exists but is not a directory.
    NotADirectory { workdir: String },
}

impl WorkdirError {
    /// A human-readable account of the error.
    pub fn message(&self) -> (r: String)
        ensures
            match self {
                WorkdirError::Missing { workdir } => r@
                    == "The command was configured with a WORKDIR that does not exist in your local filesystem: "@
                    + workdir@,
                WorkdirError::NotADirectory { workdir } => r@
                    == "The command was configured with a WORKDIR that is not a directory: "@
                    + workdir@,
            },
    {
        match self {
            WorkdirError::Missing { workdir } => strutil::concat_str(
                "The command was configured with a WORKDIR that does not exist in your local filesystem: ",
                workdir.as_str(),
            ),
            WorkdirError::NotADirectory { workdir } => strutil::concat_str(
                "The command was configured with a WORKDIR that is not a directory: ",
                workdir.as_str(),
            ),
        }
    }
}

/// Resolves a declared working directory. One that starts with a home or
/// working-directory marker refers to the host filesystem: its expanded
/// path must exist and be a directory (`probe` carries what the host
/// reports about it), and it is resolved against the existing mounts like
/// any other host path. Any other declaration is an in-container path and
/// is used as-is.
pub fn infer_workdir(
    workdir: &str,
    probe: &Option<ProbedPath>,
    existent_mounts: &Vec<VolumeMount>,
    host_dirs: &Vec<bool>,
) -> (r: Result<DynamicVolumeMount, WorkdirError>)
    requires
        existent_mounts@.len() == host_dirs@.len(),
    ensures
        !paths::workdir_needs_resolution_spec(workdir@) ==> (r matches Ok(d) && d@.mount is None
            && d@.path_within_mounted_volume == workdir@),
        paths::workdir_needs_resolution_spec(workdir@) ==> match probe {
            None => r matches Err(e) && e matches WorkdirError::Missing { workdir: wd } && wd@
                == workdir@,
            Some(pp) => if pp@.anchor == pp@.path {
                r matches Ok(d) && d@ == resolve_spec(
                    pp@,
                    existent_mounts.deep_view(),
                    host_dirs@,
                )
            } else {
                r matches Err(e) && e matches WorkdirError::NotADirectory { workdir: wd } && wd@
                    == workdir@
            },
        },
{
    if !paths::workdir_needs_resolution(workdir) {
        return Ok(
            DynamicVolumeMount { mount: None, path_within_mounted_volume: workdir.to_owned() },
        );
    }
    match probe {
        None => Err(WorkdirError::Missing { workdir: workdir.to_owned() }),
        Some(pp) => {
            if strutil::str_eq(pp.path.as_str(), pp.anchor.as_str()) {
                Ok(get_dynamic_volume_mounts(pp, existent_mounts, host_dirs))
            } else {
                Err(WorkdirError::NotADirectory { workdir: workdir.to_owned() })
            }
        },
    }
}

/// What must happen to one mount's host path before the runtime starts.
#[derive(Debug, Clone, Copy, PartialEq, Eq)]
pub enum VolumeAction {
    /// The host path exists; nothing to do.
    Ready,
    /// The host path is missing and identity alignment is on: create the
    /// directory beforehand, else the runtime would create it owned by
    /// root.
    CreateDirectory,
    /// The host path is missing and alignment is off: warn, and let the
    /// runtime create it with default ownership.
    WarnMissing,
}

/// Decides, mount by mount, what preparation each host path needs;
/// `host_exists[i]` says whether `volumes[i].from` exists on the host.
pub fn volume_actions(
    volumes: &Vec<VolumeMount>,
    host_exists: &Vec<bool>,
    align_with_host_user: bool,
) -> (r: Vec<VolumeAction>)
    requires
        volumes@.len() == host_exists@.len(),
    ensures
        r@.len() == volumes@.len(),
        forall|i: int|
            0 <= i < r@.len() ==> r@[i] == (if host_exists@[i] {
                VolumeAction::Ready
            } else if align_with_host_user {
                VolumeAction::CreateDirectory
            } else {
                VolumeAction::WarnMissing
            }),
{
    let mut out: Vec<VolumeAction> = Vec::new();
    let n = volumes.len();
    let mut i: usize = 0;
    while i < n
        invariant
            n == host_exists@.len(),
            i <= n,
            out@.len() == i,
            forall|j: int|
                0 <= j < i ==> out@[j] == (if host_exists@[j] {
                    VolumeAction::Ready
                } else if align_with_host_user {
                    VolumeAction::CreateDirectory
                } else {
                    VolumeAction::WarnMissing
                }),
        decreases n - i,
    {
        if host_exists[i] {
            out.push(VolumeAction::Ready);
        } else if align_with_host_user {
            out.push(VolumeAction::CreateDirectory);
        } else {
            out.push(VolumeAction::WarnMissing);
        }
        i += 1;
    }
    out
}

/// The mount through which the host's ssh agent socket is forwarded into
/// the container, at a fixed in-container path.
pub open spec fn ssh_mount_view(sock: Seq<char>) -> MountView {
    MountView { from: sock, to: "/ssh-auth-sock"@, options: None }
}

/// The variable that points the container at the forwarded socket.
pub open spec fn ssh_env_view() -> EnvView {
    EnvView { key: "SSH_AUTH_SOCK"@, val: "/ssh-auth-sock"@ }
}

/// The host user's numeric identity, always injected into the environment.
pub open spec fn identity_env_views(uid: Seq<char>, gid: Seq<char>) -> Seq<EnvView> {
    seq![
        EnvView { key: "HOST_USER_ID"@, val: uid },
        EnvView { key: "HOST_GROUP_ID"@, val: gid },
    ]
}

/// The fields every successful assembly fixes: image, interactivity, tty,
/// user precedence (an explicit per-command user wins, an empty one leaves
/// the runtime default), and the exact environment, volume, workdir and
/// argument sequences.
pub open spec fn run_matches(
    run: DockerRunView,
    warnings: Seq<Warning>,
    cmd: CmdView,
    run_args: Seq<Seq<char>>,
    volumes: Seq<MountView>,
    envs: Seq<EnvView>,
    warns: Seq<Warning>,
    wd: Option<Seq<char>>,
) -> bool {
    &&& run.image_name == cmd.registry
    &&& run.interactive == true
    &&& run.tty == cmd.needs_tty
    &&& (cmd.user.len() == 0 ==> run.user is None)
    &&& (cmd.user.len() > 0 ==> run.user == Some(cmd.user))
    &&& run.env_vars == envs
    &&& run.volumes == volumes
    &&& run.workdir == wd
    &&& run.args == run_args
    &&& warnings == warns
}

/// Everything `build_docker_run` promises, one case per workdir situation.
///
/// Mounts are ordered: declared, then dynamic (in order of first need),
/// then the workdir-inferred mount, then the ssh-forwarding mount.
/// Environment: the ssh variable first (only when forwarding succeeded),
/// then the host user and group ids. A missing ssh socket is only a
/// warning; a missing or non-directory workdir is the only error.
pub open spec fn build_post(
    cmd: CmdView,
    args: Seq<ArgView>,
    mounts_v: Seq<MountView>,
    dirs_v: Seq<bool>,
    probe: Option<ProbeView>,
    sock: Option<Seq<char>>,
    uid: Seq<char>,
    gid: Seq<char>,
    disable_dynamic_mounts: bool,
    r: Result<(DockerRun, Vec<Warning>), WorkdirError>,
) -> bool {
    let dyn_on = cmd.enable_dynamic_volume_mounts && !disable_dynamic_mounts;
    let collected = collect_spec(args, mounts_v, dirs_v);
    let dyn_mounts = if dyn_on {
        collected.0
    } else {
        Seq::<MountView>::empty()
    };
    let run_args = if dyn_on {
        collected.1
    } else {
        Seq::new(args.len(), |i: int| args[i].value)
    };
    let base_mounts = mounts_v + dyn_mounts;
    let wdirs = dirs_v + Seq::new(dyn_mounts.len(), |i: int| true);
    let ssh_mounts = match sock {
        Some(s) => if cmd.needs_ssh {
            seq![ssh_mount_view(s)]
        } else {
            Seq::<MountView>::empty()
        },
        None => Seq::<MountView>::empty(),
    };
    let ssh_envs = match sock {
        Some(s) => if cmd.needs_ssh {
            seq![ssh_env_view()]
        } else {
            Seq::<EnvView>::empty()
        },
        None => Seq::<EnvView>::empty(),
    };
    let envs = ssh_envs + identity_env_views(uid, gid);
    let warns = if cmd.needs_ssh && sock is None {
        seq![Warning::SshSocketMissing]
    } else {
        Seq::<Warning>::empty()
    };
    match cmd.workdir {
        None => r matches Ok(out) && run_matches(
            out.0@,
            out.1@,
            cmd,
            run_args,
            base_mounts + ssh_mounts,
            envs,
            warns,
            None,
        ),
        Some(w) => if !paths::workdir_needs_resolution_spec(w) {
            r matches Ok(out) && run_matches(
                out.0@,
                out.1@,
                cmd,
                run_args,
                base_mounts + ssh_mounts,
                envs,
                warns,
                Some(w),
            )
        } else {
            match probe {
                None => r matches Err(e) && e matches WorkdirError::Missing { workdir: wd } && wd@
                    == w,
                Some(pp) => if pp.anchor == pp.path {
                    let rw = resolve_spec(pp, base_mounts, wdirs);
                    let wmounts = match rw.mount {
                        Some(m) => seq![m],
                        None => Seq::<MountView>::empty(),
                    };
                    r matches Ok(out) && run_matches(
                        out.0@,
                        out.1@,
                        cmd,
                        run_args,
                        base_mounts + wmounts + ssh_mounts,
                        envs,
                        warns,
                        Some(rw.path_within_mounted_volume),
                    )
                } else {
                    r matches Err(e) && e matches WorkdirError::NotADirectory { workdir: wd }
                        && wd@ == w
                },
            }
        },
    }
}

/// Builds the full invocation description for one command: parses nothing
/// itself — the declared mounts come in already parsed, together with the
/// host facts (which mount sources are directories, the probes of the
/// arguments and of the expanded workdir, the ssh socket, the invoking
/// identity) — and merges declared, dynamic, workdir and ssh mounts, the
/// environment and the rewritten arguments in their fixed order.
pub fn build_docker_run(
    cmd: &Cmd,
    args: &Vec<ProbedArg>,
    declared_mounts: Vec<VolumeMount>,
    declared_dirs: &Vec<bool>,
    workdir_probe: &Option<ProbedPath>,
    ssh_auth_sock: &Option<String>,
    identity: &HostIdentity,
    disable_dynamic_mounts: bool,
) -> (r: Result<(DockerRun, Vec<Warning>), WorkdirError>)
    requires
        declared_mounts@.len() == declared_dirs@.len(),
    ensures
        build_post(
            cmd@,
            args.deep_view(),
            declared_mounts.deep_view(),
            declared_dirs@,
            workdir_probe.deep_view(),
            ssh_auth_sock.deep_view(),
            identity.uid@,
            identity.gid@,
            disable_dynamic_mounts,
            r,
        ),
{
    let ghost mounts_v = declared_mounts.deep_view();
    let ghost dirs_v = declared_dirs@;
    let ghost args_v = args.deep_view();
    let dyn_on = cmd.enable_dynamic_volume_mounts && !disable_dynamic_mounts;
    let (mut dyn_mounts, run_args): (Vec<VolumeMount>, Vec<String>) = if dyn_on {
        get_dynamic_volumes_and_new_args(args, &declared_mounts, declared_dirs)
    } else {
        let mut vs: Vec<String> = Vec::new();
        let n = args.len();
        let mut i: usize = 0;
        proof {
            assert(vs.deep_view() =~= Seq::new(0, |k: int| args_v[k].value));
        }
        while i < n
            invariant
                n == args@.len(),
                args_v == args.deep_view(),
                i <= n,
                vs.deep_view() == Seq::new(i as nat, |k: int| args_v[k].value),
            decreases n - i,
        {
            let ghost pre = vs.deep_view();
            vs.push(args[i].value.clone());
            proof {
                assert(args_v[i as int] == args@[i as int].deep_view());
                assert(vs.deep_view() =~= pre.push(args_v[i as int].value));
                assert(vs.deep_view() =~= Seq::new((i + 1) as nat, |k: int| args_v[k].value));
            }
            i += 1;
        }
        (Vec::new(), vs)
    };
    let ghost dyn_v = dyn_mounts.deep_view();
    let ghost base_v = mounts_v + dyn_v;
    proof {
        if !dyn_on {
            assert(base_v =~= mounts_v);
        }
    }
    let mut volumes = declared_mounts;
    let nd = volumes.len();
    volumes.append(&mut dyn_mounts);
    proof {
        assert forall|k: int| 0 <= k < volumes@.len() implies volumes.deep_view()[k]
            == base_v[k] by {}
        assert(volumes.deep_view() =~= base_v);
    }
    let workdir_res: Option<String>;
    match &cmd.workdir {
        None => {
            workdir_res = None;
        },
        Some(w) => {
            if !paths::workdir_needs_resolution(w.as_str()) {
                workdir_res = Some(w.clone());
            } else {
                match workdir_probe {
                    None => {
                        return Err(WorkdirError::Missing { workdir: w.clone() });
                    },
                    Some(pp) => {
                        if strutil::str_eq(pp.path.as_str(), pp.anchor.as_str()) {
                            let mut wdirs: Vec<bool> = Vec::new();
                            let mut i: usize = 0;
                            while i < nd
                                invariant
                                    nd <= declared_dirs@.len(),
                                    dirs_v == declared_dirs@,
                                    i <= nd,
                                    wdirs@ == dirs_v.take(i as int),
                                decreases nd - i,
                            {
                                wdirs.push(declared_dirs[i]);
                                proof {
                                    assert(wdirs@ =~= dirs_v.take(i + 1));
                                }
                                i += 1;
                            }
                            proof {
                                assert(dirs_v.take(nd as int) =~= dirs_v);
                            }
                            let n_dyn = volumes.len() - nd;
                            let mut j: usize = 0;
                            while j < n_dyn
                                invariant
                                    dirs_v == declared_dirs@,
                                    j <= n_dyn,
                                    wdirs@ == dirs_v + Seq::new(j as nat, |k: int| true),
                                decreases n_dyn - j,
                            {
                                wdirs.push(true);
                                proof {
                                    assert(wdirs@ =~= dirs_v + Seq::new(
                                        (j + 1) as nat,
                                        |k: int| true,
                                    ));
                                }
                                j += 1;
                            }
                            proof {
                                assert(wdirs@.len() == volumes@.len());
                                assert(wdirs@ =~= dirs_v + Seq::new(dyn_v.len(), |k: int| true));
                            }
                            let resolved = get_dynamic_volume_mounts(pp, &volumes, &wdirs);
                            let ghost pre_vols = volumes.deep_view();
                            match resolved.mount {
                                Some(m) => {
                                    let ghost mv = m@;
                                    volumes.push(m);
                                    proof {
                                        assert(volumes.deep_view() =~= pre_vols.push(mv));
                                        assert(volumes.deep_view() =~= base_v + seq![mv]);
                                    }
                                },
                                None => {
                                    proof {
                                        assert(volumes.deep_view() =~= base_v
                                            + Seq::<MountView>::empty());
                                    }
                                },
                            }
                            workdir_res = Some(resolved.path_within_mounted_volume);
                        } else {
                            return Err(WorkdirError::NotADirectory { workdir: w.clone() });
                        }
                    },
                }
            }
        },
    }
    let ghost with_wd_v = volumes.deep_view();
    let mut env_vars: Vec<EnvVar> = Vec::new();
    let mut warnings: Vec<Warning> = Vec::new();
    if cmd.needs_ssh {
        match ssh_auth_sock {
            Some(sock) => {
                let ghost pre_vols = volumes.deep_view();
                volumes.push(
                    VolumeMount {
                        from: sock.clone(),
                        to: "/ssh-auth-sock".to_owned(),
                        options: None,
                    },
                );
                env_vars.push(
                    EnvVar { key: "SSH_AUTH_SOCK".to_owned(), val: "/ssh-auth-sock".to_owned() },
                );
                proof {
                    assert(volumes.deep_view() =~= pre_vols.push(ssh_mount_view(sock@)));
                    assert(volumes.deep_view() =~= with_wd_v + seq![ssh_mount_view(sock@)]);
                    assert(env_vars.deep_view() =~= seq![ssh_env_view()]);
                }
            },
            None => {
                warnings.push(Warning::SshSocketMissing);
            },
        }
    }
    proof {
        if !(cmd.needs_ssh && ssh_auth_sock is Some) {
            assert(volumes.deep_view() =~= with_wd_v + Seq::<MountView>::empty());
        }
    }
    let ghost pre_envs = env_vars.deep_view();
    env_vars.push(EnvVar { key: "HOST_USER_ID".to_owned(), val: identity.uid.clone() });
    env_vars.push(EnvVar { key: "HOST_GROUP_ID".to_owned(), val: identity.gid.clone() });
    proof {
        assert(env_vars.deep_view() =~= pre_envs + identity_env_views(
            identity.uid@,
            identity.gid@,
        ));
    }
    let user: Option<String> = if cmd.user.as_str().unicode_len() > 0 {
        Some(cmd.user.clone())
    } else {
        None
    };
    let run = DockerRun {
        image_name: cmd.registry.clone(),
        interactive: true,
        tty: cmd.needs_tty,
        user,
        env_vars,
        volumes,
        workdir: workdir_res,
        args: run_args,
    };
    Ok((run, warnings))
}

} // verus!

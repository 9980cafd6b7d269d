use macondo::collect::ProbedArg;
use macondo::command::Cmd;
use macondo::docker::DockerRun;
use macondo::docker::EnvVar;
use macondo::docker::HostIdentity;
use macondo::docker::VolumeAction;
use macondo::docker::Warning;
use macondo::docker::WorkdirError;
use macondo::docker::build_docker_run;
use macondo::docker::docker_run_to_args;
use macondo::docker::dry_run_line;
use macondo::docker::infer_workdir;
use macondo::docker::volume_actions;
use macondo::volumes::ProbedPath;
use macondo::volumes::VolumeMount;

fn base_cmd() -> Cmd {
    Cmd {
        name: "tool".to_string(),
        group: String::new(),
        version: "0.1.0".to_string(),
        description: String::new(),
        registry: "example/tool:1".to_string(),
        volumes: vec![],
        user: String::new(),
        workdir: None,
        enable_dynamic_volume_mounts: false,
        needs_tty: false,
        needs_ssh: false,
        command_path: None,
        align_with_host_user: true,
        extra: vec![],
    }
}

fn identity() -> HostIdentity {
    HostIdentity { uid: "1000".to_string(), gid: "1001".to_string() }
}

fn plain(value: &str) -> ProbedArg {
    ProbedArg { value: value.to_string(), probe: None }
}

fn pathed(value: &str, path: &str, anchor: &str) -> ProbedArg {
    ProbedArg {
        value: value.to_string(),
        probe: Some(ProbedPath { path: path.to_string(), anchor: anchor.to_string() }),
    }
}

fn mount(from: &str, to: &str) -> VolumeMount {
    VolumeMount { from: from.to_string(), to: to.to_string(), options: None }
}

fn env(key: &str, val: &str) -> EnvVar {
    EnvVar { key: key.to_string(), val: val.to_string() }
}

#[test]
fn dynamic_mount_from_first_existing_ancestor_directory() {
    // no declared mounts, dynamic mounts enabled; the project root is the
    // first existing ancestor directory of the referenced file
    let mut cmd = base_cmd();
    cmd.enable_dynamic_volume_mounts = true;
    let args = vec![
        plain("build"),
        pathed("/home/u/project/src/main.go", "/home/u/project/src/main.go", "/home/u/project"),
    ];
    let (run, warnings) =
        build_docker_run(&cmd, &args, vec![], &vec![], &None, &None, &identity(), false).unwrap();
    assert!(warnings.is_empty());
    assert_eq!(run.volumes, vec![mount("/home/u/project", "/_mnt/home/u/project")]);
    assert_eq!(run.args, vec!["build", "/_mnt/home/u/project/src/main.go"]);
}

#[test]
fn declared_mount_covers_argument_without_new_mount() {
    let mut cmd = base_cmd();
    cmd.enable_dynamic_volume_mounts = true;
    let declared = vec![mount("/home/u/data", "/data")];
    let args =
        vec![pathed("/home/u/data/input.csv", "/home/u/data/input.csv", "/home/u/data")];
    let (run, _) = build_docker_run(
        &cmd,
        &args,
        declared.clone(),
        &vec![true],
        &None,
        &None,
        &identity(),
        false,
    )
    .unwrap();
    assert_eq!(run.volumes, declared);
    assert_eq!(run.args, vec!["/data/input.csv"]);
}

#[test]
fn missing_ssh_socket_is_only_a_warning() {
    let mut cmd = base_cmd();
    cmd.needs_ssh = true;
    let (run, warnings) =
        build_docker_run(&cmd, &vec![], vec![], &vec![], &None, &None, &identity(), false)
            .unwrap();
    assert_eq!(warnings, vec![Warning::SshSocketMissing]);
    assert!(run.volumes.is_empty());
    assert_eq!(run.env_vars, vec![env("HOST_USER_ID", "1000"), env("HOST_GROUP_ID", "1001")]);
}

#[test]
fn present_ssh_socket_is_forwarded_first() {
    let mut cmd = base_cmd();
    cmd.needs_ssh = true;
    let sock = Some("/tmp/agent.sock".to_string());
    let (run, warnings) =
        build_docker_run(&cmd, &vec![], vec![], &vec![], &None, &sock, &identity(), false)
            .unwrap();
    assert!(warnings.is_empty());
    assert_eq!(run.volumes, vec![mount("/tmp/agent.sock", "/ssh-auth-sock")]);
    assert_eq!(
        run.env_vars,
        vec![
            env("SSH_AUTH_SOCK", "/ssh-auth-sock"),
            env("HOST_USER_ID", "1000"),
            env("HOST_GROUP_ID", "1001"),
        ]
    );
}

#[test]
fn dry_run_rendering_keeps_the_exact_flag_order() {
    let mut cmd = base_cmd();
    cmd.needs_tty = true;
    cmd.user = "u1".to_string();
    cmd.workdir = Some("/work".to_string());
    let declared = vec![mount("/home/u/data", "/data")];
    let args = vec![plain("go")];
    let (run, _) = build_docker_run(
        &cmd,
        &args,
        declared,
        &vec![true],
        &None,
        &None,
        &identity(),
        false,
    )
    .unwrap();
    let rendered = docker_run_to_args(&run);
    assert_eq!(
        rendered,
        vec![
            "run",
            "-i",
            "-t",
            "--user",
            "u1",
            "--env",
            "HOST_USER_ID=1000",
            "--env",
            "HOST_GROUP_ID=1001",
            "--volume",
            "/home/u/data:/data",
            "--workdir",
            "/work",
            "example/tool:1",
            "go",
        ]
    );
    assert_eq!(
        dry_run_line(&rendered),
        "docker run -i -t --user u1 --env HOST_USER_ID=1000 --env HOST_GROUP_ID=1001 \
         --volume /home/u/data:/data --workdir /work example/tool:1 go"
    );
}

#[test]
fn volume_options_render_in_the_volume_argument() {
    let run = DockerRun {
        image_name: "img".to_string(),
        interactive: true,
        tty: false,
        user: None,
        env_vars: vec![],
        volumes: vec![VolumeMount {
            from: "/a".to_string(),
            to: "/b".to_string(),
            options: Some("ro".to_string()),
        }],
        workdir: None,
        args: vec![],
    };
    assert_eq!(docker_run_to_args(&run), vec!["run", "-i", "--volume", "/a:/b:ro", "img"]);
}

#[test]
fn empty_user_leaves_the_runtime_default() {
    let cmd = base_cmd();
    let (run, _) =
        build_docker_run(&cmd, &vec![], vec![], &vec![], &None, &None, &identity(), false)
            .unwrap();
    assert_eq!(run.user, None);
    assert_eq!(run.image_name, "example/tool:1");
    assert!(run.interactive);
    assert!(!run.tty);
}

#[test]
fn disabled_dynamic_mounts_pass_arguments_verbatim() {
    let mut cmd = base_cmd();
    cmd.enable_dynamic_volume_mounts = true;
    let args = vec![pathed("/data/x", "/data/x", "/data")];
    let (run, _) =
        build_docker_run(&cmd, &args, vec![], &vec![], &None, &None, &identity(), true).unwrap();
    assert!(run.volumes.is_empty());
    assert_eq!(run.args, vec!["/data/x"]);
}

#[test]
fn workdir_with_host_marker_is_resolved_and_mounted() {
    let mut cmd = base_cmd();
    cmd.workdir = Some("~/proj".to_string());
    let probe = Some(ProbedPath { path: "/home/u/proj".to_string(), anchor: "/home/u/proj".to_string() });
    let (run, _) =
        build_docker_run(&cmd, &vec![], vec![], &vec![], &probe, &None, &identity(), false)
            .unwrap();
    assert_eq!(run.workdir, Some("/_mnt/home/u/proj".to_string()));
    assert_eq!(run.volumes, vec![mount("/home/u/proj", "/_mnt/home/u/proj")]);
}

#[test]
fn workdir_chains_onto_a_dynamic_mount() {
    // the workdir lies under a mount that the arguments themselves created
    let mut cmd = base_cmd();
    cmd.enable_dynamic_volume_mounts = true;
    cmd.workdir = Some("~/proj/sub".to_string());
    let args = vec![pathed(
        "/home/u/proj/file.txt",
        "/home/u/proj/file.txt",
        "/home/u/proj",
    )];
    let probe = Some(ProbedPath {
        path: "/home/u/proj/sub".to_string(),
        anchor: "/home/u/proj/sub".to_string(),
    });
    let (run, _) =
        build_docker_run(&cmd, &args, vec![], &vec![], &probe, &None, &identity(), false)
            .unwrap();
    assert_eq!(run.volumes, vec![mount("/home/u/proj", "/_mnt/home/u/proj")]);
    assert_eq!(run.workdir, Some("/_mnt/home/u/proj/sub".to_string()));
    assert_eq!(run.args, vec!["/_mnt/home/u/proj/file.txt"]);
}

#[test]
fn absolute_workdir_bypasses_resolution() {
    let mut cmd = base_cmd();
    cmd.workdir = Some("/inside".to_string());
    let (run, _) =
        build_docker_run(&cmd, &vec![], vec![], &vec![], &None, &None, &identity(), false)
            .unwrap();
    assert_eq!(run.workdir, Some("/inside".to_string()));
    assert!(run.volumes.is_empty());
}

#[test]
fn missing_workdir_is_fatal() {
    let mut cmd = base_cmd();
    cmd.workdir = Some("~/gone".to_string());
    let e = build_docker_run(&cmd, &vec![], vec![], &vec![], &None, &None, &identity(), false)
        .unwrap_err();
    assert_eq!(e, WorkdirError::Missing { workdir: "~/gone".to_string() });
}

#[test]
fn file_workdir_is_fatal() {
    let probe = Some(ProbedPath {
        path: "/home/u/notes.txt".to_string(),
        anchor: "/home/u".to_string(),
    });
    let r = infer_workdir("~/notes.txt", &probe, &vec![], &vec![]);
    assert_eq!(r.unwrap_err(), WorkdirError::NotADirectory { workdir: "~/notes.txt".to_string() });
}

#[test]
fn workdir_inference_reuses_existing_mounts() {
    let mounts = vec![mount("/home/u/proj", "/proj")];
    let probe = Some(ProbedPath {
        path: "/home/u/proj/sub".to_string(),
        anchor: "/home/u/proj/sub".to_string(),
    });
    let r = infer_workdir("PWD/sub", &probe, &mounts, &vec![true]).unwrap();
    assert_eq!(r.mount, None);
    assert_eq!(r.path_within_mounted_volume, "/proj/sub");
}

#[test]
fn volume_preparation_depends_on_alignment() {
    let vols = vec![mount("/a", "/x"), mount("/b", "/y")];
    let exists = vec![true, false];
    assert_eq!(
        volume_actions(&vols, &exists, true),
        vec![VolumeAction::Ready, VolumeAction::CreateDirectory]
    );
    assert_eq!(
        volume_actions(&vols, &exists, false),
        vec![VolumeAction::Ready, VolumeAction::WarnMissing]
    );
}

use macondo::cache::cache_file_for;
use macondo::cache::is_cacheable;
use macondo::command::Cmd;
use macondo::command::find_command;
use macondo::command::finalize_manifest_commands;
use macondo::command::merge_commands_by_name;
use macondo::command::resolve_registry_version;
use macondo::image::BuildPlan;
use macondo::image::dummy_dockerfile_contents;
use macondo::image::image_build_plan;
use macondo::image::user_alignment_dockerfile;
use macondo::paths::expand_path;
use macondo::paths::is_command_file;
use macondo::repo::add_repository;
use macondo::repo::remove_repository;

fn named_cmd(name: &str, registry: &str) -> Cmd {
    Cmd {
        name: name.to_string(),
        group: String::new(),
        version: "0.1.0".to_string(),
        description: String::new(),
        registry: registry.to_string(),
        volumes: vec![],
        user: String::new(),
        workdir: None,
        enable_dynamic_volume_mounts: false,
        needs_tty: false,
        needs_ssh: false,
        command_path: None,
        align_with_host_user: true,
        extra: vec![],
    }
}

#[test]
fn only_http_resources_are_cacheable() {
    assert!(is_cacheable("http://x/repo.yaml"));
    assert!(is_cacheable("https://x/repo.yaml"));
    assert!(!is_cacheable("~/local/repo.yaml"));
    assert!(!is_cacheable("ftp://x"));
}

#[test]
fn cache_file_path_is_flattened_under_the_cache_directory() {
    let p = cache_file_for("https://example.com/repo.yaml", "/home/u").unwrap();
    assert_eq!(p, "/home/u/.cache/https___example_com_repo_yaml");
}

#[test]
fn uncacheable_resource_is_rejected() {
    let e = cache_file_for("/local/file", "/home/u").unwrap_err();
    assert_eq!(e.resource, "/local/file");
    assert_eq!(e.message(), "Can't process /local/file. Only HTTP and HTTPS resources are cacheable");
}

#[test]
fn expand_path_handles_both_markers() {
    assert_eq!(expand_path("~/x", "/home/u", "/cwd"), "/home/u/x");
    assert_eq!(expand_path("PWD/x", "/home/u", "/cwd"), "/cwd/x");
    assert_eq!(expand_path("a~b~c", "H", "/cwd"), "aHbHc");
    assert_eq!(expand_path("/plain", "/home/u", "/cwd"), "/plain");
}

#[test]
fn command_files_are_recognized_by_extension() {
    assert!(is_command_file("/a/tool.mcd"));
    assert!(!is_command_file("/a/tool.yaml"));
}

#[test]
fn merging_keeps_the_last_declaration_of_a_name() {
    let cmds = vec![
        named_cmd("a", "one"),
        named_cmd("b", "two"),
        named_cmd("a", "three"),
    ];
    let (merged, overwritten) = merge_commands_by_name(cmds);
    assert_eq!(merged.len(), 2);
    assert_eq!(merged[0].name, "a");
    assert_eq!(merged[0].registry, "three");
    assert_eq!(merged[1].name, "b");
    assert_eq!(overwritten, vec!["a"]);
}

#[test]
fn find_command_returns_the_first_match() {
    let cmds = vec![named_cmd("a", "one"), named_cmd("b", "two")];
    assert_eq!(find_command(&cmds, "b"), Some(1));
    assert_eq!(find_command(&cmds, "c"), None);
}

#[test]
fn registry_version_placeholder_is_substituted() {
    assert_eq!(resolve_registry_version("repo/img:${version}", "1.2"), "repo/img:1.2");
    assert_eq!(resolve_registry_version("repo/img:latest", "1.2"), "repo/img:latest");
}

#[test]
fn manifest_commands_get_their_versions_resolved() {
    let mut c = named_cmd("a", "r/img:${version}");
    c.version = "2.0".to_string();
    let out = finalize_manifest_commands(vec![c]);
    assert_eq!(out[0].registry, "r/img:2.0");
    assert_eq!(out[0].name, "a");
}

#[test]
fn repositories_are_added_once() {
    let (repos, added) = add_repository(vec!["a".to_string()], "b");
    assert!(added);
    assert_eq!(repos, vec!["a", "b"]);
    let (repos2, added2) = add_repository(repos, "a");
    assert!(!added2);
    assert_eq!(repos2, vec!["a", "b"]);
}

#[test]
fn repositories_are_removed_when_present() {
    let (repos, removed) = remove_repository(vec!["a".to_string(), "b".to_string()], "a");
    assert!(removed);
    assert_eq!(repos, vec!["b"]);
    let (repos2, removed2) = remove_repository(repos, "zzz");
    assert!(!removed2);
    assert_eq!(repos2, vec!["b"]);
}

#[test]
fn published_commands_need_no_build() {
    assert_eq!(image_build_plan(&named_cmd("a", "img:1")), BuildPlan::AlreadyBuilt);
}

#[test]
fn local_commands_dispatch_on_their_source_prefix() {
    let mut local = named_cmd("a", "Dockerfile");
    local.command_path = Some("/p/a.mcd".to_string());
    assert_eq!(image_build_plan(&local), BuildPlan::LocalDockerfile);

    let mut alpine = named_cmd("a", "AlpinePackages git  curl ");
    alpine.command_path = Some("/p/a.mcd".to_string());
    assert_eq!(
        image_build_plan(&alpine),
        BuildPlan::AlpinePackages {
            extra_commands: "RUN apk --no-cache add bash git  curl".to_string()
        }
    );

    let mut base = named_cmd("a", "ubuntu:22.04");
    base.command_path = Some("/p/a.mcd".to_string());
    assert_eq!(
        image_build_plan(&base),
        BuildPlan::FromBase { base_image: "ubuntu:22.04".to_string() }
    );
}

#[test]
fn wrapper_dockerfile_text_is_exact() {
    let text = dummy_dockerfile_contents("alpine", "RUN apk add bash", "mytool");
    let expected = "FROM alpine\nRUN apk add bash\nADD https://raw.githubusercontent.com/Anvil/bash-argsparse/master/argsparse.sh /\nRUN chmod a+r /argsparse.sh\nCOPY mytool /mytool\nRUN chmod a+x /mytool\nENTRYPOINT [ \"/mytool\" ]\n";
    assert_eq!(text, expected);
}

#[test]
fn alignment_dockerfile_substitutes_every_placeholder() {
    let template = "RUN useradd -u MACONDO_HOST_USER_ID_PLACEHOLDER -g MACONDO_HOST_GROUP_ID_PLACEHOLDER MACONDO_HOST_USERNAME_PLACEHOLDER\nENV HOME=MACONDO_HOST_HOME_DIR_PLACEHOLDER\n";
    let text = user_alignment_dockerfile(template, "img:1", "1000", "1001", "u", "/home/u");
    assert_eq!(
        text,
        "FROM img:1\nRUN useradd -u 1000 -g 1001 u\nENV HOME=/home/u\n"
    );
}

use macondo::parser::CmdParseError;
use macondo::parser::command_name_from_path;
use macondo::parser::parse_command_lines;
use macondo::parser::parse_line;

fn lines(text: &[&str]) -> Vec<String> {
    text.iter().map(|l| l.to_string()).collect()
}

#[test]
fn parse_line_splits_name_and_value() {
    let (name, value) = parse_line("# @vol ~/data:/data").unwrap();
    assert_eq!(name, "vol");
    assert_eq!(value, "~/data:/data");
}

#[test]
fn parse_line_joins_value_words_with_single_spaces() {
    let (name, value) = parse_line("# @description   a   tool   ").unwrap();
    assert_eq!(name, "description");
    assert_eq!(value, "a tool");
}

#[test]
fn parse_line_without_a_name_fails() {
    assert_eq!(parse_line("# @   "), None);
}

#[test]
fn annotations_fold_into_a_command() {
    let ls = lines(&[
        "#!/bin/bash",
        "# @from alpine:3",
        "# @version 1.2.3",
        "# @group Data",
        "# @vol ~/x:/x",
        "# @vol /y:/y",
        "# @needs_ssh true",
        "# @enable_dynamic_volume_mounts true",
        "# @custom hello world",
        "echo hi",
    ]);
    let parsed = parse_command_lines("tool", "/tmp/tool.mcd", "/tmp", &ls).unwrap();
    let cmd = parsed.cmd;
    assert_eq!(cmd.name, "tool");
    assert_eq!(cmd.registry, "alpine:3");
    assert_eq!(cmd.version, "1.2.3");
    assert_eq!(cmd.group, "Data");
    assert_eq!(cmd.volumes, vec!["~/x:/x", "/y:/y"]);
    assert!(cmd.needs_ssh);
    assert!(!cmd.needs_tty);
    assert!(cmd.enable_dynamic_volume_mounts);
    assert!(cmd.align_with_host_user);
    assert_eq!(cmd.user, "");
    assert_eq!(cmd.workdir, None);
    assert_eq!(cmd.command_path, Some("/tmp/tool.mcd".to_string()));
    assert_eq!(cmd.extra, vec![("custom".to_string(), "hello world".to_string())]);
    assert!(parsed.dockerfiles.is_empty());
}

#[test]
fn repeated_free_form_annotation_overwrites_in_place() {
    let ls = lines(&["# @from img", "# @k one", "# @other x", "# @k two"]);
    let parsed = parse_command_lines("t", "/p/t.mcd", "/p", &ls).unwrap();
    assert_eq!(
        parsed.cmd.extra,
        vec![("k".to_string(), "two".to_string()), ("other".to_string(), "x".to_string())]
    );
}

#[test]
fn dockerfile_source_records_the_file_to_check() {
    let ls = lines(&["# @from Dockerfile.dev"]);
    let parsed = parse_command_lines("t", "/p/t.mcd", "/p", &ls).unwrap();
    assert_eq!(parsed.cmd.registry, "Dockerfile");
    assert_eq!(parsed.dockerfiles, vec!["/p/Dockerfile.dev"]);
}

#[test]
fn invalid_annotation_fails_with_its_line() {
    let ls = lines(&["# @from img", "# @   ", "# @group g"]);
    let e = parse_command_lines("t", "/p/t.mcd", "/p", &ls).unwrap_err();
    assert_eq!(
        e,
        CmdParseError::InvalidAnnotation { line_index: 1, line: "# @   ".to_string() }
    );
}

#[test]
fn missing_from_annotation_is_mandatory() {
    let ls = lines(&["# @group g"]);
    let e = parse_command_lines("t", "/p/t.mcd", "/p", &ls).unwrap_err();
    assert_eq!(e, CmdParseError::MissingFrom { file: "/p/t.mcd".to_string() });
    assert_eq!(
        e.message(),
        "Did not find mandatory @from annotation in command /p/t.mcd"
    );
}

#[test]
fn workdir_and_user_annotations_are_kept() {
    let ls = lines(&["# @from img", "# @workdir PWD", "# @user root"]);
    let parsed = parse_command_lines("t", "/p/t.mcd", "/p", &ls).unwrap();
    assert_eq!(parsed.cmd.workdir, Some("PWD".to_string()));
    assert_eq!(parsed.cmd.user, "root");
}

#[test]
fn command_name_strips_directory_and_extension() {
    assert_eq!(command_name_from_path("/a/b/tool.mcd"), "tool");
    assert_eq!(command_name_from_path("plain.mcd"), "plain");
    assert_eq!(command_name_from_path("/a/b/noext"), "noext");
}

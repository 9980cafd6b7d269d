use macondo::collect::ProbedArg;
use macondo::collect::get_dynamic_volumes_and_new_args;
use macondo::volumes::ProbedPath;
use macondo::volumes::VolumeMount;

fn plain(value: &str) -> ProbedArg {
    ProbedArg { value: value.to_string(), probe: None }
}

fn pathed(value: &str, path: &str, anchor: &str) -> ProbedArg {
    ProbedArg {
        value: value.to_string(),
        probe: Some(ProbedPath { path: path.to_string(), anchor: anchor.to_string() }),
    }
}

#[test]
fn arguments_under_one_directory_produce_one_mount() {
    let args = vec![
        pathed("/data/a.txt", "/data/a.txt", "/data"),
        pathed("/data/b.txt", "/data/b.txt", "/data"),
        plain("--flag"),
    ];
    let (mounts, new_args) = get_dynamic_volumes_and_new_args(&args, &vec![], &vec![]);
    assert_eq!(
        mounts,
        vec![VolumeMount {
            from: "/data".to_string(),
            to: "/_mnt/data".to_string(),
            options: None,
        }]
    );
    assert_eq!(new_args, vec!["/_mnt/data/a.txt", "/_mnt/data/b.txt", "--flag"]);
}

#[test]
fn non_path_arguments_pass_through_verbatim() {
    let args = vec![plain("build"), plain("-v"), plain("name:tag")];
    let (mounts, new_args) = get_dynamic_volumes_and_new_args(&args, &vec![], &vec![]);
    assert!(mounts.is_empty());
    assert_eq!(new_args, vec!["build", "-v", "name:tag"]);
}

#[test]
fn covered_arguments_produce_no_mount() {
    let existing = vec![VolumeMount {
        from: "/home/u/data".to_string(),
        to: "/data".to_string(),
        options: None,
    }];
    let args = vec![pathed("/home/u/data/input.csv", "/home/u/data/input.csv", "/home/u/data")];
    let (mounts, new_args) = get_dynamic_volumes_and_new_args(&args, &existing, &vec![true]);
    assert!(mounts.is_empty());
    assert_eq!(new_args, vec!["/data/input.csv"]);
}

#[test]
fn distinct_directories_produce_distinct_mounts() {
    let args = vec![
        pathed("/one/a", "/one/a", "/one"),
        pathed("/two/b", "/two/b", "/two"),
        pathed("/one/c", "/one/c", "/one"),
    ];
    let (mounts, new_args) = get_dynamic_volumes_and_new_args(&args, &vec![], &vec![]);
    assert_eq!(mounts.len(), 2);
    assert_eq!(mounts[0].from, "/one");
    assert_eq!(mounts[1].from, "/two");
    assert_eq!(new_args, vec!["/_mnt/one/a", "/_mnt/two/b", "/_mnt/one/c"]);
}

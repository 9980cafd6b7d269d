use macondo::volumes::DynamicVolumeMount;
use macondo::volumes::ProbedPath;
use macondo::volumes::VolumeMount;
use macondo::volumes::get_dynamic_volume_mounts;
use macondo::volumes::parse_volume_mounting;

fn mount(from: &str, to: &str) -> VolumeMount {
    VolumeMount { from: from.to_string(), to: to.to_string(), options: None }
}

fn probe(path: &str, anchor: &str) -> ProbedPath {
    ProbedPath { path: path.to_string(), anchor: anchor.to_string() }
}

#[test]
fn path_under_existing_mount_is_rewritten_without_new_mount() {
    let mounts = vec![mount("/a/b", "/c")];
    let dirs = vec![true];
    let r = get_dynamic_volume_mounts(&probe("/a/b/f.txt", "/a/b"), &mounts, &dirs);
    assert_eq!(r.mount, None);
    assert!(r.path_within_mounted_volume.starts_with("/c"));
    assert_eq!(r.path_within_mounted_volume, "/c/f.txt");
}

#[test]
fn path_equal_to_mount_source_is_covered() {
    let mounts = vec![mount("/a/b", "/c")];
    let dirs = vec![true];
    let r = get_dynamic_volume_mounts(&probe("/a/b", "/a/b"), &mounts, &dirs);
    assert_eq!(r.mount, None);
    assert_eq!(r.path_within_mounted_volume, "/c");
}

#[test]
fn specificity_ordering_is_order_independent() {
    let deep = mount("/a/b/c", "/deep");
    let shallow = mount("/a", "/shallow");
    let dirs = vec![true, true];
    let p = probe("/a/b/c/d.txt", "/a/b/c");
    let one = get_dynamic_volume_mounts(&p, &vec![deep.clone(), shallow.clone()], &dirs);
    let two = get_dynamic_volume_mounts(&p, &vec![shallow, deep], &dirs);
    assert_eq!(one, two);
    assert_eq!(one.mount, None);
    assert_eq!(one.path_within_mounted_volume, "/deep/d.txt");
}

#[test]
fn uncovered_file_mounts_its_parent_directory() {
    let r = get_dynamic_volume_mounts(&probe("/d/p.txt", "/d"), &vec![], &vec![]);
    assert_eq!(r.mount, Some(mount("/d", "/_mnt/d")));
    assert_eq!(r.path_within_mounted_volume, "/_mnt/d/p.txt");
}

#[test]
fn uncovered_directory_mounts_itself() {
    let r = get_dynamic_volume_mounts(&probe("/srv/data", "/srv/data"), &vec![], &vec![]);
    assert_eq!(r.mount, Some(mount("/srv/data", "/_mnt/srv/data")));
    assert_eq!(r.path_within_mounted_volume, "/_mnt/srv/data");
}

#[test]
fn file_backed_mounts_cannot_contain_paths() {
    // the mount source is a file, so even a path under it is not covered
    let mounts = vec![mount("/a/b", "/c")];
    let dirs = vec![false];
    let r = get_dynamic_volume_mounts(&probe("/a/b/f.txt", "/a/b"), &mounts, &dirs);
    assert_eq!(
        r,
        DynamicVolumeMount {
            mount: Some(mount("/a/b", "/_mnt/a/b")),
            path_within_mounted_volume: "/_mnt/a/b/f.txt".to_string(),
        }
    );
}

#[test]
fn trailing_separator_on_mount_source_is_tolerated() {
    let mounts = vec![mount("/a/", "/c")];
    let dirs = vec![true];
    let r = get_dynamic_volume_mounts(&probe("/a/f.txt", "/a"), &mounts, &dirs);
    assert_eq!(r.mount, None);
    assert_eq!(r.path_within_mounted_volume, "/cf.txt");
}

#[test]
fn equally_specific_mounts_tie_break_to_the_earliest() {
    let first = mount("/a/b", "/first");
    let second = mount("/a/c", "/second");
    let deep = mount("/a/b/d", "/deepest");
    let dirs = vec![true, true, true];
    let p = probe("/a/b/d/f", "/a/b/d");
    let r = get_dynamic_volume_mounts(&p, &vec![first.clone(), second, deep], &dirs);
    assert_eq!(r.mount, None);
    assert_eq!(r.path_within_mounted_volume, "/deepest/f");

    // two mounts of equal depth both containing the path: the earlier wins
    let twin_a = mount("/a/b", "/one");
    let twin_b = mount("/a/b", "/two");
    let r2 = get_dynamic_volume_mounts(
        &probe("/a/b/f", "/a/b"),
        &vec![twin_a, twin_b],
        &vec![true, true],
    );
    assert_eq!(r2.path_within_mounted_volume, "/one/f");
}

#[test]
fn parse_volume_mounting_splits_and_expands() {
    let r = parse_volume_mounting("~/data:/data", "/home/u", "/cwd").unwrap();
    assert_eq!(r, mount("/home/u/data", "/data"));
}

#[test]
fn parse_volume_mounting_keeps_options() {
    let r = parse_volume_mounting("/a:/b:ro", "/h", "/c").unwrap();
    assert_eq!(r.options, Some("ro".to_string()));
    let extra_segments = parse_volume_mounting("/a:/b:ro:ignored", "/h", "/c").unwrap();
    assert_eq!(extra_segments.options, Some("ro".to_string()));
}

#[test]
fn parse_volume_mounting_rejects_missing_target() {
    let e = parse_volume_mounting("nocolon", "/h", "/c").unwrap_err();
    assert_eq!(e.mount, "nocolon");
    assert_eq!(
        e.message(),
        "Failed to parse volume mounting 'nocolon'. Expected format: FROM:TO[:OPTIONS]"
    );
}

#[test]
fn parse_volume_mounting_expands_pwd_marker() {
    let r = parse_volume_mounting("PWD/in:/in", "/home/u", "/work").unwrap();
    assert_eq!(r, mount("/work/in", "/in"));
}

//! The command-file annotation parser: one annotation per line, marked
//! `# @`, folded into a command declaration. The caller reads the file and
//! hands the lines over as plain values.

use crate::command::Cmd;
use crate::paths;
use crate::strutil;
use vstd::prelude::*;
use vstd::string::StrSliceExecFns;
use vstd::string::StringExecFns;

verus! {

/// The marker that turns a comment line into an annotation.
pub open spec fn annotation_marker() -> Seq<char> {
    seq!['#', ' ', '@']
}

/// What parsing one annotation line yields: with every marker removed, the
/// line is whitespace-tokenized; the first token names the annotation and
/// the remaining tokens, joined by single spaces, are its value. A line
/// with no token at all does not parse.
pub open spec fn parse_line_spec(line: Seq<char>) -> Option<(Seq<char>, Seq<char>)> {
    let annotation = strutil::replace_all_spec(line, annotation_marker(), Seq::<char>::empty());
    let ts = strutil::tokens_spec(annotation);
    if ts.len() == 0 {
        None
    } else {
        Some((ts[0], strutil::join_spaces_spec(ts.skip(1))))
    }
}

/// Splits one annotation line into its name and value.
pub fn parse_line(line: &str) -> (r: Option<(String, String)>)
    ensures
        match r {
            None => parse_line_spec(line@) is None,
            Some(p) => parse_line_spec(line@) matches Some(q) && p.0@ == q.0 && p.1@ == q.1,
        },
{
    proof {
        reveal_strlit("# @");
        assert("# @"@ =~= annotation_marker());
        reveal_strlit("");
        assert(""@ =~= Seq::<char>::empty());
    }
    let annotation = strutil::replace_all(line, "# @", "");
    let mut toks = strutil::split_tokens(annotation.as_str());
    if toks.len() == 0 {
        None
    } else {
        let ghost toks_v = toks.deep_view();
        let name = toks.remove(0);
        proof {
            broadcast use vstd::seq_lib::group_seq_properties;

            assert(name@ == toks_v[0]);
            assert forall|k: int| 0 <= k < toks@.len() implies toks.deep_view()[k] == toks_v.skip(
                1,
            )[k] by {
                assert(toks.deep_view()[k] == toks_v[k + 1]);
            }
            assert(toks.deep_view() =~= toks_v.skip(1));
        }
        let value = strutil::join_spaces(&toks);
        Some((name, value))
    }
}

/// The fields a command file's annotations fold into, plus the Dockerfile
/// paths whose existence the caller still has to check and the first
/// invalid annotation, if any.
pub ghost struct ParseState {
    pub version: Seq<char>,
    pub group: Seq<char>,
    pub description: Seq<char>,
    pub registry: Option<Seq<char>>,
    pub extra: Seq<(Seq<char>, Seq<char>)>,
    pub workdir: Option<Seq<char>>,
    pub volumes: Seq<Seq<char>>,
    pub user: Seq<char>,
    pub align_with_host_user: bool,
    pub enable_dynamic_volume_mounts: bool,
    pub needs_tty: bool,
    pub needs_ssh: bool,
    pub dockerfiles: Seq<Seq<char>>,
    pub invalid: Option<(int, Seq<char>)>,
}

/// The state before any line: the defaults of a command declaration.
pub open spec fn initial_state() -> ParseState {
    ParseState {
        version: "0.1.0"@,
        group: Seq::<char>::empty(),
        description: Seq::<char>::empty(),
        registry: None,
        extra: Seq::<(Seq<char>, Seq<char>)>::empty(),
        workdir: None,
        volumes: Seq::<Seq<char>>::empty(),
        user: Seq::<char>::empty(),
        align_with_host_user: true,
        enable_dynamic_volume_mounts: false,
        needs_tty: false,
        needs_ssh: false,
        dockerfiles: Seq::<Seq<char>>::empty(),
        invalid: None,
    }
}

/// The first index in `extra` bearing key `k`.
pub open spec fn find_key_spec(extra: Seq<(Seq<char>, Seq<char>)>, k: Seq<char>) -> Option<int>
    decreases extra.len(),
{
    if extra.len() == 0 {
        None
    } else if extra[0].0 == k {
        Some(0int)
    } else {
        match find_key_spec(extra.skip(1), k) {
            None => None,
            Some(j) => Some(j + 1),
        }
    }
}

/// A found key index is inside the list and bears the key.
pub proof fn lemma_find_key_in_range(extra: Seq<(Seq<char>, Seq<char>)>, k: Seq<char>)
    ensures
        match find_key_spec(extra, k) {
            None => true,
            Some(i) => 0 <= i < extra.len() && extra[i].0 == k,
        },
    decreases extra.len(),
{
    if extra.len() > 0 && extra[0].0 != k {
        lemma_find_key_in_range(extra.skip(1), k);
    }
}

/// Free-form annotations keep insertion order; a repeated key overwrites
/// the value in place.
pub open spec fn upsert_spec(
    extra: Seq<(Seq<char>, Seq<char>)>,
    k: Seq<char>,
    v: Seq<char>,
) -> Seq<(Seq<char>, Seq<char>)> {
    match find_key_spec(extra, k) {
        None => extra.push((k, v)),
        Some(i) => extra.update(i, (k, v)),
    }
}

/// How one line changes the state. A line without the annotation marker
/// changes nothing; an unparsable annotation records the first error and
/// freezes the state; a known annotation updates its field; an unknown one
/// goes to `extra`. A `from` whose value names a Dockerfile fixes the
/// registry to `Dockerfile` and records the file (next to the command
/// file) for the caller's existence check.
pub open spec fn line_step(st: ParseState, line: Seq<char>, idx: int, parent: Seq<char>) -> ParseState {
    if st.invalid is Some {
        st
    } else if !annotation_marker().is_prefix_of(line) {
        st
    } else {
        match parse_line_spec(line) {
            None => ParseState { invalid: Some((idx, line)), ..st },
            Some(nv) => {
                let name = nv.0;
                let value = nv.1;
                if name == "version"@ {
                    ParseState { version: value, ..st }
                } else if name == "group"@ {
                    ParseState { group: value, ..st }
                } else if name == "description"@ {
                    ParseState { description: value, ..st }
                } else if name == "needs_ssh"@ {
                    ParseState { needs_ssh: value == "true"@, ..st }
                } else if name == "needs_tty"@ {
                    ParseState { needs_tty: value == "true"@, ..st }
                } else if name == "align_with_host_user"@ {
                    ParseState { align_with_host_user: value == "true"@, ..st }
                } else if name == "enable_dynamic_volume_mounts"@ {
                    ParseState { enable_dynamic_volume_mounts: value == "true"@, ..st }
                } else if name == "vol"@ {
                    ParseState { volumes: st.volumes.push(value), ..st }
                } else if name == "user"@ {
                    ParseState { user: value, ..st }
                } else if name == "from"@ {
                    if "Dockerfile"@.is_prefix_of(value) {
                        ParseState {
                            registry: Some("Dockerfile"@),
                            dockerfiles: st.dockerfiles.push(parent + seq!['/'] + value),
                            ..st
                        }
                    } else {
                        ParseState { registry: Some(value), ..st }
                    }
                } else if name == "workdir"@ {
                    ParseState { workdir: Some(value), ..st }
                } else {
                    ParseState { extra: upsert_spec(st.extra, name, value), ..st }
                }
            },
        }
    }
}

/// The whole file folded line by line from the initial state.
pub open spec fn parse_fold(lines: Seq<Seq<char>>, parent: Seq<char>) -> ParseState
    decreases lines.len(),
{
    if lines.len() == 0 {
        initial_state()
    } else {
        line_step(
            parse_fold(lines.drop_last(), parent),
            lines.last(),
            lines.len() - 1,
            parent,
        )
    }
}

/// A command file that cannot be parsed.
#[derive(Debug, Clone, PartialEq, Eq)]
pub enum CmdParseError {
    /// A line carried the annotation marker but no annotation name.
    InvalidAnnotation { line_index: usize, line: String },
    /// The mandatory `from` annotation never appeared.
    MissingFrom { file: String },
}

impl CmdParseError {
    /// A human-readable account of the error.
    pub fn message(&self) -> (r: String)
        ensures
            match self {
                CmdParseError::InvalidAnnotation { line_index, line } => r@
                    == "Invalid annotation: "@ + line@,
                CmdParseError::MissingFrom { file } => r@
                    == "Did not find mandatory @from annotation in command "@ + file@,
            },
    {
        match self {
            CmdParseError::InvalidAnnotation { line_index: _, line } => strutil::concat_str(
                "Invalid annotation: ",
                line.as_str(),
            ),
            CmdParseError::MissingFrom { file } => strutil::concat_str(
                "Did not find mandatory @from annotation in command ",
                file.as_str(),
            ),
        }
    }
}

/// A parsed command, plus the Dockerfile paths the command file references;
/// the caller must check that each of them exists next to the command file.
#[derive(Debug)]
pub struct ParsedCommand {
    pub cmd: Cmd,
    pub dockerfiles: Vec<String>,
}

/// Finds the first free-form annotation bearing key `k`.
fn find_key(extra: &Vec<(String, String)>, k: &str) -> (r: Option<usize>)
    ensures
        match r {
            None => find_key_spec(extra.deep_view(), k@) is None,
            Some(i) => find_key_spec(extra.deep_view(), k@) == Some(i as int),
        },
{
    let n = extra.len();
    let mut i: usize = 0;
    proof {
        assert(extra.deep_view().skip(0) =~= extra.deep_view());
    }
    while i < n
        invariant
            n == extra@.len(),
            i <= n,
            find_key_spec(extra.deep_view(), k@) == match find_key_spec(
                extra.deep_view().skip(i as int),
                k@,
            ) {
                None => Option::<int>::None,
                Some(j) => Some(j + i),
            },
        decreases n - i,
    {
        proof {
            let tail = extra.deep_view().skip(i as int);
            assert(tail[0] == extra.deep_view()[i as int]);
            assert(tail.skip(1) =~= extra.deep_view().skip(i + 1));
        }
        if strutil::str_eq(extra[i].0.as_str(), k) {
            return Some(i);
        }
        i += 1;
    }
    proof {
        assert(extra.deep_view().skip(n as int).len() == 0);
    }
    None
}

/// Inserts or overwrites one free-form annotation.
fn upsert(extra: &mut Vec<(String, String)>, k: String, v: String)
    ensures
        final(extra).deep_view() == upsert_spec(old(extra).deep_view(), k@, v@),
{
    let ghost pre = extra.deep_view();
    let ghost pre_seq = extra@;
    let ghost kv = k@;
    let ghost vv = v@;
    proof {
        lemma_find_key_in_range(pre, kv);
    }
    match find_key(extra, k.as_str()) {
        None => {
            extra.push((k, v));
            proof {
                assert(extra.deep_view() =~= pre.push((kv, vv)));
            }
        },
        Some(j) => {
            extra.remove(j);
            extra.insert(j, (k, v));
            proof {
                broadcast use vstd::seq_lib::group_seq_properties;

                assert(extra@ == pre_seq.remove(j as int).insert(j as int, (k, v)));
                assert forall|t: int| 0 <= t < extra@.len() implies extra.deep_view()[t]
                    == pre.update(j as int, (kv, vv))[t] by {
                    if t < j {
                        assert(extra@[t] == pre_seq[t]);
                    } else if t == j {
                        assert(extra@[t] == (k, v));
                    } else {
                        assert(extra@[t] == pre_seq[t]);
                    }
                }
                assert(extra.deep_view() =~= pre.update(j as int, (kv, vv)));
            }
        },
    }
}

/// Once a line failed to parse, the remaining lines change nothing.
pub proof fn lemma_invalid_sticky(lines: Seq<Seq<char>>, parent: Seq<char>, i: int)
    requires
        0 <= i <= lines.len(),
        parse_fold(lines.take(i), parent).invalid is Some,
    ensures
        parse_fold(lines, parent) == parse_fold(lines.take(i), parent),
    decreases lines.len() - i,
{
    if i < lines.len() {
        let next = lines.take(i + 1);
        assert(next.drop_last() =~= lines.take(i));
        assert(next.last() == lines[i]);
        assert(parse_fold(next, parent) == parse_fold(lines.take(i), parent));
        lemma_invalid_sticky(lines, parent, i + 1);
    } else {
        assert(lines.take(i) =~= lines);
    }
}

/// The command's name as derived from its file path: the last path
/// component with every command-file extension occurrence removed.
pub fn command_name_from_path(p: &str) -> (r: String)
    ensures
        r@ == strutil::replace_all_spec(
            paths::file_name_spec(p@),
            seq!['.', 'm', 'c', 'd'],
            Seq::<char>::empty(),
        ),
{
    let fname = paths::file_name_of(p);
    proof {
        reveal_strlit(".mcd");
        assert(".mcd"@ =~= seq!['.', 'm', 'c', 'd']);
        reveal_strlit("");
        assert(""@ =~= Seq::<char>::empty());
    }
    strutil::replace_all(fname.as_str(), ".mcd", "")
}

/// Folds a command file's lines into a command declaration.
///
/// `name` is the command's name (derived from the file path), `file_path`
/// the command file's path (kept as the command's `command_path`), and
/// `parent_folder` its directory, against which a referenced Dockerfile is
/// located. The first line whose annotation cannot be parsed fails the
/// whole file, as does the absence of the mandatory `from` annotation.
pub fn parse_command_lines(
    name: &str,
    file_path: &str,
    parent_folder: &str,
    lines: &Vec<String>,
) -> (r: Result<ParsedCommand, CmdParseError>)
    ensures
        ({
            let st = parse_fold(lines.deep_view(), parent_folder@);
            match st.invalid {
                Some(bad) => r matches Err(e) && e matches CmdParseError::InvalidAnnotation {
                    line_index,
                    line,
                } && line_index as int == bad.0 && line@ == bad.1,
                None => match st.registry {
                    None => r matches Err(e) && e matches CmdParseError::MissingFrom { file }
                        && file@ == file_path@,
                    Some(reg) => r matches Ok(pc) && {
                        &&& pc.cmd@.name == name@
                        &&& pc.cmd@.group == st.group
                        &&& pc.cmd@.version == st.version
                        &&& pc.cmd@.description == st.description
                        &&& pc.cmd@.registry == reg
                        &&& pc.cmd@.volumes == st.volumes
                        &&& pc.cmd@.user == st.user
                        &&& pc.cmd@.workdir == st.workdir
                        &&& pc.cmd@.enable_dynamic_volume_mounts
                            == st.enable_dynamic_volume_mounts
                        &&& pc.cmd@.needs_tty == st.needs_tty
                        &&& pc.cmd@.needs_ssh == st.needs_ssh
                        &&& pc.cmd@.command_path == Some(file_path@)
                        &&& pc.cmd@.align_with_host_user == st.align_with_host_user
                        &&& pc.cmd@.extra == st.extra
                        &&& pc.dockerfiles.deep_view() == st.dockerfiles
                    },
                },
            }
        }),
{
    let ghost lines_v = lines.deep_view();
    let ghost parent_v = parent_folder@;
    let mut version: String = "0.1.0".to_owned();
    let mut group: String = String::new();
    let mut description: String = String::new();
    let mut registry: Option<String> = None;
    let mut extra: Vec<(String, String)> = Vec::new();
    let mut workdir: Option<String> = None;
    let mut volumes: Vec<String> = Vec::new();
    let mut user: String = String::new();
    let mut align_with_host_user: bool = true;
    let mut enable_dynamic_volume_mounts: bool = false;
    let mut needs_tty: bool = false;
    let mut needs_ssh: bool = false;
    let mut dockerfiles: Vec<String> = Vec::new();
    let n = lines.len();
    let mut i: usize = 0;
    proof {
        assert(extra.deep_view() =~= initial_state().extra);
        assert(volumes.deep_view() =~= initial_state().volumes);
        assert(dockerfiles.deep_view() =~= initial_state().dockerfiles);
    }
    while i < n
        invariant
            n == lines@.len(),
            lines_v == lines.deep_view(),
            parent_v == parent_folder@,
            i <= n,
            ({
                let st = parse_fold(lines_v.take(i as int), parent_v);
                &&& st.invalid is None
                &&& version@ == st.version
                &&& group@ == st.group
                &&& description@ == st.description
                &&& registry.deep_view() == st.registry
                &&& extra.deep_view() == st.extra
                &&& workdir.deep_view() == st.workdir
                &&& volumes.deep_view() == st.volumes
                &&& user@ == st.user
                &&& align_with_host_user == st.align_with_host_user
                &&& enable_dynamic_volume_mounts == st.enable_dynamic_volume_mounts
                &&& needs_tty == st.needs_tty
                &&& needs_ssh == st.needs_ssh
                &&& dockerfiles.deep_view() == st.dockerfiles
            }),
        decreases n - i,
    {
        let ghost st_i = parse_fold(lines_v.take(i as int), parent_v);
        let ghost st_n = parse_fold(lines_v.take(i + 1), parent_v);
        proof {
            let cur = lines_v.take(i + 1);
            assert(cur.drop_last() =~= lines_v.take(i as int));
            assert(cur.last() == lines_v[i as int]);
            assert(st_n == line_step(st_i, lines_v[i as int], i as int, parent_v));
            assert(lines_v[i as int] == lines@[i as int]@);
        }
        let line = &lines[i];
        proof {
            reveal_strlit("# @");
            assert("# @"@ =~= annotation_marker());
        }
        if strutil::str_starts_with(line.as_str(), "# @") {
            match parse_line(line.as_str()) {
                None => {
                    proof {
                        assert(st_n.invalid == Some((i as int, lines_v[i as int])));
                        lemma_invalid_sticky(lines_v, parent_v, i + 1);
                    }
                    return Err(
                        CmdParseError::InvalidAnnotation { line_index: i, line: line.clone() },
                    );
                },
                Some(nv) => {
                    let (name_s, value) = nv;
                    if strutil::str_eq(name_s.as_str(), "version") {
                        version = value;
                    } else if strutil::str_eq(name_s.as_str(), "group") {
                        group = value;
                    } else if strutil::str_eq(name_s.as_str(), "description") {
                        description = value;
                    } else if strutil::str_eq(name_s.as_str(), "needs_ssh") {
                        needs_ssh = strutil::str_eq(value.as_str(), "true");
                    } else if strutil::str_eq(name_s.as_str(), "needs_tty") {
                        needs_tty = strutil::str_eq(value.as_str(), "true");
                    } else if strutil::str_eq(name_s.as_str(), "align_with_host_user") {
                        align_with_host_user = strutil::str_eq(value.as_str(), "true");
                    } else if strutil::str_eq(name_s.as_str(), "enable_dynamic_volume_mounts") {
                        enable_dynamic_volume_mounts = strutil::str_eq(value.as_str(), "true");
                    } else if strutil::str_eq(name_s.as_str(), "vol") {
                        let ghost pv = volumes.deep_view();
                        let ghost vv = value@;
                        volumes.push(value);
                        proof {
                            assert(volumes.deep_view() =~= pv.push(vv));
                        }
                    } else if strutil::str_eq(name_s.as_str(), "user") {
                        user = value;
                    } else if strutil::str_eq(name_s.as_str(), "from") {
                        if strutil::str_starts_with(value.as_str(), "Dockerfile") {
                            registry = Some("Dockerfile".to_owned());
                            let sep = strutil::concat_str(parent_folder, "/");
                            let df = strutil::concat_str(sep.as_str(), value.as_str());
                            let ghost dv = dockerfiles.deep_view();
                            let ghost dfv = df@;
                            dockerfiles.push(df);
                            proof {
                                reveal_strlit("/");
                                assert("/"@ =~= seq!['/']);
                                assert(dfv =~= parent_v + seq!['/'] + value@);
                                assert(dockerfiles.deep_view() =~= dv.push(dfv));
                            }
                        } else {
                            registry = Some(value);
                        }
                    } else if strutil::str_eq(name_s.as_str(), "workdir") {
                        workdir = Some(value);
                    } else {
                        upsert(&mut extra, name_s, value);
                    }
                },
            }
        }
        i += 1;
    }
    proof {
        assert(lines_v.take(n as int) =~= lines_v);
    }
    match registry {
        None => Err(CmdParseError::MissingFrom { file: file_path.to_owned() }),
        Some(reg) => Ok(
            ParsedCommand {
                cmd: Cmd {
                    name: name.to_owned(),
                    group,
                    version,
                    description,
                    registry: reg,
                    volumes,
                    user,
                    workdir,
                    enable_dynamic_volume_mounts,
                    needs_tty,
                    needs_ssh,
                    command_path: Some(file_path.to_owned()),
                    align_with_host_user,
                    extra,
                },
                dockerfiles,
            },
        ),
    }
}

} // verus!

//! On-the-fly image resolution: classifying a command's declared image
//! source into a build strategy, and generating the Dockerfile texts the
//! builds use. The builds themselves are shell-outs and stay with the
//! caller.

use crate::command::Cmd;
use crate::strutil;
use vstd::prelude::*;
use vstd::string::StringExecFns;

verus! {

/// How a command's image is obtained before it can run.
#[derive(Debug, Clone, PartialEq, Eq)]
pub enum BuildPlan {
    /// The command references a published image; nothing to build.
    AlreadyBuilt,
    /// A Dockerfile sits next to the command file; build that directory.
    LocalDockerfile,
    /// Synthesize a minimal base-package image with the listed packages.
    AlpinePackages { extra_commands: String },
    /// Build from the referenced base image, overriding the entrypoint.
    FromBase { base_image: String },
}

/// The declared-source prefix that asks for a base-package image.
pub open spec fn alpine_marker() -> Seq<char> {
    seq!['A', 'l', 'p', 'i', 'n', 'e', 'P', 'a', 'c', 'k', 'a', 'g', 'e', 's']
}

/// The package-install command of a base-package build: the marker is
/// stripped from the declared source and the remaining package list,
/// trimmed, is appended to the install instruction.
pub open spec fn alpine_extra_commands(registry: Seq<char>) -> Seq<char> {
    "RUN apk --no-cache add bash "@ + strutil::trim_spec(
        strutil::replace_all_spec(registry, alpine_marker(), Seq::<char>::empty()),
    )
}

/// Classifies a command's image source: a command without a local command
/// file is already built; otherwise the declared source dispatches on its
/// prefix — a local Dockerfile, a base-package request, or a plain base
/// image whose entrypoint is overridden.
pub fn image_build_plan(cmd: &Cmd) -> (r: BuildPlan)
    ensures
        cmd@.command_path is None ==> r == BuildPlan::AlreadyBuilt,
        cmd@.command_path is Some && cmd@.registry == "Dockerfile"@ ==> r
            == BuildPlan::LocalDockerfile,
        cmd@.command_path is Some && cmd@.registry != "Dockerfile"@ && alpine_marker().is_prefix_of(
            cmd@.registry,
        ) ==> (r matches BuildPlan::AlpinePackages { extra_commands } && extra_commands@
            == alpine_extra_commands(cmd@.registry)),
        cmd@.command_path is Some && cmd@.registry != "Dockerfile"@
            && !alpine_marker().is_prefix_of(cmd@.registry) ==> (r matches BuildPlan::FromBase {
            base_image,
        } && base_image@ == cmd@.registry),
{
    match &cmd.command_path {
        None => BuildPlan::AlreadyBuilt,
        Some(_) => {
            proof {
                reveal_strlit("AlpinePackages");
                assert("AlpinePackages"@ =~= alpine_marker());
            }
            if strutil::str_eq(cmd.registry.as_str(), "Dockerfile") {
                BuildPlan::LocalDockerfile
            } else if strutil::str_starts_with(cmd.registry.as_str(), "AlpinePackages") {
                let packages = strutil::replace_all(cmd.registry.as_str(), "AlpinePackages", "");
                let trimmed = strutil::trim(packages.as_str());
                let extra_commands = strutil::concat_str(
                    "RUN apk --no-cache add bash ",
                    trimmed.as_str(),
                );
                proof {
                    reveal_strlit("");
                    assert(""@ =~= Seq::<char>::empty());
                }
                BuildPlan::AlpinePackages { extra_commands }
            } else {
                BuildPlan::FromBase { base_image: cmd.registry.clone() }
            }
        },
    }
}

/// The Dockerfile text that wraps a plain command into an image: start from
/// the base image, run the extra commands, fetch the argument-parsing
/// helper, copy the command in and make it the entrypoint.
pub fn dummy_dockerfile_contents(base_image: &str, extra_commands: &str, command_name: &str) -> (r:
    String)
    ensures
        r@ == "FROM "@ + base_image@ + "\n"@ + extra_commands@
            + "\nADD https://raw.githubusercontent.com/Anvil/bash-argsparse/master/argsparse.sh /\nRUN chmod a+r /argsparse.sh\nCOPY "@
            + command_name@ + " /"@ + command_name@ + "\nRUN chmod a+x /"@ + command_name@
            + "\nENTRYPOINT [ \"/"@ + command_name@ + "\" ]\n"@,
{
    let mut out = strutil::concat_str("FROM ", base_image);
    out.append("\n");
    out.append(extra_commands);
    out.append(
        "\nADD https://raw.githubusercontent.com/Anvil/bash-argsparse/master/argsparse.sh /\nRUN chmod a+r /argsparse.sh\nCOPY ",
    );
    out.append(command_name);
    out.append(" /");
    out.append(command_name);
    out.append("\nRUN chmod a+x /");
    out.append(command_name);
    out.append("\nENTRYPOINT [ \"/");
    out.append(command_name);
    out.append("\" ]\n");
    out
}

/// The Dockerfile text that aligns the container user with the host user:
/// start from the image and apply the alignment script with the host's
/// numeric ids, username and home directory substituted for its
/// placeholders.
pub fn user_alignment_dockerfile(
    template: &str,
    base_image: &str,
    uid: &str,
    gid: &str,
    username: &str,
    home: &str,
) -> (r: String)
    ensures
        r@ == "FROM "@ + base_image@ + "\n"@ + strutil::replace_all_spec(
            strutil::replace_all_spec(
                strutil::replace_all_spec(
                    strutil::replace_all_spec(
                        template@,
                        "MACONDO_HOST_USER_ID_PLACEHOLDER"@,
                        uid@,
                    ),
                    "MACONDO_HOST_GROUP_ID_PLACEHOLDER"@,
                    gid@,
                ),
                "MACONDO_HOST_USERNAME_PLACEHOLDER"@,
                username@,
            ),
            "MACONDO_HOST_HOME_DIR_PLACEHOLDER"@,
            home@,
        ),
{
    proof {
        reveal_strlit("MACONDO_HOST_USER_ID_PLACEHOLDER");
        reveal_strlit("MACONDO_HOST_GROUP_ID_PLACEHOLDER");
        reveal_strlit("MACONDO_HOST_USERNAME_PLACEHOLDER");
        reveal_strlit("MACONDO_HOST_HOME_DIR_PLACEHOLDER");
    }
    let s1 = strutil::replace_all(template, "MACONDO_HOST_USER_ID_PLACEHOLDER", uid);
    let s2 = strutil::replace_all(s1.as_str(), "MACONDO_HOST_GROUP_ID_PLACEHOLDER", gid);
    let s3 = strutil::replace_all(s2.as_str(), "MACONDO_HOST_USERNAME_PLACEHOLDER", username);
    let s4 = strutil::replace_all(s3.as_str(), "MACONDO_HOST_HOME_DIR_PLACEHOLDER", home);
    let mut out = strutil::concat_str("FROM ", base_image);
    out.append("\n");
    out.append(s4.as_str());
    out
}

} // verus!

//! What the programs find out about the machine they run on.

use crate::text::{contains_text, spec_contains};
use vstd::prelude::*;
use vstd::string::{StringExecFns, StringSliceAdditionalSpecFns};

verus! {

/// A file of the process tells of a container if it names the container
/// runtime's directory. A file that could not be read tells nothing.
pub open spec fn spec_mentions_docker(content: Option<&str>) -> bool {
    match content {
        Some(text) => spec_contains(text.spec_bytes(), "/docker/".spec_bytes()),
        None => false,
    }
}

/// Whether what was read of a file of the process tells of a container.
pub fn mentions_docker(content: Option<&str>) -> (mentions: bool)
    ensures
        mentions == spec_mentions_docker(content),
{
    match content {
        Some(text) => contains_text(text, "/docker/"),
        None => false,
    }
}

/// Whether the process runs in a container, from what was found: one of the
/// two marker files of container runtimes, or the control groups of the
/// first process or the mounts of this one naming the runtime's directory.
pub fn is_running_in_docker(
    dockerenv_exists: bool,
    containerenv_exists: bool,
    init_groups: Option<&str>,
    mounts: Option<&str>,
) -> (contained: bool)
    ensures
        contained == (dockerenv_exists || containerenv_exists || spec_mentions_docker(init_groups)
            || spec_mentions_docker(mounts)),
{
    let by_groups = mentions_docker(init_groups);
    let by_mounts = mentions_docker(mounts);
    dockerenv_exists || containerenv_exists || by_groups || by_mounts
}

/// The name under which a release of a program is reported: the program's
/// name, an at sign, and the version. Without a version there is no name.
pub fn release_name(root_name: &str, version: Option<&str>) -> (name: Option<String>)
    ensures
        crate::config::text_of(name) == (match version {
            Some(number) => Some(root_name@ + "@"@ + number@),
            None => None,
        }),
{
    match version {
        Some(number) => {
            let mut text = String::from_str(root_name);
            text.append("@");
            text.append(number);
            Some(text)
        },
        None => None,
    }
}

} // verus!

//! The launch resolver: where the server lives.

use vstd::prelude::*;

verus! {

/// A path together with what the file system said of it.
#[derive(Clone, Debug, PartialEq, Eq)]
pub struct DirectoryProbe {
    pub path: String,
    /// Whether the path names a directory that exists.
    pub is_directory: bool,
}

/// The launch directory: the override given on the command line if it is an
/// existing directory, else the default directory next to the launcher if
/// that one exists, else none.
pub open spec fn launch_path_of(
    override_path: Option<DirectoryProbe>,
    default_path: Option<DirectoryProbe>,
) -> Option<String> {
    if override_path is Some && override_path->0.is_directory {
        Some(override_path->0.path)
    } else if default_path is Some && default_path->0.is_directory {
        Some(default_path->0.path)
    } else {
        None
    }
}

/// Resolves the launch directory. `None` is no error: the launcher then
/// runs without a server.
pub fn get_launch_path(
    override_path: Option<DirectoryProbe>,
    default_path: Option<DirectoryProbe>,
) -> (launch_path: Option<String>)
    ensures
        launch_path == launch_path_of(override_path, default_path),
        override_path matches Some(probe) ==> (probe.is_directory ==> launch_path == Some(
            probe.path,
        )),
{
    if let Some(probe) = override_path {
        if probe.is_directory {
            return Some(probe.path);
        }
    }
    if let Some(probe) = default_path {
        if probe.is_directory {
            return Some(probe.path);
        }
    }
    None
}

} // verus!

//! What differs between the operating systems the launcher runs on.

use vstd::prelude::*;

verus! {

/// The directory, below the launch directory, that holds a bundled Java
/// runtime's binaries.
pub const BUNDLED_JAVA_DIR: &'static str = "jre/bin";

/// The family of the host operating system.
#[derive(Clone, Copy, Debug, PartialEq, Eq, Structural)]
pub enum Platform {
    Windows,
    Other,
}

impl Platform {
    /// The file name of the Java binary.
    pub open spec fn java_bin_text(self) -> Seq<char> {
        match self {
            Platform::Windows => "java.exe"@,
            Platform::Other => "java"@,
        }
    }

    pub fn java_bin(self) -> (name: &'static str)
        ensures
            name@ == self.java_bin_text(),
    {
        match self {
            Platform::Windows => "java.exe",
            Platform::Other => "java",
        }
    }

    /// Whether child processes outlive their parent unless the parent ties
    /// them to itself. Where they do, the launcher puts itself and all its
    /// descendants into one kernel-managed group that dies with it; the
    /// group is made once, before anything is spawned, and never released.
    pub open spec fn orphans_children(self) -> bool {
        self == Platform::Windows
    }

    #[verifier::when_used_as_spec(orphans_children)]
    pub fn needs_process_guard(self) -> (needed: bool)
        ensures
            needed == self.orphans_children(),
    {
        self == Platform::Windows
    }

    /// Whether the window is drawn by a web view runtime that is installed
    /// apart from the launcher and so may be missing or broken.
    pub open spec fn separate_webview(self) -> bool {
        self == Platform::Windows
    }

    #[verifier::when_used_as_spec(separate_webview)]
    pub fn has_separate_webview(self) -> (separate: bool)
        ensures
            separate == self.separate_webview(),
    {
        self == Platform::Windows
    }
}

} // verus!

//! Host facts reported by the `info` subcommand.

use vstd::prelude::*;

verus! {

/// What the host looks like: the kernel release string and whether DebugFS
/// is mounted.
pub struct SystemInfo {
    pub os_release: String,
    pub debug_fs: bool,
}

/// The full information record shown to the user.
pub struct Info {
    pub system: SystemInfo,
}

} // verus!

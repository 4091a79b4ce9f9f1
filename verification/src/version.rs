//! Python version triples and their canonical textual keys.

use vstd::prelude::*;

use crate::text::{spec_dec, u64_to_dec};

verus! {

/// A Python version as reported by target introspection.
///
/// The catalog key is canonicalized as the pair `(major, minor)`; the patch
/// level and the release flags take no part in offset lookup.
#[derive(Clone, Debug)]
pub struct PyVersion {
    pub major: u64,
    pub minor: u64,
    pub patch: u64,
    /// Optional release flag string (empty when none was detected).
    pub release_flags: String,
}

/// The canonical catalog key for a version: `pythonM.N`.
pub open spec fn spec_version_key(major: nat, minor: nat) -> Seq<char> {
    seq!['p', 'y', 't', 'h', 'o', 'n'] + spec_dec(major) + seq!['.'] + spec_dec(minor)
}

/// Renders the canonical `pythonM.N` key for a version.
pub fn version_key_string(major: u64, minor: u64) -> (s: String)
    ensures
        s@ == spec_version_key(major as nat, minor as nat),
{
    proof {
        reveal_strlit("python");
        reveal_strlit(".");
    }
    let mut s = "python".to_owned();
    s.append(u64_to_dec(major).as_str());
    s.append(".");
    s.append(u64_to_dec(minor).as_str());
    proof {
        assert(s@ =~= spec_version_key(major as nat, minor as nat));
    }
    s
}

/// The version code shared with the kernel: `major * 100 + minor`.
pub open spec fn spec_version_code(major: nat, minor: nat) -> nat {
    major * 100 + minor
}

/// Computes the `u32` version code, or `None` when the code would not fit
/// (no supported version comes near the bound).
pub fn version_code(major: u64, minor: u64) -> (r: Option<u32>)
    ensures
        r is Some <==> spec_version_code(major as nat, minor as nat) <= u32::MAX,
        r is Some ==> r.unwrap() == spec_version_code(major as nat, minor as nat),
{
    if major > (u32::MAX / 100) as u64 {
        None
    } else {
        let code = major * 100;
        if minor > (u32::MAX as u64) - code {
            None
        } else {
            Some((code + minor) as u32)
        }
    }
}

} // verus!

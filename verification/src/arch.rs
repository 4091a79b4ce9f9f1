//! Architecture gate: the profiler supports the x86 family only.

use vstd::prelude::*;

verus! {

/// Compares two string slices character by character.
fn str_eq(a: &str, b: &str) -> (r: bool)
    ensures
        r == (a@ == b@),
{
    let n = a.unicode_len();
    if n != b.unicode_len() {
        proof {
            assert(a@ != b@);
        }
        return false;
    }
    let mut i: usize = 0;
    while i < n
        invariant
            n == a@.len(),
            n == b@.len(),
            i <= n,
            forall|k: int| 0 <= k < i ==> a@[k] == b@[k],
        decreases n - i,
    {
        if a.get_char(i) != b.get_char(i) {
            return false;
        }
        i = i + 1;
    }
    proof {
        assert(a@ =~= b@);
    }
    true
}

/// True exactly for the supported architectures, by their canonical names
/// as the build target reports them.
pub fn is_x86(arch: &str) -> (r: bool)
    ensures
        r == (arch@ == "x86"@ || arch@ == "x86_64"@),
{
    str_eq(arch, "x86") || str_eq(arch, "x86_64")
}

} // verus!

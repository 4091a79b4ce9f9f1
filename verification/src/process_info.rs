//! The introspected facts about one target process.
//!
//! Opening the process, detecting the interpreter version and resolving the
//! interpreter and thread-state addresses are outside collaborations; this
//! record packages their results as plain values for registration.

use vstd::prelude::*;

use crate::text::{spec_dec, spec_hex, u64_to_dec, u64_to_hex};
use crate::version::{spec_version_key, version_key_string, PyVersion};

verus! {

/// One registered target: its pid, Python version, and the two absolute
/// addresses the kernel unwinder starts from.
pub struct ProcessInfo {
    pub pid: i32,
    pub version: PyVersion,
    pub version_string: String,
    pub interpreter_address: u64,
    pub thread_state_address: u64,
}

impl ProcessInfo {
    /// The version string always is the canonical `pythonM.N` key.
    pub open spec fn wf(self) -> bool {
        self.version_string@ == spec_version_key(
            self.version.major as nat,
            self.version.minor as nat,
        )
    }

    /// Packages the introspection results for one target.
    pub fn new(pid: i32, version: PyVersion, interpreter_address: u64, thread_state_address: u64)
        -> (r: ProcessInfo)
        ensures
            r.wf(),
            r.pid == pid,
            r.version == version,
            r.interpreter_address == interpreter_address,
            r.thread_state_address == thread_state_address,
    {
        let version_string = version_key_string(version.major, version.minor);
        ProcessInfo { pid, version, version_string, interpreter_address, thread_state_address }
    }

    /// A multi-line description of the target, for the user: the pid, the
    /// version key, and the two addresses in hexadecimal.
    pub fn describe(&self) -> (s: String)
        requires
            self.pid >= 0,
        ensures
            s@ == "pid: "@ + spec_dec(self.pid as nat) + seq!['\n'] + "python version: "@
                + self.version_string@ + seq!['\n'] + "interpreter address: 0x"@ + spec_hex(
                self.interpreter_address as nat,
            ) + seq!['\n'] + "threadstate address: 0x"@ + spec_hex(
                self.thread_state_address as nat,
            ) + seq!['\n'],
    {
        proof {
            reveal_strlit("\n");
        }
        let mut s = "pid: ".to_owned();
        s.append(u64_to_dec(self.pid as u64).as_str());
        s.append("\n");
        s.append("python version: ");
        s.append(self.version_string.as_str());
        s.append("\n");
        s.append("interpreter address: 0x");
        s.append(u64_to_hex(self.interpreter_address).as_str());
        s.append("\n");
        s.append("threadstate address: 0x");
        s.append(u64_to_hex(self.thread_state_address).as_str());
        s.append("\n");
        proof {
            assert(s@ =~= "pid: "@ + spec_dec(self.pid as nat) + seq!['\n']
                + "python version: "@ + self.version_string@ + seq!['\n']
                + "interpreter address: 0x"@ + spec_hex(self.interpreter_address as nat)
                + seq!['\n'] + "threadstate address: 0x"@ + spec_hex(
                self.thread_state_address as nat,
            ) + seq!['\n']);
        }
        s
    }
}

} // verus!

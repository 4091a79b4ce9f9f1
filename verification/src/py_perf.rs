//! The profiler controller: registration of targets and the acquisition
//! plan.
//!
//! The controller decides; the surrounding binary acts.  `record` validates
//! a target against the catalog and produces the kernel map writes that
//! register it; `start` produces the per-CPU perf-event parameters;
//! [`tail_call_update`] produces the map write that installs the
//! stack-walking program in the tail-call table.  The binary applies each
//! update to the named BPF map, opens and attaches the events, and drives
//! the poll loop.

use vstd::bytes::{spec_u32_to_le_bytes, spec_u64_to_le_bytes, u32_to_le_bytes, u64_to_le_bytes};
use vstd::prelude::*;

use crate::catalog::{CatalogError, SupportedVersions};
use crate::offsets::{offsets_to_bytes, spec_offsets_bytes};
use crate::perf_event::{setup, PerfEventSpec};
use crate::process_info::ProcessInfo;
use crate::stats::Stats;
use crate::text::{spec_dec, u64_to_dec};
use crate::version::{spec_version_code, version_code};

verus! {

/// Index of the stack-walking program in the kernel tail-call table.
pub const PYPERF_STACK_WALKING_PROGRAM_IDX: u32 = 0;

/// The kernel maps the controller writes to, by role.
#[derive(Clone, Copy, Debug, PartialEq, Eq, Structural)]
pub enum MapRole {
    /// `version_specific_offsets`: version code to offsets record.
    VersionSpecificOffsets,
    /// `pid_to_process_info`: pid to process record.
    PidToProcessInfo,
    /// `programs`: the tail-call table.
    Programs,
}

/// One pending write into a kernel map.
#[derive(Debug)]
pub struct MapUpdate {
    pub map: MapRole,
    pub key: Vec<u8>,
    pub value: Vec<u8>,
}

/// Why a controller operation failed.
#[derive(Clone, Copy, Debug, PartialEq, Eq, Structural)]
pub enum PyPerfError {
    /// `start` was asked for with no registered target.
    NoProcesses,
    /// The target's Python version is not in the catalog.
    UnsupportedVersion { major: u64, minor: u64 },
    /// The version code `major * 100 + minor` does not fit the kernel's
    /// word (no supported version comes near this).
    VersionCodeOverflow,
}

/// Message text of [`PyPerfError::NoProcesses`].
pub open spec fn spec_no_processes_msg() -> Seq<char> {
    "No Python processes found to profile!"@
}

/// Message text of [`PyPerfError::UnsupportedVersion`].
pub open spec fn spec_unsupported_msg(major: nat, minor: nat) -> Seq<char> {
    "unsupported Python version: "@ + spec_dec(major) + seq!['.'] + spec_dec(minor)
}

/// Message text of [`PyPerfError::VersionCodeOverflow`].
pub open spec fn spec_overflow_msg() -> Seq<char> {
    "Python version code does not fit 32 bits"@
}

impl PyPerfError {
    /// The error line shown to the user.
    pub fn message(&self) -> (s: String)
        ensures
            s@ == (match *self {
                PyPerfError::NoProcesses => spec_no_processes_msg(),
                PyPerfError::UnsupportedVersion { major, minor } => spec_unsupported_msg(
                    major as nat,
                    minor as nat,
                ),
                PyPerfError::VersionCodeOverflow => spec_overflow_msg(),
            }),
    {
        match self {
            PyPerfError::NoProcesses => "No Python processes found to profile!".to_owned(),
            PyPerfError::UnsupportedVersion { major, minor } => {
                proof {
                    reveal_strlit(".");
                }
                let mut s = "unsupported Python version: ".to_owned();
                s.append(u64_to_dec(*major).as_str());
                s.append(".");
                s.append(u64_to_dec(*minor).as_str());
                proof {
                    assert(s@ =~= spec_unsupported_msg(*major as nat, *minor as nat));
                }
                s
            },
            PyPerfError::VersionCodeOverflow => {
                "Python version code does not fit 32 bits".to_owned()
            },
        }
    }
}

/// The byte image of one process record as written into
/// `pid_to_process_info`: the two addresses, the version code, and four
/// bytes of alignment padding, all little-endian.
pub open spec fn spec_process_info_bytes(
    thread_state_addr: u64,
    interpreter_addr: u64,
    py_version: u32,
) -> Seq<u8> {
    spec_u64_to_le_bytes(thread_state_addr) + spec_u64_to_le_bytes(interpreter_addr)
        + spec_u32_to_le_bytes(py_version) + seq![0u8, 0u8, 0u8, 0u8]
}

fn process_info_bytes(thread_state_addr: u64, interpreter_addr: u64, py_version: u32) -> (out:
    Vec<u8>)
    ensures
        out@ == spec_process_info_bytes(thread_state_addr, interpreter_addr, py_version),
{
    let mut out = u64_to_le_bytes(thread_state_addr);
    let mut b = u64_to_le_bytes(interpreter_addr);
    out.append(&mut b);
    let mut c = u32_to_le_bytes(py_version);
    out.append(&mut c);
    out.push(0u8);
    out.push(0u8);
    out.push(0u8);
    out.push(0u8);
    proof {
        assert(out@ =~= spec_process_info_bytes(
            thread_state_addr,
            interpreter_addr,
            py_version,
        ));
    }
    out
}

/// The map write that installs the stack-walking program's descriptor in
/// the tail-call table, once the program is loaded and its descriptor
/// known.
pub fn tail_call_update(walk_python_stack_fd: i32) -> (u: MapUpdate)
    ensures
        u.map == MapRole::Programs,
        u.key@ == spec_u32_to_le_bytes(PYPERF_STACK_WALKING_PROGRAM_IDX),
        u.value@ == spec_u32_to_le_bytes(walk_python_stack_fd as u32),
{
    MapUpdate {
        map: MapRole::Programs,
        key: u32_to_le_bytes(PYPERF_STACK_WALKING_PROGRAM_IDX),
        value: u32_to_le_bytes(walk_python_stack_fd as u32),
    }
}

/// The profiler controller.
pub struct PyPerf {
    /// Session counters, shared with the drain and the processor.
    pub stats: Stats,
    /// Length of the sampling window, in milliseconds.
    pub duration_ms: u64,
    /// Sampling frequency, in samples per second.
    pub frequency: u64,
    /// Wall-clock start, seconds since the Unix epoch; set by `start`.
    pub started_at: Option<u64>,
    /// The offset catalog.
    pub supported_versions: SupportedVersions,
    /// The registered targets, in registration order.
    pub processes: Vec<ProcessInfo>,
}

impl PyPerf {
    pub open spec fn wf(self) -> bool {
        &&& self.frequency >= 1
        &&& self.supported_versions.wf()
    }

    /// Builds a controller for a window of `duration_ms` at `frequency`
    /// samples per second, with the catalog loaded from the configuration
    /// texts.  Success is owed exactly when the catalog loads: every text a
    /// canonical offsets description, within the index space.
    pub fn new(duration_ms: u64, frequency: u64, configs: &Vec<String>) -> (r: Result<
        PyPerf,
        CatalogError,
    >)
        requires
            frequency >= 1,
        ensures
            r is Ok <==> (configs@.len() <= u32::MAX + 1 && forall|k: int|
                0 <= k < configs@.len() ==> crate::catalog::canonical_config(
                    (#[trigger] configs@[k])@,
                )),
            r == Err::<PyPerf, CatalogError>(CatalogError::TooManyConfigs) <==> configs@.len()
                > u32::MAX + 1,
            r == Err::<PyPerf, CatalogError>(CatalogError::InvalidConfig) <==> (configs@.len()
                <= u32::MAX + 1 && exists|k: int|
                0 <= k < configs@.len() && !crate::catalog::canonical_config(
                    (#[trigger] configs@[k])@,
                )),
            r is Ok ==> {
                let p = r.unwrap();
                &&& p.wf()
                &&& p.duration_ms == duration_ms
                &&& p.frequency == frequency
                &&& p.started_at is None
                &&& p.processes@.len() == 0
                &&& p.stats.total_events == 0
                &&& p.stats.lost_event_errors == 0
                &&& p.stats.map_reading_errors == 0
                &&& p.stats.truncated_stacks == 0
                &&& p.stats.garbled_data_errors == 0
                &&& p.supported_versions.versions@.len() == configs@.len()
            },
    {
        let supported_versions = match SupportedVersions::new(configs) {
            Ok(c) => c,
            Err(e) => {
                return Err(e);
            },
        };
        Ok(
            PyPerf {
                stats: Stats::default(),
                duration_ms,
                frequency,
                started_at: None,
                supported_versions,
                processes: Vec::new(),
            },
        )
    }

    /// Registers one target: requires its version to be in the catalog,
    /// appends it, and returns the two kernel map writes that announce it
    /// (the offsets record under the version code, and the process record
    /// under the pid).  On any error nothing is changed and no write is
    /// returned, so no map is mutated.
    pub fn record(&mut self, target: ProcessInfo) -> (r: Result<Vec<MapUpdate>, PyPerfError>)
        requires
            old(self).wf(),
        ensures
            final(self).wf(),
            r == Err::<Vec<MapUpdate>, PyPerfError>(
                PyPerfError::UnsupportedVersion { major: target.version.major, minor: target.version.minor },
            ) <==> !old(self).supported_versions.keys().contains(
                (target.version.major as int, target.version.minor as int),
            ),
            r == Err::<Vec<MapUpdate>, PyPerfError>(PyPerfError::VersionCodeOverflow) <==> {
                &&& old(self).supported_versions.keys().contains(
                    (target.version.major as int, target.version.minor as int),
                )
                &&& spec_version_code(target.version.major as nat, target.version.minor as nat)
                    > u32::MAX
            },
            r is Err ==> *final(self) == *old(self),
            r is Ok ==> {
                let ups = r.unwrap();
                let code = spec_version_code(
                    target.version.major as nat,
                    target.version.minor as nat,
                );
                &&& final(self).processes@ == old(self).processes@.push(target)
                &&& final(self).stats == old(self).stats
                &&& final(self).duration_ms == old(self).duration_ms
                &&& final(self).frequency == old(self).frequency
                &&& final(self).started_at == old(self).started_at
                &&& final(self).supported_versions == old(self).supported_versions
                &&& ups@.len() == 2
                &&& ups@[0].map == MapRole::VersionSpecificOffsets
                &&& ups@[0].key@ == spec_u32_to_le_bytes(code as u32)
                &&& (exists|k: int|
                    0 <= k < old(self).supported_versions.versions@.len() && {
                        let row = #[trigger] old(self).supported_versions.versions@[k];
                        &&& row.version.major == target.version.major
                        &&& row.version.minor == target.version.minor
                        &&& ups@[0].value@ == spec_offsets_bytes(row.offsets)
                    })
                &&& ups@[1].map == MapRole::PidToProcessInfo
                &&& ups@[1].key@ == spec_u32_to_le_bytes(target.pid as u32)
                &&& ups@[1].value@ == spec_process_info_bytes(
                    target.thread_state_address,
                    target.interpreter_address,
                    code as u32,
                )
            },
    {
        let row = match self.supported_versions.get(&target.version) {
            Some(row) => row,
            None => {
                return Err(
                    PyPerfError::UnsupportedVersion {
                        major: target.version.major,
                        minor: target.version.minor,
                    },
                );
            },
        };
        let offsets = row.offsets;
        let ghost row_snapshot = *row;
        let code = match version_code(target.version.major, target.version.minor) {
            Some(c) => c,
            None => {
                return Err(PyPerfError::VersionCodeOverflow);
            },
        };
        let mut updates: Vec<MapUpdate> = Vec::new();
        updates.push(
            MapUpdate {
                map: MapRole::VersionSpecificOffsets,
                key: u32_to_le_bytes(code),
                value: offsets_to_bytes(&offsets),
            },
        );
        updates.push(
            MapUpdate {
                map: MapRole::PidToProcessInfo,
                key: u32_to_le_bytes(target.pid as u32),
                value: process_info_bytes(
                    target.thread_state_address,
                    target.interpreter_address,
                    code,
                ),
            },
        );
        self.processes.push(target);
        Ok(updates)
    }

    /// Plans the acquisition: requires at least one registered target,
    /// records the start instant, and returns one perf-event specification
    /// per online CPU, each scoped to the first target's pid.
    pub fn start(&mut self, num_cpus: u32, now_epoch_s: u64) -> (r: Result<
        Vec<PerfEventSpec>,
        PyPerfError,
    >)
        requires
            old(self).wf(),
            // The acquisition may be started at most once.
            old(self).started_at is None,
            num_cpus <= i32::MAX as u32,
        ensures
            final(self).wf(),
            r is Err <==> old(self).processes@.len() == 0,
            r is Err ==> r == Err::<Vec<PerfEventSpec>, PyPerfError>(PyPerfError::NoProcesses)
                && *final(self) == *old(self),
            r is Ok ==> {
                let evs = r.unwrap();
                &&& final(self).started_at == Some(now_epoch_s)
                &&& final(self).processes == old(self).processes
                &&& final(self).stats == old(self).stats
                &&& final(self).duration_ms == old(self).duration_ms
                &&& final(self).frequency == old(self).frequency
                &&& final(self).supported_versions == old(self).supported_versions
                &&& evs@.len() == num_cpus
                &&& forall|i: int|
                    0 <= i < num_cpus ==> {
                        let e = #[trigger] evs@[i];
                        &&& e.cpu == i
                        &&& e.sample_period == 1000000000 as int / old(self).frequency as int
                        &&& e.sample_freq == old(self).frequency
                        &&& e.pid == old(self).processes@[0].pid
                    }
            },
    {
        if self.processes.len() == 0 {
            return Err(PyPerfError::NoProcesses);
        }
        let pid = self.processes.get(0).unwrap().pid;
        let mut evs: Vec<PerfEventSpec> = Vec::new();
        let mut i: u32 = 0;
        while i < num_cpus
            invariant
                self.frequency >= 1,
                num_cpus <= i32::MAX as u32,
                i <= num_cpus,
                evs@.len() == i,
                forall|k: int|
                    0 <= k < i ==> {
                        let e = #[trigger] evs@[k];
                        &&& e.cpu == k
                        &&& e.sample_period == 1000000000 as int / self.frequency as int
                        &&& e.sample_freq == self.frequency
                        &&& e.pid == pid
                    },
            decreases num_cpus - i,
        {
            let ev = setup(i as i32, self.frequency, Some(pid));
            evs.push(ev);
            i = i + 1;
        }
        self.started_at = Some(now_epoch_s);
        Ok(evs)
    }
}

} // verus!

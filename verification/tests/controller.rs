//! Catalog loading, registration and the acquisition plan.

use py_perf::catalog::{parse_config, str_chars, CatalogError, SupportedVersions};
use py_perf::offsets::{offsets_to_bytes, render_config, VersionOffsets};
use py_perf::perf_event::setup;
use py_perf::process_info::ProcessInfo;
use py_perf::py_perf::{tail_call_update, MapRole, PyPerf, PyPerfError,
    PYPERF_STACK_WALKING_PROGRAM_IDX};
use py_perf::version::PyVersion;

fn offsets_2_7(patch: u32) -> VersionOffsets {
    VersionOffsets {
        major_version: 2,
        minor_version: 7,
        patch_version: patch,
        py_object_ob_type: 8,
        py_string_data: 36,
        py_string_size: 16,
        py_type_object_tp_name: 12,
        py_thread_state_interp: 4,
        py_thread_state_next: 0,
        py_thread_state_frame: 8,
        py_thread_state_thread_id: 20,
        py_thread_state_native_thread_id: -1,
        py_thread_state_cframe: -1,
        py_cframe_current_frame: -1,
        py_interpreter_state_tstate_head: 8,
        py_runtime_state_interp_main: -1,
        py_frame_object_f_back: 24,
        py_frame_object_f_code: 32,
        py_frame_object_f_lineno: 124,
        py_frame_object_f_localsplus: 378,
        py_code_object_co_filename: 80,
        py_code_object_co_name: 88,
        py_code_object_co_varnames: 56,
        py_code_object_co_firstlineno: 96,
        py_tuple_object_ob_item: 24,
    }
}

fn version(major: u64, minor: u64, patch: u64) -> PyVersion {
    PyVersion { major, minor, patch, release_flags: String::new() }
}

#[test]
fn config_text_round_trips() {
    let o = offsets_2_7(15);
    let text = render_config(&o);
    assert!(text.starts_with("major_version: 2\nminor_version: 7\npatch_version: 15\n"));
    assert!(text.contains("py_thread_state:\n  interp: 4\n"));
    assert!(text.contains("  native_thread_id: -1\n"));
    let parsed = parse_config(&str_chars(&text)).expect("canonical text parses");
    assert_eq!(parsed, o);
}

#[test]
fn mangled_config_is_rejected() {
    let o = offsets_2_7(15);
    let text = render_config(&o);
    assert!(parse_config(&str_chars(&text[1..])).is_none());
    assert!(parse_config(&str_chars(&text.replace("ob_type", "ob_typo"))).is_none());
    assert!(parse_config(&str_chars(&text.replace(": 8\n", ": 08\n"))).is_none());
    assert!(parse_config(&str_chars("")).is_none());
}

#[test]
fn catalog_lookup_matches_keys() {
    let configs = vec![render_config(&offsets_2_7(15))];
    let catalog = SupportedVersions::new(&configs).expect("catalog loads");
    assert!(catalog.get(&version(2, 7, 15)).is_some());
    // The patch level takes no part in the key.
    assert!(catalog.get(&version(2, 7, 99)).is_some());
    assert!(catalog.get(&version(3, 99, 0)).is_none());
    let row = catalog.get(&version(2, 7, 0)).unwrap();
    assert_eq!(row.offsets.py_string_data, 36);
    assert_eq!(row.idx, 0);
}

#[test]
fn extreme_offsets_round_trip() {
    let mut o = offsets_2_7(15);
    o.py_frame_object_f_localsplus = i64::MAX;
    o.py_runtime_state_interp_main = i64::MIN;
    let text = render_config(&o);
    assert_eq!(parse_config(&str_chars(&text)), Some(o));
}

#[test]
fn broken_catalog_reports_invalid_config() {
    let configs = vec!["major_version: x".to_string()];
    match SupportedVersions::new(&configs) {
        Err(CatalogError::InvalidConfig) => {},
        other => panic!("expected an invalid-config error, got {:?}", other.is_ok()),
    }
}

#[test]
fn version_string_is_canonical() {
    assert_eq!(SupportedVersions::version_string(&version(3, 11, 0)), "python3.11");
    assert_eq!(SupportedVersions::version_string(&version(2, 7, 15)), "python2.7");
}

#[test]
fn register_writes_both_maps() {
    let configs = vec![render_config(&offsets_2_7(15))];
    let mut pp = PyPerf::new(10_000, 19, &configs).expect("controller builds");
    let target = ProcessInfo::new(1234, version(2, 7, 15), 0x7f00_0000_1000, 0x7f00_0000_2000);
    assert_eq!(target.version_string, "python2.7");
    let updates = pp.record(target).expect("supported version registers");
    assert_eq!(updates.len(), 2);
    assert_eq!(updates[0].map, MapRole::VersionSpecificOffsets);
    // Version code 2 * 100 + 7, little-endian.
    assert_eq!(updates[0].key, 207u32.to_le_bytes().to_vec());
    assert_eq!(updates[0].value, offsets_to_bytes(&offsets_2_7(15)));
    assert_eq!(updates[0].value.len(), 192);
    assert_eq!(updates[1].map, MapRole::PidToProcessInfo);
    assert_eq!(updates[1].key, 1234u32.to_le_bytes().to_vec());
    let mut expected = Vec::new();
    expected.extend_from_slice(&0x7f00_0000_2000u64.to_le_bytes());
    expected.extend_from_slice(&0x7f00_0000_1000u64.to_le_bytes());
    expected.extend_from_slice(&207u32.to_le_bytes());
    expected.extend_from_slice(&[0, 0, 0, 0]);
    assert_eq!(updates[1].value, expected);
    assert_eq!(pp.processes.len(), 1);
}

#[test]
fn unsupported_version_mutates_nothing() {
    let configs = vec![render_config(&offsets_2_7(15))];
    let mut pp = PyPerf::new(10_000, 19, &configs).unwrap();
    let target = ProcessInfo::new(1234, version(3, 99, 0), 1, 2);
    let err = pp.record(target).unwrap_err();
    assert_eq!(err, PyPerfError::UnsupportedVersion { major: 3, minor: 99 });
    assert_eq!(err.message(), "unsupported Python version: 3.99");
    assert!(pp.processes.is_empty());
}

#[test]
fn oversized_version_code_is_refused() {
    let mut big = offsets_2_7(0);
    big.major_version = u32::MAX;
    big.minor_version = 0;
    let configs = vec![render_config(&big)];
    let mut pp = PyPerf::new(10_000, 19, &configs).unwrap();
    let target = ProcessInfo::new(1234, version(u64::from(u32::MAX), 0, 0), 1, 2);
    let err = pp.record(target).unwrap_err();
    assert_eq!(err, PyPerfError::VersionCodeOverflow);
    assert!(pp.processes.is_empty());
}

#[test]
fn start_needs_a_target() {
    let configs = vec![render_config(&offsets_2_7(15))];
    let mut pp = PyPerf::new(10_000, 19, &configs).unwrap();
    let err = pp.start(4, 1_700_000_000).unwrap_err();
    assert_eq!(err, PyPerfError::NoProcesses);
    assert_eq!(err.message(), "No Python processes found to profile!");
    assert!(pp.started_at.is_none());
}

#[test]
fn start_covers_every_cpu() {
    let configs = vec![render_config(&offsets_2_7(15))];
    let mut pp = PyPerf::new(10_000, 19, &configs).unwrap();
    pp.record(ProcessInfo::new(1234, version(2, 7, 15), 1, 2)).unwrap();
    let evs = pp.start(4, 1_700_000_000).expect("plan exists");
    assert_eq!(evs.len(), 4);
    for (i, ev) in evs.iter().enumerate() {
        assert_eq!(ev.cpu, i as i32);
        assert_eq!(ev.sample_period, 1_000_000_000 / 19);
        assert_eq!(ev.sample_freq, 19);
        assert_eq!(ev.pid, 1234);
    }
    assert_eq!(pp.started_at, Some(1_700_000_000));
}

#[test]
fn frequency_one_gives_full_second_period() {
    let ev = setup(0, 1, None);
    assert_eq!(ev.sample_period, 1_000_000_000);
    assert_eq!(ev.sample_freq, 1);
    assert_eq!(ev.pid, -1);
}

#[test]
fn tail_call_entry_is_exact() {
    let u = tail_call_update(17);
    assert_eq!(u.map, MapRole::Programs);
    assert_eq!(u.key, PYPERF_STACK_WALKING_PROGRAM_IDX.to_le_bytes().to_vec());
    assert_eq!(u.value, 17u32.to_le_bytes().to_vec());
}

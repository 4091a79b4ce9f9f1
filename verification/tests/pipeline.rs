//! End-to-end behavior of the sample pipeline: decode, resolve, aggregate,
//! fold.

use py_perf::processor::{handle_sample, sample_tid, SampleError};
use py_perf::profile::Profile;
use py_perf::sample::{CLASS_NAME_LEN, FILE_NAME_LEN, FUNCTION_NAME_LEN, MAX_STACK_DEPTH,
    SAMPLE_SIZE, SYMBOL_SIZE};
use py_perf::symbols::SymbolTable;
use py_perf::Stats;

fn padded(text: &str, width: usize) -> Vec<u8> {
    let mut out = text.as_bytes().to_vec();
    assert!(out.len() < width);
    out.resize(width, 0);
    out
}

fn symbol_bytes(file: &str, class: &str, func: &str, line: u32) -> Vec<u8> {
    let mut out = padded(file, FILE_NAME_LEN);
    out.extend_from_slice(&padded(class, CLASS_NAME_LEN));
    out.extend_from_slice(&padded(func, FUNCTION_NAME_LEN));
    out.extend_from_slice(&line.to_le_bytes());
    assert_eq!(out.len(), SYMBOL_SIZE);
    out
}

fn sample_bytes(pid: i32, tid: i32, timestamp: u64, len: u32, frames: &[u32]) -> Vec<u8> {
    let mut out = Vec::new();
    out.extend_from_slice(&pid.to_le_bytes());
    out.extend_from_slice(&tid.to_le_bytes());
    out.extend_from_slice(&[0u8; 16]);
    out.extend_from_slice(&timestamp.to_le_bytes());
    out.extend_from_slice(&0i32.to_le_bytes());
    out.extend_from_slice(&0i32.to_le_bytes());
    out.extend_from_slice(&len.to_le_bytes());
    for k in 0..MAX_STACK_DEPTH {
        let id = frames.get(k).copied().unwrap_or(0);
        out.extend_from_slice(&id.to_le_bytes());
    }
    assert_eq!(out.len(), SAMPLE_SIZE);
    out
}

fn two_symbol_table() -> SymbolTable {
    let raw = vec![
        (symbol_bytes("a.py", "C", "m", 3), 1u32.to_le_bytes().to_vec()),
        (symbol_bytes("b.py", "D", "n", 7), 2u32.to_le_bytes().to_vec()),
    ];
    SymbolTable::from_entries(&raw).expect("well-formed table")
}

fn folded_of(profile: Profile) -> String {
    let report = profile.report().expect("frequency fits");
    report.folded()
}

#[test]
fn empty_profile_renders_empty_folded() {
    let stats = Stats::default();
    let mut profile = Profile::new(1000, 10);
    profile.start_time = Some(7);
    assert_eq!(stats.total_events, 0);
    assert_eq!(folded_of(profile), "");
}

#[test]
fn single_stack_ten_samples() {
    let table = two_symbol_table();
    let mut profile = Profile::new(1000, 10);
    profile.start_time = Some(7);
    let mut stats = Stats::default();
    let data = sample_bytes(500, 100, 42, 2, &[1, 2]);
    assert_eq!(sample_tid(&data), Some(100));
    for _ in 0..10 {
        handle_sample(&mut profile, &mut stats, &table, &data, Some("worker".to_string()))
            .expect("sample lands");
    }
    assert_eq!(stats.total_events, 10);
    assert_eq!(stats.map_reading_errors, 0);
    assert_eq!(stats.garbled_data_errors, 0);
    assert_eq!(folded_of(profile), "worker;D::n;C::m 10");
}

#[test]
fn multi_thread_merge_keeps_two_keys() {
    let table = two_symbol_table();
    let mut profile = Profile::new(1000, 10);
    profile.start_time = Some(7);
    let mut stats = Stats::default();
    let a = sample_bytes(500, 100, 42, 2, &[1, 2]);
    let b = sample_bytes(500, 200, 43, 2, &[1, 2]);
    for _ in 0..5 {
        handle_sample(&mut profile, &mut stats, &table, &a, Some("one".to_string())).unwrap();
        handle_sample(&mut profile, &mut stats, &table, &b, Some("two".to_string())).unwrap();
    }
    assert_eq!(profile.entries.len(), 2);
    assert_eq!(profile.entries[0].count, 5);
    assert_eq!(profile.entries[1].count, 5);
    assert_eq!(profile.entries[0].thread_id, 100);
    assert_eq!(profile.entries[1].thread_id, 200);
}

#[test]
fn identical_samples_share_one_key_with_count_two() {
    let table = two_symbol_table();
    let mut profile = Profile::new(1000, 10);
    let mut stats = Stats::default();
    let data = sample_bytes(500, 100, 42, 2, &[1, 2]);
    handle_sample(&mut profile, &mut stats, &table, &data, None).unwrap();
    handle_sample(&mut profile, &mut stats, &table, &data, None).unwrap();
    assert_eq!(profile.entries.len(), 1);
    assert_eq!(profile.entries[0].count, 2);
}

#[test]
fn lost_events_accumulate() {
    let mut stats = Stats::default();
    py_perf::handle_lost_events(&mut stats, 0, 3);
    py_perf::handle_lost_events(&mut stats, 1, 4);
    assert_eq!(stats.lost_event_errors, 7);
    assert_eq!(stats.total_events, 0);
}

#[test]
fn unknown_symbol_drops_frame_only() {
    let table = two_symbol_table();
    let mut profile = Profile::new(1000, 10);
    profile.start_time = Some(7);
    let mut stats = Stats::default();
    // Frame id 9 is absent; the other two still form the stack key.
    let data = sample_bytes(500, 100, 42, 3, &[1, 9, 2]);
    handle_sample(&mut profile, &mut stats, &table, &data, Some("worker".to_string())).unwrap();
    assert_eq!(stats.map_reading_errors, 1);
    assert_eq!(profile.entries.len(), 1);
    assert_eq!(profile.entries[0].count, 1);
    assert_eq!(profile.entries[0].frames.len(), 2);
    assert_eq!(folded_of(profile), "worker;D::n;C::m 1");
}

#[test]
fn empty_stack_still_counts() {
    let table = two_symbol_table();
    let mut profile = Profile::new(1000, 10);
    profile.start_time = Some(7);
    let mut stats = Stats::default();
    let data = sample_bytes(500, 100, 42, 0, &[]);
    handle_sample(&mut profile, &mut stats, &table, &data, None).unwrap();
    assert_eq!(stats.total_events, 1);
    assert_eq!(profile.entries.len(), 1);
    assert_eq!(profile.entries[0].count, 1);
    assert!(profile.entries[0].frames.is_empty());
    // The fallback name is used when no OS name was supplied.
    assert_eq!(folded_of(profile), "Thread 100 1");
}

#[test]
fn garbled_symbol_counts_and_drops_frame() {
    let mut class = vec![0xffu8; 4];
    class.resize(CLASS_NAME_LEN, 0);
    let mut sym = padded("a.py", FILE_NAME_LEN);
    sym.extend_from_slice(&class);
    sym.extend_from_slice(&padded("m", FUNCTION_NAME_LEN));
    sym.extend_from_slice(&3u32.to_le_bytes());
    let raw = vec![
        (sym, 1u32.to_le_bytes().to_vec()),
        (symbol_bytes("b.py", "D", "n", 7), 2u32.to_le_bytes().to_vec()),
    ];
    let table = SymbolTable::from_entries(&raw).unwrap();
    let mut profile = Profile::new(1000, 10);
    let mut stats = Stats::default();
    let data = sample_bytes(500, 100, 42, 2, &[1, 2]);
    handle_sample(&mut profile, &mut stats, &table, &data, None).unwrap();
    assert_eq!(stats.garbled_data_errors, 1);
    assert_eq!(profile.entries.len(), 1);
    assert_eq!(profile.entries[0].frames.len(), 1);
    assert_eq!(profile.entries[0].frames[0].name, "D::n");
}

#[test]
fn short_buffer_is_fatal_and_changes_nothing() {
    let table = two_symbol_table();
    let mut profile = Profile::new(1000, 10);
    let mut stats = Stats::default();
    let data = vec![0u8; SAMPLE_SIZE - 1];
    let r = handle_sample(&mut profile, &mut stats, &table, &data, None);
    assert_eq!(r, Err(SampleError::ShortSample));
    assert_eq!(stats.total_events, 0);
    assert!(profile.entries.is_empty());
    assert_eq!(sample_tid(&data), None);
}

#[test]
fn zero_pid_is_fatal_after_counting() {
    let table = two_symbol_table();
    let mut profile = Profile::new(1000, 10);
    let mut stats = Stats::default();
    let data = sample_bytes(0, 100, 42, 1, &[1]);
    let r = handle_sample(&mut profile, &mut stats, &table, &data, None);
    assert_eq!(r, Err(SampleError::ZeroPid));
    assert_eq!(stats.total_events, 1);
    assert!(profile.entries.is_empty());
}

#[test]
fn total_events_dominates_profile_counts() {
    let table = two_symbol_table();
    let mut profile = Profile::new(1000, 10);
    let mut stats = Stats::default();
    let good = sample_bytes(500, 100, 42, 1, &[1]);
    let fatal = sample_bytes(0, 100, 42, 1, &[1]);
    handle_sample(&mut profile, &mut stats, &table, &good, None).unwrap();
    let _ = handle_sample(&mut profile, &mut stats, &table, &fatal, None);
    handle_sample(&mut profile, &mut stats, &table, &good, None).unwrap();
    let total: u64 = profile.entries.iter().map(|e| e.count).sum();
    assert_eq!(stats.total_events, 3);
    assert_eq!(total, 2);
    assert!(u64::from(stats.total_events) >= total);
}

#[test]
fn folded_output_round_trips_through_a_parser() {
    let table = two_symbol_table();
    let mut profile = Profile::new(1000, 10);
    profile.start_time = Some(7);
    let mut stats = Stats::default();
    let a = sample_bytes(500, 100, 42, 2, &[1, 2]);
    let b = sample_bytes(500, 200, 43, 1, &[1]);
    for _ in 0..3 {
        handle_sample(&mut profile, &mut stats, &table, &a, Some("alpha".to_string())).unwrap();
    }
    handle_sample(&mut profile, &mut stats, &table, &b, Some("beta".to_string())).unwrap();
    let text = folded_of(profile);
    let mut seen = Vec::new();
    for line in text.split('\n') {
        let (head, count) = line.rsplit_once(' ').expect("line has a count");
        let n: u64 = count.parse().expect("count is an integer");
        assert!(n > 0);
        let fields: Vec<&str> = head.split(';').collect();
        assert!(fields.len() >= 2, "line has a thread name and a frame");
        seen.push((fields[0].to_string(), fields[1..].to_vec(), n));
    }
    assert_eq!(seen.len(), 2);
    assert_eq!(seen[0].0, "alpha");
    assert_eq!(seen[0].1, vec!["D::n", "C::m"]);
    assert_eq!(seen[0].2, 3);
    assert_eq!(seen[1].0, "beta");
    assert_eq!(seen[1].1, vec!["C::m"]);
    assert_eq!(seen[1].2, 1);
}

#[test]
fn thread_name_is_resolved_once_per_thread() {
    let table = two_symbol_table();
    let mut profile = Profile::new(1000, 10);
    let mut stats = Stats::default();
    let with_frames = sample_bytes(500, 100, 42, 1, &[1]);
    let empty = sample_bytes(500, 100, 50, 0, &[]);
    handle_sample(&mut profile, &mut stats, &table, &with_frames, Some("first".to_string()))
        .unwrap();
    // A later hint for the same thread does not rename it.
    handle_sample(&mut profile, &mut stats, &table, &empty, Some("second".to_string())).unwrap();
    assert_eq!(profile.entries.len(), 2);
    assert_eq!(profile.entries[0].thread_name, "first");
    assert_eq!(profile.entries[1].thread_name, "first");
}

#[test]
fn malformed_symbol_dump_is_rejected() {
    let raw = vec![(vec![0u8; SYMBOL_SIZE - 1], 1u32.to_le_bytes().to_vec())];
    assert!(SymbolTable::from_entries(&raw).is_none());
    let raw = vec![(vec![0u8; SYMBOL_SIZE], vec![1u8, 0, 0])];
    assert!(SymbolTable::from_entries(&raw).is_none());
}

//! Small units: counters, strings, decoders.

use py_perf::arch::is_x86;
use py_perf::process_info::ProcessInfo;
use py_perf::profile::Profile;
use py_perf::report::ReportError;
use py_perf::text::u64_to_hex;
use py_perf::version::PyVersion;
use py_perf::sample::{decode_sample, decode_symbol, SAMPLE_SIZE, SYMBOL_SIZE};
use py_perf::symbols::str_from_u8_nul;
use py_perf::text::u64_to_dec;
use py_perf::version::{version_code, version_key_string};
use py_perf::Stats;

#[test]
fn error_totals_add_up() {
    let stats = Stats {
        total_events: 100,
        lost_event_errors: 1,
        map_reading_errors: 2,
        truncated_stacks: 3,
        garbled_data_errors: 4,
    };
    assert_eq!(stats.total_errors(), 10);
    assert_eq!(stats.stack_errors(), 9);
    let fresh = Stats::default();
    assert_eq!(fresh.total_errors(), 0);
}

#[test]
fn decimal_rendering_is_exact() {
    assert_eq!(u64_to_dec(0), "0");
    assert_eq!(u64_to_dec(7), "7");
    assert_eq!(u64_to_dec(1234567890), "1234567890");
    assert_eq!(u64_to_dec(u64::MAX), "18446744073709551615");
}

#[test]
fn version_keys_and_codes() {
    assert_eq!(version_key_string(3, 11), "python3.11");
    assert_eq!(version_code(3, 11), Some(311));
    assert_eq!(version_code(2, 7), Some(207));
    assert_eq!(version_code(u64::MAX, 0), None);
}

#[test]
fn nul_terminated_reads() {
    // An all-NUL buffer decodes to the empty string: valid, not an error.
    assert_eq!(str_from_u8_nul(&vec![0u8; 64]), Some(String::new()));
    let mut buf = b"hello".to_vec();
    buf.resize(16, 0);
    buf.extend_from_slice(b"junk");
    assert_eq!(str_from_u8_nul(&buf), Some("hello".to_string()));
    // No NUL at all: the whole buffer is the text.
    assert_eq!(str_from_u8_nul(&b"abc".to_vec()), Some("abc".to_string()));
    // A non-UTF-8 byte before the first NUL is garbled data.
    assert_eq!(str_from_u8_nul(&vec![0xff, 0x00]), None);
    // A non-UTF-8 byte after the first NUL is ignored.
    assert_eq!(str_from_u8_nul(&vec![b'a', 0x00, 0xff]), Some("a".to_string()));
}

#[test]
fn sample_decoder_reads_fields() {
    let mut data = Vec::new();
    data.extend_from_slice(&77i32.to_le_bytes());
    data.extend_from_slice(&88i32.to_le_bytes());
    data.extend_from_slice(b"comm\0\0\0\0\0\0\0\0\0\0\0\0");
    data.extend_from_slice(&999u64.to_le_bytes());
    data.extend_from_slice(&(-2i32).to_le_bytes());
    data.extend_from_slice(&(-3i32).to_le_bytes());
    data.extend_from_slice(&2u32.to_le_bytes());
    data.extend_from_slice(&5u32.to_le_bytes());
    data.extend_from_slice(&6u32.to_le_bytes());
    data.resize(SAMPLE_SIZE, 0);
    let s = decode_sample(&data).expect("full record decodes");
    assert_eq!(s.pid, 77);
    assert_eq!(s.tid, 88);
    assert_eq!(&s.comm[..4], b"comm");
    assert_eq!(s.timestamp, 999);
    assert_eq!(s.kernel_stack_id, -2);
    assert_eq!(s.user_stack_id, -3);
    assert_eq!(s.stack.len, 2);
    assert_eq!(s.stack.frames[0], 5);
    assert_eq!(s.stack.frames[1], 6);
    assert!(decode_sample(&data[..SAMPLE_SIZE - 1].to_vec()).is_none());
}

#[test]
fn symbol_decoder_reads_fields() {
    let mut data = b"f.py".to_vec();
    data.resize(128, 0);
    let mut class = b"K".to_vec();
    class.resize(64, 0);
    data.extend_from_slice(&class);
    let mut func = b"go".to_vec();
    func.resize(64, 0);
    data.extend_from_slice(&func);
    data.extend_from_slice(&41u32.to_le_bytes());
    assert_eq!(data.len(), SYMBOL_SIZE);
    let sym = decode_symbol(&data).expect("full record decodes");
    assert_eq!(&sym.file[..4], b"f.py");
    assert_eq!(sym.class[0], b'K');
    assert_eq!(&sym.func[..2], b"go");
    assert_eq!(sym.line, 41);
    assert!(decode_symbol(&data[..SYMBOL_SIZE - 1].to_vec()).is_none());
}

#[test]
fn stats_summary_line_is_exact() {
    let stats = Stats {
        total_events: 12,
        lost_event_errors: 1,
        map_reading_errors: 2,
        truncated_stacks: 0,
        garbled_data_errors: 3,
    };
    assert_eq!(
        stats.summary(),
        "\ntotal events: 12\ntotal errors: 6\nlost event errors: 1\nmap reading errors: 2\ntruncated stacks: 0\ngarbled data errors: 3\n"
    );
}

#[test]
fn hexadecimal_rendering_is_exact() {
    assert_eq!(u64_to_hex(0), "0");
    assert_eq!(u64_to_hex(0x7f00_0000_1000), "7f0000001000");
    assert_eq!(u64_to_hex(u64::MAX), "ffffffffffffffff");
}

#[test]
fn target_description_is_exact() {
    let target = ProcessInfo::new(
        42,
        PyVersion { major: 3, minor: 11, patch: 2, release_flags: String::new() },
        0x1000,
        0xff,
    );
    assert_eq!(
        target.describe(),
        "pid: 42\npython version: python3.11\ninterpreter address: 0x1000\nthreadstate address: 0xff\n"
    );
}

#[test]
fn report_rejects_oversized_frequency() {
    let mut profile = Profile::new(1000, u64::MAX);
    profile.start_time = Some(1);
    assert!(matches!(profile.report(), Err(ReportError::FrequencyTooLarge)));
    let mut ok = Profile::new(1000, 19);
    ok.start_time = Some(1);
    assert!(ok.report().is_ok());
}

#[test]
fn architecture_names() {
    assert!(is_x86("x86_64"));
    assert!(is_x86("x86"));
    assert!(!is_x86("aarch64"));
    assert!(!is_x86(""));
}

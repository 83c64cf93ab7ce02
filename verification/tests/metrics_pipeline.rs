//! The run-metrics pipeline: recorder statistics, rotation retention,
//! argument masking, schema validation and the run identifier.

use hpc_core::digits::{u16_hex4, u64_to_string, zero_padded_u64};
use hpc_core::metrics::recorder::{
    mean_us, p95_us, record, record_duration, sort_durations, Recorder,
};
use hpc_core::metrics::run_id::{civil_from_days, current_run_id, format_run_id};
use hpc_core::metrics::schema::{validate_value, RunLineFields, SCHEMA_VERSION};
use hpc_core::metrics::{mask_arg, mask_args, retention_victims, RunLineOwned, RunLog};

fn valid_line() -> RunLineFields {
    RunLineFields {
        schema_version: Some(SCHEMA_VERSION as u64),
        ts: Some(String::from("2025-01-01T00:00:00Z")),
        pid: Some(1234),
        n: Some(256),
        allocs: Some(3),
        alloc_bytes: Some(4096),
        example: Some(String::from("vec_add")),
        run_id: Some(String::from("20250101-000000-ABCD-1234")),
    }
}

#[test]
fn digits_render_exactly() {
    assert_eq!(u64_to_string(0), "0");
    assert_eq!(u64_to_string(7), "7");
    assert_eq!(u64_to_string(1234567890), "1234567890");
    assert_eq!(u64_to_string(u64::MAX), "18446744073709551615");
    assert_eq!(zero_padded_u64(7, 4), "0007");
    assert_eq!(zero_padded_u64(12345, 4), "12345");
    assert_eq!(u16_hex4(0x0ABC), "0ABC");
    assert_eq!(u16_hex4(0xFFFF), "FFFF");
    assert_eq!(u16_hex4(0), "0000");
}

#[test]
fn recorder_keeps_samples_in_order() {
    let mut r = Recorder::new();
    record_duration(&mut r, "enqueue_write", 10);
    record_duration(&mut r, "enqueue_write", 30);
    record(&mut r, "wait", std::time::Instant::now());
    let s = r.samples();
    assert_eq!(s.len(), 3);
    assert_eq!(s[0], ("enqueue_write", 10));
    assert_eq!(s[1], ("enqueue_write", 30));
    assert_eq!(s[2].0, "wait");
}

#[test]
fn sort_mean_p95_are_exact() {
    let mut v: Vec<u128> = vec![30, 10, 20, 50, 40];
    sort_durations(&mut v);
    assert_eq!(v, vec![10, 20, 30, 40, 50]);
    assert_eq!(mean_us(&v), 30);
    // (5 * 95) / 100 == 4, minus one -> index 3
    assert_eq!(p95_us(&v), 40);

    let empty: Vec<u128> = Vec::new();
    assert_eq!(mean_us(&empty), 0);
    assert_eq!(p95_us(&empty), 0);

    let one: Vec<u128> = vec![17];
    assert_eq!(mean_us(&one), 17);
    assert_eq!(p95_us(&one), 17);
}

#[test]
fn retention_deletes_the_oldest() {
    let mtimes: Vec<u64> = vec![500, 100, 300, 400, 200];
    let victims = retention_victims(&mtimes, 2);
    assert_eq!(victims.len(), 3);
    assert!(victims.contains(&1));
    assert!(victims.contains(&4));
    assert!(victims.contains(&2));

    assert_eq!(retention_victims(&mtimes, 7).len(), 0);
    assert_eq!(retention_victims(&mtimes, 5).len(), 0);
}

#[test]
fn mask_arg_redacts_after_secret_patterns() {
    assert_eq!(mask_arg(String::from("token=abc")), "token=***");
    assert_eq!(mask_arg(String::from("--PASSWORD=hunter2")), "--PASSWORD=***");
    assert_eq!(mask_arg(String::from("a pwd=x y")), "a pwd=***");
    assert_eq!(mask_arg(String::from("plain")), "plain");
    let long = "x".repeat(300);
    let masked = mask_arg(long);
    assert_eq!(masked.chars().count(), 259);
    assert!(masked.ends_with("..."));
}

#[test]
fn mask_args_caps_the_list() {
    let args: Vec<String> = (0..70).map(|i| format!("arg{i} secret=s")).collect();
    let masked = mask_args(args);
    assert_eq!(masked.len(), 65);
    assert_eq!(masked[0], "arg0 secret=***");
    assert_eq!(masked[64], "...truncated");

    let few = vec![String::from("a"), String::from("b token=t")];
    let masked = mask_args(few);
    assert_eq!(masked, vec![String::from("a"), String::from("b token=***")]);
}

#[test]
fn schema_accepts_a_valid_line() {
    assert_eq!(validate_value(&valid_line()), Ok(()));
}

#[test]
fn schema_v1_rejects_missing_required_field() {
    let mut line = valid_line();
    line.pid = None;
    let err = validate_value(&line).unwrap_err();
    assert!(err.contains("pid"), "expected error mentioning pid, got: {err}");
}

#[test]
fn schema_v1_rejects_wrong_version() {
    let mut line = valid_line();
    line.schema_version = Some(999);
    let err = validate_value(&line).unwrap_err();
    assert!(err.contains("schema_version mismatch"), "got: {err}");
    assert_eq!(err, "schema_version mismatch: got 999, expected 1");
}

#[test]
fn schema_rejects_each_missing_field_in_order() {
    let mut line = valid_line();
    line.schema_version = None;
    assert_eq!(
        validate_value(&line).unwrap_err(),
        "missing or non-integer `schema_version`"
    );

    let mut line = valid_line();
    line.ts = None;
    assert_eq!(validate_value(&line).unwrap_err(), "missing `ts`");

    let mut line = valid_line();
    line.ts = Some(String::from("not-a-date"));
    assert_eq!(validate_value(&line).unwrap_err(), "invalid `ts` RFC3339");

    let mut line = valid_line();
    line.n = None;
    assert_eq!(validate_value(&line).unwrap_err(), "missing or non-integer `n`");

    let mut line = valid_line();
    line.allocs = None;
    assert_eq!(
        validate_value(&line).unwrap_err(),
        "missing or non-integer `allocs`"
    );

    let mut line = valid_line();
    line.alloc_bytes = None;
    assert_eq!(
        validate_value(&line).unwrap_err(),
        "missing or non-integer `alloc_bytes`"
    );

    let mut line = valid_line();
    line.example = Some(String::new());
    assert_eq!(validate_value(&line).unwrap_err(), "`example` must be non-empty");

    let mut line = valid_line();
    line.run_id = None;
    assert_eq!(validate_value(&line).unwrap_err(), "missing `run_id`");

    let mut line = valid_line();
    line.run_id = Some(String::new());
    assert_eq!(validate_value(&line).unwrap_err(), "`run_id` must be non-empty");
}

#[test]
fn civil_dates_from_day_counts() {
    assert_eq!(civil_from_days(0), (1970, 1, 1));
    assert_eq!(civil_from_days(31), (1970, 2, 1));
    assert_eq!(civil_from_days(59), (1970, 3, 1));
    assert_eq!(civil_from_days(365), (1971, 1, 1));
    // 1972 is a leap year: day 730 is 1972-01-01, day 789 is 1972-02-29.
    assert_eq!(civil_from_days(730), (1972, 1, 1));
    assert_eq!(civil_from_days(789), (1972, 2, 29));
    assert_eq!(civil_from_days(790), (1972, 3, 1));
    // 2000 was a leap year, 1900-style century rule skipped.
    assert_eq!(civil_from_days(11016), (2000, 2, 29));
    // 2024-01-01.
    assert_eq!(civil_from_days(19723), (2024, 1, 1));
}

#[test]
fn format_run_id_shape_is_exact() {
    assert_eq!(
        format_run_id(2025, 1, 9, 7, 5, 3, 0xABCD, 4242),
        "20250109-070503-ABCD-4242"
    );
}

#[test]
fn run_id_is_stable_and_well_formed() {
    let pid = 1234u32;
    let r1 = current_run_id(pid);
    // ^\d{8}-\d{6}-[0-9A-F]{4}-\d+$
    let bytes: Vec<char> = r1.chars().collect();
    assert!(bytes.len() >= 8 + 1 + 6 + 1 + 4 + 1 + 1);
    assert!(bytes[0..8].iter().all(|c| c.is_ascii_digit()), "run_id format unexpected: {r1}");
    assert_eq!(bytes[8], '-');
    assert!(bytes[9..15].iter().all(|c| c.is_ascii_digit()));
    assert_eq!(bytes[15], '-');
    assert!(bytes[16..20]
        .iter()
        .all(|c| c.is_ascii_digit() || ('A'..='F').contains(c)));
    assert_eq!(bytes[20], '-');
    assert!(bytes[21..].iter().all(|c| c.is_ascii_digit()));
    assert!(r1.ends_with("1234"));
}

#[test]
fn run_log_types_carry_their_fields() {
    let log = RunLog {
        example: "vec_add",
        n: 256,
    };
    assert_eq!(log.example, "vec_add");
    assert_eq!(log.n, 256);

    let line = RunLineOwned {
        example: String::from("vec_add"),
        n: 16,
        allocs: 1,
        alloc_bytes: 64,
        ts: String::from("2025-01-01T00:00:00Z"),
        schema_version: 1,
        pid: 42,
    };
    assert_eq!(line.n, 16);
    assert_eq!(line.schema_version, SCHEMA_VERSION);
}

//! The memory-transfer tracer: record shapes, idle gaps, gating, scopes
//! and the CSV export.

use hpc_core::memtracer::{
    abort_count, clear_abort_token, disable_auto_trace, enable_auto_trace, is_auto_trace_enabled,
    log_abort, log_transfer, now_us, render_abort_csv, render_transfer_csv, reset, set_abort_token,
    start, AbortEvent, AbortTokenGuard, Dir, MemTracer, Operation, Phase, TracingScope,
};

#[test]
fn labels_match_csv_vocabulary() {
    assert_eq!(Operation::H2D.as_str(), "H2D");
    assert_eq!(Operation::D2H.as_str(), "D2H");
    assert_eq!(Operation::Kernel.as_str(), "KRN");
    assert_eq!(Dir::H2D.as_str(), "H2D");
    assert_eq!(Dir::D2H.as_str(), "D2H");
    assert_eq!(Dir::Kernel.as_str(), "KRN");
    assert_eq!(Phase::Transfer.as_str(), "Transfer");
    assert_eq!(Phase::Kernel.as_str(), "Kernel");
    assert_eq!(Phase::Abort.as_str(), "Abort");
}

#[test]
fn log_transfer_computes_idle_gap() {
    let mut t = MemTracer::new();
    log_transfer(&mut t, 100, 200, 64, Dir::H2D);
    log_transfer(&mut t, 250, 300, 32, Dir::D2H);
    log_transfer(&mut t, 290, 310, 16, Dir::Kernel);

    let log = t.records();
    assert_eq!(log.len(), 3);
    assert_eq!(log[0].idle_us, 100);
    assert_eq!(log[1].idle_us, 50);
    assert_eq!(log[2].idle_us, 0);
    assert!(matches!(log[0].phase, Phase::Transfer));
    assert!(matches!(log[2].phase, Phase::Kernel));
    assert_eq!(log[1].bytes, 32);
}

#[test]
fn auto_trace_gates_logging() {
    let mut t = MemTracer::new();
    assert!(is_auto_trace_enabled(&t));
    disable_auto_trace(&mut t);
    assert!(!is_auto_trace_enabled(&t));
    log_transfer(&mut t, 0, 1, 8, Dir::H2D);
    assert_eq!(t.records().len(), 0);
    enable_auto_trace(&mut t);
    log_transfer(&mut t, 0, 1, 8, Dir::H2D);
    assert_eq!(t.records().len(), 1);
}

#[test]
fn reset_clears_the_log() {
    let mut t = MemTracer::new();
    log_transfer(&mut t, 0, 1, 8, Dir::H2D);
    assert_eq!(t.records().len(), 1);
    reset(&mut t);
    assert_eq!(t.records().len(), 0);
}

#[test]
fn abort_records_carry_event_fields() {
    let mut t = MemTracer::new();
    set_abort_token(&mut t, String::from("txn-7"));
    log_abort(
        &mut t,
        &AbortEvent {
            tx_id: 7,
            cause: String::from("conflict"),
            retries: 3,
            conflict_sz: 128,
            t_start_us: 10,
            t_end_us: 20,
        },
    );
    clear_abort_token(&mut t);
    log_transfer(&mut t, 30, 40, 8, Dir::H2D);

    let log = t.records();
    assert_eq!(log.len(), 2);
    assert!(matches!(log[0].phase, Phase::Abort));
    assert_eq!(log[0].tx_id, Some(7));
    assert_eq!(log[0].cause.as_deref(), Some("conflict"));
    assert_eq!(log[0].retries, Some(3));
    assert_eq!(log[0].conflict_sz, Some(128));
    assert_eq!(log[0].abort_token.as_deref(), Some("txn-7"));
    assert_eq!(log[1].abort_token, None);
    assert_eq!(abort_count(t.records()), 1);
}

#[test]
fn abort_token_guard_restores_previous() {
    let mut t = MemTracer::new();
    set_abort_token(&mut t, String::from("outer"));
    let g = AbortTokenGuard::new(&mut t, String::from("inner"));
    log_abort(
        &mut t,
        &AbortEvent {
            tx_id: 1,
            cause: String::new(),
            retries: 0,
            conflict_sz: 0,
            t_start_us: 0,
            t_end_us: 0,
        },
    );
    assert_eq!(t.records()[0].abort_token.as_deref(), Some("inner"));
    g.release(&mut t);
    log_abort(
        &mut t,
        &AbortEvent {
            tx_id: 2,
            cause: String::new(),
            retries: 0,
            conflict_sz: 0,
            t_start_us: 0,
            t_end_us: 0,
        },
    );
    assert_eq!(t.records()[1].abort_token.as_deref(), Some("outer"));
}

#[test]
fn tracing_scope_restores_previous_state() {
    let mut t = MemTracer::new();
    let s = TracingScope::disabled(&mut t);
    assert!(!is_auto_trace_enabled(&t));
    let s2 = TracingScope::enabled(&mut t);
    assert!(is_auto_trace_enabled(&t));
    s2.restore(&mut t);
    assert!(!is_auto_trace_enabled(&t));
    s.restore(&mut t);
    assert!(is_auto_trace_enabled(&t));
}

#[test]
fn copy_token_logs_once() {
    let mut t = MemTracer::new();
    let tok = start(Dir::D2H, 4096);
    tok.finish(&mut t);
    let log = t.records();
    assert_eq!(log.len(), 1);
    assert_eq!(log[0].bytes, 4096);
    assert!(matches!(log[0].dir, Dir::D2H));
    assert!(matches!(log[0].phase, Phase::Transfer));
    assert!(log[0].t_end_us >= log[0].t_start_us);
}

#[test]
fn now_us_is_monotonic_enough() {
    let t = MemTracer::new();
    let a = now_us(&t);
    let b = now_us(&t);
    assert!(b >= a);
}

#[test]
fn transfer_csv_renders_exact_lines() {
    let mut t = MemTracer::new();
    log_transfer(&mut t, 100, 200, 64, Dir::H2D);
    set_abort_token(&mut t, String::from("tok"));
    log_transfer(&mut t, 250, 300, 32, Dir::Kernel);
    log_abort(
        &mut t,
        &AbortEvent {
            tx_id: 9,
            cause: String::from("why"),
            retries: 2,
            conflict_sz: 5,
            t_start_us: 400,
            t_end_us: 450,
        },
    );

    let csv = render_transfer_csv(t.records());
    assert_eq!(
        csv,
        "t_start_us,t_end_us,bytes,dir,idle_us,abort_token,phase\n\
         100,200,64,H2D,100,,Transfer\n\
         250,300,32,KRN,50,tok,Kernel\n"
    );

    let abort_csv = render_abort_csv(t.records());
    assert_eq!(
        abort_csv,
        "t_start_us,t_end_us,tx_id,cause,retries,conflict_sz,idle_us,abort_token\n\
         400,450,9,why,2,5,100,tok\n"
    );
}

//! Memory-transfer tracing. A `MemTracer` value owns the whole tracing
//! state (the record log, the auto-trace switch, the current abort token
//! and the epoch of its clock); callers thread it explicitly, and every
//! logging operation states exactly what record it appends. Only the
//! timestamps, which come from the host clock, are left open.

use vstd::prelude::*;

use crate::digits::{spec_u64_string, u64_to_string};

verus! {

/// Transfer direction.
#[derive(Clone, Copy, Debug)]
pub enum Dir {
    H2D,
    D2H,
    Kernel,
}

/// Operation type (semantically clearer alias of the direction).
#[derive(Clone, Copy, Debug)]
pub enum Operation {
    H2D,
    D2H,
    Kernel,
}

/// Phase of an operation.
#[derive(Clone, Copy, Debug)]
pub enum Phase {
    Transfer,
    Kernel,
    Abort,
}

/// The label of a direction in the CSV export.
pub open spec fn spec_dir_str(d: Dir) -> Seq<char> {
    match d {
        Dir::H2D => "H2D"@,
        Dir::D2H => "D2H"@,
        Dir::Kernel => "KRN"@,
    }
}

/// The label of an operation in the CSV export.
pub open spec fn spec_operation_str(o: Operation) -> Seq<char> {
    match o {
        Operation::H2D => "H2D"@,
        Operation::D2H => "D2H"@,
        Operation::Kernel => "KRN"@,
    }
}

/// The label of a phase in the CSV export.
pub open spec fn spec_phase_str(p: Phase) -> Seq<char> {
    match p {
        Phase::Transfer => "Transfer"@,
        Phase::Kernel => "Kernel"@,
        Phase::Abort => "Abort"@,
    }
}

impl Operation {
    /// The CSV label of this operation.
    pub fn as_str(self) -> (r: &'static str)
        ensures
            r@ == spec_operation_str(self),
    {
        match self {
            Operation::H2D => "H2D",
            Operation::D2H => "D2H",
            Operation::Kernel => "KRN",
        }
    }
}

impl Dir {
    /// The CSV label of this direction.
    pub fn as_str(self) -> (r: &'static str)
        ensures
            r@ == spec_dir_str(self),
    {
        match self {
            Dir::H2D => "H2D",
            Dir::D2H => "D2H",
            Dir::Kernel => "KRN",
        }
    }
}

impl Phase {
    /// The CSV label of this phase.
    pub fn as_str(self) -> (r: &'static str)
        ensures
            r@ == spec_phase_str(self),
    {
        match self {
            Phase::Transfer => "Transfer",
            Phase::Kernel => "Kernel",
            Phase::Abort => "Abort",
        }
    }
}

/// One traced event.
#[derive(Debug)]
pub struct Record {
    pub t_start_us: u64,
    pub t_end_us: u64,
    pub bytes: usize,
    pub dir: Dir,
    pub idle_us: u64,
    pub abort_token: Option<String>,
    pub phase: Phase,
    pub tx_id: Option<u64>,
    pub cause: Option<String>,
    pub retries: Option<u32>,
    pub conflict_sz: Option<usize>,
}

/// Abort event information.
#[derive(Debug)]
pub struct AbortEvent {
    pub tx_id: u64,
    pub cause: String,
    pub retries: u32,
    pub conflict_sz: usize,
    pub t_start_us: u64,
    pub t_end_us: u64,
}

/// The tracing state: the record log, the auto-trace switch, the current
/// abort token, and the epoch all timestamps are measured from.
pub struct MemTracer {
    pub(crate) t0: std::time::Instant,
    pub(crate) log: Vec<Record>,
    pub(crate) auto_trace: bool,
    pub(crate) current_abort: Option<String>,
}

/// End time of the latest record, or zero on an empty log.
pub open spec fn spec_prev_end(log: Seq<Record>) -> u64 {
    if log.len() == 0 {
        0
    } else {
        log.last().t_end_us
    }
}

/// Idle gap between the previous record's end and a new start.
pub open spec fn spec_idle(prev_end: u64, start: u64) -> u64 {
    if start > prev_end {
        (start - prev_end) as u64
    } else {
        0
    }
}

/// The phase a direction is traced under.
pub open spec fn spec_phase_of(dir: Dir) -> Phase {
    match dir {
        Dir::Kernel => Phase::Kernel,
        Dir::H2D => Phase::Transfer,
        Dir::D2H => Phase::Transfer,
    }
}

/// The record a transfer with the given bounds appends after `prev`.
pub open spec fn spec_transfer_record(
    prev: Seq<Record>,
    t_start_us: u64,
    t_end_us: u64,
    bytes: usize,
    dir: Dir,
    abort: Option<String>,
) -> Record {
    Record {
        t_start_us,
        t_end_us,
        bytes,
        dir,
        idle_us: spec_idle(spec_prev_end(prev), t_start_us),
        abort_token: abort,
        phase: spec_phase_of(dir),
        tx_id: None,
        cause: None,
        retries: None,
        conflict_sz: None,
    }
}

/// The record an abort event appends after `prev`.
pub open spec fn spec_abort_record(prev: Seq<Record>, ev: AbortEvent, abort: Option<String>) -> Record {
    Record {
        t_start_us: ev.t_start_us,
        t_end_us: ev.t_end_us,
        bytes: 0,
        dir: Dir::Kernel,
        idle_us: spec_idle(spec_prev_end(prev), ev.t_start_us),
        abort_token: abort,
        phase: Phase::Abort,
        tx_id: Some(ev.tx_id),
        cause: Some(ev.cause),
        retries: Some(ev.retries),
        conflict_sz: Some(ev.conflict_sz),
    }
}

impl MemTracer {
    /// The traced records, oldest first.
    pub closed spec fn spec_log(&self) -> Seq<Record> {
        self.log@
    }

    /// Whether auto-tracing is on.
    pub closed spec fn spec_auto(&self) -> bool {
        self.auto_trace
    }

    /// The current abort token, if one is set.
    pub closed spec fn spec_abort(&self) -> Option<String> {
        self.current_abort
    }

    /// A fresh tracer: empty log, auto-tracing on, no abort token, epoch at
    /// the moment of creation.
    pub fn new() -> (t: MemTracer)
        ensures
            t.spec_log() == Seq::<Record>::empty(),
            t.spec_auto(),
            t.spec_abort() is None,
    {
        MemTracer {
            t0: std::time::Instant::now(),
            log: Vec::new(),
            auto_trace: true,
            current_abort: None,
        }
    }

    /// The traced records, for export.
    pub fn records(&self) -> (r: &Vec<Record>)
        ensures
            r@ == self.spec_log(),
    {
        &self.log
    }
}

/// Enables auto-tracing.
pub fn enable_auto_trace(tracer: &mut MemTracer)
    ensures
        final(tracer).spec_auto(),
        final(tracer).spec_log() == old(tracer).spec_log(),
        final(tracer).spec_abort() == old(tracer).spec_abort(),
{
    tracer.auto_trace = true;
}

/// Disables auto-tracing.
pub fn disable_auto_trace(tracer: &mut MemTracer)
    ensures
        !final(tracer).spec_auto(),
        final(tracer).spec_log() == old(tracer).spec_log(),
        final(tracer).spec_abort() == old(tracer).spec_abort(),
{
    tracer.auto_trace = false;
}

/// Whether auto-tracing is enabled.
pub fn is_auto_trace_enabled(tracer: &MemTracer) -> (r: bool)
    ensures
        r == tracer.spec_auto(),
{
    tracer.auto_trace
}

/// Clears the trace log.
pub fn reset(tracer: &mut MemTracer)
    ensures
        final(tracer).spec_log() == Seq::<Record>::empty(),
        final(tracer).spec_auto() == old(tracer).spec_auto(),
        final(tracer).spec_abort() == old(tracer).spec_abort(),
{
    tracer.log = Vec::new();
}

/// Current time in microseconds since the tracer's epoch; what the clock
/// yields is not specified.
pub fn now_us(tracer: &MemTracer) -> u64 {
    let d = std::time::Instant::now().duration_since(tracer.t0);
    #[verifier::truncate]
    let us = d.as_micros() as u64;
    us
}

/// Logs a transfer with explicit timing: when auto-tracing is on, appends
/// exactly the transfer record with the idle gap computed against the
/// previous record; when off, changes nothing.
pub fn log_transfer(tracer: &mut MemTracer, t_start_us: u64, t_end_us: u64, bytes: usize, dir: Dir)
    ensures
        final(tracer).spec_auto() == old(tracer).spec_auto(),
        final(tracer).spec_abort() == old(tracer).spec_abort(),
        !old(tracer).spec_auto() ==> final(tracer).spec_log() == old(tracer).spec_log(),
        old(tracer).spec_auto() ==> final(tracer).spec_log() == old(tracer).spec_log().push(
            spec_transfer_record(
                old(tracer).spec_log(),
                t_start_us,
                t_end_us,
                bytes,
                dir,
                old(tracer).spec_abort(),
            ),
        ),
{
    if !tracer.auto_trace {
        return ;
    }
    let prev_end = if tracer.log.len() == 0 {
        0
    } else {
        tracer.log[tracer.log.len() - 1].t_end_us
    };
    let idle = if t_start_us > prev_end {
        t_start_us - prev_end
    } else {
        0
    };
    let abort = match &tracer.current_abort {
        Some(s) => Some(s.clone()),
        None => None,
    };
    tracer.log.push(
        Record {
            t_start_us,
            t_end_us,
            bytes,
            dir,
            idle_us: idle,
            abort_token: abort,
            phase: match dir {
                Dir::Kernel => Phase::Kernel,
                Dir::H2D => Phase::Transfer,
                Dir::D2H => Phase::Transfer,
            },
            tx_id: None,
            cause: None,
            retries: None,
            conflict_sz: None,
        },
    );
}

/// Logs an abort event: when auto-tracing is on, appends exactly the abort
/// record carrying the event's fields and the current abort token; when
/// off, changes nothing.
pub fn log_abort(tracer: &mut MemTracer, ev: &AbortEvent)
    ensures
        final(tracer).spec_auto() == old(tracer).spec_auto(),
        final(tracer).spec_abort() == old(tracer).spec_abort(),
        !old(tracer).spec_auto() ==> final(tracer).spec_log() == old(tracer).spec_log(),
        old(tracer).spec_auto() ==> final(tracer).spec_log() == old(tracer).spec_log().push(
            spec_abort_record(old(tracer).spec_log(), *ev, old(tracer).spec_abort()),
        ),
{
    if !tracer.auto_trace {
        return ;
    }
    let prev_end = if tracer.log.len() == 0 {
        0
    } else {
        tracer.log[tracer.log.len() - 1].t_end_us
    };
    let idle = if ev.t_start_us > prev_end {
        ev.t_start_us - prev_end
    } else {
        0
    };
    let abort = match &tracer.current_abort {
        Some(s) => Some(s.clone()),
        None => None,
    };
    tracer.log.push(
        Record {
            t_start_us: ev.t_start_us,
            t_end_us: ev.t_end_us,
            bytes: 0,
            dir: Dir::Kernel,
            idle_us: idle,
            abort_token: abort,
            phase: Phase::Abort,
            tx_id: Some(ev.tx_id),
            cause: Some(ev.cause.clone()),
            retries: Some(ev.retries),
            conflict_sz: Some(ev.conflict_sz),
        },
    );
}

/// Sets the current abort token.
pub fn set_abort_token(tracer: &mut MemTracer, token: String)
    ensures
        final(tracer).spec_abort() == Some(token),
        final(tracer).spec_log() == old(tracer).spec_log(),
        final(tracer).spec_auto() == old(tracer).spec_auto(),
{
    tracer.current_abort = Some(token);
}

/// Clears the current abort token.
pub fn clear_abort_token(tracer: &mut MemTracer)
    ensures
        final(tracer).spec_abort() is None,
        final(tracer).spec_log() == old(tracer).spec_log(),
        final(tracer).spec_auto() == old(tracer).spec_auto(),
{
    tracer.current_abort = None;
}

/// Scoped replacement of the current abort token: `new` installs a token
/// and keeps the previous one; `release` puts the previous one back. The
/// release is an explicit consuming call, so no token change can be left
/// behind silently.
#[must_use]
pub struct AbortTokenGuard(pub(crate) Option<String>);

impl AbortTokenGuard {
    /// The abort token that was current before this guard was created.
    pub closed spec fn spec_prev(&self) -> Option<String> {
        self.0
    }

    /// Installs `token` as the current abort token, keeping the previous
    /// one in the guard.
    pub fn new(tracer: &mut MemTracer, token: String) -> (g: AbortTokenGuard)
        ensures
            final(tracer).spec_abort() == Some(token),
            g.spec_prev() == old(tracer).spec_abort(),
            final(tracer).spec_log() == old(tracer).spec_log(),
            final(tracer).spec_auto() == old(tracer).spec_auto(),
    {
        let mut prev = Some(token);
        core::mem::swap(&mut tracer.current_abort, &mut prev);
        AbortTokenGuard(prev)
    }

    /// Restores the abort token that was current before the guard.
    pub fn release(self, tracer: &mut MemTracer)
        ensures
            final(tracer).spec_abort() == self.spec_prev(),
            final(tracer).spec_log() == old(tracer).spec_log(),
            final(tracer).spec_auto() == old(tracer).spec_auto(),
    {
        tracer.current_abort = self.0;
    }
}

/// Token for timing one copy operation; created by [`start`], resolved by
/// [`CopyToken::finish`], which logs it exactly once.
#[must_use]
pub struct CopyToken {
    pub(crate) start: std::time::Instant,
    pub(crate) bytes: usize,
    pub(crate) dir: Dir,
    pub(crate) finished: bool,
}

impl CopyToken {
    /// Size of the tracked transfer in bytes.
    pub closed spec fn spec_bytes(&self) -> usize {
        self.bytes
    }

    /// Direction of the tracked transfer.
    pub closed spec fn spec_dir(&self) -> Dir {
        self.dir
    }

    /// Whether the token was already logged.
    pub closed spec fn spec_finished(&self) -> bool {
        self.finished
    }

    /// Finishes the operation and logs it: appends exactly one record
    /// carrying the token's byte count and direction (the timestamps come
    /// from the clock and are not specified); a token that was already
    /// logged changes nothing.
    pub fn finish(self, tracer: &mut MemTracer)
        ensures
            final(tracer).spec_auto() == old(tracer).spec_auto(),
            final(tracer).spec_abort() == old(tracer).spec_abort(),
            self.spec_finished() ==> final(tracer).spec_log() == old(tracer).spec_log(),
            !self.spec_finished() ==> {
                &&& final(tracer).spec_log().len() == old(tracer).spec_log().len() + 1
                &&& final(tracer).spec_log().take(old(tracer).spec_log().len() as int) == old(
                    tracer,
                ).spec_log()
                &&& final(tracer).spec_log().last().bytes == self.spec_bytes()
                &&& final(tracer).spec_log().last().dir == self.spec_dir()
                &&& final(tracer).spec_log().last().phase == spec_phase_of(self.spec_dir())
                &&& final(tracer).spec_log().last().abort_token == old(tracer).spec_abort()
                &&& final(tracer).spec_log().last().idle_us == spec_idle(
                    spec_prev_end(old(tracer).spec_log()),
                    final(tracer).spec_log().last().t_start_us,
                )
                &&& final(tracer).spec_log().last().tx_id is None
                &&& final(tracer).spec_log().last().cause is None
                &&& final(tracer).spec_log().last().retries is None
                &&& final(tracer).spec_log().last().conflict_sz is None
            },
    {
        let mut this = self;
        this.log_once(tracer);
    }

    fn log_once(&mut self, tracer: &mut MemTracer)
        ensures
            final(self).spec_finished(),
            final(self).spec_bytes() == old(self).spec_bytes(),
            final(self).spec_dir() == old(self).spec_dir(),
            final(tracer).spec_auto() == old(tracer).spec_auto(),
            final(tracer).spec_abort() == old(tracer).spec_abort(),
            old(self).spec_finished() ==> final(tracer).spec_log() == old(tracer).spec_log(),
            !old(self).spec_finished() ==> {
                &&& final(tracer).spec_log().len() == old(tracer).spec_log().len() + 1
                &&& final(tracer).spec_log().take(old(tracer).spec_log().len() as int) == old(
                    tracer,
                ).spec_log()
                &&& final(tracer).spec_log().last().bytes == old(self).spec_bytes()
                &&& final(tracer).spec_log().last().dir == old(self).spec_dir()
                &&& final(tracer).spec_log().last().phase == spec_phase_of(old(self).spec_dir())
                &&& final(tracer).spec_log().last().abort_token == old(tracer).spec_abort()
                &&& final(tracer).spec_log().last().idle_us == spec_idle(
                    spec_prev_end(old(tracer).spec_log()),
                    final(tracer).spec_log().last().t_start_us,
                )
                &&& final(tracer).spec_log().last().tx_id is None
                &&& final(tracer).spec_log().last().cause is None
                &&& final(tracer).spec_log().last().retries is None
                &&& final(tracer).spec_log().last().conflict_sz is None
            },
    {
        if self.finished {
            return ;
        }
        let ds = self.start.duration_since(tracer.t0);
        #[verifier::truncate]
        let s = ds.as_micros() as u64;
        let de = std::time::Instant::now().duration_since(tracer.t0);
        #[verifier::truncate]
        let e = de.as_micros() as u64;
        let prev_end = if tracer.log.len() == 0 {
            0
        } else {
            tracer.log[tracer.log.len() - 1].t_end_us
        };
        let idle = if s > prev_end {
            s - prev_end
        } else {
            0
        };
        let abort = match &tracer.current_abort {
            Some(a) => Some(a.clone()),
            None => None,
        };
        let phase = match self.dir {
            Dir::Kernel => Phase::Kernel,
            Dir::H2D => Phase::Transfer,
            Dir::D2H => Phase::Transfer,
        };
        let ghost prev = tracer.log@;
        tracer.log.push(
            Record {
                t_start_us: s,
                t_end_us: e,
                bytes: self.bytes,
                dir: self.dir,
                idle_us: idle,
                abort_token: abort,
                phase,
                tx_id: None,
                cause: None,
                retries: None,
                conflict_sz: None,
            },
        );
        proof {
            assert(tracer.log@.take(prev.len() as int) =~= prev);
        }
        self.finished = true;
    }
}

/// Starts tracking one transfer of `bytes` bytes in direction `dir`.
pub fn start(dir: Dir, bytes: usize) -> (t: CopyToken)
    ensures
        t.spec_bytes() == bytes,
        t.spec_dir() == dir,
        !t.spec_finished(),
{
    CopyToken { start: std::time::Instant::now(), bytes, dir, finished: false }
}

/// Scoped override of the auto-trace switch: `new` installs a state and
/// keeps the previous one; `restore` puts the previous state back. The
/// restore is an explicit consuming call.
#[derive(Debug)]
#[must_use]
pub struct TracingScope {
    pub(crate) prev: bool,
}

impl TracingScope {
    /// The auto-trace state before this scope was entered.
    pub closed spec fn spec_prev(&self) -> bool {
        self.prev
    }

    /// Installs `enable` as the auto-trace state, keeping the previous one.
    pub fn new(tracer: &mut MemTracer, enable: bool) -> (s: TracingScope)
        ensures
            final(tracer).spec_auto() == enable,
            s.spec_prev() == old(tracer).spec_auto(),
            final(tracer).spec_log() == old(tracer).spec_log(),
            final(tracer).spec_abort() == old(tracer).spec_abort(),
    {
        let prev = tracer.auto_trace;
        tracer.auto_trace = enable;
        TracingScope { prev }
    }

    /// Scope with tracing on.
    pub fn enabled(tracer: &mut MemTracer) -> (s: TracingScope)
        ensures
            final(tracer).spec_auto(),
            s.spec_prev() == old(tracer).spec_auto(),
            final(tracer).spec_log() == old(tracer).spec_log(),
            final(tracer).spec_abort() == old(tracer).spec_abort(),
    {
        TracingScope::new(tracer, true)
    }

    /// Scope with tracing off.
    pub fn disabled(tracer: &mut MemTracer) -> (s: TracingScope)
        ensures
            !final(tracer).spec_auto(),
            s.spec_prev() == old(tracer).spec_auto(),
            final(tracer).spec_log() == old(tracer).spec_log(),
            final(tracer).spec_abort() == old(tracer).spec_abort(),
    {
        TracingScope::new(tracer, false)
    }

    /// Restores the auto-trace state from before the scope.
    pub fn restore(self, tracer: &mut MemTracer)
        ensures
            final(tracer).spec_auto() == self.spec_prev(),
            final(tracer).spec_log() == old(tracer).spec_log(),
            final(tracer).spec_abort() == old(tracer).spec_abort(),
    {
        tracer.auto_trace = self.prev;
    }
}

/// Renders one non-abort record as its CSV line.
#[verifier::rlimit(60)]
fn transfer_line(r: &Record) -> (s: String)
    ensures
        s@ == spec_transfer_line(*r),
{
    let mut s = u64_to_string(r.t_start_us);
    s.append(",");
    s.append(u64_to_string(r.t_end_us).as_str());
    s.append(",");
    s.append(u64_to_string(r.bytes as u64).as_str());
    s.append(",");
    s.append(r.dir.as_str());
    s.append(",");
    s.append(u64_to_string(r.idle_us).as_str());
    s.append(",");
    match &r.abort_token {
        Some(tok) => s.append(tok.as_str()),
        None => (),
    }
    s.append(",");
    s.append(r.phase.as_str());
    s.append("\n");
    proof {
        reveal_strlit(",");
        reveal_strlit("\n");
        assert((",")@ =~= seq![',']);
        assert(("\n")@ =~= seq!['\n']);
        assert(s@ =~= spec_transfer_line(*r));
    }
    s
}

/// The CSV line of a non-abort record:
/// `t_start_us,t_end_us,bytes,dir,idle_us,abort_token,phase`.
pub open spec fn spec_transfer_line(r: Record) -> Seq<char> {
    spec_u64_string(r.t_start_us as nat) + seq![','] + spec_u64_string(r.t_end_us as nat) + seq![
        ',',
    ] + spec_u64_string(r.bytes as nat) + seq![','] + spec_dir_str(r.dir) + seq![',']
        + spec_u64_string(r.idle_us as nat) + seq![','] + (match r.abort_token {
        Some(s) => s@,
        None => Seq::<char>::empty(),
    }) + seq![','] + spec_phase_str(r.phase) + seq!['\n']
}

/// All non-abort lines of a log, in order.
pub open spec fn spec_transfer_lines(log: Seq<Record>) -> Seq<char>
    decreases log.len(),
{
    if log.len() == 0 {
        Seq::empty()
    } else {
        spec_transfer_lines(log.drop_last()) + (if log.last().phase is Abort {
            Seq::<char>::empty()
        } else {
            spec_transfer_line(log.last())
        })
    }
}

/// Renders the traced non-abort records as CSV, header line included; the
/// shell around the library writes the text to its export file.
#[verifier::rlimit(60)]
pub fn render_transfer_csv(log: &Vec<Record>) -> (s: String)
    ensures
        s@ == "t_start_us,t_end_us,bytes,dir,idle_us,abort_token,phase\n"@ + spec_transfer_lines(
            log@,
        ),
{
    let mut s = String::from_str("t_start_us,t_end_us,bytes,dir,idle_us,abort_token,phase\n");
    let ghost header = s@;
    let mut i: usize = 0;
    proof {
        assert(spec_transfer_lines(log@.take(0)) =~= Seq::<char>::empty());
        assert(s@ =~= header + spec_transfer_lines(log@.take(0)));
    }
    while i < log.len()
        invariant
            i <= log@.len(),
            s@ == header + spec_transfer_lines(log@.take(i as int)),
        decreases log@.len() - i,
    {
        let r = &log[i];
        let is_abort = match r.phase {
            Phase::Abort => true,
            Phase::Transfer => false,
            Phase::Kernel => false,
        };
        if !is_abort {
            s.append(transfer_line(r).as_str());
        }
        proof {
            assert(log@.take(i + 1).drop_last() =~= log@.take(i as int));
            assert(log@.take(i + 1).last() == log@[i as int]);
            assert(s@ =~= header + spec_transfer_lines(log@.take(i + 1)));
        }
        i = i + 1;
    }
    proof {
        assert(log@.take(log@.len() as int) =~= log@);
    }
    s
}

/// Renders one abort record as its CSV line.
#[verifier::rlimit(100)]
fn abort_line(r: &Record) -> (s: String)
    ensures
        s@ == spec_abort_line(*r),
{
    let mut s = u64_to_string(r.t_start_us);
    s.append(",");
    s.append(u64_to_string(r.t_end_us).as_str());
    s.append(",");
    let tx = match r.tx_id {
        Some(x) => x,
        None => 0,
    };
    s.append(u64_to_string(tx).as_str());
    s.append(",");
    match &r.cause {
        Some(c) => s.append(c.as_str()),
        None => (),
    }
    s.append(",");
    let retries = match r.retries {
        Some(x) => x,
        None => 0,
    };
    s.append(u64_to_string(retries as u64).as_str());
    s.append(",");
    let conflict = match r.conflict_sz {
        Some(x) => x,
        None => 0,
    };
    s.append(u64_to_string(conflict as u64).as_str());
    s.append(",");
    s.append(u64_to_string(r.idle_us).as_str());
    s.append(",");
    match &r.abort_token {
        Some(tok) => s.append(tok.as_str()),
        None => (),
    }
    s.append("\n");
    proof {
        reveal_strlit(",");
        reveal_strlit("\n");
        assert((",")@ =~= seq![',']);
        assert(("\n")@ =~= seq!['\n']);
        assert(s@ =~= spec_abort_line(*r));
    }
    s
}

/// The CSV line of an abort record:
/// `t_start_us,t_end_us,tx_id,cause,retries,conflict_sz,idle_us,abort_token`.
pub open spec fn spec_abort_line(r: Record) -> Seq<char> {
    spec_u64_string(r.t_start_us as nat) + seq![','] + spec_u64_string(r.t_end_us as nat) + seq![
        ',',
    ] + spec_u64_string(
        (match r.tx_id {
            Some(x) => x,
            None => 0,
        }) as nat,
    ) + seq![','] + (match r.cause {
        Some(c) => c@,
        None => Seq::<char>::empty(),
    }) + seq![','] + spec_u64_string(
        (match r.retries {
            Some(x) => x,
            None => 0,
        }) as nat,
    ) + seq![','] + spec_u64_string(
        (match r.conflict_sz {
            Some(x) => x,
            None => 0,
        }) as nat,
    ) + seq![','] + spec_u64_string(r.idle_us as nat) + seq![','] + (match r.abort_token {
        Some(s) => s@,
        None => Seq::<char>::empty(),
    }) + seq!['\n']
}

/// All abort lines of a log, in order.
pub open spec fn spec_abort_lines(log: Seq<Record>) -> Seq<char>
    decreases log.len(),
{
    if log.len() == 0 {
        Seq::empty()
    } else {
        spec_abort_lines(log.drop_last()) + (if log.last().phase is Abort {
            spec_abort_line(log.last())
        } else {
            Seq::<char>::empty()
        })
    }
}

/// Renders the traced abort records as CSV, header line included.
#[verifier::rlimit(100)]
pub fn render_abort_csv(log: &Vec<Record>) -> (s: String)
    ensures
        s@ == "t_start_us,t_end_us,tx_id,cause,retries,conflict_sz,idle_us,abort_token\n"@
            + spec_abort_lines(log@),
{
    let mut s = String::from_str(
        "t_start_us,t_end_us,tx_id,cause,retries,conflict_sz,idle_us,abort_token\n",
    );
    let ghost header = s@;
    let mut i: usize = 0;
    proof {
        assert(spec_abort_lines(log@.take(0)) =~= Seq::<char>::empty());
        assert(s@ =~= header + spec_abort_lines(log@.take(0)));
    }
    while i < log.len()
        invariant
            i <= log@.len(),
            s@ == header + spec_abort_lines(log@.take(i as int)),
        decreases log@.len() - i,
    {
        let r = &log[i];
        let is_abort = match r.phase {
            Phase::Abort => true,
            Phase::Transfer => false,
            Phase::Kernel => false,
        };
        if is_abort {
            s.append(abort_line(r).as_str());
        }
        proof {
            assert(log@.take(i + 1).drop_last() =~= log@.take(i as int));
            assert(log@.take(i + 1).last() == log@[i as int]);
            assert(s@ =~= header + spec_abort_lines(log@.take(i + 1)));
        }
        i = i + 1;
    }
    proof {
        assert(log@.take(log@.len() as int) =~= log@);
    }
    s
}

/// Number of abort records in a log.
pub open spec fn spec_abort_count(log: Seq<Record>) -> nat
    decreases log.len(),
{
    if log.len() == 0 {
        0
    } else {
        spec_abort_count(log.drop_last()) + (if log.last().phase is Abort {
            1nat
        } else {
            0nat
        })
    }
}

/// Counts the abort records, so the export can decide whether an abort file
/// is wanted at all.
pub fn abort_count(log: &Vec<Record>) -> (n: usize)
    ensures
        n == spec_abort_count(log@),
{
    proof {
        lemma_abort_count_le(log@);
    }
    let mut n: usize = 0;
    let mut i: usize = 0;
    while i < log.len()
        invariant
            i <= log@.len(),
            n == spec_abort_count(log@.take(i as int)),
            n <= i,
        decreases log@.len() - i,
    {
        let is_abort = match log[i].phase {
            Phase::Abort => true,
            Phase::Transfer => false,
            Phase::Kernel => false,
        };
        proof {
            assert(log@.take(i + 1).drop_last() =~= log@.take(i as int));
            assert(log@.take(i + 1).last() == log@[i as int]);
        }
        if is_abort {
            n = n + 1;
        }
        i = i + 1;
    }
    proof {
        assert(log@.take(log@.len() as int) =~= log@);
    }
    n
}

/// An abort count never exceeds the log length.
proof fn lemma_abort_count_le(log: Seq<Record>)
    ensures
        spec_abort_count(log) <= log.len(),
    decreases log.len(),
{
    if log.len() > 0 {
        lemma_abort_count_le(log.drop_last());
    }
}

} // verus!

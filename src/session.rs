//! The per-request timing session that handler code records into, and its
//! rendering as the value of a `Server-Timing` header.

use vstd::prelude::*;
use vstd::string::*;
use std::time::Instant;
use crate::format::{entry_text, push_entry, str_opt_view};

verus! {

#[verifier::external_type_specification]
#[verifier::external_body]
pub struct ExInstant(Instant);

/// Relies on `Instant::now`: a reading of the monotonic clock.
#[verifier::external_body]
fn clock_now() -> (r: Instant) {
    Instant::now()
}

/// Relies on `Instant::elapsed`, taken in whole nanoseconds with
/// `Duration::as_nanos`: the time since `start`, as the clock reads now.
#[verifier::external_body]
fn nanos_since(start: &Instant) -> (r: u128) {
    start.elapsed().as_nanos()
}

/// One recorded measurement, as a value.
pub struct TimingRecord {
    pub name: Seq<char>,
    pub description: Option<Seq<char>>,
    pub nanos: nat,
}

/// A session, as a value: its label and description, the instant it began,
/// the time of its latest measurement (nanoseconds after it began, 0 before
/// any) and its measurements in the order they were taken.
pub struct SessionState {
    pub app: Seq<char>,
    pub description: Option<Seq<char>>,
    pub created: Instant,
    pub mark: nat,
    pub records: Seq<TimingRecord>,
}

/// The text of an optional string.
pub open spec fn string_opt_view(o: Option<String>) -> Option<Seq<char>> {
    match o {
        Some(s) => Some(s@),
        None => None,
    }
}

/// `a - b`, or 0 where `b` exceeds `a`.
pub open spec fn gap(a: nat, b: nat) -> nat {
    if a >= b { (a - b) as nat } else { 0 }
}

/// The later of the session's mark and `now`.
pub open spec fn next_mark(s: SessionState, now: nat) -> nat {
    if now >= s.mark { now } else { s.mark }
}

/// The session after `record` took place `now` nanoseconds after creation:
/// the new measurement lasts from the previous measurement (or from
/// creation) to `now`.
pub open spec fn after_record(s: SessionState, name: Seq<char>, description: Option<Seq<char>>, now: nat) -> SessionState {
    SessionState {
        mark: next_mark(s, now),
        records: s.records.push(TimingRecord { name, description, nanos: gap(now, s.mark) }),
        ..s
    }
}

/// The session after a measurement of `nanos` was handed in directly,
/// `now` nanoseconds after creation: the next `record` measures from `now`.
pub open spec fn after_record_timing(s: SessionState, name: Seq<char>, description: Option<Seq<char>>, nanos: nat, now: nat) -> SessionState {
    SessionState {
        mark: next_mark(s, now),
        records: s.records.push(TimingRecord { name, description, nanos }),
        ..s
    }
}

/// The entries of the measurements, each preceded by `", "`.
pub open spec fn records_text(records: Seq<TimingRecord>) -> Seq<char>
    decreases records.len(),
{
    if records.len() == 0 {
        Seq::empty()
    } else {
        let last = records.last();
        records_text(records.drop_last()) + ", "@ + entry_text(last.name, last.description, last.nanos)
    }
}

/// The header value of a session whose whole request took `total` nanoseconds:
/// the top-level entry of the application, then each measurement in order,
/// joined by `", "`.
pub open spec fn segment_text(s: SessionState, total: nat) -> Seq<char> {
    entry_text(s.app, s.description, total) + records_text(s.records)
}

/// One measurement taken during a request.
pub struct ServerTimingData {
    name: String,
    description: Option<String>,
    nanos: u128,
}

impl View for ServerTimingData {
    type V = TimingRecord;

    closed spec fn view(&self) -> TimingRecord {
        TimingRecord { name: self.name@, description: string_opt_view(self.description), nanos: self.nanos as nat }
    }
}

/// The timing data of one request.
pub struct ServerTiming {
    app: String,
    description: Option<String>,
    created: Instant,
    mark: u128,
    data: Vec<ServerTimingData>,
}

impl View for ServerTiming {
    type V = SessionState;

    closed spec fn view(&self) -> SessionState {
        SessionState {
            app: self.app@,
            description: string_opt_view(self.description),
            created: self.created,
            mark: self.mark as nat,
            records: self.data@.map_values(|d: ServerTimingData| d@),
        }
    }
}

fn as_opt_str(o: &Option<String>) -> (r: Option<&str>)
    ensures
        str_opt_view(r) == string_opt_view(*o),
{
    match o {
        Some(s) => Some(s.as_str()),
        None => None,
    }
}

impl ServerTiming {
    /// A session that starts now, with no measurements.
    pub fn new(app: &str, description: Option<&str>) -> (r: ServerTiming)
        ensures
            r@.app == app@,
            r@.description == str_opt_view(description),
            r@.mark == 0,
            r@.records == Seq::<TimingRecord>::empty(),
    {
        let d = match description {
            Some(d) => Some(String::from_str(d)),
            None => None,
        };
        let r = ServerTiming { app: String::from_str(app), description: d, created: clock_now(), mark: 0, data: Vec::new() };
        assert(r@.records =~= Seq::<TimingRecord>::empty());
        r
    }

    /// Records a measurement that ends `now` nanoseconds after the session
    /// began and starts at the previous measurement (or at creation).
    pub fn record_at(&mut self, name: String, description: Option<String>, now: u128)
        ensures
            final(self)@ == after_record(old(self)@, name@, string_opt_view(description), now as nat),
    {
        let nanos: u128 = if now >= self.mark { now - self.mark } else { 0 };
        if now >= self.mark {
            self.mark = now;
        }
        self.data.push(ServerTimingData { name, description, nanos });
        assert(self@.records =~= old(self)@.records.push(TimingRecord { name: name@, description: string_opt_view(description), nanos: gap(now as nat, old(self)@.mark) }));
    }

    /// Records the duration of the current operation: the time since the
    /// previous measurement, or since the session began if there was none.
    pub fn record(&mut self, name: String, description: Option<String>)
        ensures
            exists|now: nat| final(self)@ == after_record(old(self)@, name@, string_opt_view(description), now),
    {
        let now = nanos_since(&self.created);
        self.record_at(name, description, now);
    }

    /// Records a measurement of `nanos` nanoseconds, handed in `now`
    /// nanoseconds after the session began.
    pub fn record_timing_at(&mut self, name: String, nanos: u128, description: Option<String>, now: u128)
        ensures
            final(self)@ == after_record_timing(old(self)@, name@, string_opt_view(description), nanos as nat, now as nat),
    {
        if now >= self.mark {
            self.mark = now;
        }
        self.data.push(ServerTimingData { name, description, nanos });
        assert(self@.records =~= old(self)@.records.push(TimingRecord { name: name@, description: string_opt_view(description), nanos: nanos as nat }));
    }

    /// Records a measurement of `nanos` nanoseconds; the next `record`
    /// measures from now.
    pub fn record_timing(&mut self, name: String, nanos: u128, description: Option<String>)
        ensures
            exists|now: nat| final(self)@ == after_record_timing(old(self)@, name@, string_opt_view(description), nanos as nat, now),
    {
        let now = nanos_since(&self.created);
        self.record_timing_at(name, nanos, description, now);
    }

    /// The header value for a request that took `total` nanoseconds.
    pub fn header_segment(&self, total: u128) -> (r: String)
        ensures
            r@ == segment_text(self@, total as nat),
    {
        let mut out = String::new();
        push_entry(&mut out, self.app.as_str(), as_opt_str(&self.description), total);
        let ghost head = out@;
        let mut i: usize = 0;
        while i < self.data.len()
            invariant
                i <= self.data.len(),
                head == entry_text(self@.app, self@.description, total as nat),
                out@ == head + records_text(self@.records.take(i as int)),
            decreases self.data.len() - i,
        {
            let d = &self.data[i];
            proof { reveal_strlit(", "); }
            let ghost before = out@;
            out.append(", ");
            push_entry(&mut out, d.name.as_str(), as_opt_str(&d.description), d.nanos);
            proof {
                let t = self@.records.take(i as int + 1);
                assert(t.drop_last() =~= self@.records.take(i as int));
                assert(t.last() == d@);
                assert(out@ =~= head + records_text(t));
            }
            i = i + 1;
        }
        assert(self@.records.take(i as int) =~= self@.records);
        out
    }

    /// The header value for the request, timed up to now.
    pub fn finish(&self) -> (r: String)
        ensures
            exists|total: nat| r@ == segment_text(self@, total),
    {
        let total = nanos_since(&self.created);
        self.header_segment(total)
    }
}

} // verus!

//! The metrics registry: per-service status gauge, cumulative failure
//! counter, response-time totals and certificate-expiry gauge, keyed by
//! service name and safe to update from every scheduler iteration.

use vstd::prelude::*;

use crate::table::NameTable;

verus! {

/// The current metric values of one service.  `status` and
/// `cert_expiry_seconds` stay `None` until first set; times are held in
/// milliseconds.
#[derive(Debug, Clone, Copy)]
pub struct MetricsSnapshot {
    /// 1 when the last probe matched expectations, 0 otherwise.
    pub status: Option<u8>,
    /// How many probe iterations raised an execution error.
    pub failures_total: u64,
    /// How many response times were observed.
    pub response_time_count: u64,
    /// The sum of the observed response times, in milliseconds.
    pub response_time_sum_ms: u64,
    /// Seconds until the TLS certificate expires, from the last check.
    pub cert_expiry_seconds: Option<u64>,
}

/// The snapshot of a service nothing was recorded for yet.
pub open spec fn empty_snapshot() -> MetricsSnapshot {
    MetricsSnapshot {
        status: Option::None,
        failures_total: 0,
        response_time_count: 0,
        response_time_sum_ms: 0,
        cert_expiry_seconds: Option::None,
    }
}

/// Addition that stops at the largest 64-bit value instead of wrapping.
pub open spec fn sat_add64(a: u64, b: u64) -> u64 {
    if a + b > u64::MAX {
        u64::MAX
    } else {
        (a + b) as u64
    }
}

fn sat_add(a: u64, b: u64) -> (r: u64)
    ensures
        r == sat_add64(a, b),
{
    if b <= u64::MAX - a {
        a + b
    } else {
        u64::MAX
    }
}

/// The snapshot held for a name, or the empty snapshot when none is held.
pub open spec fn snap_or_empty(m: Map<Seq<char>, MetricsSnapshot>, k: Seq<char>) -> MetricsSnapshot {
    if m.contains_key(k) {
        m[k]
    } else {
        empty_snapshot()
    }
}

/// A snapshot with its status gauge set from a verdict.
pub open spec fn with_status(s: MetricsSnapshot, ok: bool) -> MetricsSnapshot {
    MetricsSnapshot { status: Option::Some(if ok { 1u8 } else { 0u8 }), ..s }
}

/// A snapshot with one more recorded failure.
pub open spec fn with_failure(s: MetricsSnapshot) -> MetricsSnapshot {
    MetricsSnapshot { failures_total: sat_add64(s.failures_total, 1), ..s }
}

/// A snapshot with one more observed response time.
pub open spec fn with_response_time(s: MetricsSnapshot, millis: u64) -> MetricsSnapshot {
    MetricsSnapshot {
        response_time_count: sat_add64(s.response_time_count, 1),
        response_time_sum_ms: sat_add64(s.response_time_sum_ms, millis),
        ..s
    }
}

/// A snapshot with its certificate-expiry gauge set.
pub open spec fn with_cert_expiry(s: MetricsSnapshot, secs: u64) -> MetricsSnapshot {
    MetricsSnapshot { cert_expiry_seconds: Option::Some(secs), ..s }
}

/// The process-wide registry of per-service metrics.  Entries appear when a
/// service's metrics are first touched and are never removed.
#[derive(Debug)]
pub struct ServiceMetrics {
    table: NameTable<MetricsSnapshot>,
}

impl View for ServiceMetrics {
    type V = Map<Seq<char>, MetricsSnapshot>;

    closed spec fn view(&self) -> Map<Seq<char>, MetricsSnapshot> {
        self.table@
    }
}

impl ServiceMetrics {
    /// Service names in the registry are unique.
    pub closed spec fn wf(&self) -> bool {
        self.table.wf()
    }

    /// An empty registry.
    pub fn new() -> (r: Self)
        ensures
            r.wf(),
            r@ == Map::<Seq<char>, MetricsSnapshot>::empty(),
    {
        ServiceMetrics { table: NameTable::new() }
    }

    fn current(&self, name: &str) -> (r: MetricsSnapshot)
        requires
            self.wf(),
        ensures
            r == snap_or_empty(self@, name@),
    {
        match self.table.get(name) {
            Some(s) => s,
            None => MetricsSnapshot {
                status: None,
                failures_total: 0,
                response_time_count: 0,
                response_time_sum_ms: 0,
                cert_expiry_seconds: None,
            },
        }
    }

    /// Sets the status gauge of a service from a verdict — 1 for a match,
    /// 0 for anything else.
    pub fn set_status(&mut self, name: &str, ok: bool)
        requires
            old(self).wf(),
        ensures
            final(self).wf(),
            final(self)@ == old(self)@.insert(name@, with_status(snap_or_empty(old(self)@, name@), ok)),
    {
        let mut snap = self.current(name);
        snap.status = Some(if ok { 1 } else { 0 });
        self.table.set(name, snap);
    }

    /// Counts one probe iteration that raised an execution error.
    pub fn inc_failures(&mut self, name: &str)
        requires
            old(self).wf(),
        ensures
            final(self).wf(),
            final(self)@ == old(self)@.insert(name@, with_failure(snap_or_empty(old(self)@, name@))),
    {
        let mut snap = self.current(name);
        snap.failures_total = sat_add(snap.failures_total, 1);
        self.table.set(name, snap);
    }

    /// Records one probe round-trip time, in milliseconds.
    pub fn observe_response_time(&mut self, name: &str, millis: u64)
        requires
            old(self).wf(),
        ensures
            final(self).wf(),
            final(self)@ == old(self)@.insert(
                name@,
                with_response_time(snap_or_empty(old(self)@, name@), millis),
            ),
    {
        let mut snap = self.current(name);
        snap.response_time_count = sat_add(snap.response_time_count, 1);
        snap.response_time_sum_ms = sat_add(snap.response_time_sum_ms, millis);
        self.table.set(name, snap);
    }

    /// Sets the certificate-expiry gauge of a service, in seconds.
    pub fn set_cert_expiry(&mut self, name: &str, secs: u64)
        requires
            old(self).wf(),
        ensures
            final(self).wf(),
            final(self)@ == old(self)@.insert(
                name@,
                with_cert_expiry(snap_or_empty(old(self)@, name@), secs),
            ),
    {
        let mut snap = self.current(name);
        snap.cert_expiry_seconds = Some(secs);
        self.table.set(name, snap);
    }

    /// The snapshot held for a service, if its metrics were ever touched.
    pub fn get(&self, name: &str) -> (r: Option<MetricsSnapshot>)
        requires
            self.wf(),
        ensures
            r matches Some(s) ==> self@.contains_key(name@) && self@[name@] == s,
            r is None ==> !self@.contains_key(name@),
    {
        self.table.get(name)
    }

    /// How many services have metrics.
    pub fn service_count(&self) -> (r: usize)
        requires
            self.wf(),
        ensures
            r == self@.len(),
    {
        self.table.len()
    }

    /// Every service's snapshot, for exposition; names are unique and each
    /// carries the value the registry holds.
    pub fn entries(&self) -> (r: Vec<(String, MetricsSnapshot)>)
        requires
            self.wf(),
        ensures
            r@.len() == self@.len(),
            forall|i: int|
                0 <= i < r@.len() ==> self@.contains_key(#[trigger] r@[i].0@) && self@[r@[i].0@]
                    == r@[i].1,
    {
        self.table.items()
    }
}

} // verus!

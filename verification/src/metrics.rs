//! The process-wide metrics registry channels register against.
//!
//! Registration is write-only: a channel hands its atomic counter and gauge
//! cells to the registry once at creation time and never reads them back.
//! The registry is an explicit object threaded through construction calls,
//! so no ambient global state is needed.

use core::sync::atomic::{AtomicI64, AtomicU64};
use std::sync::Arc;

use vstd::prelude::*;

verus! {

/// One name/value pair attached to a metric for downstream aggregation,
/// for example by job or by task.
#[derive(Debug)]
pub struct Tag {
    pub name: String,
    pub value: String,
}

impl Tag {
    pub fn new(name: String, value: String) -> (t: Tag)
        ensures
            t == (Tag { name, value }),
    {
        Tag { name, value }
    }
}

impl Clone for Tag {
    fn clone(&self) -> (r: Self)
        ensures
            r == *self,
    {
        Tag { name: self.name.clone(), value: self.value.clone() }
    }
}

/// Whether a registration is a gauge (signed, may transiently go negative
/// under racing accept/drain updates) or a monotonic counter.
#[derive(Clone, Copy, Debug, PartialEq, Eq, Structural)]
pub enum MetricKind {
    Gauge,
    Counter,
}

/// The shared atomic cell a registration points at.
#[derive(Debug)]
pub enum MetricCell {
    Counter(Arc<AtomicU64>),
    Gauge(Arc<AtomicI64>),
}

/// One registered metric: its kind, its derived name, the caller-supplied
/// tags and the shared cell the owner keeps writing.
#[derive(Debug)]
pub struct MetricEntry {
    pub kind: MetricKind,
    pub name: String,
    pub tags: Vec<Tag>,
    pub cell: MetricCell,
}

/// The process-wide registry of counters and gauges, keyed by name and tag
/// set.
#[derive(Debug)]
pub struct MetricsRegistry {
    pub entries: Vec<MetricEntry>,
}

impl MetricsRegistry {
    pub fn new() -> (r: MetricsRegistry)
        ensures
            r.entries@ == Seq::<MetricEntry>::empty(),
    {
        MetricsRegistry { entries: Vec::new() }
    }

    /// Registers a gauge cell under the given name and tags.
    pub fn register_gauge(&mut self, name: String, tags: Vec<Tag>, cell: Arc<AtomicI64>)
        ensures
            final(self).entries@ == old(self).entries@.push(
                (MetricEntry { kind: MetricKind::Gauge, name, tags, cell: MetricCell::Gauge(cell) }),
            ),
    {
        self.entries.push(
            MetricEntry { kind: MetricKind::Gauge, name, tags, cell: MetricCell::Gauge(cell) },
        );
    }

    /// Registers a counter cell under the given name and tags.
    pub fn register_counter(&mut self, name: String, tags: Vec<Tag>, cell: Arc<AtomicU64>)
        ensures
            final(self).entries@ == old(self).entries@.push(
                (MetricEntry {
                    kind: MetricKind::Counter,
                    name,
                    tags,
                    cell: MetricCell::Counter(cell),
                }),
            ),
    {
        self.entries.push(
            MetricEntry { kind: MetricKind::Counter, name, tags, cell: MetricCell::Counter(cell) },
        );
    }
}

/// A copy of a tag set, one clone per tag.
pub fn clone_tags(tags: &Vec<Tag>) -> (r: Vec<Tag>)
    ensures
        r@ == tags@,
{
    let mut r: Vec<Tag> = Vec::new();
    let n = tags.len();
    let mut i: usize = 0;
    while i < n
        invariant
            i <= n,
            n == tags@.len(),
            r@.len() == i,
            forall|j: int| 0 <= j < i ==> r@[j] == tags@[j],
        decreases n - i,
    {
        r.push(tags[i].clone());
        i = i + 1;
    }
    assert(r@ =~= tags@);
    r
}

/// Relies on `AtomicU64::fetch_add` (relaxed, wrapping): bumps a monotonic
/// counter cell; the cell is write-only monitoring state, so nothing is
/// claimed of the stored value.
#[verifier::external_body]
pub fn counter_add(cell: &Arc<AtomicU64>, n: u64) {
    cell.fetch_add(n, core::sync::atomic::Ordering::Relaxed);
}

/// Relies on `AtomicI64::fetch_add` (relaxed, wrapping): moves a gauge cell
/// by a signed delta; the cell is write-only monitoring state, so nothing
/// is claimed of the stored value.
#[verifier::external_body]
pub fn gauge_add(cell: &Arc<AtomicI64>, n: i64) {
    cell.fetch_add(n, core::sync::atomic::Ordering::Relaxed);
}

/// Relies on `Arc::clone`: the new handle shares the very cell, so as a
/// value it equals the old one.
#[verifier::external_body]
pub fn share_counter(cell: &Arc<AtomicU64>) -> (r: Arc<AtomicU64>)
    ensures
        r == *cell,
{
    Arc::clone(cell)
}

/// Relies on `Arc::clone`: the new handle shares the very cell, so as a
/// value it equals the old one.
#[verifier::external_body]
pub fn share_gauge(cell: &Arc<AtomicI64>) -> (r: Arc<AtomicI64>)
    ensures
        r == *cell,
{
    Arc::clone(cell)
}

} // verus!

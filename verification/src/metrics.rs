//! The metrics of the gateway: request counters, one for each method, and
//! the measures of the process, and how both are registered for exposition.

use vstd::prelude::*;
use crate::procfs::{get_thread_count, thread_count};

verus! {

/// `prometheus_client::registry::Registry`: the list of what is registered
/// for exposition. Nothing of its inside is known but what `registered`
/// says.
#[verifier::external_type_specification]
#[verifier::external_body]
pub struct ExRegistry(prometheus_client::registry::Registry);

/// `prometheus_client::metrics::family::Family` with one counter for each
/// value of a label: the family keeps its counters in a hash map behind a
/// lock. Nothing of its inside is known but what `family_rows` says.
#[verifier::external_body]
pub struct CounterFamily {
    inner: prometheus_client::metrics::family::Family<Vec<(String, String)>, prometheus_client::metrics::counter::Counter>,
}

/// What a family of counters holds: the count of each counter, by the label
/// and the value of the label that the counter stands under. A family has no
/// order.
pub uninterp spec fn family_rows(family: CounterFamily) -> Map<(Seq<char>, Seq<char>), u64>;

/// What is registered under a name: a gauge or a counter with its value, or
/// a family of counters with what it holds.
pub enum Measure {
    Gauge(i64),
    Counter(u64),
    Counters(Map<(Seq<char>, Seq<char>), u64>),
}

/// One registration: the name, the help text and what was registered.
pub struct Registration {
    pub name: Seq<char>,
    pub help: Seq<char>,
    pub measure: Measure,
}

/// What was registered with a registry, in the order of registration.
pub uninterp spec fn registered(registry: prometheus_client::registry::Registry) -> Seq<Registration>;

/// The registration of a gauge.
pub open spec fn gauge(name: Seq<char>, help: Seq<char>, value: i64) -> Registration {
    Registration { name, help, measure: Measure::Gauge(value) }
}

/// The registration of a counter.
pub open spec fn counter(name: Seq<char>, help: Seq<char>, value: u64) -> Registration {
    Registration { name, help, measure: Measure::Counter(value) }
}

/// The registration of a family of counters.
pub open spec fn counters(
    name: Seq<char>,
    help: Seq<char>,
    rows: Map<(Seq<char>, Seq<char>), u64>,
) -> Registration {
    Registration { name, help, measure: Measure::Counters(rows) }
}

/// A family without counters.
pub open spec fn no_rows() -> Map<(Seq<char>, Seq<char>), u64> {
    Map::empty()
}

/// What a counter of a family has counted: nothing where the family has no
/// counter under the label with the value.
pub open spec fn row_count(
    rows: Map<(Seq<char>, Seq<char>), u64>,
    label: Seq<char>,
    value: Seq<char>,
) -> u64 {
    if rows.contains_key((label, value)) {
        rows[(label, value)]
    } else {
        0
    }
}

/// The family after `count` was added under the label with the value: a
/// counter that passes the largest value wraps around.
pub open spec fn rows_after_add(
    rows: Map<(Seq<char>, Seq<char>), u64>,
    label: Seq<char>,
    value: Seq<char>,
    count: u64,
) -> Map<(Seq<char>, Seq<char>), u64> {
    rows.insert((label, value), row_count(rows, label, value).wrapping_add(count))
}

/// `Registry::register` of `prometheus_client`, with a new `Gauge` that was
/// set to `value`: the registry keeps what is registered in a list, and the
/// gauge comes last.
#[verifier::external_body]
fn register_gauge(registry: &mut prometheus_client::registry::Registry, name: &str, help: &str, value: i64)
    ensures
        registered(*final(registry)) == registered(*old(registry)).push(gauge(name@, help@, value)),
{
    let gauge = prometheus_client::metrics::gauge::Gauge::<i64, std::sync::atomic::AtomicI64>::default();
    gauge.set(value);
    registry.register(name, help, gauge);
}

/// `Registry::register` of `prometheus_client`, with a new `Counter` that
/// was increased by `value`: the counter comes last in the list of the
/// registry.
#[verifier::external_body]
fn register_counter(registry: &mut prometheus_client::registry::Registry, name: &str, help: &str, value: u64)
    ensures
        registered(*final(registry)) == registered(*old(registry)).push(counter(name@, help@, value)),
{
    let counter = prometheus_client::metrics::counter::Counter::<u64, std::sync::atomic::AtomicU64>::default();
    counter.inc_by(value);
    registry.register(name, help, counter);
}

/// `Family::default` of `prometheus_client`: a family without counters.
#[verifier::external_body]
fn new_family() -> (family: CounterFamily)
    ensures
        family_rows(family) == no_rows(),
{
    CounterFamily { inner: prometheus_client::metrics::family::Family::default() }
}

/// `Family::get_or_create` of `prometheus_client` with the label set of the
/// one label `label` with the value `value`, and `Counter::inc_by` on the
/// counter that it hands out: the counter under the label set is made where
/// the family has none, beginning at zero, and is increased by `count`.
#[verifier::external_body]
fn add_to_family(family: &mut CounterFamily, label: &str, value: &str, count: u64)
    ensures
        family_rows(*final(family)) == rows_after_add(family_rows(*old(family)), label@, value@, count),
{
    family.inner.get_or_create(&vec![(label.to_owned(), value.to_owned())]).inc_by(count);
}

/// `Registry::register` of `prometheus_client`, with a family of counters:
/// the family comes last in the list of the registry.
#[verifier::external_body]
fn register_family(registry: &mut prometheus_client::registry::Registry, name: &str, help: &str, family: CounterFamily)
    ensures
        registered(*final(registry)) == registered(*old(registry)).push(counters(name@, help@, family_rows(family))),
{
    registry.register(name, help, family.inner);
}

/// `prometheus_client::encoding::text::encode` into a new `String`: the
/// exposition of what is registered, or nothing where the encoding fails.
/// The order in which the counters of a family are written is not fixed.
#[verifier::external_body]
pub(crate) fn encode_text(registry: &prometheus_client::registry::Registry) -> (text: Option<String>)
{
    let mut text = String::new();
    match prometheus_client::encoding::text::encode(&mut text, registry) {
        Ok(()) => Some(text),
        Err(_) => None,
    }
}

/// The method of a request that the gateway serves.
#[derive(Clone, Copy, Debug, Hash, PartialEq, Eq, Structural)]
pub enum Method {
    Get,
    Post,
    Put,
    Delete,
}

/// The labels under which a request counter is kept.
#[derive(Clone, Copy, Debug, Hash, PartialEq, Eq, Structural)]
pub struct MethodLabels {
    pub method: Method,
}

/// The value of a counter after one more count: counters stop at the largest
/// value and never go back.
pub open spec fn counted(count: nat) -> nat {
    if count < u64::MAX {
        count + 1
    } else {
        count
    }
}

/// The request counters, one for each method. A counter never decreases.
#[derive(Debug, Clone, Copy, PartialEq, Eq)]
pub struct Metrics {
    get: u64,
    post: u64,
    put: u64,
    delete: u64,
}

impl Default for Metrics {
    fn default() -> (metrics: Self)
        ensures
            forall|method: Method| metrics.count(method) == 0,
    {
        Metrics::new()
    }
}

impl Metrics {
    /// The number of requests counted for `method`.
    pub closed spec fn count(&self, method: Method) -> nat {
        match method {
            Method::Get => self.get as nat,
            Method::Post => self.post as nat,
            Method::Put => self.put as nat,
            Method::Delete => self.delete as nat,
        }
    }

    /// Counters that have counted nothing.
    pub fn new() -> (metrics: Metrics)
        ensures
            forall|method: Method| metrics.count(method) == 0,
    {
        Metrics { get: 0, post: 0, put: 0, delete: 0 }
    }

    /// Counts one request for `method`. No counter decreases.
    pub fn inc_requests(&mut self, method: Method)
        ensures
            final(self).count(method) == counted(old(self).count(method)),
            final(self).count(method) >= old(self).count(method),
            forall|other: Method|
                other != method ==> final(self).count(other) == old(self).count(other),
    {
        match method {
            Method::Get => {
                self.get = self.get.saturating_add(1);
            },
            Method::Post => {
                self.post = self.post.saturating_add(1);
            },
            Method::Put => {
                self.put = self.put.saturating_add(1);
            },
            Method::Delete => {
                self.delete = self.delete.saturating_add(1);
            },
        }
    }

    /// Registers the request counters: one family of counters under the
    /// label `method`, with a counter for each method that has counted a
    /// request.
    pub fn register(&self, registry: &mut prometheus_client::registry::Registry)
        ensures
            registered(*final(registry)) == registered(*old(registry)).push(
                counters(
                    "movie_requests"@,
                    "Total number of movie service requests"@,
                    request_rows(*self),
                ),
            ),
    {
        proof {
            lemma_method_labels_differ();
        }
        let mut family = new_family();
        if self.get > 0 {
            add_to_family(&mut family, "method", "Get", self.get);
        }
        if self.post > 0 {
            add_to_family(&mut family, "method", "Post", self.post);
        }
        if self.put > 0 {
            add_to_family(&mut family, "method", "Put", self.put);
        }
        if self.delete > 0 {
            add_to_family(&mut family, "method", "Delete", self.delete);
        }
        assert(family_rows(family) =~= request_rows(*self));
        register_family(
            registry,
            "movie_requests",
            "Total number of movie service requests",
            family,
        );
    }

    /// The number of requests counted under `labels`.
    pub fn requests(&self, labels: &MethodLabels) -> (count: u64)
        ensures
            count == self.count(labels.method),
    {
        match labels.method {
            Method::Get => self.get,
            Method::Post => self.post,
            Method::Put => self.put,
            Method::Delete => self.delete,
        }
    }
}

/// The value of the label `method` for a method.
pub open spec fn method_label(method: Method) -> Seq<char> {
    match method {
        Method::Get => "Get"@,
        Method::Post => "Post"@,
        Method::Put => "Put"@,
        Method::Delete => "Delete"@,
    }
}

/// The label under which the request counters stand.
pub open spec fn method_key() -> Seq<char> {
    "method"@
}

/// `rows` with the count of `method` under its label, where something was
/// counted for it.
pub open spec fn with_row(
    rows: Map<(Seq<char>, Seq<char>), u64>,
    metrics: Metrics,
    method: Method,
) -> Map<(Seq<char>, Seq<char>), u64> {
    if metrics.count(method) > 0 {
        rows.insert((method_key(), method_label(method)), metrics.count(method) as u64)
    } else {
        rows
    }
}

/// The family of the request counters: the count of each method for which
/// something was counted, under the label `method` with the name of the
/// method.
pub open spec fn request_rows(metrics: Metrics) -> Map<(Seq<char>, Seq<char>), u64> {
    with_row(
        with_row(
            with_row(with_row(no_rows(), metrics, Method::Get), metrics, Method::Post),
            metrics,
            Method::Put,
        ),
        metrics,
        Method::Delete,
    )
}

/// The family of the request counters holds a count for a method where
/// something was counted for the method, and then it holds that count; it
/// holds nothing but the counts of the methods.
pub proof fn lemma_request_rows(metrics: Metrics)
    ensures
        forall|method: Method|
            request_rows(metrics).contains_key((method_key(), #[trigger] method_label(method)))
                <==> metrics.count(method) > 0,
        forall|method: Method|
            metrics.count(method) > 0 ==> request_rows(metrics)[(
                method_key(),
                #[trigger] method_label(method),
            )] == metrics.count(method),
        forall|row: (Seq<char>, Seq<char>)| #[trigger]
            request_rows(metrics).contains_key(row) ==> row.0 == method_key() && exists|
                method: Method,
            |
                method_label(method) == row.1,
{
    lemma_method_labels_differ();
    assert forall|row: (Seq<char>, Seq<char>)| #[trigger]
        request_rows(metrics).contains_key(row) implies row.0 == method_key() && exists|
        method: Method,
    |
        method_label(method) == row.1 by {
        if row.1 == method_label(Method::Get) {
        } else if row.1 == method_label(Method::Post) {
        } else if row.1 == method_label(Method::Put) {
        } else {
            assert(row.1 == method_label(Method::Delete));
        }
    }
}

/// The labels of two different methods differ.
pub proof fn lemma_method_labels_differ()
    ensures
        forall|a: Method, b: Method| a != b ==> method_label(a) != method_label(b),
{
    reveal_strlit("Get");
    reveal_strlit("Post");
    reveal_strlit("Put");
    reveal_strlit("Delete");
    assert("Get"@.len() == 3 && "Post"@.len() == 4 && "Put"@.len() == 3 && "Delete"@.len() == 6);
    assert("Get"@[0] != "Put"@[0]);
}

/// What was measured of the process and of the machine at one moment.
#[derive(Debug, PartialEq, Eq)]
pub struct ProcessSample {
    /// The memory of the process, in bytes.
    pub memory: u64,
    /// The virtual memory of the process, in bytes.
    pub virtual_memory: u64,
    /// The memory that the machine has available, in bytes.
    pub available_memory: u64,
    /// The use of all processors, in percent.
    pub cpu_usage: u64,
    /// The text of the status file of the process, where it could be read.
    pub status: Option<String>,
}

/// The measures of the process.
#[derive(Debug, Clone, Copy, PartialEq, Eq)]
pub struct SystemMetrics {
    pub memory_alloc_bytes: i64,
    pub memory_sys_bytes: i64,
    pub available_memory: u64,
    pub thread_usage: i64,
    pub total_cpu_usage: u64,
    pub process_start_time: i64,
}

/// The seconds between two samples.
pub const SAMPLE_INTERVAL_SECONDS: u64 = 15;

/// The number of threads after a sample: the number that the status file
/// names, or the number as it was where the file names none.
pub open spec fn sampled_threads(before: i64, status: Option<String>) -> i64 {
    match status {
        Some(text) => match thread_count(text@) {
            Some(count) => count,
            None => before,
        },
        None => before,
    }
}

/// The measures after a sample was taken. The two gauges of memory hold the
/// measured values, the counters grow by the available memory in units of
/// 1024 bytes and by the use of the processors, and wrap around where they
/// pass the largest value. Where the process was not found, nothing changes.
pub open spec fn sampled(before: SystemMetrics, sample: Option<ProcessSample>) -> SystemMetrics {
    match sample {
        Some(s) => SystemMetrics {
            memory_alloc_bytes: s.memory as i64,
            memory_sys_bytes: s.virtual_memory as i64,
            available_memory: before.available_memory.wrapping_add(s.available_memory / 1024),
            thread_usage: sampled_threads(before.thread_usage, s.status),
            total_cpu_usage: before.total_cpu_usage.wrapping_add(s.cpu_usage),
            process_start_time: before.process_start_time,
        },
        None => before,
    }
}

/// What [`SystemMetrics::register`] registers, in its order.
pub open spec fn system_registrations(metrics: SystemMetrics) -> Seq<Registration> {
    seq![
        gauge(
            "process_memory_alloc_bytes"@,
            "Current memory allocation in bytes"@,
            metrics.memory_alloc_bytes,
        ),
        gauge(
            "process_memory_sys_bytes"@,
            "Total system memory in bytes"@,
            metrics.memory_sys_bytes,
        ),
        counter("process_memory_frees_total"@, "Total Available Memory"@, metrics.available_memory),
        gauge("process_thread_total"@, "Thread total"@, metrics.thread_usage),
        counter("total_cpu_usage"@, "Total cpu usage"@, metrics.total_cpu_usage),
        gauge(
            "process_start_time_seconds"@,
            "Start time of the process since unix epoch in seconds"@,
            metrics.process_start_time,
        ),
    ]
}

impl SystemMetrics {
    /// The measures of a process that started `start_time` seconds after the
    /// epoch, before the first sample.
    pub fn new(start_time: i64) -> (metrics: SystemMetrics)
        ensures
            metrics == (SystemMetrics {
                memory_alloc_bytes: 0,
                memory_sys_bytes: 0,
                available_memory: 0,
                thread_usage: 0,
                total_cpu_usage: 0,
                process_start_time: start_time,
            }),
    {
        SystemMetrics {
            memory_alloc_bytes: 0,
            memory_sys_bytes: 0,
            available_memory: 0,
            thread_usage: 0,
            total_cpu_usage: 0,
            process_start_time: start_time,
        }
    }

    /// Registers the six measures with `registry`, each under its name and
    /// with its help text.
    pub fn register(&self, registry: &mut prometheus_client::registry::Registry)
        ensures
            registered(*final(registry)) == registered(*old(registry)) + system_registrations(*self),
    {
        register_gauge(
            registry,
            "process_memory_alloc_bytes",
            "Current memory allocation in bytes",
            self.memory_alloc_bytes,
        );
        register_gauge(
            registry,
            "process_memory_sys_bytes",
            "Total system memory in bytes",
            self.memory_sys_bytes,
        );
        register_counter(
            registry,
            "process_memory_frees_total",
            "Total Available Memory",
            self.available_memory,
        );
        register_gauge(registry, "process_thread_total", "Thread total", self.thread_usage);
        register_counter(registry, "total_cpu_usage", "Total cpu usage", self.total_cpu_usage);
        register_gauge(
            registry,
            "process_start_time_seconds",
            "Start time of the process since unix epoch in seconds",
            self.process_start_time,
        );
        assert(registered(*final(registry)) =~= registered(*old(registry)) + system_registrations(
            *self,
        ));
    }

    /// Takes a sample into the measures; `None` stands for a process that
    /// was not found.
    pub fn update_metrics(&mut self, sample: Option<ProcessSample>)
        ensures
            *final(self) == sampled(*old(self), sample),
    {
        if let Some(sample) = sample {
            self.memory_alloc_bytes = sample.memory as i64;
            self.memory_sys_bytes = sample.virtual_memory as i64;
            self.available_memory = self.available_memory.wrapping_add(sample.available_memory / 1024);
            self.total_cpu_usage = self.total_cpu_usage.wrapping_add(sample.cpu_usage);
            if let Some(status) = sample.status {
                if let Some(count) = get_thread_count(status.as_str()) {
                    self.thread_usage = count;
                }
            }
        }
    }
}

} // verus!

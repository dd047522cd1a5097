use movie_service::metrics::{Method, MethodLabels, Metrics, ProcessSample, SystemMetrics};
use prometheus_client::encoding::text::encode;
use prometheus_client::registry::Registry;

#[test]
fn new_counters_are_zero() {
    let metrics = Metrics::new();
    for method in [Method::Get, Method::Post, Method::Put, Method::Delete] {
        assert_eq!(metrics.requests(&MethodLabels { method }), 0);
    }
}

#[test]
fn inc_requests_counts_one_method_only() {
    let mut metrics = Metrics::new();
    metrics.inc_requests(Method::Put);
    metrics.inc_requests(Method::Put);
    metrics.inc_requests(Method::Get);
    assert_eq!(metrics.requests(&MethodLabels { method: Method::Put }), 2);
    assert_eq!(metrics.requests(&MethodLabels { method: Method::Get }), 1);
    assert_eq!(metrics.requests(&MethodLabels { method: Method::Post }), 0);
    assert_eq!(metrics.requests(&MethodLabels { method: Method::Delete }), 0);
}

#[test]
fn labels_compare_by_method() {
    assert_eq!(MethodLabels { method: Method::Get }, MethodLabels { method: Method::Get });
    assert_ne!(MethodLabels { method: Method::Get }, MethodLabels { method: Method::Post });
}

fn sample(memory: u64, virtual_memory: u64, available_memory: u64, cpu_usage: u64, status: Option<&str>) -> ProcessSample {
    ProcessSample { memory, virtual_memory, available_memory, cpu_usage, status: status.map(str::to_string) }
}

fn exposition(registry: &Registry) -> String {
    let mut text = String::new();
    encode(&mut text, registry).unwrap();
    text
}

#[test]
fn new_system_metrics_hold_the_start_time_only() {
    let metrics = SystemMetrics::new(1_700_000_000);
    assert_eq!(
        metrics,
        SystemMetrics {
            memory_alloc_bytes: 0,
            memory_sys_bytes: 0,
            available_memory: 0,
            thread_usage: 0,
            total_cpu_usage: 0,
            process_start_time: 1_700_000_000,
        }
    );
}

#[test]
fn update_metrics_takes_a_sample() {
    let mut metrics = SystemMetrics::new(5);
    metrics.update_metrics(Some(sample(1000, 2000, 4096, 7, Some("Name:\tx\nThreads:\t12\n"))));
    assert_eq!(
        metrics,
        SystemMetrics {
            memory_alloc_bytes: 1000,
            memory_sys_bytes: 2000,
            available_memory: 4,
            thread_usage: 12,
            total_cpu_usage: 7,
            process_start_time: 5,
        }
    );
    metrics.update_metrics(Some(sample(900, 2100, 1023 + 2048, 5, None)));
    assert_eq!(
        metrics,
        SystemMetrics {
            memory_alloc_bytes: 900,
            memory_sys_bytes: 2100,
            available_memory: 6,
            thread_usage: 12,
            total_cpu_usage: 12,
            process_start_time: 5,
        }
    );
}

#[test]
fn update_metrics_without_a_process_changes_nothing() {
    let mut metrics = SystemMetrics::new(5);
    metrics.update_metrics(Some(sample(1, 2, 3 * 1024, 4, Some("Threads: 9"))));
    let before = metrics;
    metrics.update_metrics(None);
    assert_eq!(metrics, before);
}

#[test]
fn update_metrics_keeps_the_threads_where_the_file_names_none() {
    let mut metrics = SystemMetrics::new(5);
    metrics.update_metrics(Some(sample(1, 2, 0, 0, Some("Threads: 9"))));
    metrics.update_metrics(Some(sample(1, 2, 0, 0, Some("Threads: many"))));
    assert_eq!(metrics.thread_usage, 9);
    metrics.update_metrics(Some(sample(1, 2, 0, 0, Some("no such line"))));
    assert_eq!(metrics.thread_usage, 9);
}

#[test]
fn update_metrics_wraps_the_counters_and_the_gauges() {
    let mut metrics = SystemMetrics::new(0);
    metrics.available_memory = u64::MAX;
    metrics.total_cpu_usage = u64::MAX - 1;
    metrics.update_metrics(Some(sample(u64::MAX, 1 << 63, 2048, 3, None)));
    assert_eq!(metrics.available_memory, 1);
    assert_eq!(metrics.total_cpu_usage, 1);
    assert_eq!(metrics.memory_alloc_bytes, -1);
    assert_eq!(metrics.memory_sys_bytes, i64::MIN);
}

#[test]
fn system_metrics_register_six_measures() {
    let mut metrics = SystemMetrics::new(42);
    metrics.update_metrics(Some(sample(10, 20, 30 * 1024, 40, Some("Threads: 50"))));
    let mut registry = Registry::default();
    metrics.register(&mut registry);
    assert_eq!(
        exposition(&registry),
        "# HELP process_memory_alloc_bytes Current memory allocation in bytes.\n\
         # TYPE process_memory_alloc_bytes gauge\n\
         process_memory_alloc_bytes 10\n\
         # HELP process_memory_sys_bytes Total system memory in bytes.\n\
         # TYPE process_memory_sys_bytes gauge\n\
         process_memory_sys_bytes 20\n\
         # HELP process_memory_frees_total Total Available Memory.\n\
         # TYPE process_memory_frees_total counter\n\
         process_memory_frees_total_total 30\n\
         # HELP process_thread_total Thread total.\n\
         # TYPE process_thread_total gauge\n\
         process_thread_total 50\n\
         # HELP total_cpu_usage Total cpu usage.\n\
         # TYPE total_cpu_usage counter\n\
         total_cpu_usage_total 40\n\
         # HELP process_start_time_seconds Start time of the process since unix epoch in seconds.\n\
         # TYPE process_start_time_seconds gauge\n\
         process_start_time_seconds 42\n\
         # EOF\n"
    );
}

#[test]
fn request_counters_register_one_family() {
    let mut metrics = Metrics::new();
    metrics.inc_requests(Method::Post);
    metrics.inc_requests(Method::Post);
    metrics.inc_requests(Method::Post);
    let mut registry = Registry::default();
    metrics.register(&mut registry);
    assert_eq!(
        exposition(&registry),
        "# HELP movie_requests Total number of movie service requests.\n\
         # TYPE movie_requests counter\n\
         movie_requests_total{method=\"Post\"} 3\n\
         # EOF\n"
    );
}

#[test]
fn request_counters_register_every_counted_method() {
    let mut metrics = Metrics::new();
    for method in [Method::Get, Method::Post, Method::Put, Method::Delete, Method::Delete] {
        metrics.inc_requests(method);
    }
    let mut registry = Registry::default();
    metrics.register(&mut registry);
    let text = exposition(&registry);
    for line in [
        "movie_requests_total{method=\"Get\"} 1\n",
        "movie_requests_total{method=\"Post\"} 1\n",
        "movie_requests_total{method=\"Put\"} 1\n",
        "movie_requests_total{method=\"Delete\"} 2\n",
    ] {
        assert!(text.contains(line), "{}", text);
    }
}

#[test]
fn request_counters_without_requests_register_an_empty_family() {
    let mut registry = Registry::default();
    Metrics::new().register(&mut registry);
    assert_eq!(
        exposition(&registry),
        "# HELP movie_requests Total number of movie service requests.\n\
         # TYPE movie_requests counter\n\
         # EOF\n"
    );
}

use oxideterm_workspace::workspace::host_tools::{
    on_drained, on_wake, GpuUpdate, HostToolsAnswer, HostToolsEntity, HostToolsReliableDelivery,
    HostToolsVisibility, WakeStep,
};
use oxideterm_workspace::workspace::monitor_charts::{
    monitor_usage_source, strokes, time_axis, usage_source, ChartSample, MonitorMetricKind,
    ResourceReading, ResourceReadings, Stroke, UsageSource,
};

fn entity() -> HostToolsEntity<u32, &'static str> {
    HostToolsEntity {
        visibility: HostToolsVisibility::Visible,
        sampled_connection: Some("a".to_string()),
        snapshot_connection_id: None,
        snapshot: None,
        sampler_queue: Vec::new(),
        reliable_queue: Vec::new(),
    }
}

fn sample(connection: &str, snapshot: u32) -> GpuUpdate<u32> {
    GpuUpdate { connection_id: connection.to_string(), snapshot }
}

#[test]
fn only_the_latest_sample_of_the_sampled_connection_is_shown() {
    let mut tools = entity();
    tools.sampler_queue =
        vec![sample("a", 1), sample("a", 2), sample("b", 3), sample("a", 4)];
    let drained = tools.drain_sampler_deliveries(3);
    assert!(drained.updated);
    assert!(drained.backlog_remaining);
    assert_eq!(tools.snapshot, Some(2));
    assert_eq!(tools.snapshot_connection_id.as_deref(), Some("a"));
    let drained = tools.drain_sampler_deliveries(3);
    assert!(drained.updated);
    assert!(!drained.backlog_remaining);
    assert_eq!(tools.snapshot, Some(4));
    tools.sampler_queue = vec![sample("b", 9)];
    assert!(!tools.drain_sampler_deliveries(3).updated);
    assert_eq!(tools.snapshot, Some(4));
}

#[test]
fn answers_come_out_in_order_and_none_is_lost() {
    let mut tools = entity();
    for payload in ["one", "two", "three"] {
        tools
            .reliable_queue
            .push(HostToolsReliableDelivery { answer: HostToolsAnswer::DockerLogs, payload });
    }
    let (first, left) = tools.drain_reliable_deliveries(2);
    assert_eq!(first.iter().map(|d| d.payload).collect::<Vec<_>>(), vec!["one", "two"]);
    assert!(left);
    let (second, left) = tools.drain_reliable_deliveries(2);
    assert_eq!(second.iter().map(|d| d.payload).collect::<Vec<_>>(), vec!["three"]);
    assert!(!left);
}

#[test]
fn a_released_page_stops_sampling() {
    let mut tools = entity();
    assert_eq!(tools.release().as_deref(), Some("a"));
    assert_eq!(tools.visibility, HostToolsVisibility::Dropped);
    assert!(tools.release().is_none());
}

#[test]
fn a_stopped_loop_takes_what_has_arrived() {
    assert_eq!(on_wake(true, true), WakeStep::Drain);
    assert_eq!(on_wake(false, true), WakeStep::Stop);
    assert_eq!(on_wake(false, false), WakeStep::Wait);
    assert_eq!(on_drained(true, true), WakeStep::WakeAgain);
    assert_eq!(on_drained(false, true), WakeStep::Stop);
    assert_eq!(on_drained(false, false), WakeStep::Wait);
}

fn chart(samples: &[(u64, bool)]) -> Vec<ChartSample> {
    samples
        .iter()
        .map(|(timestamp_ms, drawable)| ChartSample {
            timestamp_ms: *timestamp_ms,
            drawable: *drawable,
        })
        .collect()
}

#[test]
fn charts_keep_uneven_times_and_gaps() {
    let axis = time_axis(&chart(&[(100, true), (125, true), (150, false), (200, true)]));
    assert_eq!(axis.duration, 100);
    assert_eq!(axis.offsets, vec![Some(0), Some(25), None, Some(100)]);
    assert_eq!(
        strokes(&axis.offsets),
        vec![Stroke::MoveTo(0), Stroke::LineTo(1), Stroke::MoveTo(3)]
    );
    let axis = time_axis(&chart(&[(100, false), (100, true)]));
    assert_eq!(axis.duration, 1);
    assert_eq!(axis.offsets, vec![None, Some(0)]);
    assert_eq!(time_axis(&chart(&[])).duration, 1);
}

#[test]
fn reported_percentages_count() {
    assert_eq!(usage_source(true, Some(20), Some(100)), UsageSource::Reported);
    assert_eq!(
        usage_source(false, Some(20), Some(100)),
        UsageSource::Computed { used: 20, total: 100 }
    );
    assert_eq!(usage_source(false, Some(0), Some(0)), UsageSource::Unknown);
    assert_eq!(usage_source(false, None, Some(100)), UsageSource::Unknown);
}

#[test]
fn each_metric_has_its_own_source() {
    let readings = ResourceReadings {
        cpu_reported: true,
        memory: ResourceReading { reported: false, used: Some(1), total: Some(4) },
        swap: ResourceReading { reported: false, used: Some(0), total: Some(0) },
        disk: ResourceReading { reported: true, used: Some(1), total: Some(2) },
        gpu_reported: false,
        gpu_memory_reported: true,
    };
    let source = |kind| monitor_usage_source(kind, &readings);
    assert_eq!(source(MonitorMetricKind::Cpu), Some(UsageSource::Reported));
    assert_eq!(
        source(MonitorMetricKind::Memory),
        Some(UsageSource::Computed { used: 1, total: 4 })
    );
    assert_eq!(source(MonitorMetricKind::Swap), Some(UsageSource::Unknown));
    assert_eq!(source(MonitorMetricKind::Disk), Some(UsageSource::Reported));
    assert_eq!(source(MonitorMetricKind::Gpu), Some(UsageSource::Unknown));
    assert_eq!(source(MonitorMetricKind::GpuMemory), Some(UsageSource::Reported));
    assert_eq!(source(MonitorMetricKind::Other), None);
}

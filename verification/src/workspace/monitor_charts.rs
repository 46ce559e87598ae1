//! Charts of a host's load: where samples stand in time, and what is drawn between them.

use vstd::prelude::*;

verus! {

/// A sample of a chart: when it was taken, and whether its value can be drawn.
#[derive(Clone, Copy, PartialEq, Eq, Structural, Debug)]
pub struct ChartSample {
    pub timestamp_ms: u64,
    pub drawable: bool,
}

/// A chart's axis of time. `offsets` says how far behind the first sample each drawable one stands.
pub struct TimeAxis {
    pub duration: u64,
    pub offsets: Vec<Option<u64>>,
}

pub open spec fn time_between(start: u64, end: u64) -> u64 {
    if end > start {
        (end - start) as u64
    } else {
        0
    }
}

/// How long a chart is: from the first to the last sample, and never nothing.
pub open spec fn duration_of(samples: Seq<ChartSample>) -> u64 {
    let length = if samples.len() == 0 {
        0
    } else {
        time_between(samples.first().timestamp_ms, samples.last().timestamp_ms)
    };
    if length == 0 {
        1
    } else {
        length
    }
}

/// How far a sample stands behind the first one, inside the chart.
pub open spec fn offset_of(samples: Seq<ChartSample>, at: int) -> Option<u64> {
    if !samples[at].drawable {
        None
    } else {
        let offset = time_between(samples.first().timestamp_ms, samples[at].timestamp_ms);
        Some(
            if offset > duration_of(samples) {
                duration_of(samples)
            } else {
                offset
            },
        )
    }
}

fn elapsed(start: u64, end: u64) -> (res: u64)
    ensures
        res == time_between(start, end),
{
    if end > start {
        end - start
    } else {
        0
    }
}

/// Places samples by their time, so that uneven intervals stay uneven. What cannot be drawn stays a
/// gap.
pub fn time_axis(samples: &Vec<ChartSample>) -> (res: TimeAxis)
    ensures
        res.duration == duration_of(samples@),
        res.offsets@.len() == samples@.len(),
        forall|i: int| 0 <= i < samples@.len() ==> #[trigger] res.offsets@[i] == offset_of(samples@, i),
{
    if samples.len() == 0 {
        return TimeAxis { duration: 1, offsets: Vec::new() };
    }
    let start: u64 = samples[0].timestamp_ms;
    let length: u64 = elapsed(start, samples[samples.len() - 1].timestamp_ms);
    let duration: u64 = if length == 0 {
        1
    } else {
        length
    };
    let mut offsets: Vec<Option<u64>> = Vec::new();
    let mut i: usize = 0;
    while i < samples.len()
        invariant
            i <= samples.len(),
            samples@.len() > 0,
            start == samples@.first().timestamp_ms,
            duration == duration_of(samples@),
            offsets@.len() == i,
            forall|j: int| 0 <= j < i ==> #[trigger] offsets@[j] == offset_of(samples@, j),
        decreases samples.len() - i,
    {
        let offset = if samples[i].drawable {
            let offset: u64 = elapsed(start, samples[i].timestamp_ms);
            if offset > duration {
                Some(duration)
            } else {
                Some(offset)
            }
        } else {
            None
        };
        offsets.push(offset);
        i += 1;
    }
    TimeAxis { duration, offsets }
}

/// A movement of the pen to a sample.
#[derive(Clone, Copy, PartialEq, Eq, Structural, Debug)]
pub enum Stroke {
    MoveTo(usize),
    LineTo(usize),
}

/// How a chart is drawn: a line goes only from a sample to the one right behind it.
pub open spec fn strokes_of(offsets: Seq<Option<u64>>) -> Seq<Stroke>
    decreases offsets.len(),
{
    if offsets.len() == 0 {
        Seq::empty()
    } else {
        let rest = strokes_of(offsets.drop_last());
        let at = (offsets.len() - 1) as usize;
        if offsets.last() is None {
            rest
        } else if offsets.len() > 1 && offsets[offsets.len() - 2] is Some {
            rest.push(Stroke::LineTo(at))
        } else {
            rest.push(Stroke::MoveTo(at))
        }
    }
}

pub fn strokes(offsets: &Vec<Option<u64>>) -> (res: Vec<Stroke>)
    ensures
        res@ == strokes_of(offsets@),
{
    let mut res: Vec<Stroke> = Vec::new();
    let mut connected = false;
    let mut i: usize = 0;
    assert(offsets@.take(0) =~= Seq::<Option<u64>>::empty());
    while i < offsets.len()
        invariant
            i <= offsets.len(),
            res@ == strokes_of(offsets@.take(i as int)),
            connected == (i > 0 && offsets@[i - 1] is Some),
        decreases offsets.len() - i,
    {
        assert(offsets@.take(i + 1).drop_last() =~= offsets@.take(i as int));
        if offsets[i].is_some() {
            if connected {
                res.push(Stroke::LineTo(i));
            } else {
                res.push(Stroke::MoveTo(i));
            }
            connected = true;
        } else {
            connected = false;
        }
        i += 1;
    }
    assert(offsets@.take(i as int) =~= offsets@);
    res
}

/// No line is drawn over a gap, nor to a sample that cannot be drawn.
pub proof fn law_gaps_stay_gaps(offsets: Seq<Option<u64>>, at: usize)
    requires
        strokes_of(offsets).contains(Stroke::LineTo(at)),
        offsets.len() <= usize::MAX,
    ensures
        0 < at < offsets.len(),
        offsets[at as int] is Some,
        offsets[at - 1] is Some,
    decreases offsets.len(),
{
    if offsets.len() > 0 {
        let rest = strokes_of(offsets.drop_last());
        let all = strokes_of(offsets);
        let i = choose|i: int| 0 <= i < all.len() && all[i] == Stroke::LineTo(at);
        if i < rest.len() {
            assert(rest[i] == Stroke::LineTo(at));
            assert(rest.contains(Stroke::LineTo(at)));
            law_gaps_stay_gaps(offsets.drop_last(), at);
            assert(offsets.drop_last()[at as int] == offsets[at as int]);
            assert(offsets.drop_last()[at - 1] == offsets[at - 1]);
        }
    }
}

/// Whether a percentage was reported, or has to be worked out of what is used and what there is.
#[derive(Clone, Copy, PartialEq, Eq, Structural, Debug)]
pub enum UsageSource {
    Reported,
    Computed { used: u64, total: u64 },
    Unknown,
}

/// Where a percentage comes from. A reported one counts: a file system may hold blocks back that
/// its numbers do not show. Nothing can be worked out of a total of nothing.
pub fn usage_source(reported: bool, used: Option<u64>, total: Option<u64>) -> (res: UsageSource)
    ensures
        res == if reported {
            UsageSource::Reported
        } else if used is Some && total is Some && total->0 > 0 {
            UsageSource::Computed { used: used->0, total: total->0 }
        } else {
            UsageSource::Unknown
        },
{
    if reported {
        return UsageSource::Reported;
    }
    match (used, total) {
        (Some(used), Some(total)) => {
            if total > 0 {
                UsageSource::Computed { used, total }
            } else {
                UsageSource::Unknown
            }
        },
        _ => UsageSource::Unknown,
    }
}

/// What a host's monitor can show.
#[derive(Clone, Copy, PartialEq, Eq, Structural, Debug)]
pub enum MonitorMetricKind {
    Cpu,
    Memory,
    Swap,
    Disk,
    Gpu,
    GpuMemory,
    Other,
}

/// What a host told of a resource: whether it gave a percentage, what is used and what there is.
#[derive(Clone, Copy, Debug)]
pub struct ResourceReading {
    pub reported: bool,
    pub used: Option<u64>,
    pub total: Option<u64>,
}

/// What a host told of its resources. Of its processors only a percentage counts.
#[derive(Clone, Copy, Debug)]
pub struct ResourceReadings {
    pub cpu_reported: bool,
    pub memory: ResourceReading,
    pub swap: ResourceReading,
    pub disk: ResourceReading,
    pub gpu_reported: bool,
    pub gpu_memory_reported: bool,
}

impl ResourceReading {
    pub open spec fn source(self) -> UsageSource {
        if self.reported {
            UsageSource::Reported
        } else if self.used is Some && self.total is Some && self.total->0 > 0 {
            UsageSource::Computed { used: self.used->0, total: self.total->0 }
        } else {
            UsageSource::Unknown
        }
    }
}

pub open spec fn plain_source(reported: bool) -> UsageSource {
    if reported {
        UsageSource::Reported
    } else {
        UsageSource::Unknown
    }
}

fn plain_usage_source(reported: bool) -> (res: UsageSource)
    ensures
        res == plain_source(reported),
{
    if reported {
        UsageSource::Reported
    } else {
        UsageSource::Unknown
    }
}

/// Where the percentage of what a monitor shows comes from. What has no percentage gives nothing.
pub fn monitor_usage_source(kind: MonitorMetricKind, readings: &ResourceReadings) -> (res: Option<
    UsageSource,
>)
    ensures
        res == match kind {
            MonitorMetricKind::Cpu => Some(plain_source(readings.cpu_reported)),
            MonitorMetricKind::Memory => Some(readings.memory.source()),
            MonitorMetricKind::Swap => Some(readings.swap.source()),
            MonitorMetricKind::Disk => Some(readings.disk.source()),
            MonitorMetricKind::Gpu => Some(plain_source(readings.gpu_reported)),
            MonitorMetricKind::GpuMemory => Some(plain_source(readings.gpu_memory_reported)),
            MonitorMetricKind::Other => None,
        },
{
    match kind {
        MonitorMetricKind::Cpu => Some(plain_usage_source(readings.cpu_reported)),
        MonitorMetricKind::Memory => {
            let reading = &readings.memory;
            Some(usage_source(reading.reported, reading.used, reading.total))
        },
        MonitorMetricKind::Swap => {
            let reading = &readings.swap;
            Some(usage_source(reading.reported, reading.used, reading.total))
        },
        MonitorMetricKind::Disk => {
            let reading = &readings.disk;
            Some(usage_source(reading.reported, reading.used, reading.total))
        },
        MonitorMetricKind::Gpu => Some(plain_usage_source(readings.gpu_reported)),
        MonitorMetricKind::GpuMemory => Some(plain_usage_source(readings.gpu_memory_reported)),
        MonitorMetricKind::Other => None,
    }
}

} // verus!

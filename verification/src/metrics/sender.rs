//! The measurements written to InfluxDB at each tick: one per counter and
//! one per timer summary, tagged with the metric and the host.
use vstd::prelude::*;
use crate::common::text::{opt_view, join2};
use crate::metrics::instruments::TimerSnapshot;

verus! {

/// One measurement: its series, its tags and its integer fields, in order.
#[derive(Debug, Clone, PartialEq, Eq)]
pub struct MeasurementPlan {
    pub key: String,
    pub tags: Vec<(String, String)>,
    pub fields: Vec<(String, i64)>,
}

/// The views of string tags.
pub open spec fn tags_view(ts: Seq<(String, String)>) -> Seq<(Seq<char>, Seq<char>)> {
    ts.map_values(|t: (String, String)| (t.0@, t.1@))
}

/// The views of integer fields.
pub open spec fn fields_view(fs: Seq<(String, i64)>) -> Seq<(Seq<char>, i64)> {
    fs.map_values(|f: (String, i64)| (f.0@, f.1))
}

/// Whether `m` is the measurement of counter `name` with `value` in series
/// `series` from `hostname`.
pub open spec fn counter_measurement_of(series: Seq<char>, name: Seq<char>, hostname: Seq<char>, value: usize, m: MeasurementPlan) -> bool {
    &&& m.key@ == series
    &&& tags_view(m.tags@) == seq![("metric"@, name), ("hostname"@, hostname)]
    &&& fields_view(m.fields@) == seq![("value"@, value as i64)]
}

/// Whether `m` is the measurement of timer summary `t` in series `series`
/// from `hostname`.
pub open spec fn timer_measurement_of(series: Seq<char>, t: TimerSnapshot, hostname: Seq<char>, m: MeasurementPlan) -> bool {
    &&& m.key@ == series
    &&& tags_view(m.tags@) == seq![("metric"@, t.name@), ("hostname"@, hostname)]
    &&& fields_view(m.fields@) == seq![
        ("min"@, t.min as i64),
        ("mean"@, t.mean as i64),
        ("p70"@, t.p70 as i64),
        ("p90"@, t.p90 as i64),
        ("p95"@, t.p95 as i64),
        ("p99"@, t.p99 as i64),
        ("max"@, t.max as i64),
    ]
}

/// The series of the counters of `application`: `<application>-counters`.
pub fn counter_series(application: &str) -> (r: String)
    ensures
        r@ == application@ + "-counters"@,
{
    join2(application, "-counters")
}

/// The series of the timers of `application`: `<application>-timers`.
pub fn timer_series(application: &str) -> (r: String)
    ensures
        r@ == application@ + "-timers"@,
{
    join2(application, "-timers")
}

/// The measurement of counter `name` with `value`.
pub fn counter_measurement(series: &str, name: &str, hostname: &str, value: usize) -> (m: MeasurementPlan)
    ensures
        counter_measurement_of(series@, name@, hostname@, value, m),
{
    let mut tags: Vec<(String, String)> = Vec::new();
    tags.push((String::from_str("metric"), String::from_str(name)));
    tags.push((String::from_str("hostname"), String::from_str(hostname)));
    let mut fields: Vec<(String, i64)> = Vec::new();
    fields.push((String::from_str("value"), value as i64));
    let m = MeasurementPlan { key: String::from_str(series), tags, fields };
    assert(tags_view(m.tags@) =~= seq![("metric"@, name@), ("hostname"@, hostname@)]);
    assert(fields_view(m.fields@) =~= seq![("value"@, value as i64)]);
    m
}

/// The measurement of a timer summary.
pub fn timer_measurement(series: &str, t: &TimerSnapshot, hostname: &str) -> (m: MeasurementPlan)
    ensures
        timer_measurement_of(series@, *t, hostname@, m),
{
    let mut tags: Vec<(String, String)> = Vec::new();
    tags.push((String::from_str("metric"), String::from_str(t.name)));
    tags.push((String::from_str("hostname"), String::from_str(hostname)));
    let mut fields: Vec<(String, i64)> = Vec::new();
    fields.push((String::from_str("min"), t.min as i64));
    fields.push((String::from_str("mean"), t.mean as i64));
    fields.push((String::from_str("p70"), t.p70 as i64));
    fields.push((String::from_str("p90"), t.p90 as i64));
    fields.push((String::from_str("p95"), t.p95 as i64));
    fields.push((String::from_str("p99"), t.p99 as i64));
    fields.push((String::from_str("max"), t.max as i64));
    let m = MeasurementPlan { key: String::from_str(series), tags, fields };
    assert(tags_view(m.tags@) =~= seq![("metric"@, t.name@), ("hostname"@, hostname@)]);
    assert(fields_view(m.fields@) =~= seq![
        ("min"@, t.min as i64),
        ("mean"@, t.mean as i64),
        ("p70"@, t.p70 as i64),
        ("p90"@, t.p90 as i64),
        ("p95"@, t.p95 as i64),
        ("p99"@, t.p99 as i64),
        ("max"@, t.max as i64),
    ]);
    m
}


/// Sends the metrics of `application` from `hostname` at each tick.
pub struct MetricsSender {
    pub application: String,
    pub hostname: String,
}

impl MetricsSender {
    /// A sender for `application`; the host is the task id when there is
    /// one, `undefined` otherwise.
    pub fn new(application: String, task_id: Option<String>) -> (r: MetricsSender)
        ensures
            r.application@ == application@,
            r.hostname@ == (match opt_view(task_id) { Some(t) => t, None => "undefined"@ }),
    {
        let hostname = match task_id {
            Some(t) => t,
            None => String::from_str("undefined"),
        };
        MetricsSender { application, hostname }
    }

    /// The measurements of one tick: one per
    /// counter, in order, then one per timer summary that could be computed,
    /// in order (a timer without a summary is `None` and skipped).
    pub fn measurements(&self, counters: &Vec<(&str, usize)>, timers: &Vec<Option<TimerSnapshot>>) -> (r: Vec<MeasurementPlan>)
        ensures
            r@.len() == counters@.len() + timers@.filter(|t: Option<TimerSnapshot>| t is Some).len(),
            forall|i: int| 0 <= i < counters@.len() ==>
                counter_measurement_of(self.application@ + "-counters"@, counters@[i].0@, self.hostname@, counters@[i].1, #[trigger] r@[i]),
            forall|i: int| 0 <= i < timers@.filter(|t: Option<TimerSnapshot>| t is Some).len() ==>
                timer_measurement_of(self.application@ + "-timers"@,
                    timers@.filter(|t: Option<TimerSnapshot>| t is Some)[i]->0, self.hostname@, #[trigger] r@[counters@.len() + i]),
    {
        let counter_name = counter_series(self.application.as_str());
        let timer_name = timer_series(self.application.as_str());
        let mut r: Vec<MeasurementPlan> = Vec::new();
        let mut i: usize = 0;
        while i < counters.len()
            invariant
                i <= counters@.len(),
                r@.len() == i,
                counter_name@ == self.application@ + "-counters"@,
                forall|j: int| 0 <= j < i ==>
                    counter_measurement_of(self.application@ + "-counters"@, counters@[j].0@, self.hostname@, counters@[j].1, #[trigger] r@[j]),
            decreases counters@.len() - i,
        {
            let m = counter_measurement(counter_name.as_str(), counters[i].0, self.hostname.as_str(), counters[i].1);
            r.push(m);
            i = i + 1;
        }
        let ghost some = |t: Option<TimerSnapshot>| t is Some;
        let ghost n = counters@.len();
        let mut k: usize = 0;
        assert(timers@.take(0).filter(some) =~= Seq::<Option<TimerSnapshot>>::empty());
        while k < timers.len()
            invariant
                k <= timers@.len(),
                n == counters@.len(),
                some == (|t: Option<TimerSnapshot>| t is Some),
                r@.len() == n + timers@.take(k as int).filter(some).len(),
                timer_name@ == self.application@ + "-timers"@,
                forall|j: int| 0 <= j < n ==>
                    counter_measurement_of(self.application@ + "-counters"@, counters@[j].0@, self.hostname@, counters@[j].1, #[trigger] r@[j]),
                forall|j: int| 0 <= j < timers@.take(k as int).filter(some).len() ==>
                    timer_measurement_of(self.application@ + "-timers"@,
                        timers@.take(k as int).filter(some)[j]->0, self.hostname@, #[trigger] r@[n + j]),
            decreases timers@.len() - k,
        {
            let ghost prev = timers@.take(k as int);
            assert(timers@.take(k + 1) =~= prev.push(timers@[k as int]));
            proof {
                prev.lemma_filter_push(timers@[k as int], some);
            }
            match &timers[k] {
                Some(t) => {
                    let m = timer_measurement(timer_name.as_str(), t, self.hostname.as_str());
                    r.push(m);
                },
                None => {},
            }
            k = k + 1;
        }
        assert(timers@.take(timers@.len() as int) =~= timers@);
        r
    }
}

} // verus!

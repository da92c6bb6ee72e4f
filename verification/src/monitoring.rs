//! The monitoring subsystem: a recorder of named numeric time series, an
//! append-only alert log, and rolling performance metrics. It knows nothing
//! of the physical models beyond the parameter names it is handed.
//!
//! Reading values are fixed-point integers in thousandths of the unit the
//! parameter-name table assigns; timestamps are whole hours.

use vstd::arithmetic::div_mod::{
    lemma_div_is_ordered, lemma_div_multiples_vanish, lemma_div_nonincreasing,
    lemma_div_pos_is_pos, lemma_fundamental_div_mod, lemma_fundamental_div_mod_converse_div,
};
use vstd::prelude::*;

verus! {

/// The efficiency-trend history keeps at most this many entries; the oldest
/// leaves first.
pub const EFFICIENCY_TREND_CAP: usize = 100;

/// One timestamped observation of a named parameter; immutable once made.
pub struct Reading {
    /// Whole hours of simulated time.
    pub timestamp_hours: u64,
    /// Thousandths of the unit named in `unit`.
    pub value_milli: i64,
    pub unit: String,
}

impl Clone for Reading {
    fn clone(&self) -> (r: Self)
        ensures
            r == *self,
    {
        Reading {
            timestamp_hours: self.timestamp_hours,
            value_milli: self.value_milli,
            unit: self.unit.clone(),
        }
    }
}

/// The retained series of one named parameter.
pub struct ParameterSeries {
    pub name: String,
    pub readings: Vec<Reading>,
}

/// A threshold-violation event; immutable once made.
pub struct Alert {
    /// Whole hours of simulated time.
    pub timestamp_hours: u64,
    pub severity: AlertSeverity,
    pub message: String,
    pub parameter: String,
    pub value_milli: i64,
}

impl Clone for Alert {
    fn clone(&self) -> (r: Self)
        ensures
            r == *self,
    {
        Alert {
            timestamp_hours: self.timestamp_hours,
            severity: self.severity,
            message: self.message.clone(),
            parameter: self.parameter.clone(),
            value_milli: self.value_milli,
        }
    }
}

#[derive(Debug, Clone, Copy, PartialEq, Eq, Structural)]
pub enum AlertSeverity {
    Info,
    Warning,
    Critical,
}

/// Aggregate derived statistics, updated incrementally on each recorded
/// reading.
pub struct PerformanceMetrics {
    /// Milli-MWh; owned by the simulator's accounting, constant here.
    pub total_energy_milli_mwh: u64,
    /// Largest `generator_power_mw` value recorded so far, milli-MW.
    pub peak_power_milli_mw: i64,
    /// Milli-MW; constant in this design.
    pub average_power_milli_mw: i64,
    /// The last `EFFICIENCY_TREND_CAP` recorded `turbine_efficiency`
    /// values, oldest first.
    pub efficiency_trend: Vec<i64>,
    /// Milli-percent; constant in this design.
    pub uptime_milli_percent: u64,
    /// Alerts ever added; pruning the log does not lower it.
    pub total_alerts: u32,
}

/// The monitoring system: all series, the alert log and the metrics.
pub struct MonitoringSystem {
    series: Vec<ParameterSeries>,
    alerts: Vec<Alert>,
    performance_metrics: PerformanceMetrics,
}

/// The readings of the first series in `s` named `name`, if any.
pub open spec fn find_series(s: Seq<ParameterSeries>, name: Seq<char>) -> Option<Seq<Reading>>
    decreases s.len(),
{
    if s.len() == 0 {
        None
    } else if s[0].name@ == name {
        Some(s[0].readings@)
    } else {
        find_series(s.drop_first(), name)
    }
}

/// Sum of the recorded values of a series, in milli-units.
pub open spec fn sum_values_milli(s: Seq<Reading>) -> int
    decreases s.len(),
{
    if s.len() == 0 {
        0
    } else {
        sum_values_milli(s.drop_last()) + s.last().value_milli
    }
}

/// Arithmetic mean of the recorded values, rounded towards minus infinity.
pub open spec fn average_value_milli(s: Seq<Reading>) -> int {
    sum_values_milli(s) / s.len() as int
}

/// The efficiency-trend history after one more value: appended, with the
/// oldest entry evicted once the cap is reached.
pub open spec fn pushed_trend(t: Seq<i64>, v: i64) -> Seq<i64> {
    if t.len() < EFFICIENCY_TREND_CAP {
        t.push(v)
    } else {
        t.push(v).drop_first()
    }
}

/// The trend history never outgrows its cap, and a push at the cap evicts
/// exactly the oldest entry while the new value joins at the end.
pub proof fn lemma_trend_capped(t: Seq<i64>, v: i64)
    requires
        t.len() <= EFFICIENCY_TREND_CAP,
    ensures
        pushed_trend(t, v).len() <= EFFICIENCY_TREND_CAP,
        pushed_trend(t, v).last() == v,
        t.len() == EFFICIENCY_TREND_CAP ==> pushed_trend(t, v) == t.drop_first().push(v),
        t.len() < EFFICIENCY_TREND_CAP ==> pushed_trend(t, v) == t.push(v),
{
    if t.len() == EFFICIENCY_TREND_CAP {
        assert(pushed_trend(t, v) =~= t.drop_first().push(v));
    }
}

/// The alerts of `s` whose severity is exactly `sev`, in order.
pub open spec fn alerts_with_severity(s: Seq<Alert>, sev: AlertSeverity) -> Seq<Alert>
    decreases s.len(),
{
    if s.len() == 0 {
        Seq::empty()
    } else {
        alerts_with_severity(s.drop_last(), sev) + if s.last().severity == sev {
            seq![s.last()]
        } else {
            Seq::empty()
        }
    }
}

/// The alerts of `s` with `timestamp + window >= anchor`, in order: those
/// within `window` hours before the anchor time.
pub open spec fn alerts_in_window(s: Seq<Alert>, window_hours: int, anchor_hours: int) -> Seq<Alert>
    decreases s.len(),
{
    if s.len() == 0 {
        Seq::empty()
    } else {
        alerts_in_window(s.drop_last(), window_hours, anchor_hours) + if s.last().timestamp_hours
            + window_hours >= anchor_hours {
            seq![s.last()]
        } else {
            Seq::empty()
        }
    }
}

/// The readings of `s` with `timestamp + window >= anchor`, in order.
pub open spec fn readings_in_window(s: Seq<Reading>, window_hours: int, anchor_hours: int) -> Seq<
    Reading,
>
    decreases s.len(),
{
    if s.len() == 0 {
        Seq::empty()
    } else {
        readings_in_window(s.drop_last(), window_hours, anchor_hours) + if s.last().timestamp_hours
            + window_hours >= anchor_hours {
            seq![s.last()]
        } else {
            Seq::empty()
        }
    }
}

/// Relates a sequence of series to its pruned form: same names in the same
/// order, each series restricted to the readings within `window` hours
/// before `anchor`.
pub open spec fn series_pruned(
    pre: Seq<ParameterSeries>,
    post: Seq<ParameterSeries>,
    window: int,
    anchor: int,
) -> bool {
    &&& post.len() == pre.len()
    &&& forall|i: int|
        0 <= i < pre.len() ==> #[trigger] post[i].name@ == pre[i].name@ && post[i].readings@
            == readings_in_window(pre[i].readings@, window, anchor)
}

/// The unit of a parameter, from the fixed name-to-unit table; names the
/// table does not know get an empty unit.
pub open spec fn unit_chars(name: Seq<char>) -> Seq<char> {
    if name == "turbine_power_mw"@ || name == "generator_power_mw"@ {
        "MW"@
    } else if name == "reservoir_level_percent"@ {
        "%"@
    } else if name == "water_flow_m3s"@ {
        "m³/s"@
    } else if name == "head_height_m"@ {
        "m"@
    } else {
        ""@
    }
}

/// True exactly when the characters of `a` and `b` agree.
pub fn str_eq(a: &str, b: &str) -> (r: bool)
    ensures
        r == (a@ == b@),
{
    let la: usize = a.unicode_len();
    let lb: usize = b.unicode_len();
    if la != lb {
        return false;
    }
    let mut i: usize = 0;
    while i < la
        invariant
            la == a@.len(),
            la == b@.len(),
            0 <= i <= la,
            forall|k: int| 0 <= k < i ==> a@[k] == b@[k],
        decreases la - i,
    {
        if a.get_char(i) != b.get_char(i) {
            return false;
        }
        i = i + 1;
    }
    proof {
        assert(a@ =~= b@);
    }
    true
}

impl Clone for ParameterSeries {
    fn clone(&self) -> (r: Self)
        ensures
            r.name@ == self.name@,
            r.readings@ == self.readings@,
    {
        let mut readings: Vec<Reading> = Vec::new();
        let mut i: usize = 0;
        while i < self.readings.len()
            invariant
                0 <= i <= self.readings.len(),
                readings@ =~= self.readings@.take(i as int),
            decreases self.readings.len() - i,
        {
            readings.push(self.readings[i].clone());
            i = i + 1;
        }
        proof {
            assert(readings@ =~= self.readings@);
        }
        ParameterSeries { name: self.name.clone(), readings }
    }
}

proof fn lemma_find_series_at(s: Seq<ParameterSeries>, i: int, name: Seq<char>)
    requires
        0 <= i < s.len(),
        s[i].name@ == name,
        forall|k: int| 0 <= k < i ==> s[k].name@ != name,
    ensures
        find_series(s, name) == Some(s[i].readings@),
    decreases i,
{
    if i > 0 {
        lemma_find_series_at(s.drop_first(), i - 1, name);
    }
}

proof fn lemma_find_series_none(s: Seq<ParameterSeries>, name: Seq<char>)
    requires
        forall|k: int| 0 <= k < s.len() ==> s[k].name@ != name,
    ensures
        find_series(s, name) is None,
    decreases s.len(),
{
    if s.len() > 0 {
        lemma_find_series_none(s.drop_first(), name);
    }
}

proof fn lemma_find_series_update(s: Seq<ParameterSeries>, i: int, ps: ParameterSeries)
    requires
        0 <= i < s.len(),
        ps.name@ == s[i].name@,
        forall|k: int| 0 <= k < i ==> s[k].name@ != s[i].name@,
    ensures
        find_series(s.update(i, ps), s[i].name@) == Some(ps.readings@),
        forall|n: Seq<char>|
            n != s[i].name@ ==> find_series(s.update(i, ps), n) == find_series(s, n),
    decreases i,
{
    let su = s.update(i, ps);
    if i == 0 {
        assert(su[0] == ps);
        assert(su.drop_first() =~= s.drop_first());
    } else {
        assert(su[0] == s[0]);
        assert(su.drop_first() =~= s.drop_first().update(i - 1, ps));
        lemma_find_series_update(s.drop_first(), i - 1, ps);
        assert(s.drop_first()[i - 1] == s[i]);
        assert(find_series(su, s[i].name@) == find_series(
            s.drop_first().update(i - 1, ps),
            s[i].name@,
        ));
        assert forall|n: Seq<char>| n != s[i].name@ implies find_series(su, n) == find_series(
            s,
            n,
        ) by {
            if s[0].name@ != n {
                assert(find_series(su, n) == find_series(s.drop_first().update(i - 1, ps), n));
                assert(find_series(s.drop_first().update(i - 1, ps), n) == find_series(
                    s.drop_first(),
                    n,
                ));
            }
        }
    }
}

proof fn lemma_find_series_push(s: Seq<ParameterSeries>, ps: ParameterSeries, n: Seq<char>)
    ensures
        find_series(s.push(ps), n) == (if find_series(s, n) is Some {
            find_series(s, n)
        } else if ps.name@ == n {
            Some(ps.readings@)
        } else {
            None
        }),
    decreases s.len(),
{
    if s.len() == 0 {
        assert(s.push(ps)[0] == ps);
        assert(s.push(ps).drop_first() =~= Seq::<ParameterSeries>::empty());
    } else {
        assert(s.push(ps)[0] == s[0]);
        assert(s.push(ps).drop_first() =~= s.drop_first().push(ps));
        lemma_find_series_push(s.drop_first(), ps, n);
    }
}

/// The quotient of `a` by the positive `d`, rounded towards minus infinity.
fn floor_div_i128(a: i128, d: i128) -> (q: i128)
    requires
        d > 0,
        a > i128::MIN,
    ensures
        q == a as int / d as int,
{
    if a >= 0 {
        let q0: i128 = (a as u128 / d as u128) as i128;
        proof {
            lemma_div_nonincreasing(a as int, d as int);
            lemma_div_pos_is_pos(a as int, d as int);
        }
        q0
    } else {
        let m: u128 = (-a) as u128;
        let q0: u128 = m / (d as u128);
        let r0: u128 = m % (d as u128);
        proof {
            lemma_fundamental_div_mod(m as int, d as int);
            if r0 == 0 {
                assert(a as int == (-(q0 as int)) * (d as int) + 0) by (nonlinear_arith)
                    requires
                        m as int == (d as int) * (q0 as int) + (r0 as int),
                        r0 == 0,
                        a as int == -(m as int),
                ;
                lemma_fundamental_div_mod_converse_div(
                    a as int,
                    d as int,
                    -(q0 as int),
                    0,
                );
            } else {
                assert(a as int == (-(q0 as int) - 1) * (d as int) + ((d as int) - (r0 as int)))
                    by (nonlinear_arith)
                    requires
                        m as int == (d as int) * (q0 as int) + (r0 as int),
                        a as int == -(m as int),
                ;
                lemma_fundamental_div_mod_converse_div(
                    a as int,
                    d as int,
                    -(q0 as int) - 1,
                    (d as int) - (r0 as int),
                );
            }
        }
        if r0 == 0 {
            -(q0 as i128)
        } else {
            -(q0 as i128) - 1
        }
    }
}

impl MonitoringSystem {
    /// Well-formedness: series names are distinct, and the trend history
    /// respects its cap.
    pub closed spec fn wf(self) -> bool {
        &&& forall|i: int, j: int|
            0 <= i < j < self.series@.len() ==> self.series@[i].name@ != self.series@[j].name@
        &&& self.performance_metrics.efficiency_trend@.len() <= EFFICIENCY_TREND_CAP
    }

    /// All retained series, in the order their names were first recorded.
    pub closed spec fn series_view(self) -> Seq<ParameterSeries> {
        self.series@
    }

    /// The alert log, oldest first.
    pub closed spec fn alerts_view(self) -> Seq<Alert> {
        self.alerts@
    }

    /// The current performance metrics.
    pub closed spec fn metrics_view(self) -> PerformanceMetrics {
        self.performance_metrics
    }

    /// The retained readings of `name`, oldest first, if the parameter was
    /// ever recorded.
    pub open spec fn readings_for(self, name: Seq<char>) -> Option<Seq<Reading>> {
        find_series(self.series_view(), name)
    }

    /// An empty monitoring system: no series, no alerts, zeroed metrics at
    /// full uptime.
    pub fn new() -> (m: MonitoringSystem)
        ensures
            m.wf(),
            m.series_view() == Seq::<ParameterSeries>::empty(),
            m.alerts_view() == Seq::<Alert>::empty(),
            m.metrics_view().total_energy_milli_mwh == 0,
            m.metrics_view().peak_power_milli_mw == 0,
            m.metrics_view().average_power_milli_mw == 0,
            m.metrics_view().efficiency_trend@ == Seq::<i64>::empty(),
            m.metrics_view().uptime_milli_percent == 100_000,
            m.metrics_view().total_alerts == 0,
    {
        MonitoringSystem {
            series: Vec::new(),
            alerts: Vec::new(),
            performance_metrics: PerformanceMetrics {
                total_energy_milli_mwh: 0,
                peak_power_milli_mw: 0,
                average_power_milli_mw: 0,
                efficiency_trend: Vec::new(),
                uptime_milli_percent: 100_000,
                total_alerts: 0,
            },
        }
    }

    /// The unit the fixed table assigns to `parameter`; empty for names the
    /// table does not know.
    fn get_unit_for_parameter(&self, parameter: &str) -> (u: String)
        ensures
            u@ == unit_chars(parameter@),
    {
        proof {
            reveal_strlit("");
            assert(""@ =~= Seq::<char>::empty());
        }
        if str_eq(parameter, "turbine_power_mw") || str_eq(parameter, "generator_power_mw") {
            String::from_str("MW")
        } else if str_eq(parameter, "reservoir_level_percent") {
            String::from_str("%")
        } else if str_eq(parameter, "water_flow_m3s") {
            String::from_str("m³/s")
        } else if str_eq(parameter, "head_height_m") {
            String::from_str("m")
        } else {
            String::new()
        }
    }

    /// Folds one value into the metrics: a new `generator_power_mw` value
    /// raises the running peak if it exceeds it; a `turbine_efficiency`
    /// value joins the capped trend history; other parameters change
    /// nothing.
    fn update_performance_metrics(&mut self, parameter: &str, value_milli: i64)
        requires
            old(self).wf(),
        ensures
            final(self).wf(),
            final(self).series_view() == old(self).series_view(),
            final(self).alerts_view() == old(self).alerts_view(),
            final(self).metrics_view().total_energy_milli_mwh == old(self).metrics_view().total_energy_milli_mwh,
            final(self).metrics_view().average_power_milli_mw == old(self).metrics_view().average_power_milli_mw,
            final(self).metrics_view().uptime_milli_percent == old(self).metrics_view().uptime_milli_percent,
            final(self).metrics_view().total_alerts == old(self).metrics_view().total_alerts,
            final(self).metrics_view().peak_power_milli_mw == (if parameter@
                == "generator_power_mw"@ && value_milli > old(self).metrics_view().peak_power_milli_mw {
                value_milli
            } else {
                old(self).metrics_view().peak_power_milli_mw
            }),
            final(self).metrics_view().efficiency_trend@ == (if parameter@
                == "turbine_efficiency"@ {
                pushed_trend(old(self).metrics_view().efficiency_trend@, value_milli)
            } else {
                old(self).metrics_view().efficiency_trend@
            }),
    {
        proof {
            reveal_strlit("generator_power_mw");
            reveal_strlit("turbine_efficiency");
            assert("generator_power_mw"@[0] == 'g');
            assert("turbine_efficiency"@[0] == 't');
            assert("generator_power_mw"@ != "turbine_efficiency"@);
        }
        if str_eq(parameter, "generator_power_mw") {
            if value_milli > self.performance_metrics.peak_power_milli_mw {
                self.performance_metrics.peak_power_milli_mw = value_milli;
            }
        } else if str_eq(parameter, "turbine_efficiency") {
            self.performance_metrics.efficiency_trend.push(value_milli);
            if self.performance_metrics.efficiency_trend.len() > EFFICIENCY_TREND_CAP {
                self.performance_metrics.efficiency_trend.remove(0);
                proof {
                    assert(self.performance_metrics.efficiency_trend@ =~= pushed_trend(
                        old(self).performance_metrics.efficiency_trend@,
                        value_milli,
                    ));
                }
            }
        }
    }

    /// Appends one observation of `parameter` to its series — creating the
    /// series on first sight, with the unit the fixed table assigns — and
    /// folds the value into the metrics. No other series, nor the alert
    /// log, changes.
    pub fn record_reading(&mut self, timestamp_hours: u64, parameter: &str, value_milli: i64)
        requires
            old(self).wf(),
        ensures
            final(self).wf(),
            final(self).alerts_view() == old(self).alerts_view(),
            final(self).readings_for(parameter@) is Some,
            ({
                let rs = final(self).readings_for(parameter@)->Some_0;
                let prev = if old(self).readings_for(parameter@) is Some {
                    old(self).readings_for(parameter@)->Some_0
                } else {
                    Seq::<Reading>::empty()
                };
                &&& rs.len() == prev.len() + 1
                &&& rs.take(prev.len() as int) == prev
                &&& rs.last().timestamp_hours == timestamp_hours
                &&& rs.last().value_milli == value_milli
                &&& rs.last().unit@ == unit_chars(parameter@)
            }),
            forall|n: Seq<char>|
                n != parameter@ ==> final(self).readings_for(n) == old(self).readings_for(n),
            final(self).metrics_view().total_energy_milli_mwh == old(self).metrics_view().total_energy_milli_mwh,
            final(self).metrics_view().average_power_milli_mw == old(self).metrics_view().average_power_milli_mw,
            final(self).metrics_view().uptime_milli_percent == old(self).metrics_view().uptime_milli_percent,
            final(self).metrics_view().total_alerts == old(self).metrics_view().total_alerts,
            final(self).metrics_view().peak_power_milli_mw == (if parameter@
                == "generator_power_mw"@ && value_milli > old(self).metrics_view().peak_power_milli_mw {
                value_milli
            } else {
                old(self).metrics_view().peak_power_milli_mw
            }),
            final(self).metrics_view().efficiency_trend@ == (if parameter@
                == "turbine_efficiency"@ {
                pushed_trend(old(self).metrics_view().efficiency_trend@, value_milli)
            } else {
                old(self).metrics_view().efficiency_trend@
            }),
    {
        let unit = self.get_unit_for_parameter(parameter);
        let reading = Reading { timestamp_hours, value_milli, unit };
        let ghost s0 = self.series@;
        let n = self.series.len();
        let mut i: usize = 0;
        let mut found: bool = false;
        while i < n && !found
            invariant
                n == s0.len(),
                self.series@ == s0,
                0 <= i <= n,
                !found ==> forall|k: int| 0 <= k < i ==> s0[k].name@ != parameter@,
                found ==> i < n && s0[i as int].name@ == parameter@ && forall|k: int|
                    0 <= k < i ==> s0[k].name@ != parameter@,
            decreases n - i + (if found { 0int } else { 1int }),
        {
            if str_eq(self.series[i].name.as_str(), parameter) {
                found = true;
            } else {
                i = i + 1;
            }
        }
        if found {
            proof {
                lemma_find_series_at(s0, i as int, parameter@);
            }
            let mut ps = self.series.remove(i);
            ps.readings.push(reading);
            self.series.insert(i, ps);
            proof {
                assert(self.series@ =~= s0.update(i as int, self.series@[i as int]));
                lemma_find_series_update(s0, i as int, self.series@[i as int]);
                assert forall|n: Seq<char>| n != parameter@ implies find_series(self.series@, n)
                    == find_series(s0, n) by {
                    assert(find_series(s0.update(i as int, self.series@[i as int]), n)
                        == find_series(s0, n));
                }
            }
        } else {
            proof {
                lemma_find_series_none(s0, parameter@);
            }
            let name = String::from_str(parameter);
            let mut readings: Vec<Reading> = Vec::new();
            readings.push(reading);
            self.series.push(ParameterSeries { name, readings });
            proof {
                assert(self.series@.last().readings@ =~= seq![reading]);
                assert forall|n: Seq<char>| find_series(self.series@, n) == (if find_series(
                    s0,
                    n,
                ) is Some {
                    find_series(s0, n)
                } else if parameter@ == n {
                    Some(self.series@.last().readings@)
                } else {
                    None
                }) by {
                    assert(self.series@ =~= s0.push(self.series@.last()));
                    lemma_find_series_push(s0, self.series@.last(), n);
                }
            }
        }
        proof {
            let rs = find_series(self.series@, parameter@)->Some_0;
            let prev = if find_series(s0, parameter@) is Some {
                find_series(s0, parameter@)->Some_0
            } else {
                Seq::<Reading>::empty()
            };
            assert(rs.take(prev.len() as int) =~= prev);
        }
        self.update_performance_metrics(parameter, value_milli);
    }

    /// Records one snapshot: appends one reading per `(name, value)` entry,
    /// all at `timestamp_hours`, and folds each value into the metrics.
    /// The entries must carry distinct names, as a snapshot of distinct
    /// parameters does.
    pub fn record_readings(&mut self, timestamp_hours: u64, entries: &Vec<(String, i64)>)
        requires
            old(self).wf(),
            forall|a: int, b: int|
                0 <= a < b < entries@.len() ==> entries@[a].0@ != entries@[b].0@,
        ensures
            final(self).wf(),
            final(self).alerts_view() == old(self).alerts_view(),
            forall|n: Seq<char>|
                (forall|k: int| 0 <= k < entries@.len() ==> entries@[k].0@ != n) ==> final(self).readings_for(n) == old(self).readings_for(n),
            forall|k: int|
                0 <= k < entries@.len() ==> {
                    let rs = final(self).readings_for(#[trigger] entries@[k].0@)->Some_0;
                    let prev = if old(self).readings_for(entries@[k].0@) is Some {
                        old(self).readings_for(entries@[k].0@)->Some_0
                    } else {
                        Seq::<Reading>::empty()
                    };
                    &&& final(self).readings_for(entries@[k].0@) is Some
                    &&& rs.len() == prev.len() + 1
                    &&& rs.take(prev.len() as int) == prev
                    &&& rs.last().timestamp_hours == timestamp_hours
                    &&& rs.last().value_milli == entries@[k].1
                    &&& rs.last().unit@ == unit_chars(entries@[k].0@)
                },
            final(self).metrics_view().total_energy_milli_mwh == old(self).metrics_view().total_energy_milli_mwh,
            final(self).metrics_view().average_power_milli_mw == old(self).metrics_view().average_power_milli_mw,
            final(self).metrics_view().uptime_milli_percent == old(self).metrics_view().uptime_milli_percent,
            final(self).metrics_view().total_alerts == old(self).metrics_view().total_alerts,
            (forall|k: int| 0 <= k < entries@.len() ==> entries@[k].0@ != "generator_power_mw"@)
                ==> final(self).metrics_view().peak_power_milli_mw == old(self).metrics_view().peak_power_milli_mw,
            forall|k: int|
                0 <= k < entries@.len() && #[trigger] entries@[k].0@ == "generator_power_mw"@
                    ==> final(self).metrics_view().peak_power_milli_mw == (if entries@[k].1 > old(self).metrics_view().peak_power_milli_mw {
                    entries@[k].1
                } else {
                    old(self).metrics_view().peak_power_milli_mw
                }),
            (forall|k: int| 0 <= k < entries@.len() ==> entries@[k].0@ != "turbine_efficiency"@)
                ==> final(self).metrics_view().efficiency_trend@ == old(self).metrics_view().efficiency_trend@,
            forall|k: int|
                0 <= k < entries@.len() && #[trigger] entries@[k].0@ == "turbine_efficiency"@
                    ==> final(self).metrics_view().efficiency_trend@ == pushed_trend(
                    old(self).metrics_view().efficiency_trend@,
                    entries@[k].1,
                ),
    {
        let ghost orig = *self;
        let mut idx: usize = 0;
        while idx < entries.len()
            invariant
                orig.wf(),
                self.wf(),
                forall|a: int, b: int|
                    0 <= a < b < entries@.len() ==> entries@[a].0@ != entries@[b].0@,
                0 <= idx <= entries@.len(),
                self.alerts_view() == orig.alerts_view(),
                forall|n: Seq<char>|
                    (forall|k: int| 0 <= k < idx ==> entries@[k].0@ != n) ==> self.readings_for(n)
                        == orig.readings_for(n),
                forall|k: int|
                    0 <= k < idx ==> {
                        let rs = self.readings_for(#[trigger] entries@[k].0@)->Some_0;
                        let prev = if orig.readings_for(entries@[k].0@) is Some {
                            orig.readings_for(entries@[k].0@)->Some_0
                        } else {
                            Seq::<Reading>::empty()
                        };
                        &&& self.readings_for(entries@[k].0@) is Some
                        &&& rs.len() == prev.len() + 1
                        &&& rs.take(prev.len() as int) == prev
                        &&& rs.last().timestamp_hours == timestamp_hours
                        &&& rs.last().value_milli == entries@[k].1
                        &&& rs.last().unit@ == unit_chars(entries@[k].0@)
                    },
                self.metrics_view().total_energy_milli_mwh
                    == orig.metrics_view().total_energy_milli_mwh,
                self.metrics_view().average_power_milli_mw
                    == orig.metrics_view().average_power_milli_mw,
                self.metrics_view().uptime_milli_percent
                    == orig.metrics_view().uptime_milli_percent,
                self.metrics_view().total_alerts == orig.metrics_view().total_alerts,
                (forall|k: int| 0 <= k < idx ==> entries@[k].0@ != "generator_power_mw"@)
                    ==> self.metrics_view().peak_power_milli_mw
                    == orig.metrics_view().peak_power_milli_mw,
                forall|k: int|
                    0 <= k < idx && #[trigger] entries@[k].0@ == "generator_power_mw"@
                        ==> self.metrics_view().peak_power_milli_mw == (if entries@[k].1
                        > orig.metrics_view().peak_power_milli_mw {
                        entries@[k].1
                    } else {
                        orig.metrics_view().peak_power_milli_mw
                    }),
                (forall|k: int| 0 <= k < idx ==> entries@[k].0@ != "turbine_efficiency"@)
                    ==> self.metrics_view().efficiency_trend@
                    == orig.metrics_view().efficiency_trend@,
                forall|k: int|
                    0 <= k < idx && #[trigger] entries@[k].0@ == "turbine_efficiency"@
                        ==> self.metrics_view().efficiency_trend@ == pushed_trend(
                        orig.metrics_view().efficiency_trend@,
                        entries@[k].1,
                    ),
            decreases entries@.len() - idx,
        {
            let (name, value) = &entries[idx];
            self.record_reading(timestamp_hours, name.as_str(), *value);
            idx = idx + 1;
        }
    }

    /// Appends one alert to the log and counts it. The log and the counter
    /// only ever grow here.
    pub fn add_alert(
        &mut self,
        timestamp_hours: u64,
        severity: AlertSeverity,
        message: String,
        parameter: String,
        value_milli: i64,
    )
        requires
            old(self).wf(),
            old(self).metrics_view().total_alerts < u32::MAX,
        ensures
            final(self).wf(),
            final(self).series_view() == old(self).series_view(),
            final(self).alerts_view().len() == old(self).alerts_view().len() + 1,
            final(self).alerts_view().take(old(self).alerts_view().len() as int) == old(self).alerts_view(),
            ({
                let a = final(self).alerts_view().last();
                &&& a.timestamp_hours == timestamp_hours
                &&& a.severity == severity
                &&& a.message@ == message@
                &&& a.parameter@ == parameter@
                &&& a.value_milli == value_milli
            }),
            final(self).metrics_view() == (PerformanceMetrics {
                total_alerts: (old(self).metrics_view().total_alerts + 1) as u32,
                ..old(self).metrics_view()
            }),
    {
        let alert = Alert { timestamp_hours, severity, message, parameter, value_milli };
        self.alerts.push(alert);
        self.performance_metrics.total_alerts = self.performance_metrics.total_alerts + 1;
        proof {
            assert(self.alerts@.take(old(self).alerts@.len() as int) =~= old(self).alerts@);
        }
    }

    /// The most recent reading of `parameter`, if any was recorded and
    /// retained.
    pub fn get_latest_reading(&self, parameter: &str) -> (r: Option<Reading>)
        requires
            self.wf(),
        ensures
            r is Some <==> (self.readings_for(parameter@) is Some && self.readings_for(
                parameter@,
            )->Some_0.len() > 0),
            r matches Some(rd) ==> rd == self.readings_for(parameter@)->Some_0.last(),
    {
        match self.find_series_index(parameter) {
            Some(i) => {
                let rs = &self.series[i].readings;
                if rs.len() > 0 {
                    Some(rs[rs.len() - 1].clone())
                } else {
                    None
                }
            },
            None => None,
        }
    }

    /// A copy of the full retained series of `parameter`, if the parameter
    /// was ever recorded.
    pub fn get_readings_for_parameter(&self, parameter: &str) -> (r: Option<Vec<Reading>>)
        requires
            self.wf(),
        ensures
            r is Some <==> self.readings_for(parameter@) is Some,
            r matches Some(v) ==> v@ == self.readings_for(parameter@)->Some_0,
    {
        match self.find_series_index(parameter) {
            Some(i) => {
                let rs = &self.series[i].readings;
                let mut out: Vec<Reading> = Vec::new();
                let mut k: usize = 0;
                while k < rs.len()
                    invariant
                        0 <= k <= rs@.len(),
                        out@ =~= rs@.take(k as int),
                    decreases rs@.len() - k,
                {
                    out.push(rs[k].clone());
                    k = k + 1;
                }
                proof {
                    assert(out@ =~= rs@);
                }
                Some(out)
            },
            None => None,
        }
    }

    /// The index of the series named `parameter`, if one exists; a helper
    /// that ties the linear scan to `readings_for`.
    fn find_series_index(&self, parameter: &str) -> (r: Option<usize>)
        requires
            self.wf(),
        ensures
            r is Some <==> self.readings_for(parameter@) is Some,
            r matches Some(i) ==> i < self.series_view().len() && self.series_view()[i as int].name@
                == parameter@ && self.readings_for(parameter@) == Some(
                self.series_view()[i as int].readings@,
            ),
    {
        let n = self.series.len();
        let mut i: usize = 0;
        while i < n
            invariant
                n == self.series@.len(),
                0 <= i <= n,
                forall|k: int| 0 <= k < i ==> self.series@[k].name@ != parameter@,
            decreases n - i,
        {
            if str_eq(self.series[i].name.as_str(), parameter) {
                proof {
                    lemma_find_series_at(self.series@, i as int, parameter@);
                }
                return Some(i);
            }
            i = i + 1;
        }
        proof {
            lemma_find_series_none(self.series@, parameter@);
        }
        None
    }

    /// The arithmetic mean of the retained values of `parameter`, rounded
    /// towards minus infinity; nothing for a parameter never recorded or
    /// whose series was pruned empty.
    pub fn calculate_average(&self, parameter: &str) -> (r: Option<i64>)
        requires
            self.wf(),
        ensures
            r is Some <==> (self.readings_for(parameter@) is Some && self.readings_for(
                parameter@,
            )->Some_0.len() > 0),
            r matches Some(v) ==> v == average_value_milli(self.readings_for(parameter@)->Some_0),
    {
        let idx = match self.find_series_index(parameter) {
            Some(i) => i,
            None => {
                return None;
            },
        };
        let rs = &self.series[idx].readings;
        let n = rs.len();
        if n == 0 {
            return None;
        }
        let mut sum: i128 = 0;
        let mut k: usize = 0;
        while k < n
            invariant
                n == rs@.len(),
                0 <= k <= n,
                sum == sum_values_milli(rs@.take(k as int)),
                (k as int) * (i64::MIN as int) <= sum <= (k as int) * (i64::MAX as int),
            decreases n - k,
        {
            proof {
                assert(rs@.take(k as int + 1).drop_last() =~= rs@.take(k as int));
                assert(((k + 1) as int) * (i64::MIN as int) == (k as int) * (i64::MIN as int) + (
                i64::MIN as int)) by (nonlinear_arith);
                assert(((k + 1) as int) * (i64::MAX as int) == (k as int) * (i64::MAX as int) + (
                i64::MAX as int)) by (nonlinear_arith);
            }
            sum = sum + rs[k].value_milli as i128;
            k = k + 1;
        }
        proof {
            assert(rs@.take(n as int) =~= rs@);
        }
        let q = floor_div_i128(sum, n as i128);
        proof {
            lemma_div_is_ordered((n as int) * (i64::MIN as int), sum as int, n as int);
            lemma_div_is_ordered(sum as int, (n as int) * (i64::MAX as int), n as int);
            lemma_div_multiples_vanish(i64::MIN as int, n as int);
            lemma_div_multiples_vanish(i64::MAX as int, n as int);
            assert((n as int) * (i64::MIN as int) == (i64::MIN as int) * (n as int))
                by (nonlinear_arith);
            assert((n as int) * (i64::MAX as int) == (i64::MAX as int) * (n as int))
                by (nonlinear_arith);
        }
        Some(q as i64)
    }

    /// The two-point slope of `parameter` as the exact rational
    /// `delta_value / delta_hours`: nothing when fewer than two readings
    /// are retained or the last timestamp does not lie after the first.
    pub fn calculate_trend(&self, parameter: &str) -> (r: Option<Trend>)
        requires
            self.wf(),
        ensures
            r is Some <==> (self.readings_for(parameter@) is Some && self.readings_for(
                parameter@,
            )->Some_0.len() >= 2 && self.readings_for(parameter@)->Some_0.last().timestamp_hours
                > self.readings_for(parameter@)->Some_0.first().timestamp_hours),
            r matches Some(t) ==> {
                let rs = self.readings_for(parameter@)->Some_0;
                &&& t.delta_value_milli == rs.last().value_milli - rs.first().value_milli
                &&& t.delta_hours == rs.last().timestamp_hours - rs.first().timestamp_hours
            },
    {
        let idx = match self.find_series_index(parameter) {
            Some(i) => i,
            None => {
                return None;
            },
        };
        let rs = &self.series[idx].readings;
        let n = rs.len();
        if n < 2 {
            return None;
        }
        let first = &rs[0];
        let last = &rs[n - 1];
        if last.timestamp_hours > first.timestamp_hours {
            Some(
                Trend {
                    delta_value_milli: last.value_milli as i128 - first.value_milli as i128,
                    delta_hours: last.timestamp_hours - first.timestamp_hours,
                },
            )
        } else {
            None
        }
    }

    /// All alerts of exactly `severity`, oldest first.
    pub fn get_alerts_by_severity(&self, severity: AlertSeverity) -> (r: Vec<Alert>)
        ensures
            r@ == alerts_with_severity(self.alerts_view(), severity),
    {
        let mut out: Vec<Alert> = Vec::new();
        let mut i: usize = 0;
        while i < self.alerts.len()
            invariant
                0 <= i <= self.alerts@.len(),
                out@ =~= alerts_with_severity(self.alerts@.take(i as int), severity),
            decreases self.alerts@.len() - i,
        {
            proof {
                assert(self.alerts@.take(i as int + 1).drop_last() =~= self.alerts@.take(i as int));
            }
            if self.alerts[i].severity == severity {
                out.push(self.alerts[i].clone());
            }
            i = i + 1;
        }
        proof {
            assert(self.alerts@.take(self.alerts@.len() as int) =~= self.alerts@);
        }
        out
    }

    /// The alerts within `hours` before the most recent alert's timestamp
    /// — the window is anchored to the latest alert, not to the current
    /// simulated time. Empty when no alert was ever raised.
    pub fn get_recent_alerts(&self, hours: u64) -> (r: Vec<Alert>)
        ensures
            self.alerts_view().len() == 0 ==> r@ == Seq::<Alert>::empty(),
            self.alerts_view().len() > 0 ==> r@ == alerts_in_window(
                self.alerts_view(),
                hours as int,
                self.alerts_view().last().timestamp_hours as int,
            ),
    {
        let n = self.alerts.len();
        if n == 0 {
            return Vec::new();
        }
        let anchor: u64 = self.alerts[n - 1].timestamp_hours;
        let mut out: Vec<Alert> = Vec::new();
        let mut i: usize = 0;
        while i < n
            invariant
                n == self.alerts@.len(),
                0 < n,
                anchor == self.alerts@.last().timestamp_hours,
                0 <= i <= n,
                out@ =~= alerts_in_window(self.alerts@.take(i as int), hours as int, anchor as int),
            decreases n - i,
        {
            proof {
                assert(self.alerts@.take(i as int + 1).drop_last() =~= self.alerts@.take(i as int));
            }
            if self.alerts[i].timestamp_hours as u128 + hours as u128 >= anchor as u128 {
                out.push(self.alerts[i].clone());
            }
            i = i + 1;
        }
        proof {
            assert(self.alerts@.take(n as int) =~= self.alerts@);
        }
        out
    }

    /// A copy of every retained series.
    pub fn export_data(&self) -> (r: Vec<ParameterSeries>)
        ensures
            r@.len() == self.series_view().len(),
            forall|i: int|
                0 <= i < r@.len() ==> #[trigger] r@[i].name@ == self.series_view()[i].name@
                    && r@[i].readings@ == self.series_view()[i].readings@,
    {
        let mut out: Vec<ParameterSeries> = Vec::new();
        let mut i: usize = 0;
        while i < self.series.len()
            invariant
                0 <= i <= self.series@.len(),
                out@.len() == i,
                forall|k: int|
                    0 <= k < i ==> #[trigger] out@[k].name@ == self.series@[k].name@
                        && out@[k].readings@ == self.series@[k].readings@,
            decreases self.series@.len() - i,
        {
            out.push(self.series[i].clone());
            i = i + 1;
        }
        out
    }

    /// A copy of the current performance metrics.
    pub fn get_performance_metrics(&self) -> (m: PerformanceMetrics)
        ensures
            m.total_energy_milli_mwh == self.metrics_view().total_energy_milli_mwh,
            m.peak_power_milli_mw == self.metrics_view().peak_power_milli_mw,
            m.average_power_milli_mw == self.metrics_view().average_power_milli_mw,
            m.efficiency_trend@ == self.metrics_view().efficiency_trend@,
            m.uptime_milli_percent == self.metrics_view().uptime_milli_percent,
            m.total_alerts == self.metrics_view().total_alerts,
    {
        let mut trend: Vec<i64> = Vec::new();
        let mut i: usize = 0;
        while i < self.performance_metrics.efficiency_trend.len()
            invariant
                0 <= i <= self.performance_metrics.efficiency_trend@.len(),
                trend@ =~= self.performance_metrics.efficiency_trend@.take(i as int),
            decreases self.performance_metrics.efficiency_trend@.len() - i,
        {
            trend.push(self.performance_metrics.efficiency_trend[i]);
            i = i + 1;
        }
        proof {
            assert(trend@ =~= self.performance_metrics.efficiency_trend@);
        }
        PerformanceMetrics {
            total_energy_milli_mwh: self.performance_metrics.total_energy_milli_mwh,
            peak_power_milli_mw: self.performance_metrics.peak_power_milli_mw,
            average_power_milli_mw: self.performance_metrics.average_power_milli_mw,
            efficiency_trend: trend,
            uptime_milli_percent: self.performance_metrics.uptime_milli_percent,
            total_alerts: self.performance_metrics.total_alerts,
        }
    }

    /// Prunes readings and alerts older than `hours_to_keep` before the
    /// most recent alert's timestamp — anchored, like the recency window,
    /// to the latest alert. Does nothing while no alert exists. Series
    /// names, their order and the metrics stay as they were.
    #[verifier::rlimit(100)]
    #[verifier::spinoff_prover]
    pub fn clear_old_data(&mut self, hours_to_keep: u64)
        requires
            old(self).wf(),
        ensures
            final(self).wf(),
            final(self).metrics_view() == old(self).metrics_view(),
            old(self).alerts_view().len() == 0 ==> final(self).series_view() == old(self).series_view() && final(self).alerts_view() == old(self).alerts_view(),
            old(self).alerts_view().len() > 0 ==> {
                let anchor = old(self).alerts_view().last().timestamp_hours as int;
                &&& final(self).alerts_view() == alerts_in_window(
                    old(self).alerts_view(),
                    hours_to_keep as int,
                    anchor,
                )
                &&& series_pruned(
                    old(self).series_view(),
                    final(self).series_view(),
                    hours_to_keep as int,
                    anchor,
                )
            },
    {
        let n_alerts = self.alerts.len();
        if n_alerts == 0 {
            return ;
        }
        let anchor: u64 = self.alerts[n_alerts - 1].timestamp_hours;
        let ghost s0 = self.series@;
        let mut new_series: Vec<ParameterSeries> = Vec::new();
        let mut i: usize = 0;
        while i < self.series.len()
            invariant
                self.series@ == s0,
                0 <= i <= s0.len(),
                new_series@.len() == i,
                forall|k: int|
                    0 <= k < i ==> #[trigger] new_series@[k].name@ == s0[k].name@
                        && new_series@[k].readings@ == readings_in_window(
                        s0[k].readings@,
                        hours_to_keep as int,
                        anchor as int,
                    ),
            decreases s0.len() - i,
        {
            let rs = &self.series[i].readings;
            let mut kept: Vec<Reading> = Vec::new();
            let mut k: usize = 0;
            while k < rs.len()
                invariant
                    0 <= k <= rs@.len(),
                    kept@ =~= readings_in_window(
                        rs@.take(k as int),
                        hours_to_keep as int,
                        anchor as int,
                    ),
                decreases rs@.len() - k,
            {
                proof {
                    assert(rs@.take(k as int + 1).drop_last() =~= rs@.take(k as int));
                }
                if rs[k].timestamp_hours as u128 + hours_to_keep as u128 >= anchor as u128 {
                    kept.push(rs[k].clone());
                }
                k = k + 1;
            }
            proof {
                assert(rs@.take(rs@.len() as int) =~= rs@);
            }
            let name = self.series[i].name.clone();
            let ghost kv = kept@;
            new_series.push(ParameterSeries { name, readings: kept });
            proof {
                assert(new_series@.last().name@ == s0[i as int].name@);
                assert(new_series@.last().readings@ == kv);
                assert(kv == readings_in_window(
                    s0[i as int].readings@,
                    hours_to_keep as int,
                    anchor as int,
                ));
                assert forall|k: int|
                    0 <= k < i + 1 implies #[trigger] new_series@[k].name@ == s0[k].name@
                    && new_series@[k].readings@ == readings_in_window(
                    s0[k].readings@,
                    hours_to_keep as int,
                    anchor as int,
                ) by {
                    if k == i as int {
                        assert(new_series@[k] == new_series@.last());
                    }
                }
            }
            i = i + 1;
        }
        let ghost nsv = new_series@;
        self.series = new_series;
        proof {
            assert forall|j: int|
                0 <= j < s0.len() implies #[trigger] self.series@[j].name@ == s0[j].name@
                && self.series@[j].readings@ == readings_in_window(
                s0[j].readings@,
                hours_to_keep as int,
                anchor as int,
            ) by {
                assert(self.series@[j] == nsv[j]);
            }
        }
        let mut kept_alerts: Vec<Alert> = Vec::new();
        let mut k: usize = 0;
        while k < self.alerts.len()
            invariant
                self.alerts@ == old(self).alerts@,
                0 <= k <= self.alerts@.len(),
                kept_alerts@ =~= alerts_in_window(
                    self.alerts@.take(k as int),
                    hours_to_keep as int,
                    anchor as int,
                ),
            decreases self.alerts@.len() - k,
        {
            proof {
                assert(self.alerts@.take(k as int + 1).drop_last() =~= self.alerts@.take(
                    k as int,
                ));
            }
            if self.alerts[k].timestamp_hours as u128 + hours_to_keep as u128 >= anchor as u128 {
                kept_alerts.push(self.alerts[k].clone());
            }
            k = k + 1;
        }
        proof {
            assert(self.alerts@.take(self.alerts@.len() as int) =~= self.alerts@);
        }
        let ghost kav = kept_alerts@;
        self.alerts = kept_alerts;
        proof {
            assert(self.alerts@ == kav);
            assert(anchor as int == old(self).alerts@.last().timestamp_hours as int);
            assert(self.alerts@ == alerts_in_window(
                old(self).alerts@,
                hours_to_keep as int,
                anchor as int,
            ));
            assert(series_pruned(s0, self.series@, hours_to_keep as int, anchor as int));
        }
    }
}

impl Default for MonitoringSystem {
    /// Same as `MonitoringSystem::new`.
    fn default() -> (m: Self)
        ensures
            m.wf(),
            m.series_view() == Seq::<ParameterSeries>::empty(),
            m.alerts_view() == Seq::<Alert>::empty(),
            m.metrics_view().total_energy_milli_mwh == 0,
            m.metrics_view().peak_power_milli_mw == 0,
            m.metrics_view().average_power_milli_mw == 0,
            m.metrics_view().efficiency_trend@ == Seq::<i64>::empty(),
            m.metrics_view().uptime_milli_percent == 100_000,
            m.metrics_view().total_alerts == 0,
    {
        MonitoringSystem::new()
    }
}

/// The decimal digit character for `d` in `[0, 9]`.
pub open spec fn digit_char(d: int) -> char {
    if d == 0 {
        '0'
    } else if d == 1 {
        '1'
    } else if d == 2 {
        '2'
    } else if d == 3 {
        '3'
    } else if d == 4 {
        '4'
    } else if d == 5 {
        '5'
    } else if d == 6 {
        '6'
    } else if d == 7 {
        '7'
    } else if d == 8 {
        '8'
    } else {
        '9'
    }
}

/// The decimal digits of the non-negative `n`, most significant first.
pub open spec fn dec_chars(n: int) -> Seq<char>
    decreases n,
{
    if n < 10 {
        seq![digit_char(n)]
    } else {
        dec_chars(n / 10).push(digit_char(n % 10))
    }
}

/// A milli-scaled value rendered with one decimal place, rounded to the
/// nearest tenth with ties away from zero: `40_000` becomes `40.0`,
/// `37_560` becomes `37.6`, `-150` becomes `-0.2`.
pub open spec fn milli_1dp_chars(v: int) -> Seq<char> {
    let mag = if v < 0 {
        -v
    } else {
        v
    };
    let tenths = (mag + 50) / 100;
    let digits = dec_chars(tenths / 10) + seq!['.', digit_char(tenths % 10)];
    if v < 0 {
        seq!['-'] + digits
    } else {
        digits
    }
}

/// Appends the single digit `d`.
fn append_digit(s: &mut String, d: u128)
    requires
        d < 10,
    ensures
        final(s)@ == old(s)@ + seq![digit_char(d as int)],
{
    proof {
        reveal_strlit("0");
        reveal_strlit("1");
        reveal_strlit("2");
        reveal_strlit("3");
        reveal_strlit("4");
        reveal_strlit("5");
        reveal_strlit("6");
        reveal_strlit("7");
        reveal_strlit("8");
        reveal_strlit("9");
    }
    match d {
        0 => s.append("0"),
        1 => s.append("1"),
        2 => s.append("2"),
        3 => s.append("3"),
        4 => s.append("4"),
        5 => s.append("5"),
        6 => s.append("6"),
        7 => s.append("7"),
        8 => s.append("8"),
        _ => s.append("9"),
    }
    proof {
        assert(s@ =~= old(s)@ + seq![digit_char(d as int)]);
    }
}

/// Appends the decimal digits of `n`.
fn append_u128(s: &mut String, n: u128)
    ensures
        final(s)@ == old(s)@ + dec_chars(n as int),
    decreases n,
{
    if n < 10 {
        append_digit(s, n);
    } else {
        append_u128(s, n / 10);
        append_digit(s, n % 10);
        proof {
            assert(s@ =~= old(s)@ + dec_chars(n as int));
        }
    }
}

/// Appends a milli-scaled value with one decimal place, rounded to the
/// nearest tenth with ties away from zero.
fn append_milli_1dp(s: &mut String, v: i128)
    requires
        v > i128::MIN,
    ensures
        final(s)@ == old(s)@ + milli_1dp_chars(v as int),
{
    let mag: u128 = if v < 0 {
        (-v) as u128
    } else {
        v as u128
    };
    let tenths: u128 = (mag + 50) / 100;
    if v < 0 {
        proof {
            reveal_strlit("-");
        }
        s.append("-");
    }
    append_u128(s, tenths / 10);
    proof {
        reveal_strlit(".");
    }
    s.append(".");
    append_digit(s, tenths % 10);
    proof {
        assert(s@ =~= old(s)@ + milli_1dp_chars(v as int));
    }
}

/// `name` has at least one retained reading in `m`.
pub open spec fn has_values(m: MonitoringSystem, name: Seq<char>) -> bool {
    &&& m.readings_for(name) is Some
    &&& m.readings_for(name)->Some_0.len() > 0
}

/// The average-power report line, present while generator power was
/// recorded.
pub open spec fn power_line_chars(m: MonitoringSystem) -> Seq<char> {
    if has_values(m, "generator_power_mw"@) {
        "Average Power Output: "@ + milli_1dp_chars(
            average_value_milli(m.readings_for("generator_power_mw"@)->Some_0),
        ) + " MW\n"@
    } else {
        Seq::empty()
    }
}

/// The peak-power report line, present while generator power was
/// recorded.
pub open spec fn peak_line_chars(m: MonitoringSystem) -> Seq<char> {
    if has_values(m, "generator_power_mw"@) {
        "Peak Power Output: "@ + milli_1dp_chars(m.metrics_view().peak_power_milli_mw as int)
            + " MW\n"@
    } else {
        Seq::empty()
    }
}

/// The average-turbine-efficiency line, in percent.
pub open spec fn turbine_eff_line_chars(m: MonitoringSystem) -> Seq<char> {
    if has_values(m, "turbine_efficiency"@) {
        "Average Turbine Efficiency: "@ + milli_1dp_chars(
            100 * average_value_milli(m.readings_for("turbine_efficiency"@)->Some_0),
        ) + "%\n"@
    } else {
        Seq::empty()
    }
}

/// The average-generator-efficiency line, in percent.
pub open spec fn generator_eff_line_chars(m: MonitoringSystem) -> Seq<char> {
    if has_values(m, "generator_efficiency"@) {
        "Average Generator Efficiency: "@ + milli_1dp_chars(
            100 * average_value_milli(m.readings_for("generator_efficiency"@)->Some_0),
        ) + "%\n"@
    } else {
        Seq::empty()
    }
}

/// The average-reservoir-level line.
pub open spec fn reservoir_line_chars(m: MonitoringSystem) -> Seq<char> {
    if has_values(m, "reservoir_level_percent"@) {
        "Average Reservoir Level: "@ + milli_1dp_chars(
            average_value_milli(m.readings_for("reservoir_level_percent"@)->Some_0),
        ) + "%\n"@
    } else {
        Seq::empty()
    }
}

/// The average-water-flow line.
pub open spec fn flow_line_chars(m: MonitoringSystem) -> Seq<char> {
    if has_values(m, "water_flow_m3s"@) {
        "Average Water Flow: "@ + milli_1dp_chars(
            average_value_milli(m.readings_for("water_flow_m3s"@)->Some_0),
        ) + " m3/s\n"@
    } else {
        Seq::empty()
    }
}

/// The alert-count line; always present.
pub open spec fn alerts_line_chars(m: MonitoringSystem) -> Seq<char> {
    "Total Alerts: "@ + dec_chars(m.metrics_view().total_alerts as int) + "\n"@
}

/// The power-trend line, present while the generator-power series has a
/// two-point slope; the direction is the slope's sign.
pub open spec fn trend_line_chars(m: MonitoringSystem) -> Seq<char> {
    let rs = m.readings_for("generator_power_mw"@)->Some_0;
    if m.readings_for("generator_power_mw"@) is Some && rs.len() >= 2
        && rs.last().timestamp_hours > rs.first().timestamp_hours {
        "Power Trend: "@ + (if rs.last().value_milli > rs.first().value_milli {
            "Increasing"@
        } else if rs.last().value_milli < rs.first().value_milli {
            "Decreasing"@
        } else {
            "Stable"@
        }) + "\n"@
    } else {
        Seq::empty()
    }
}

/// The whole performance report: a header, one line per computable
/// average, the peak, the alert count and the power-trend direction.
pub open spec fn report_chars(m: MonitoringSystem) -> Seq<char> {
    "Performance Report\n==================\n"@ + power_line_chars(m) + peak_line_chars(m)
        + turbine_eff_line_chars(m) + generator_eff_line_chars(m) + reservoir_line_chars(m)
        + flow_line_chars(m) + alerts_line_chars(m) + trend_line_chars(m)
}

impl MonitoringSystem {
    /// Appends the average-power line, if one is owed.
    fn append_power_line(&self, s: &mut String)
        requires
            self.wf(),
        ensures
            final(s)@ == old(s)@ + power_line_chars(*self),
    {
        if let Some(avg) = self.calculate_average("generator_power_mw") {
            s.append("Average Power Output: ");
            append_milli_1dp(s, avg as i128);
            s.append(" MW\n");
        }
        proof {
            assert(s@ =~= old(s)@ + power_line_chars(*self));
        }
    }

    /// Appends the peak-power line, if one is owed.
    fn append_peak_line(&self, s: &mut String)
        requires
            self.wf(),
        ensures
            final(s)@ == old(s)@ + peak_line_chars(*self),
    {
        match self.get_latest_reading("generator_power_mw") {
            Some(_latest) => {
                s.append("Peak Power Output: ");
                append_milli_1dp(s, self.performance_metrics.peak_power_milli_mw as i128);
                s.append(" MW\n");
            },
            None => {},
        }
        proof {
            assert(s@ =~= old(s)@ + peak_line_chars(*self));
        }
    }

    /// Appends the average-turbine-efficiency line, if one is owed.
    fn append_turbine_eff_line(&self, s: &mut String)
        requires
            self.wf(),
        ensures
            final(s)@ == old(s)@ + turbine_eff_line_chars(*self),
    {
        if let Some(avg) = self.calculate_average("turbine_efficiency") {
            s.append("Average Turbine Efficiency: ");
            append_milli_1dp(s, (avg as i128) * 100);
            s.append("%\n");
        }
        proof {
            assert(s@ =~= old(s)@ + turbine_eff_line_chars(*self));
        }
    }

    /// Appends the average-generator-efficiency line, if one is owed.
    fn append_generator_eff_line(&self, s: &mut String)
        requires
            self.wf(),
        ensures
            final(s)@ == old(s)@ + generator_eff_line_chars(*self),
    {
        if let Some(avg) = self.calculate_average("generator_efficiency") {
            s.append("Average Generator Efficiency: ");
            append_milli_1dp(s, (avg as i128) * 100);
            s.append("%\n");
        }
        proof {
            assert(s@ =~= old(s)@ + generator_eff_line_chars(*self));
        }
    }

    /// Appends the average-reservoir-level line, if one is owed.
    fn append_reservoir_line(&self, s: &mut String)
        requires
            self.wf(),
        ensures
            final(s)@ == old(s)@ + reservoir_line_chars(*self),
    {
        if let Some(avg) = self.calculate_average("reservoir_level_percent") {
            s.append("Average Reservoir Level: ");
            append_milli_1dp(s, avg as i128);
            s.append("%\n");
        }
        proof {
            assert(s@ =~= old(s)@ + reservoir_line_chars(*self));
        }
    }

    /// Appends the average-water-flow line, if one is owed.
    fn append_flow_line(&self, s: &mut String)
        requires
            self.wf(),
        ensures
            final(s)@ == old(s)@ + flow_line_chars(*self),
    {
        if let Some(avg) = self.calculate_average("water_flow_m3s") {
            s.append("Average Water Flow: ");
            append_milli_1dp(s, avg as i128);
            s.append(" m3/s\n");
        }
        proof {
            assert(s@ =~= old(s)@ + flow_line_chars(*self));
        }
    }

    /// Appends the alert-count line.
    fn append_alerts_line(&self, s: &mut String)
        ensures
            final(s)@ == old(s)@ + alerts_line_chars(*self),
    {
        s.append("Total Alerts: ");
        append_u128(s, self.performance_metrics.total_alerts as u128);
        s.append("\n");
        proof {
            assert(s@ =~= old(s)@ + alerts_line_chars(*self));
        }
    }

    /// Appends the power-trend line, if one is owed.
    fn append_trend_line(&self, s: &mut String)
        requires
            self.wf(),
        ensures
            final(s)@ == old(s)@ + trend_line_chars(*self),
    {
        match self.calculate_trend("generator_power_mw") {
            Some(trend) => {
                s.append("Power Trend: ");
                if trend.is_increasing() {
                    s.append("Increasing");
                } else if trend.is_decreasing() {
                    s.append("Decreasing");
                } else {
                    s.append("Stable");
                }
                s.append("\n");
            },
            None => {},
        }
        proof {
            assert(s@ =~= old(s)@ + trend_line_chars(*self));
        }
    }

    /// Renders the performance report: a pure function of the retained
    /// series and the metrics, exactly `report_chars`.
    pub fn generate_performance_report(&self) -> (r: String)
        requires
            self.wf(),
        ensures
            r@ == report_chars(*self),
    {
        let mut s = String::from_str("Performance Report\n==================\n");
        self.append_power_line(&mut s);
        self.append_peak_line(&mut s);
        self.append_turbine_eff_line(&mut s);
        self.append_generator_eff_line(&mut s);
        self.append_reservoir_line(&mut s);
        self.append_flow_line(&mut s);
        self.append_alerts_line(&mut s);
        self.append_trend_line(&mut s);
        s
    }
}

/// The exact two-point slope of a series, as the rational
/// `delta_value_milli / delta_hours`; `delta_hours` is always positive.
#[derive(Debug, Clone, Copy, PartialEq, Eq, Structural)]
pub struct Trend {
    /// Signed change of the recorded value, in milli-units.
    pub delta_value_milli: i128,
    /// Elapsed time between the first and last reading, in hours.
    pub delta_hours: u64,
}

impl Trend {
    /// The slope is positive: the recorded value grew.
    pub fn is_increasing(&self) -> (r: bool)
        ensures
            r <==> self.delta_value_milli > 0,
    {
        self.delta_value_milli > 0
    }

    /// The slope is negative: the recorded value fell.
    pub fn is_decreasing(&self) -> (r: bool)
        ensures
            r <==> self.delta_value_milli < 0,
    {
        self.delta_value_milli < 0
    }
}

} // verus!

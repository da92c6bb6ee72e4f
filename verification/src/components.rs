//! The physical component models: turbine, generator, reservoir and water
//! flow. Each is an independent stateful value type; the simulator wires
//! them together once per time step.

use vstd::arithmetic::div_mod::{lemma_div_is_ordered, lemma_div_multiples_vanish};
use vstd::arithmetic::mul::lemma_mul_inequality;
use vstd::prelude::*;

verus! {

/// Water density times gravity, in newtons per cubic metre:
/// 1000 kg/m^3 * 9.81 m/s^2.
pub const WATER_WEIGHT_N_M3: u64 = 9810;

/// Largest accepted flow rate, in milli-m^3/s (a billion cubic metres per
/// second). Keeps the power computation inside 128-bit arithmetic.
pub const MAX_FLOW_RATE_MILLI_M3S: u64 = 1_000_000_000_000;

/// Largest accepted head or dam height, in milli-metres (a thousand
/// kilometres). Keeps the power computation inside 128-bit arithmetic.
pub const MAX_HEAD_MILLI_M: u64 = 1_000_000_000;

/// Largest accepted power rating, in milli-megawatts (a terawatt). Keeps a
/// recorded power reading inside a signed 64-bit monitoring value.
pub const MAX_POWER_MILLI_MW: u64 = 1_000_000_000_000_000;

/// Unity efficiency in per-mille.
pub const EFFICIENCY_UNITY_MILLI: u64 = 1000;

/// The error of every constructor or setter that rejects a physical
/// parameter outside its accepted range.
#[derive(Debug, PartialEq, Eq, Structural, Clone, Copy)]
pub enum ParamError {
    OutOfRange,
}

/// Hydraulic power delivered by a turbine, in milli-megawatts: the
/// theoretical power `rho * g * Q * H` scaled by the efficiency, truncated
/// to the milli-megawatt grid, and clamped to the turbine's rating.
///
/// `flow` is in milli-m^3/s, `head` in milli-m, `efficiency` in per-mille,
/// `max_power` in milli-MW. The divisor merges the two `1000` denominators
/// of the fixed-point inputs, the `1000` of the efficiency, and the `10^3`
/// that turns the watt result into the milli-megawatt grid.
pub open spec fn turbine_power_milli_mw(flow: int, head: int, efficiency: int, max_power: int) -> int {
    let raw = WATER_WEIGHT_N_M3 * flow * head * efficiency / 1_000_000_000_000;
    if raw > max_power {
        max_power
    } else {
        raw
    }
}

/// Electrical power delivered by a generator driven with
/// `mechanical` milli-MW at `efficiency` per-mille, clamped to the rating.
pub open spec fn generator_power_milli_mw(mechanical: int, efficiency: int, max_power: int) -> int {
    let raw = mechanical * efficiency / 1000;
    if raw > max_power {
        max_power
    } else {
        raw
    }
}

/// The volume of a reservoir after one forward-Euler step of `hours` hours
/// with the given rates (milli-m^3/s), clamped into `[0, capacity]`.
pub open spec fn stepped_volume_milli_m3(
    volume: int,
    inflow: int,
    outflow: int,
    hours: int,
    capacity: int,
) -> int {
    let unclamped = volume + (inflow - outflow) * 3600 * hours;
    if unclamped < 0 {
        0
    } else if unclamped > capacity {
        capacity
    } else {
        unclamped
    }
}

/// Available head of a reservoir, in milli-m: the dam height scaled by the
/// fill ratio, truncated to the milli-metre grid.
pub open spec fn available_head_milli_m(height: int, volume: int, capacity: int) -> int {
    height * volume / capacity
}

/// Fill level of a reservoir, in milli-percent, truncated.
pub open spec fn level_milli_percent(volume: int, capacity: int) -> int {
    volume * 100_000 / capacity
}

/// The available head never decreases when the stored volume grows, for a
/// fixed capacity and height.
pub proof fn lemma_available_head_monotonic(height: int, capacity: int, v1: int, v2: int)
    requires
        capacity > 0,
        height >= 0,
        0 <= v1 <= v2,
    ensures
        available_head_milli_m(height, v1, capacity) <= available_head_milli_m(height, v2, capacity),
{
    lemma_mul_inequality(v1, v2, height);
    assert(v1 * height == height * v1) by (nonlinear_arith);
    assert(v2 * height == height * v2) by (nonlinear_arith);
    lemma_div_is_ordered(height * v1, height * v2, capacity);
}

/// Whatever the rates and the step duration, one integration step leaves
/// the volume within `[0, capacity]`: the clamping law of the reservoir.
pub proof fn lemma_stepped_volume_in_bounds(
    volume: int,
    inflow: int,
    outflow: int,
    hours: int,
    capacity: int,
)
    requires
        0 <= volume <= capacity,
    ensures
        0 <= stepped_volume_milli_m3(volume, inflow, outflow, hours, capacity) <= capacity,
{
}

/// The current power of a well-formed turbine always lies within
/// `[0, rating]`, and a stopped turbine delivers exactly nothing.
pub proof fn lemma_turbine_power_in_range(t: Turbine)
    requires
        t.wf(),
    ensures
        0 <= t.current_power_milli_mw <= t.max_power_milli_mw,
        !t.is_operational ==> t.current_power_milli_mw == 0,
{
}

/// The current power of a well-formed generator always lies within
/// `[0, rating]`, and an unsynchronized generator delivers exactly
/// nothing.
pub proof fn lemma_generator_power_in_range(g: Generator)
    requires
        g.wf(),
    ensures
        0 <= g.current_power_milli_mw <= g.max_power_milli_mw,
        !g.is_synchronized ==> g.current_power_milli_mw == 0,
{
}

/// A quotient by a positive divisor never exceeds the quotient of a larger
/// multiple: `a <= b ==> (x * a) / b <= x` for `x >= 0`.
proof fn lemma_scaled_ratio_bound(x: int, a: int, b: int)
    requires
        b > 0,
        0 <= a <= b,
        x >= 0,
    ensures
        0 <= x * a / b <= x,
{
    lemma_mul_inequality(a, b, x);
    assert(a * x == x * a) by (nonlinear_arith);
    assert(b * x == x * b) by (nonlinear_arith);
    lemma_div_is_ordered(x * a, x * b, b);
    lemma_div_multiples_vanish(x, b);
    assert(x * a >= 0) by (nonlinear_arith)
        requires
            x >= 0,
            a >= 0,
    ;
    lemma_div_is_ordered(0, x * a, b);
}

/// A hydro turbine: converts water flow and head into mechanical power.
#[derive(Debug)]
pub struct Turbine {
    pub name: String,
    /// Rating in milli-MW.
    pub max_power_milli_mw: u64,
    /// Per-mille; at most `EFFICIENCY_UNITY_MILLI`.
    pub efficiency_milli: u64,
    /// Output of the latest step, in milli-MW.
    pub current_power_milli_mw: u64,
    pub is_operational: bool,
    /// Timestamp of the latest maintenance, in seconds; informational only.
    pub last_maintenance: u64,
}

impl Turbine {
    /// Well-formedness: the efficiency is a true ratio, the rating is
    /// within the accepted range, the current output never exceeds the
    /// rating, and a stopped turbine delivers nothing.
    pub open spec fn wf(self) -> bool {
        &&& self.efficiency_milli <= EFFICIENCY_UNITY_MILLI
        &&& self.max_power_milli_mw <= MAX_POWER_MILLI_MW
        &&& self.current_power_milli_mw <= self.max_power_milli_mw
        &&& !self.is_operational ==> self.current_power_milli_mw == 0
    }

    /// A new operational turbine with no output yet; `now_secs` becomes the
    /// maintenance timestamp. Rejects an efficiency above unity or a rating
    /// above `MAX_POWER_MILLI_MW`.
    pub fn new(name: &str, max_power_milli_mw: u64, efficiency_milli: u64, now_secs: u64) -> (r:
        Result<Turbine, ParamError>)
        ensures
            r is Ok <==> efficiency_milli <= EFFICIENCY_UNITY_MILLI && max_power_milli_mw
                <= MAX_POWER_MILLI_MW,
            r matches Ok(t) ==> t.wf() && t.name@ == name@ && t.max_power_milli_mw
                == max_power_milli_mw && t.efficiency_milli == efficiency_milli
                && t.current_power_milli_mw == 0 && t.is_operational && t.last_maintenance
                == now_secs,
            r matches Err(e) ==> e == ParamError::OutOfRange,
    {
        if efficiency_milli > EFFICIENCY_UNITY_MILLI || max_power_milli_mw > MAX_POWER_MILLI_MW {
            return Err(ParamError::OutOfRange);
        }
        Ok(
            Turbine {
                name: name.to_owned(),
                max_power_milli_mw,
                efficiency_milli,
                current_power_milli_mw: 0,
                is_operational: true,
                last_maintenance: now_secs,
            },
        )
    }

    /// One power computation: stores and returns the clamped hydraulic
    /// power, or zero when the turbine is not operational.
    pub fn calculate_power(&mut self, water_flow_rate_milli_m3s: u64, head_height_milli_m: u64) -> (power:
        u64)
        requires
            old(self).wf(),
            water_flow_rate_milli_m3s <= MAX_FLOW_RATE_MILLI_M3S,
            head_height_milli_m <= MAX_HEAD_MILLI_M,
        ensures
            final(self).wf(),
            *final(self) == (Turbine { current_power_milli_mw: power, ..*old(self) }),
            old(self).is_operational ==> power == turbine_power_milli_mw(
                water_flow_rate_milli_m3s as int,
                head_height_milli_m as int,
                old(self).efficiency_milli as int,
                old(self).max_power_milli_mw as int,
            ),
            !old(self).is_operational ==> power == 0,
    {
        if !self.is_operational {
            self.current_power_milli_mw = 0;
            return 0;
        }
        let flow: u128 = water_flow_rate_milli_m3s as u128;
        let head: u128 = head_height_milli_m as u128;
        let eff: u128 = self.efficiency_milli as u128;
        assert((WATER_WEIGHT_N_M3 as int) * flow <= 9810 * 1_000_000_000_000i128) by (nonlinear_arith)
            requires
                flow <= 1_000_000_000_000u128,
        ;
        let a: u128 = (WATER_WEIGHT_N_M3 as u128) * flow;
        assert(a * head <= 9_810_000_000_000_000i128 * 1_000_000_000) by (nonlinear_arith)
            requires
                a <= 9_810_000_000_000_000u128,
                head <= 1_000_000_000u128,
        ;
        let b: u128 = a * head;
        assert(b * eff <= 9_810_000_000_000_000_000_000_000i128 * 1000) by (nonlinear_arith)
            requires
                b <= 9_810_000_000_000_000_000_000_000u128,
                eff <= 1000u128,
        ;
        let raw: u128 = b * eff / 1_000_000_000_000;
        let power: u64 = if raw > self.max_power_milli_mw as u128 {
            self.max_power_milli_mw
        } else {
            raw as u64
        };
        self.current_power_milli_mw = power;
        power
    }

    /// Stops the turbine and zeroes its output at once.
    pub fn shutdown(&mut self)
        ensures
            *final(self) == (Turbine {
                is_operational: false,
                current_power_milli_mw: 0,
                ..*old(self)
            }),
    {
        self.is_operational = false;
        self.current_power_milli_mw = 0;
    }

    /// Marks the turbine operational again; the output stays as it was
    /// until the next power computation.
    pub fn startup(&mut self)
        ensures
            *final(self) == (Turbine { is_operational: true, ..*old(self) }),
    {
        self.is_operational = true;
    }

    /// Records `now_secs` as the latest maintenance; purely informational.
    pub fn schedule_maintenance(&mut self, now_secs: u64)
        ensures
            *final(self) == (Turbine { last_maintenance: now_secs, ..*old(self) }),
    {
        self.last_maintenance = now_secs;
    }
}

/// An electrical generator: converts mechanical power into electrical power
/// once it is synchronized to the grid.
#[derive(Debug)]
pub struct Generator {
    pub name: String,
    /// Rating in milli-MW.
    pub max_power_milli_mw: u64,
    /// Per-mille; at most `EFFICIENCY_UNITY_MILLI`.
    pub efficiency_milli: u64,
    /// Output of the latest step, in milli-MW.
    pub current_power_milli_mw: u64,
    /// Milli-kilovolts; informational only.
    pub voltage_milli_kv: u64,
    /// Milli-hertz; informational only.
    pub frequency_milli_hz: u64,
    pub is_synchronized: bool,
}

impl Generator {
    /// Well-formedness: mirrors the turbine's, with synchronization in the
    /// role of the operational flag.
    pub open spec fn wf(self) -> bool {
        &&& self.efficiency_milli <= EFFICIENCY_UNITY_MILLI
        &&& self.max_power_milli_mw <= MAX_POWER_MILLI_MW
        &&& self.current_power_milli_mw <= self.max_power_milli_mw
        &&& !self.is_synchronized ==> self.current_power_milli_mw == 0
    }

    /// A new, not yet synchronized generator at standard voltage (11 kV)
    /// and frequency (50 Hz). Rejects an efficiency above unity or a rating
    /// above `MAX_POWER_MILLI_MW`.
    pub fn new(name: &str, max_power_milli_mw: u64, efficiency_milli: u64) -> (r: Result<
        Generator,
        ParamError,
    >)
        ensures
            r is Ok <==> efficiency_milli <= EFFICIENCY_UNITY_MILLI && max_power_milli_mw
                <= MAX_POWER_MILLI_MW,
            r matches Ok(g) ==> g.wf() && g.name@ == name@ && g.max_power_milli_mw
                == max_power_milli_mw && g.efficiency_milli == efficiency_milli
                && g.current_power_milli_mw == 0 && g.voltage_milli_kv == 11_000
                && g.frequency_milli_hz == 50_000 && !g.is_synchronized,
            r matches Err(e) ==> e == ParamError::OutOfRange,
    {
        if efficiency_milli > EFFICIENCY_UNITY_MILLI || max_power_milli_mw > MAX_POWER_MILLI_MW {
            return Err(ParamError::OutOfRange);
        }
        Ok(
            Generator {
                name: name.to_owned(),
                max_power_milli_mw,
                efficiency_milli,
                current_power_milli_mw: 0,
                voltage_milli_kv: 11_000,
                frequency_milli_hz: 50_000,
                is_synchronized: false,
            },
        )
    }

    /// One conversion: stores and returns the clamped electrical power, or
    /// zero when the generator is not synchronized — regardless of the
    /// mechanical power offered.
    pub fn generate_power(&mut self, mechanical_power_milli_mw: u64) -> (power: u64)
        requires
            old(self).wf(),
        ensures
            final(self).wf(),
            *final(self) == (Generator { current_power_milli_mw: power, ..*old(self) }),
            old(self).is_synchronized ==> power == generator_power_milli_mw(
                mechanical_power_milli_mw as int,
                old(self).efficiency_milli as int,
                old(self).max_power_milli_mw as int,
            ),
            !old(self).is_synchronized ==> power == 0,
    {
        if !self.is_synchronized {
            self.current_power_milli_mw = 0;
            return 0;
        }
        let mech: u128 = mechanical_power_milli_mw as u128;
        let eff: u128 = self.efficiency_milli as u128;
        assert(mech * eff <= 0xffff_ffff_ffff_ffffi128 * 1000) by (nonlinear_arith)
            requires
                mech <= 0xffff_ffff_ffff_ffffu128,
                eff <= 1000u128,
        ;
        let raw: u128 = mech * eff / 1000;
        let power: u64 = if raw > self.max_power_milli_mw as u128 {
            self.max_power_milli_mw
        } else {
            raw as u64
        };
        self.current_power_milli_mw = power;
        power
    }

    /// Couples the generator to the grid.
    pub fn synchronize(&mut self)
        ensures
            *final(self) == (Generator { is_synchronized: true, ..*old(self) }),
    {
        self.is_synchronized = true;
    }

    /// Decouples the generator and zeroes its output at once.
    pub fn desynchronize(&mut self)
        ensures
            *final(self) == (Generator {
                is_synchronized: false,
                current_power_milli_mw: 0,
                ..*old(self)
            }),
    {
        self.is_synchronized = false;
        self.current_power_milli_mw = 0;
    }

    /// Sets the target frequency; informational only, no effect on power.
    pub fn adjust_frequency(&mut self, target_frequency_milli_hz: u64)
        ensures
            *final(self) == (Generator {
                frequency_milli_hz: target_frequency_milli_hz,
                ..*old(self)
            }),
    {
        self.frequency_milli_hz = target_frequency_milli_hz;
    }
}

/// A water reservoir with level-dependent head.
#[derive(Debug)]
pub struct Reservoir {
    pub name: String,
    /// Milli-m^3; always positive.
    pub max_capacity_milli_m3: u64,
    /// Milli-m^3; within `[0, max_capacity_milli_m3]`.
    pub current_volume_milli_m3: u64,
    /// Milli-m^3/s; at most `MAX_FLOW_RATE_MILLI_M3S`.
    pub inflow_rate_milli_m3s: u64,
    /// Milli-m^3/s; at most `MAX_FLOW_RATE_MILLI_M3S`.
    pub outflow_rate_milli_m3s: u64,
    /// Dam height in milli-m; at most `MAX_HEAD_MILLI_M`.
    pub height_milli_m: u64,
}

impl Reservoir {
    /// Well-formedness: positive capacity, volume within bounds, rates and
    /// height within the accepted ranges.
    pub open spec fn wf(self) -> bool {
        &&& self.max_capacity_milli_m3 > 0
        &&& self.current_volume_milli_m3 <= self.max_capacity_milli_m3
        &&& self.inflow_rate_milli_m3s <= MAX_FLOW_RATE_MILLI_M3S
        &&& self.outflow_rate_milli_m3s <= MAX_FLOW_RATE_MILLI_M3S
        &&& self.height_milli_m <= MAX_HEAD_MILLI_M
    }

    /// A new still reservoir with a default dam height of 100 m. Rejects an
    /// empty capacity and a volume beyond the capacity.
    pub fn new(name: &str, max_capacity_milli_m3: u64, current_volume_milli_m3: u64) -> (r: Result<
        Reservoir,
        ParamError,
    >)
        ensures
            r is Ok <==> max_capacity_milli_m3 > 0 && current_volume_milli_m3
                <= max_capacity_milli_m3,
            r matches Ok(v) ==> v.wf() && v.name@ == name@ && v.max_capacity_milli_m3
                == max_capacity_milli_m3 && v.current_volume_milli_m3 == current_volume_milli_m3
                && v.inflow_rate_milli_m3s == 0 && v.outflow_rate_milli_m3s == 0 && v.height_milli_m
                == 100_000,
            r matches Err(e) ==> e == ParamError::OutOfRange,
    {
        if max_capacity_milli_m3 == 0 || current_volume_milli_m3 > max_capacity_milli_m3 {
            return Err(ParamError::OutOfRange);
        }
        Ok(
            Reservoir {
                name: name.to_owned(),
                max_capacity_milli_m3,
                current_volume_milli_m3,
                inflow_rate_milli_m3s: 0,
                outflow_rate_milli_m3s: 0,
                height_milli_m: 100_000,
            },
        )
    }

    /// One forward-Euler integration step of `time_step_hours` hours: the
    /// volume moves by net flow times duration and is clamped into
    /// `[0, capacity]`, whatever the rates and the duration.
    pub fn update_volume(&mut self, time_step_hours: u64)
        requires
            old(self).wf(),
        ensures
            final(self).wf(),
            *final(self) == (Reservoir {
                current_volume_milli_m3: final(self).current_volume_milli_m3,
                ..*old(self)
            }),
            final(self).current_volume_milli_m3 == stepped_volume_milli_m3(
                old(self).current_volume_milli_m3 as int,
                old(self).inflow_rate_milli_m3s as int,
                old(self).outflow_rate_milli_m3s as int,
                time_step_hours as int,
                old(self).max_capacity_milli_m3 as int,
            ),
            final(self).current_volume_milli_m3 <= final(self).max_capacity_milli_m3,
    {
        let net: i128 = self.inflow_rate_milli_m3s as i128 - self.outflow_rate_milli_m3s as i128;
        assert(net * 3600 * (time_step_hours as int) <= 1_000_000_000_000i128 * 3600
            * 0xffff_ffff_ffff_ffffi128 && net * 3600 * (time_step_hours as int)
            >= -1_000_000_000_000i128 * 3600 * 0xffff_ffff_ffff_ffffi128) by (nonlinear_arith)
            requires
                -1_000_000_000_000 <= net <= 1_000_000_000_000,
                0 <= time_step_hours <= 0xffff_ffff_ffff_ffffu64,
        ;
        let change: i128 = net * 3600 * (time_step_hours as i128);
        let unclamped: i128 = self.current_volume_milli_m3 as i128 + change;
        let clamped: u64 = if unclamped < 0 {
            0
        } else if unclamped > self.max_capacity_milli_m3 as i128 {
            self.max_capacity_milli_m3
        } else {
            unclamped as u64
        };
        self.current_volume_milli_m3 = clamped;
    }

    /// Sets the natural inflow; rejects a rate above the accepted range.
    pub fn set_inflow_rate(&mut self, rate_milli_m3s: u64) -> (r: Result<(), ParamError>)
        ensures
            r is Ok <==> rate_milli_m3s <= MAX_FLOW_RATE_MILLI_M3S,
            r is Ok ==> *final(self) == (Reservoir {
                inflow_rate_milli_m3s: rate_milli_m3s,
                ..*old(self)
            }),
            r is Err ==> *final(self) == *old(self),
            r matches Err(e) ==> e == ParamError::OutOfRange,
    {
        if rate_milli_m3s > MAX_FLOW_RATE_MILLI_M3S {
            return Err(ParamError::OutOfRange);
        }
        self.inflow_rate_milli_m3s = rate_milli_m3s;
        Ok(())
    }

    /// Sets the draw towards the turbine; rejects a rate above the
    /// accepted range.
    pub fn set_outflow_rate(&mut self, rate_milli_m3s: u64) -> (r: Result<(), ParamError>)
        ensures
            r is Ok <==> rate_milli_m3s <= MAX_FLOW_RATE_MILLI_M3S,
            r is Ok ==> *final(self) == (Reservoir {
                outflow_rate_milli_m3s: rate_milli_m3s,
                ..*old(self)
            }),
            r is Err ==> *final(self) == *old(self),
            r matches Err(e) ==> e == ParamError::OutOfRange,
    {
        if rate_milli_m3s > MAX_FLOW_RATE_MILLI_M3S {
            return Err(ParamError::OutOfRange);
        }
        self.outflow_rate_milli_m3s = rate_milli_m3s;
        Ok(())
    }

    /// Fill level in milli-percent, truncated; at most 100 percent.
    pub fn get_water_level_percentage(&self) -> (r: u64)
        requires
            self.wf(),
        ensures
            r == level_milli_percent(
                self.current_volume_milli_m3 as int,
                self.max_capacity_milli_m3 as int,
            ),
            r <= 100_000,
    {
        proof {
            lemma_scaled_ratio_bound(
                100_000,
                self.current_volume_milli_m3 as int,
                self.max_capacity_milli_m3 as int,
            );
            assert(100_000 * (self.current_volume_milli_m3 as int) == (
            self.current_volume_milli_m3 as int) * 100_000) by (nonlinear_arith);
        }
        ((self.current_volume_milli_m3 as u128) * 100_000 / (self.max_capacity_milli_m3 as u128))
            as u64
    }

    /// Available head in milli-m: the dam height scaled linearly by the
    /// fill ratio; never exceeds the height.
    pub fn get_available_head(&self) -> (r: u64)
        requires
            self.wf(),
        ensures
            r == available_head_milli_m(
                self.height_milli_m as int,
                self.current_volume_milli_m3 as int,
                self.max_capacity_milli_m3 as int,
            ),
            r <= self.height_milli_m,
    {
        proof {
            lemma_scaled_ratio_bound(
                self.height_milli_m as int,
                self.current_volume_milli_m3 as int,
                self.max_capacity_milli_m3 as int,
            );
            assert((self.height_milli_m as int) * (self.current_volume_milli_m3 as int)
                <= 1_000_000_000i128 * 0xffff_ffff_ffff_ffff) by (nonlinear_arith)
                requires
                    self.height_milli_m <= 1_000_000_000u64,
                    self.current_volume_milli_m3 <= 0xffff_ffff_ffff_ffffu64,
            ;
        }
        ((self.height_milli_m as u128) * (self.current_volume_milli_m3 as u128) / (
        self.max_capacity_milli_m3 as u128)) as u64
    }
}

/// Flow and pressure state delivered to the turbine.
#[derive(Debug, Clone, Copy)]
pub struct WaterFlow {
    /// Milli-m^3/s; at most `MAX_FLOW_RATE_MILLI_M3S`.
    pub flow_rate_milli_m3s: u64,
    /// Milli-pascals.
    pub pressure_milli_pa: u64,
    /// Milli-degrees Celsius; informational only.
    pub temperature_milli_c: i64,
    /// Milli-NTU; informational only.
    pub turbidity_milli_ntu: u64,
}

impl WaterFlow {
    /// Well-formedness: the flow rate is within the accepted range.
    pub open spec fn wf(self) -> bool {
        self.flow_rate_milli_m3s <= MAX_FLOW_RATE_MILLI_M3S
    }

    /// New flow state at atmospheric pressure and 15 degrees Celsius.
    /// Rejects a flow rate above the accepted range.
    pub fn new(flow_rate_milli_m3s: u64, turbidity_milli_ntu: u64) -> (r: Result<
        WaterFlow,
        ParamError,
    >)
        ensures
            r is Ok <==> flow_rate_milli_m3s <= MAX_FLOW_RATE_MILLI_M3S,
            r matches Ok(w) ==> w.wf() && w.flow_rate_milli_m3s == flow_rate_milli_m3s
                && w.pressure_milli_pa == 101_325_000 && w.temperature_milli_c == 15_000
                && w.turbidity_milli_ntu == turbidity_milli_ntu,
            r matches Err(e) ==> e == ParamError::OutOfRange,
    {
        if flow_rate_milli_m3s > MAX_FLOW_RATE_MILLI_M3S {
            return Err(ParamError::OutOfRange);
        }
        Ok(
            WaterFlow {
                flow_rate_milli_m3s,
                pressure_milli_pa: 101_325_000,
                temperature_milli_c: 15_000,
                turbidity_milli_ntu,
            },
        )
    }

    /// Sets the flow rate; rejects a rate above the accepted range.
    pub fn adjust_flow_rate(&mut self, new_rate_milli_m3s: u64) -> (r: Result<(), ParamError>)
        ensures
            r is Ok <==> new_rate_milli_m3s <= MAX_FLOW_RATE_MILLI_M3S,
            r is Ok ==> *final(self) == (WaterFlow {
                flow_rate_milli_m3s: new_rate_milli_m3s,
                ..*old(self)
            }),
            r is Err ==> *final(self) == *old(self),
            r matches Err(e) ==> e == ParamError::OutOfRange,
    {
        if new_rate_milli_m3s > MAX_FLOW_RATE_MILLI_M3S {
            return Err(ParamError::OutOfRange);
        }
        self.flow_rate_milli_m3s = new_rate_milli_m3s;
        Ok(())
    }

    /// Hydrostatic pressure under `head_height_milli_m` of water:
    /// `rho * g * h`, exact on the milli-pascal grid.
    pub fn calculate_pressure(&mut self, head_height_milli_m: u64)
        requires
            head_height_milli_m <= MAX_HEAD_MILLI_M,
        ensures
            *final(self) == (WaterFlow {
                pressure_milli_pa: (WATER_WEIGHT_N_M3 * head_height_milli_m) as u64,
                ..*old(self)
            }),
    {
        self.pressure_milli_pa = WATER_WEIGHT_N_M3 * head_height_milli_m;
    }

    /// True exactly when the flow is within the safe operating band:
    /// positive and at most 100 m^3/s.
    pub fn is_flow_safe(&self) -> (r: bool)
        ensures
            r <==> 0 < self.flow_rate_milli_m3s <= 100_000,
    {
        self.flow_rate_milli_m3s > 0 && self.flow_rate_milli_m3s <= 100_000
    }
}

impl Clone for Turbine {
    fn clone(&self) -> (r: Self)
        ensures
            r == *self,
    {
        Turbine {
            name: self.name.clone(),
            max_power_milli_mw: self.max_power_milli_mw,
            efficiency_milli: self.efficiency_milli,
            current_power_milli_mw: self.current_power_milli_mw,
            is_operational: self.is_operational,
            last_maintenance: self.last_maintenance,
        }
    }
}

impl Clone for Generator {
    fn clone(&self) -> (r: Self)
        ensures
            r == *self,
    {
        Generator {
            name: self.name.clone(),
            max_power_milli_mw: self.max_power_milli_mw,
            efficiency_milli: self.efficiency_milli,
            current_power_milli_mw: self.current_power_milli_mw,
            voltage_milli_kv: self.voltage_milli_kv,
            frequency_milli_hz: self.frequency_milli_hz,
            is_synchronized: self.is_synchronized,
        }
    }
}

impl Clone for Reservoir {
    fn clone(&self) -> (r: Self)
        ensures
            r == *self,
    {
        Reservoir {
            name: self.name.clone(),
            max_capacity_milli_m3: self.max_capacity_milli_m3,
            current_volume_milli_m3: self.current_volume_milli_m3,
            inflow_rate_milli_m3s: self.inflow_rate_milli_m3s,
            outflow_rate_milli_m3s: self.outflow_rate_milli_m3s,
            height_milli_m: self.height_milli_m,
        }
    }
}

} // verus!

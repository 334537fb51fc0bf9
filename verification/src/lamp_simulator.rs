//! The in-memory model of the lamp: power status, the two percentage axes
//! and the device's raw temperature range, together with the pure function
//! that applies an abstract command to the model.
//!
//! Percentages are carried in hundredths of a percent (`0.39%` is `39`,
//! `100%` is `10000`), so every value the protocol can show is exact.

use vstd::prelude::*;

use vstd::arithmetic::div_mod::{
    lemma_div_is_ordered, lemma_fundamental_div_mod, lemma_fundamental_div_mod_converse,
    lemma_mod_pos_bound,
};

use crate::widget_state::LampAbstractCommand;

verus! {

/// One percent in model units: percentages run from 0 to `PCT_SCALE`.
pub const PCT_SCALE: u32 = 10000;

/// The lowest brightness a delta may leave behind: 0.39%.
pub const BRIGHTNESS_FLOOR: u32 = 39;

/// The device's valid raw temperature interval, immutable per session. It
/// defines the affine mapping between a percentage and raw device units.
#[derive(Debug, Clone, Copy, PartialEq)]
pub struct Range {
    min: u32,
    max: u32,
}

impl Range {
    pub closed spec fn spec_min(self) -> int {
        self.min as int
    }

    pub closed spec fn spec_max(self) -> int {
        self.max as int
    }

    pub open spec fn wf(self) -> bool {
        self.spec_min() < self.spec_max()
    }

    pub fn new(min: u32, max: u32) -> (r: Range)
        requires
            min < max,
        ensures
            r.spec_min() == min,
            r.spec_max() == max,
            r.wf(),
    {
        Range { min, max }
    }
}

/// Power status of the lamp.
#[derive(Debug, Clone, Copy, PartialEq, Eq, Structural)]
pub enum LampStatus {
    On,
    Off,
}

/// Division rounded to the nearest integer (ties up), for `b > 0`.
pub open spec fn spec_round_div(a: int, b: int) -> int
    recommends
        a >= 0,
        b > 0,
{
    (2 * a + b) / (2 * b)
}

/// `v` clamped into `[lo, hi]`.
pub open spec fn spec_clamp(v: int, lo: int, hi: int) -> int {
    if v < lo {
        lo
    } else if v > hi {
        hi
    } else {
        v
    }
}

/// The raw device value a temperature percentage maps back to:
/// `pct / 100 * (max - min) + min`, rounded to the nearest raw unit.
pub open spec fn spec_raw_of_pct(pct: int, range: Range) -> int {
    range.spec_min() + spec_round_div(pct * (range.spec_max() - range.spec_min()), PCT_SCALE as int)
}

/// The percentage a raw device value encodes to:
/// `(raw - min) / (max - min) * 100`, rounded to the nearest model unit.
pub open spec fn spec_pct_of_raw(raw: int, range: Range) -> int {
    spec_round_div((raw - range.spec_min()) * (PCT_SCALE as int), range.spec_max() - range.spec_min())
}

/// The simulated lamp. When the status is `Off` the last-known axis values
/// are retained, not cleared, so a later `TurnOn` restores them; `None`
/// means the axis has not been reconciled with the device yet.
#[derive(Debug, Clone, Copy, PartialEq)]
pub struct LampState {
    pub brightness: Option<u32>,
    pub temperature: Option<u32>,
    pub temperature_range: Range,
    pub status: LampStatus,
}

/// What applying one abstract command does to the model: power commands
/// set the status and touch nothing else; deltas clamp a known axis value
/// and are a no-op on an unknown one.
pub open spec fn spec_apply_command(m: LampState, c: LampAbstractCommand) -> LampState {
    match c {
        LampAbstractCommand::TurnOff => LampState { status: LampStatus::Off, ..m },
        LampAbstractCommand::TurnOn => LampState { status: LampStatus::On, ..m },
        LampAbstractCommand::DeltaBrightness(d) => match m.brightness {
            Some(b) => LampState {
                brightness: Some(
                    spec_clamp(b + d, BRIGHTNESS_FLOOR as int, PCT_SCALE as int) as u32,
                ),
                ..m
            },
            None => m,
        },
        LampAbstractCommand::DeltaTemperature(d) => match m.temperature {
            Some(t) => LampState {
                temperature: Some(spec_clamp(t + d, 0, PCT_SCALE as int) as u32),
                ..m
            },
            None => m,
        },
    }
}

impl LampState {
    /// Known axis values are percentages, and the range is a real interval.
    pub open spec fn wf(self) -> bool {
        &&& (self.brightness matches Some(b) ==> b <= PCT_SCALE)
        &&& (self.temperature matches Some(t) ==> t <= PCT_SCALE)
        &&& self.temperature_range.wf()
    }

    /// Mutates the model in place per `spec_apply_command`. No error
    /// return: every command the state machine emits is valid here.
    pub fn apply_abstract_command(&mut self, command: LampAbstractCommand)
        requires
            old(self).wf(),
        ensures
            *final(self) == spec_apply_command(*old(self), command),
            final(self).wf(),
    {
        match command {
            LampAbstractCommand::TurnOff => {
                self.status = LampStatus::Off;
            }
            LampAbstractCommand::TurnOn => {
                self.status = LampStatus::On;
            }
            LampAbstractCommand::DeltaBrightness(delta) => {
                if let Some(b) = self.brightness {
                    let moved: i64 = b as i64 + delta as i64;
                    let clamped: i64 = if moved < BRIGHTNESS_FLOOR as i64 {
                        BRIGHTNESS_FLOOR as i64
                    } else if moved > PCT_SCALE as i64 {
                        PCT_SCALE as i64
                    } else {
                        moved
                    };
                    self.brightness = Some(clamped as u32);
                }
            }
            LampAbstractCommand::DeltaTemperature(delta) => {
                if let Some(t) = self.temperature {
                    let moved: i64 = t as i64 + delta as i64;
                    let clamped: i64 = if moved < 0 {
                        0
                    } else if moved > PCT_SCALE as i64 {
                        PCT_SCALE as i64
                    } else {
                        moved
                    };
                    self.temperature = Some(clamped as u32);
                }
            }
        }
    }
    /// The raw device value the temperature percentage maps back to, or
    /// nothing while the axis is unknown.
    pub open spec fn spec_fixed_temperature(self) -> Option<int> {
        match self.temperature {
            Some(t) => Some(spec_raw_of_pct(t as int, self.temperature_range)),
            None => None,
        }
    }

    /// Maps the temperature percentage back to raw device units; fails
    /// (returns `None`) exactly when the percentage is unknown.
    pub fn get_fixed_temperature(&self) -> (r: Option<u32>)
        requires
            self.wf(),
        ensures
            match r {
                Some(v) => self.spec_fixed_temperature() == Some(v as int),
                None => self.spec_fixed_temperature() is None,
            },
            r is Some <==> self.temperature is Some,
    {
        let t = match self.temperature {
            Some(t) => t,
            None => {
                return None;
            }
        };
        let d: u64 = (self.temperature_range.max - self.temperature_range.min) as u64;
        let ghost di: int = d as int;
        let ghost ti: int = t as int;
        proof {
            assert(2 * ti * di <= 2 * 10000 * di) by (nonlinear_arith)
                requires
                    ti <= 10000,
                    0 <= di,
            ;
            assert(2 * 10000 * di <= 20000 * 0xFFFF_FFFFu32 as int);
        }
        let num: u64 = 2 * (t as u64) * d + (PCT_SCALE as u64);
        let q: u64 = num / (2 * (PCT_SCALE as u64));
        proof {
            lemma_div_is_ordered(num as int, 20000 * di + 10000, 20000);
            lemma_fundamental_div_mod_converse(20000 * di + 10000, 20000, di, 10000);
            assert(q as int <= di);
            assert(2 * ti * di == 2 * (ti * di)) by (nonlinear_arith);
            assert(num as int == 2 * (ti * di) + 10000);
            assert(q as int == spec_round_div(ti * di, PCT_SCALE as int));
        }
        Some(self.temperature_range.min + (q as u32))
    }
}

/// The brightness percentage a raw device brightness (0 to 255) encodes
/// to, rounded to the nearest model unit.
pub open spec fn spec_brightness_pct_of_raw(raw: int) -> int {
    spec_round_div(raw * (PCT_SCALE as int), 255)
}

impl LampState {
    /// The model for a device that reports itself off: status off, both
    /// axis values unknown until reconciliation.
    pub fn from_off_reading(temperature_range: Range) -> (r: LampState)
        requires
            temperature_range.wf(),
        ensures
            r == (LampState {
                brightness: None,
                temperature: None,
                temperature_range,
                status: LampStatus::Off,
            }),
            r.wf(),
    {
        LampState { brightness: None, temperature: None, temperature_range, status: LampStatus::Off }
    }

    /// The model for a device that reports itself on, from the raw values
    /// the device exposes: brightness on its 0-to-255 scale and the raw
    /// temperature, which must lie inside the device's range.
    pub fn from_on_reading(brightness_raw: u8, color_temp: u32, temperature_range: Range) -> (r:
        LampState)
        requires
            temperature_range.wf(),
            temperature_range.spec_min() <= color_temp <= temperature_range.spec_max(),
        ensures
            r.status == LampStatus::On,
            r.temperature_range == temperature_range,
            r.brightness matches Some(b) && b as int == spec_brightness_pct_of_raw(
                brightness_raw as int,
            ),
            r.temperature matches Some(t) && t as int == spec_pct_of_raw(
                color_temp as int,
                temperature_range,
            ),
            r.wf(),
    {
        let b_num: u32 = 20000 * (brightness_raw as u32) + 255;
        let b_pct: u32 = b_num / 510;
        proof {
            lemma_div_is_ordered(b_num as int, 5100255, 510);
            lemma_fundamental_div_mod_converse(5100255, 510, 10000, 255);
            assert(b_pct as int == spec_brightness_pct_of_raw(brightness_raw as int));
        }
        let x: u32 = color_temp - temperature_range.min;
        let d: u32 = temperature_range.max - temperature_range.min;
        let ghost xi: int = x as int;
        let ghost di: int = d as int;
        proof {
            assert(2 * xi * 10000 <= 2 * 0xFFFF_FFFFu32 as int * 10000) by (nonlinear_arith)
                requires
                    0 <= xi <= 0xFFFF_FFFFu32 as int,
            ;
        }
        let t_num: u64 = 2 * (x as u64) * (PCT_SCALE as u64) + (d as u64);
        let t_den: u64 = 2 * (d as u64);
        let t_pct: u64 = t_num / t_den;
        proof {
            assert(2 * (xi * 10000) + di <= 2 * (10000 * di) + di) by (nonlinear_arith)
                requires
                    0 <= xi <= di,
            ;
            lemma_div_is_ordered(t_num as int, 2 * (10000 * di) + di, 2 * di);
            assert(10000 * (2 * di) + di == 2 * (10000 * di) + di) by (nonlinear_arith);
            lemma_fundamental_div_mod_converse(2 * (10000 * di) + di, 2 * di, 10000, di);
            assert(t_pct as int <= 10000);
            assert(t_num as int == 2 * (xi * 10000) + di);
            assert(t_pct as int == spec_pct_of_raw(color_temp as int, temperature_range));
        }
        LampState {
            brightness: Some(b_pct),
            temperature: Some(t_pct as u32),
            temperature_range,
            status: LampStatus::On,
        }
    }
}

/// The same power command applied twice leaves the model exactly where
/// the first application left it.
pub proof fn lemma_power_idempotent(m: LampState, c: LampAbstractCommand)
    requires
        c is TurnOn || c is TurnOff,
    ensures
        spec_apply_command(spec_apply_command(m, c), c) == spec_apply_command(m, c),
{
}

/// Power commands set the status and touch nothing else: the last-known
/// axis values are retained across `TurnOff`, not cleared, so a later
/// `TurnOn` restores the prior intensity.
pub proof fn lemma_power_retains_axes(m: LampState, c: LampAbstractCommand)
    requires
        c is TurnOn || c is TurnOff,
    ensures
        spec_apply_command(m, c).brightness == m.brightness,
        spec_apply_command(m, c).temperature == m.temperature,
        spec_apply_command(m, c).temperature_range == m.temperature_range,
{
}

/// However large the delta, a brightness delta applied to a known value
/// leaves a known value inside [0.39%, 100%]; the result is again
/// well-formed, so repeated deltas stay inside the interval too.
pub proof fn lemma_delta_brightness_clamped(m: LampState, d: i32)
    requires
        m.wf(),
        m.brightness is Some,
    ensures
        ({
            let r = spec_apply_command(m, LampAbstractCommand::DeltaBrightness(d));
            &&& r.wf()
            &&& r.brightness matches Some(b) && BRIGHTNESS_FLOOR <= b <= PCT_SCALE
        }),
{
}

/// However large the delta, a temperature delta applied to a known value
/// leaves a known value inside [0%, 100%]; the result is again
/// well-formed, so repeated deltas stay inside the interval too.
pub proof fn lemma_delta_temperature_clamped(m: LampState, d: i32)
    requires
        m.wf(),
        m.temperature is Some,
    ensures
        ({
            let r = spec_apply_command(m, LampAbstractCommand::DeltaTemperature(d));
            &&& r.wf()
            &&& r.temperature matches Some(t) && 0 <= t <= PCT_SCALE
        }),
{
}

/// `b` times the rounded quotient lands within half of `b` on either
/// side of `a` (ties land above `a`).
proof fn lemma_round_div_bracket(a: int, b: int)
    requires
        0 <= a,
        0 < b,
    ensures
        2 * b * spec_round_div(a, b) <= 2 * a + b,
        2 * b * spec_round_div(a, b) > 2 * a - b,
{
    lemma_fundamental_div_mod(2 * a + b, 2 * b);
    lemma_mod_pos_bound(2 * a + b, 2 * b);
}

/// The bracket pins the rounded quotient down: any `q` that lands `b * q`
/// within half of `b` of `a` is the rounded quotient.
proof fn lemma_round_div_exact(a: int, b: int, q: int)
    requires
        0 < b,
        2 * b * q <= 2 * a + b,
        2 * b * q > 2 * a - b,
    ensures
        spec_round_div(a, b) == q,
{
    let r = 2 * a + b - 2 * b * q;
    assert(q * (2 * b) == 2 * b * q) by (nonlinear_arith);
    lemma_fundamental_div_mod_converse(2 * a + b, 2 * b, q, r);
}

/// Encoding a raw temperature inside the range to a percentage and
/// mapping the percentage back recovers the raw value exactly, provided
/// the range spans at most one raw unit per model unit. (On a wider span,
/// say twice `PCT_SCALE`, two adjacent raw values encode to the same
/// percentage, so no mapping back can recover both.)
pub proof fn lemma_raw_temperature_round_trip(range: Range, raw: int)
    requires
        range.wf(),
        range.spec_min() <= raw <= range.spec_max(),
        range.spec_max() - range.spec_min() <= PCT_SCALE as int,
    ensures
        spec_raw_of_pct(spec_pct_of_raw(raw, range), range) == raw,
{
    let s = PCT_SCALE as int;
    let d = range.spec_max() - range.spec_min();
    let x = raw - range.spec_min();
    let p = spec_pct_of_raw(raw, range);
    assert(x * s >= 0) by (nonlinear_arith)
        requires
            x >= 0,
            s > 0,
    ;
    lemma_round_div_bracket(x * s, d);
    if d == s {
        assert(2 * d * x == 2 * (x * s)) by (nonlinear_arith)
            requires
                d == s,
        ;
        lemma_round_div_exact(x * s, d, x);
        assert(p == x);
        assert(2 * s * x == 2 * (p * d)) by (nonlinear_arith)
            requires
                d == s,
                p == x,
        ;
        lemma_round_div_exact(p * d, s, x);
    } else {
        assert(2 * s * x <= 2 * (p * d) + s && 2 * s * x > 2 * (p * d) - s) by (nonlinear_arith)
            requires
                2 * d * p <= 2 * (x * s) + d,
                2 * d * p > 2 * (x * s) - d,
                0 < d < s,
        ;
        lemma_round_div_exact(p * d, s, x);
    }
}

} // verus!

//! The holiday-light sequencer: four lighting modes, each rendering a
//! duty-cycle waveform onto three PWM output channels as a function of an
//! accumulated progress counter.

use vstd::prelude::*;

verus! {

/// Width of one GlowDim window of the progress accumulator.
pub const DIM_THRESHOLD: u32 = 500;

/// Largest duty value an output channel accepts.
pub const MAX_DUTY: u8 = 255;

/// Blocking pause, in milliseconds, that precedes every QuickBurst step.
pub const BURST_PAUSE_MS: u16 = 100;

/// The four lighting modes, advanced externally on a button edge.
#[derive(Clone, Copy, Debug, PartialEq, Eq, Structural)]
pub enum Mode {
    Base,
    GlowDim,
    Constant,
    QuickBurst,
}

impl Mode {
    /// The successor in the fixed four-mode cycle (wraps modulo four).
    pub open spec fn next_spec(self) -> Mode {
        match self {
            Mode::Base => Mode::GlowDim,
            Mode::GlowDim => Mode::Constant,
            Mode::Constant => Mode::QuickBurst,
            Mode::QuickBurst => Mode::Base,
        }
    }
}

/// The sequencer state: the active mode, its progress accumulator, the fixed
/// step size, and the duty value last driven onto each of the three chains.
#[derive(Clone, Copy, Debug, PartialEq, Eq, Structural)]
pub struct LightSequencer {
    pub mode: Mode,
    pub progress: u32,
    pub speed: u32,
    pub red_duty: u8,
    pub green_duty: u8,
    pub yellow_duty: u8,
}

/// The duty Base mode drives after the accumulator has reached `progress`:
/// a third of the accumulator, truncated to eight bits.
pub open spec fn base_duty(progress: int) -> int {
    (progress / 3) % 256
}

/// One Base step: the accumulator grows by `speed` and all three chains
/// receive the same truncated duty.
pub open spec fn base_step(s: LightSequencer) -> LightSequencer {
    let p = s.progress + s.speed;
    LightSequencer {
        progress: p as u32,
        red_duty: base_duty(p) as u8,
        green_duty: base_duty(p) as u8,
        yellow_duty: base_duty(p) as u8,
        ..s
    }
}

/// The parabolic rise-and-fall GlowDim curve at offset `p` within a window:
/// zero at both window ends, peaking near the midpoint, in integer
/// arithmetic only.
pub open spec fn glow_duty(p: int) -> int {
    2 * p - 2 * p * p / (DIM_THRESHOLD as int)
}

/// The window a progress value falls in.
pub open spec fn glow_window(progress: int) -> int {
    progress / (DIM_THRESHOLD as int)
}

/// The offset of a progress value within its window.
pub open spec fn glow_offset(progress: int) -> int {
    progress % (DIM_THRESHOLD as int)
}

/// One GlowDim step: the accumulator grows by `speed`; windows 0, 1 and 2
/// drive the curve onto the red, green and yellow chain respectively; any
/// later window resets the accumulator and writes nothing (the defensive
/// fallback the window match carries).
pub open spec fn glow_step(s: LightSequencer) -> LightSequencer {
    let p = s.progress + s.speed;
    let w = glow_window(p);
    let d = glow_duty(glow_offset(p)) as u8;
    if w == 0 {
        LightSequencer { progress: p as u32, red_duty: d, ..s }
    } else if w == 1 {
        LightSequencer { progress: p as u32, green_duty: d, ..s }
    } else if w == 2 {
        LightSequencer { progress: p as u32, yellow_duty: d, ..s }
    } else {
        LightSequencer { progress: 0, ..s }
    }
}

/// One Constant step: every chain at full duty, the accumulator untouched.
pub open spec fn constant_step(s: LightSequencer) -> LightSequencer {
    LightSequencer { red_duty: 255, green_duty: 255, yellow_duty: 255, ..s }
}

/// One QuickBurst step: the accumulator doubles as a sub-counter; values 0,
/// 1 and 2 light exactly the red, green and yellow chain at full duty and
/// advance the counter; any other value only resets the counter.
pub open spec fn quick_step(s: LightSequencer) -> LightSequencer {
    if s.progress == 0 {
        LightSequencer { progress: 1, red_duty: 255, green_duty: 0, yellow_duty: 0, ..s }
    } else if s.progress == 1 {
        LightSequencer { progress: 2, red_duty: 0, green_duty: 255, yellow_duty: 0, ..s }
    } else if s.progress == 2 {
        LightSequencer { progress: 3, red_duty: 0, green_duty: 0, yellow_duty: 255, ..s }
    } else {
        LightSequencer { progress: 0, ..s }
    }
}

/// One step of the active mode.
pub open spec fn step_spec(s: LightSequencer) -> LightSequencer {
    match s.mode {
        Mode::Base => base_step(s),
        Mode::GlowDim => glow_step(s),
        Mode::Constant => constant_step(s),
        Mode::QuickBurst => quick_step(s),
    }
}

/// The blocking pause a step of mode `m` asks for before its writes.
pub open spec fn step_pause(m: Mode) -> u16 {
    if m == Mode::QuickBurst {
        BURST_PAUSE_MS
    } else {
        0
    }
}

/// Advancing the mode: the next mode in the cycle, with a fresh accumulator.
pub open spec fn advance_spec(s: LightSequencer) -> LightSequencer {
    LightSequencer { mode: s.mode.next_spec(), progress: 0, ..s }
}

impl LightSequencer {
    /// A fresh sequencer: Base mode, nothing accumulated, all chains dark.
    pub fn new(speed: u32) -> (s: LightSequencer)
        ensures
            s == (LightSequencer {
                mode: Mode::Base,
                progress: 0,
                speed,
                red_duty: 0,
                green_duty: 0,
                yellow_duty: 0,
            }),
    {
        LightSequencer {
            mode: Mode::Base,
            progress: 0,
            speed,
            red_duty: 0,
            green_duty: 0,
            yellow_duty: 0,
        }
    }

    /// Moves to the next mode in the cycle and resets the accumulator,
    /// whatever the prior mode and progress were.
    pub fn advance_mode(&mut self)
        ensures
            *final(self) == advance_spec(*old(self)),
            final(self).progress == 0,
    {
        self.mode = match self.mode {
            Mode::Base => Mode::GlowDim,
            Mode::GlowDim => Mode::Constant,
            Mode::Constant => Mode::QuickBurst,
            Mode::QuickBurst => Mode::Base,
        };
        self.progress = 0;
    }

    /// One Base step.
    pub fn base_mode(&mut self)
        requires
            old(self).progress + old(self).speed <= u32::MAX,
        ensures
            *final(self) == base_step(*old(self)),
    {
        self.progress = self.progress + self.speed;
        let duty: u32 = (self.progress / 3) % 256;
        self.red_duty = duty as u8;
        self.green_duty = duty as u8;
        self.yellow_duty = duty as u8;
    }

    /// One GlowDim step.
    pub fn glow_dim(&mut self)
        requires
            old(self).progress + old(self).speed <= u32::MAX,
        ensures
            *final(self) == glow_step(*old(self)),
    {
        self.progress = self.progress + self.speed;

        let window = self.progress / DIM_THRESHOLD;
        let off = self.progress - window * DIM_THRESHOLD;
        assert(off == glow_offset(self.progress as int) && off < DIM_THRESHOLD);

        proof {
            assert(2 * off * off < 500000) by (nonlinear_arith)
                requires
                    off < 500,
            ;
        }
        let twice_sq = 2 * off * off;
        let curve_drop = twice_sq / DIM_THRESHOLD;
        proof {
            assert(curve_drop <= 2 * off && 2 * off - curve_drop <= 250) by (nonlinear_arith)
                requires
                    off < 500,
                    500 * curve_drop <= 2 * off * off,
                    2 * off * off < 500 * curve_drop + 500,
            ;
        }
        let duty: u32 = 2 * off - curve_drop;
        assert(duty == glow_duty(off as int));

        match window {
            0 => self.red_duty = duty as u8,
            1 => self.green_duty = duty as u8,
            2 => self.yellow_duty = duty as u8,
            _ => {
                self.progress = 0;
            },
        }
    }

    /// One Constant step.
    pub fn constant(&mut self)
        ensures
            *final(self) == constant_step(*old(self)),
    {
        self.red_duty = MAX_DUTY;
        self.green_duty = MAX_DUTY;
        self.yellow_duty = MAX_DUTY;
    }

    /// One QuickBurst step. The returned pause precedes the writes.
    pub fn quick_burst(&mut self) -> (pause_ms: u16)
        ensures
            *final(self) == quick_step(*old(self)),
            pause_ms == BURST_PAUSE_MS,
    {
        match self.progress {
            0 => {
                self.red_duty = 255;
                self.green_duty = 0;
                self.yellow_duty = 0;
                self.progress = 1;
            },
            1 => {
                self.red_duty = 0;
                self.green_duty = 255;
                self.yellow_duty = 0;
                self.progress = 2;
            },
            2 => {
                self.red_duty = 0;
                self.green_duty = 0;
                self.yellow_duty = 255;
                self.progress = 3;
            },
            _ => {
                self.progress = 0;
            },
        }
        BURST_PAUSE_MS
    }

    /// One step of the active mode: dispatches to that mode's render
    /// function and reports the blocking pause the step asks for.
    pub fn step(&mut self) -> (pause_ms: u16)
        requires
            old(self).mode == Mode::Base || old(self).mode == Mode::GlowDim
                ==> old(self).progress + old(self).speed <= u32::MAX,
        ensures
            *final(self) == step_spec(*old(self)),
            pause_ms == step_pause(old(self).mode),
    {
        match self.mode {
            Mode::Base => {
                self.base_mode();
                0
            },
            Mode::GlowDim => {
                self.glow_dim();
                0
            },
            Mode::Constant => {
                self.constant();
                0
            },
            Mode::QuickBurst => self.quick_burst(),
        }
    }
}

/// The state after `n` Base steps.
pub open spec fn base_iter(s: LightSequencer, n: nat) -> LightSequencer
    decreases n,
{
    if n == 0 {
        s
    } else {
        base_step(base_iter(s, (n - 1) as nat))
    }
}

/// With a positive speed, repeated Base steps drive a duty that is
/// non-decreasing from each step to the next, as long as the truncated
/// value has not yet wrapped past its 8-bit cap of 255.
pub proof fn lemma_base_duty_nondecreasing(s: LightSequencer, n: nat)
    requires
        s.mode == Mode::Base,
        s.speed > 0,
        s.progress + (n + 1) * s.speed <= 767,
    ensures
        base_iter(s, n).progress == s.progress + n * s.speed,
        base_iter(s, n).mode == Mode::Base && base_iter(s, n).speed == s.speed,
        n >= 1 ==> base_iter(s, n).red_duty == (s.progress + n * s.speed) / 3,
        n >= 1 ==> base_step(base_iter(s, n)).red_duty >= base_iter(s, n).red_duty,
        base_step(base_iter(s, n)).red_duty == (s.progress + (n + 1) * s.speed) / 3,
    decreases n,
{
    assert((n + 1) * s.speed == n * s.speed + s.speed) by (nonlinear_arith);
    if n == 0 {
        assert(n * s.speed == 0) by (nonlinear_arith)
            requires
                n == 0,
        ;
    } else {
        let m = (n - 1) as nat;
        assert(n * s.speed == m * s.speed + s.speed) by (nonlinear_arith)
            requires
                n == m + 1,
        ;
        assert(m * s.speed >= 0) by (nonlinear_arith);
        lemma_base_duty_nondecreasing(s, m);
    }
}

/// The GlowDim curve over one window: zero at both window ends, never
/// negative, and never above its midpoint value of 250 — a rise-and-fall
/// envelope in integer arithmetic alone.
pub proof fn lemma_glow_curve(p: int)
    requires
        0 <= p <= DIM_THRESHOLD,
    ensures
        glow_duty(0) == 0,
        glow_duty(DIM_THRESHOLD as int) == 0,
        glow_duty((DIM_THRESHOLD as int) / 2) == 250,
        0 <= glow_duty(p) <= 250,
{
    let drop = 2 * p * p / 500;
    assert(500 * drop <= 2 * p * p && 2 * p * p < 500 * drop + 500);
    assert(0 <= 2 * p - drop && 2 * p - drop <= 250) by (nonlinear_arith)
        requires
            0 <= p <= 500,
            500 * drop <= 2 * p * p,
            2 * p * p < 500 * drop + 500,
    ;
}

/// Each GlowDim window drives exactly one channel — red, green, yellow for
/// windows 0, 1 and 2 — and leaves the other two chains untouched; any
/// later window only resets the accumulator.
pub proof fn lemma_glow_single_channel(s: LightSequencer)
    requires
        s.progress + s.speed <= u32::MAX,
    ensures
        glow_window(s.progress + s.speed) == 0 ==> glow_step(s).green_duty == s.green_duty
            && glow_step(s).yellow_duty == s.yellow_duty,
        glow_window(s.progress + s.speed) == 1 ==> glow_step(s).red_duty == s.red_duty
            && glow_step(s).yellow_duty == s.yellow_duty,
        glow_window(s.progress + s.speed) == 2 ==> glow_step(s).red_duty == s.red_duty
            && glow_step(s).green_duty == s.green_duty,
        glow_window(s.progress + s.speed) >= 3 ==> glow_step(s).progress == 0 && glow_step(
            s,
        ).red_duty == s.red_duty && glow_step(s).green_duty == s.green_duty && glow_step(
            s,
        ).yellow_duty == s.yellow_duty,
{
}

/// From a fresh sub-counter, QuickBurst lights red, green and yellow in
/// turn, each alone at full duty; the fourth step writes nothing and only
/// resets the sub-counter, and the cycle then begins again at red. In
/// particular the channel lit by one write sub-state is dark in the next.
pub proof fn lemma_quick_burst_cycle(s: LightSequencer)
    requires
        s.progress == 0,
    ensures
        ({
            let s1 = quick_step(s);
            let s2 = quick_step(s1);
            let s3 = quick_step(s2);
            let s4 = quick_step(s3);
            let s5 = quick_step(s4);
            &&& s1.red_duty == 255 && s1.green_duty == 0 && s1.yellow_duty == 0
            &&& s2.green_duty == 255 && s2.red_duty == 0 && s2.yellow_duty == 0
            &&& s3.yellow_duty == 255 && s3.red_duty == 0 && s3.green_duty == 0
            &&& s4.progress == 0 && s4.red_duty == s3.red_duty && s4.green_duty == s3.green_duty
                && s4.yellow_duty == s3.yellow_duty
            &&& s5.red_duty == 255 && s5.green_duty == 0 && s5.yellow_duty == 0
        }),
{
}

/// In any write sub-state, QuickBurst lights exactly one channel, and the
/// following write sub-state lights a different one.
pub proof fn lemma_quick_burst_no_overlap(s: LightSequencer)
    requires
        s.progress <= 2,
    ensures
        ({
            let s1 = quick_step(s);
            &&& (if s1.red_duty == 255 {
                s1.green_duty == 0 && s1.yellow_duty == 0
            } else if s1.green_duty == 255 {
                s1.red_duty == 0 && s1.yellow_duty == 0
            } else {
                s1.yellow_duty == 255 && s1.red_duty == 0 && s1.green_duty == 0
            })
            &&& s.progress <= 1 ==> {
                let s2 = quick_step(s1);
                &&& !(s1.red_duty == 255 && s2.red_duty == 255)
                &&& !(s1.green_duty == 255 && s2.green_duty == 255)
                &&& !(s1.yellow_duty == 255 && s2.yellow_duty == 255)
            }
        }),
{
}

} // verus!

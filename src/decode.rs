use vstd::prelude::*;

use crate::gfxinfo::{copy_opt_str, copy_opts, opt_view, opts_view, FrameEvent, Vid, VidInfo};
use crate::rational::{fits_i64, lemma_i64_product_fits, Rational};

verus! {

/// Why a decode-side operation failed.
#[derive(Clone, Copy, Debug, PartialEq, Eq, Structural)]
pub enum DecodeError {
    /// The source has not been opened with `prepare`.
    NotPrepared,
    /// The source reports no positive frame rate.
    NoFrameRate,
    /// The source's time base is not a positive fraction.
    InvalidTimeBase,
    /// A tick clock would leave the range of `i64`.
    ClockOverflow,
    /// A seek time that is not a fraction of 32-bit parts with a positive denominator.
    SeekOutOfRange,
    /// The seek target stayed negative after the allowed wraps.
    SeekTooNegative,
    /// The seek target stayed past the end after the allowed wraps.
    SeekTooLarge,
}

/// Why a video asset could not be loaded.
#[derive(Clone, Copy, Debug, PartialEq, Eq, Structural)]
pub enum LoadError {
    /// No file matches the path.
    NothingLoaded,
    /// More than one file matches the path.
    TooManyFiles,
    /// A source cannot be both realtime and repeating.
    RealtimeAndRepeat,
}

/// What a decoded frame does to the presentation.
#[derive(Clone, Copy, Debug, PartialEq, Eq, Structural)]
pub enum FrameStep {
    /// The frame only establishes the timing baseline of a realtime source; read another.
    Skip,
    /// The frame is presented, at the clock's `last_frame_pts`.
    Present,
}

/// What happens when the source runs out of frames.
#[derive(Clone, Copy, Debug, PartialEq, Eq, Structural)]
pub enum EndAction {
    /// Seek the source back to its start, flush the decoder and keep reading.
    Rewind,
    /// Keep showing the last frame; the clock has moved on by its duration.
    Freeze,
}

/// The timing state of an open video source, in time-base ticks.
#[derive(Clone, Copy, Debug, PartialEq, Eq, Structural)]
pub struct DecodeClock {
    /// The continuous presentation clock: where the next frame will be presented.
    pub continuous_pts: i64,
    /// Where the last frame was presented.
    pub last_frame_pts: i64,
    /// The source's duration of the last frame.
    pub last_frame_duration: i64,
    /// The source timestamp of the last frame of a realtime source.
    pub last_source_pts: i64,
    /// The real (source) timestamp of the last frame, once there is one.
    pub last_real_pts: Option<i64>,
    /// Frames per second of the source: `fps_num / fps_den`.
    pub fps_num: i32,
    pub fps_den: i32,
}

/// A duration, with negative values counted as zero.
pub open spec fn nonneg(d: i64) -> i64 {
    if d < 0 {
        0
    } else {
        d
    }
}

/// The clock after a decoded frame with source timestamp `pts` (if it has one) and
/// source duration `dur`, with what the frame is for; `None` on overflow.
///
/// Realtime: the first frame only sets the baseline; later frames advance the clock
/// by the distance between consecutive source timestamps (by the last duration for a
/// frame without one). Otherwise the clock advances by the frame's own duration and
/// the real timestamp is the source's (the clock's, for a frame without one). A
/// negative duration or a backwards timestamp step counts as zero, so the clock never
/// runs backwards.
pub open spec fn frame_step(c: DecodeClock, realtime: bool, pts: Option<i64>, dur: i64) -> Option<
    (DecodeClock, FrameStep),
> {
    if realtime {
        if c.last_frame_duration > 0 {
            let src: int = match pts {
                Some(p) => p as int,
                None => c.last_source_pts + c.last_frame_duration,
            };
            let delta = src - c.last_source_pts;
            let next = c.continuous_pts + if delta < 0 {
                0
            } else {
                delta
            };
            if fits_i64(src) && fits_i64(delta) && fits_i64(next) {
                Some(
                    (
                        DecodeClock {
                            continuous_pts: next as i64,
                            last_frame_pts: c.continuous_pts,
                            last_frame_duration: nonneg(dur),
                            last_source_pts: src as i64,
                            last_real_pts: Some(c.continuous_pts),
                            fps_num: c.fps_num,
                            fps_den: c.fps_den,
                        },
                        FrameStep::Present,
                    ),
                )
            } else {
                None
            }
        } else {
            Some(
                (
                    DecodeClock {
                        last_frame_duration: nonneg(dur),
                        last_source_pts: match pts {
                            Some(p) => p,
                            None => c.last_source_pts,
                        },
                        ..c
                    },
                    FrameStep::Skip,
                ),
            )
        }
    } else {
        let next = c.continuous_pts + nonneg(dur);
        if fits_i64(next) {
            Some(
                (
                    DecodeClock {
                        continuous_pts: next as i64,
                        last_frame_pts: c.continuous_pts,
                        last_frame_duration: nonneg(dur),
                        last_real_pts: Some(
                            match pts {
                                Some(p) => p,
                                None => c.continuous_pts,
                            },
                        ),
                        ..c
                    },
                    FrameStep::Present,
                ),
            )
        } else {
            None
        }
    }
}

/// The clock at the end of the stream: a repeating source of known positive duration
/// rewinds with its clock untouched; any other keeps its last frame while the clock
/// moves on by the last frame's duration. `None` on overflow.
pub open spec fn end_step(c: DecodeClock, repeat: bool, duration: int) -> Option<
    (DecodeClock, EndAction),
> {
    if repeat && duration > 0 {
        Some((c, EndAction::Rewind))
    } else {
        let next = c.continuous_pts + c.last_frame_duration;
        if fits_i64(next) {
            Some(
                (
                    DecodeClock { continuous_pts: next as i64, last_frame_pts: next as i64, ..c },
                    EndAction::Freeze,
                ),
            )
        } else {
            None
        }
    }
}

impl DecodeClock {
    /// A clock at zero for a source with frame rate `fps`.
    pub fn new(fps_num: i32, fps_den: i32) -> (r: DecodeClock)
        ensures
            r == (DecodeClock {
                continuous_pts: 0,
                last_frame_pts: 0,
                last_frame_duration: 0,
                last_source_pts: 0,
                last_real_pts: None,
                fps_num,
                fps_den,
            }),
    {
        DecodeClock {
            continuous_pts: 0,
            last_frame_pts: 0,
            last_frame_duration: 0,
            last_source_pts: 0,
            last_real_pts: None,
            fps_num,
            fps_den,
        }
    }

    /// Accounts for a decoded frame (see `frame_step`).
    pub fn on_frame(&mut self, realtime: bool, pts: Option<i64>, dur: i64) -> (r: Result<
        FrameStep,
        DecodeError,
    >)
        ensures
            match frame_step(*old(self), realtime, pts, dur) {
                Some((c, s)) => r == Ok::<FrameStep, DecodeError>(s) && *final(self) == c,
                None => r == Err::<FrameStep, DecodeError>(DecodeError::ClockOverflow)
                    && *final(self) == *old(self),
            },
    {
        let dur: i64 = if dur < 0 {
            0
        } else {
            dur
        };
        if realtime {
            if self.last_frame_duration > 0 {
                let src: i128 = match pts {
                    Some(p) => p as i128,
                    None => self.last_source_pts as i128 + self.last_frame_duration as i128,
                };
                let delta: i128 = src - self.last_source_pts as i128;
                let step: i128 = if delta < 0 {
                    0
                } else {
                    delta
                };
                let next: i128 = self.continuous_pts as i128 + step;
                if src < i64::MIN as i128 || src > i64::MAX as i128 || delta < i64::MIN as i128
                    || delta > i64::MAX as i128 || next < i64::MIN as i128 || next > i64::MAX as i128 {
                    return Err(DecodeError::ClockOverflow);
                }
                let cur = self.continuous_pts;
                self.continuous_pts = next as i64;
                self.last_frame_pts = cur;
                self.last_frame_duration = dur;
                self.last_source_pts = src as i64;
                self.last_real_pts = Some(cur);
                Ok(FrameStep::Present)
            } else {
                self.last_frame_duration = dur;
                if let Some(p) = pts {
                    self.last_source_pts = p;
                }
                Ok(FrameStep::Skip)
            }
        } else {
            let next: i128 = self.continuous_pts as i128 + dur as i128;
            if next < i64::MIN as i128 || next > i64::MAX as i128 {
                return Err(DecodeError::ClockOverflow);
            }
            let cur = self.continuous_pts;
            self.continuous_pts = next as i64;
            self.last_frame_pts = cur;
            self.last_frame_duration = dur;
            self.last_real_pts = Some(
                match pts {
                    Some(p) => p,
                    None => cur,
                },
            );
            Ok(FrameStep::Present)
        }
    }

    /// Accounts for the end of the stream (see `end_step`).
    pub fn on_end_of_stream(&mut self, repeat: bool, duration: i64) -> (r: Result<
        EndAction,
        DecodeError,
    >)
        ensures
            match end_step(*old(self), repeat, duration as int) {
                Some((c, a)) => r == Ok::<EndAction, DecodeError>(a) && *final(self) == c,
                None => r == Err::<EndAction, DecodeError>(DecodeError::ClockOverflow)
                    && *final(self) == *old(self),
            },
    {
        if repeat && duration > 0 {
            return Ok(EndAction::Rewind);
        }
        let next: i128 = self.continuous_pts as i128 + self.last_frame_duration as i128;
        if next < i64::MIN as i128 || next > i64::MAX as i128 {
            return Err(DecodeError::ClockOverflow);
        }
        self.continuous_pts = next as i64;
        self.last_frame_pts = next as i64;
        Ok(EndAction::Freeze)
    }
}

impl DecodeClock {
    /// The recorded frame duration is never negative.
    pub open spec fn wf(self) -> bool {
        self.last_frame_duration >= 0
    }
}

/// The continuous clock never runs backwards: every decoded frame and every end of
/// stream leaves it where it was or moves it forward, and keeps the clock well-formed.
pub proof fn lemma_clock_monotone(
    c: DecodeClock,
    realtime: bool,
    pts: Option<i64>,
    dur: i64,
    repeat: bool,
    duration: int,
)
    requires
        c.wf(),
    ensures
        frame_step(c, realtime, pts, dur) matches Some((c2, _)) ==> c2.wf() && c2.continuous_pts
            >= c.continuous_pts,
        end_step(c, repeat, duration) matches Some((c2, _)) ==> c2.wf() && c2.continuous_pts
            >= c.continuous_pts,
{
}

/// The clocks after each of `frames` (source timestamp, duration) in turn, from `c`,
/// for a source that is not realtime; `None` on overflow.
pub open spec fn clock_trace(c: DecodeClock, frames: Seq<(Option<i64>, i64)>) -> Option<
    Seq<DecodeClock>,
>
    decreases frames.len(),
{
    if frames.len() == 0 {
        Some(seq![])
    } else {
        match frame_step(c, false, frames[0].0, frames[0].1) {
            Some((c1, _)) => match clock_trace(c1, frames.drop_first()) {
                Some(t) => Some(seq![c1] + t),
                None => None,
            },
            None => None,
        }
    }
}

/// The last clock of a trace, or `c` for an empty one.
pub open spec fn trace_end(c: DecodeClock, t: Seq<DecodeClock>) -> DecodeClock {
    if t.len() == 0 {
        c
    } else {
        t.last()
    }
}

proof fn lemma_trace_durations(c: DecodeClock, frames: Seq<(Option<i64>, i64)>)
    requires
        clock_trace(c, frames) is Some,
    ensures
        clock_trace(c, frames)->0.len() == frames.len(),
        forall|i: int|
            0 <= i < frames.len() ==> (#[trigger] clock_trace(c, frames)->0[i]).last_frame_duration
                == nonneg(frames[i].1),
    decreases frames.len(),
{
    if frames.len() > 0 {
        let (c1, _) = frame_step(c, false, frames[0].0, frames[0].1)->0;
        lemma_trace_durations(c1, frames.drop_first());
        let t = clock_trace(c1, frames.drop_first())->0;
        assert forall|i: int| 0 <= i < frames.len() implies (#[trigger] clock_trace(
            c,
            frames,
        )->0[i]).last_frame_duration == nonneg(frames[i].1) by {
            if i > 0 {
                assert(clock_trace(c, frames)->0[i] == t[i - 1]);
                assert(frames.drop_first()[i - 1] == frames[i]);
            }
        }
    }
}

/// Loop-restart determinism: a repeating source that is not realtime, decoded through
/// one full loop, rewound at its end, and decoded through the loop again, presents the
/// second pass with exactly the frame durations of the first, whatever the clock
/// stood at.
pub proof fn lemma_loop_restart_determinism(
    c: DecodeClock,
    frames: Seq<(Option<i64>, i64)>,
    duration: int,
)
    requires
        duration > 0,
        clock_trace(c, frames) is Some,
        clock_trace(trace_end(c, clock_trace(c, frames)->0), frames) is Some,
    ensures
        end_step(trace_end(c, clock_trace(c, frames)->0), true, duration) == Some(
            (trace_end(c, clock_trace(c, frames)->0), EndAction::Rewind),
        ),
        ({
            let first = clock_trace(c, frames)->0;
            let second = clock_trace(trace_end(c, first), frames)->0;
            &&& first.len() == second.len()
            &&& forall|i: int|
                0 <= i < first.len() ==> (#[trigger] first[i]).last_frame_duration
                    == second[i].last_frame_duration
        }),
{
    let first = clock_trace(c, frames)->0;
    lemma_trace_durations(c, frames);
    lemma_trace_durations(trace_end(c, first), frames);
}

/// Frozen-frame clock progression: once a source that does not repeat has ended, every
/// further decode call keeps the last frame and strictly advances the continuous
/// clock, provided the last frame has a positive duration.
pub proof fn lemma_frozen_clock_advances(c: DecodeClock, duration: int)
    requires
        c.last_frame_duration > 0,
        end_step(c, false, duration) is Some,
    ensures
        ({
            let (c2, a) = end_step(c, false, duration)->0;
            &&& a == EndAction::Freeze
            &&& c2.continuous_pts > c.continuous_pts
            &&& c2.last_frame_duration == c.last_frame_duration
            &&& c2.last_real_pts == c.last_real_pts
        }),
{
}


/// `n` moved up by steps of `step` until it is not negative, giving up when the
/// `budget`-th step would be needed.
pub open spec fn raise_spec(n: int, step: int, budget: int) -> Option<int>
    decreases budget,
{
    if n >= 0 {
        Some(n)
    } else if budget <= 1 {
        None
    } else {
        raise_spec(n + step, step, budget - 1)
    }
}

/// `n` moved down by steps of `step` until it is below `step`, giving up when the
/// `budget`-th step would be needed.
pub open spec fn lower_spec(n: int, step: int, budget: int) -> Option<int>
    decreases budget,
{
    if n < step {
        Some(n)
    } else if budget <= 1 {
        None
    } else {
        lower_spec(n - step, step, budget - 1)
    }
}

/// The number of wraps a seek target may take in each direction.
pub const SEEK_WRAP_BUDGET: i32 = 100;

/// The number of frames a resync may decode.
pub const RESYNC_BUDGET: i32 = 1000;

pub open spec fn fits_i32(x: int) -> bool {
    i32::MIN <= x <= i32::MAX
}

/// The ticks of one twentieth of a frame, rounded down.
pub open spec fn tolerance_ticks(tb: (i32, i32), fps_num: int, fps_den: int) -> int {
    (tb.1 * fps_den) / (20 * tb.0 * fps_num)
}

/// Where a seek goes, in ticks, and the earliest real timestamp that ends the resync.
#[derive(Clone, Copy, Debug, PartialEq, Eq, Structural)]
pub struct SeekPlan {
    pub ts: i64,
    pub pts_min: i64,
}

/// The timing of the last presented frame of `v` as seconds: its real and its
/// continuous timestamp, each `ticks * time base` as an unreduced fraction; `None`
/// when one of them does not fit 32-bit parts.
pub open spec fn frame_event_spec(v: &VidData, name: Seq<char>, r: Option<FrameEvent>) -> bool {
    let tb = v.info.timebase_q;
    let real_t = match v.clock {
        Some(c) => match c.last_real_pts {
            Some(p) => p as int,
            None => 0,
        },
        None => 0,
    };
    let cont = match v.clock {
        Some(c) => c.last_frame_pts as int,
        None => 0,
    };
    let tbq = if v.clock is Some {
        tb
    } else {
        (0i32, 1i32)
    };
    &&& (r is Some <==> fits_i32(real_t * tbq.0) && fits_i32(cont * tbq.0))
    &&& (r matches Some(e) ==> e.stream@ == name && e.real_ts == ((real_t * tbq.0) as i32, tbq.1)
        && e.continuous_ts == ((cont * tbq.0) as i32, tbq.1))
}

/// The plan of a seek to `sec` seconds (absolute when `exact`, else from `last_real`
/// ticks) in a source of time base `tb` and `duration` ticks, with the target wrapped
/// into `[0, duration)`. Its timestamp is the target rounded down; the resync window
/// starts one twentieth of a frame earlier, at zero when that falls outside the source.
pub open spec fn seek_plan_spec(
    sec: Rational,
    exact: bool,
    last_real: int,
    tb: (i32, i32),
    fps_num: int,
    fps_den: int,
    duration: int,
) -> Result<SeekPlan, DecodeError> {
    if !(fits_i32(sec.num as int) && 0 < sec.den <= i32::MAX) {
        Err(DecodeError::SeekOutOfRange)
    } else {
        let d = sec.den * tb.0;
        let n0 = sec.num * tb.1 + if exact {
            0
        } else {
            last_real * d
        };
        match raise_spec(n0, duration * d, SEEK_WRAP_BUDGET as int) {
            None => Err(DecodeError::SeekTooNegative),
            Some(n1) => match lower_spec(n1, duration * d, SEEK_WRAP_BUDGET as int) {
                None => Err(DecodeError::SeekTooLarge),
                Some(n2) => {
                    let ts = n2 / d;
                    let m = ts - tolerance_ticks(tb, fps_num, fps_den);
                    Ok(
                        SeekPlan {
                            ts: ts as i64,
                            pts_min: if m < 0 || m >= duration {
                                0
                            } else {
                                m as i64
                            },
                        },
                    )
                },
            },
        }
    }
}

/// How a resync after a seek ended, or that it goes on.
#[derive(Clone, Copy, Debug, PartialEq, Eq, Structural)]
pub enum ResyncStep {
    /// Decode another frame.
    Continue,
    /// The decoded frame lies in the window before the target.
    Reached,
    /// The source wrapped around before reaching the window.
    WrappedAround,
    /// The frame budget ran out; the seek is left where it got.
    GaveUp,
}

/// The decode-forward phase of a seek: frames are discarded until one reaches the
/// window before the target.
#[derive(Clone, Copy, Debug, PartialEq, Eq, Structural)]
pub struct Resync {
    pub pts_min: i64,
    /// The real timestamp of the first frame decoded after the seek.
    pub first: Option<i64>,
    pub budget: i32,
}

impl Resync {
    pub fn new(plan: &SeekPlan) -> (r: Resync)
        ensures
            r == (Resync { pts_min: plan.pts_min, first: None, budget: RESYNC_BUDGET }),
    {
        Resync { pts_min: plan.pts_min, first: None, budget: RESYNC_BUDGET }
    }

    /// Accounts for a frame decoded with real timestamp `real_pts`.
    pub fn on_frame(&mut self, real_pts: i64) -> (r: ResyncStep)
        requires
            old(self).budget > i32::MIN,
        ensures
            final(self).pts_min == old(self).pts_min,
            final(self).budget == old(self).budget - 1,
            real_pts >= old(self).pts_min ==> r == ResyncStep::Reached && final(self).first == old(
                self,
            ).first,
            real_pts < old(self).pts_min ==> match old(self).first {
                Some(f) => if real_pts < f {
                    r == ResyncStep::WrappedAround && final(self).first == old(self).first
                } else {
                    final(self).first == old(self).first && (r == if old(self).budget - 1 <= 0 {
                        ResyncStep::GaveUp
                    } else {
                        ResyncStep::Continue
                    })
                },
                None => final(self).first == Some(real_pts) && (r == if old(self).budget - 1 <= 0 {
                    ResyncStep::GaveUp
                } else {
                    ResyncStep::Continue
                }),
            },
    {
        self.budget = self.budget - 1;
        if real_pts >= self.pts_min {
            return ResyncStep::Reached;
        }
        match self.first {
            Some(f) => {
                if real_pts < f {
                    return ResyncStep::WrappedAround;
                }
            },
            None => {
                self.first = Some(real_pts);
            },
        }
        if self.budget <= 0 {
            ResyncStep::GaveUp
        } else {
            ResyncStep::Continue
        }
    }
}

/// Seek accuracy, as far as it is decided here: a resync that ends by reaching the
/// window leaves a frame whose real timestamp is at least the window's start, which
/// lies at most one twentieth of a frame (rounded down to ticks) before the target.
pub proof fn lemma_seek_reaches_window(
    r: Resync,
    real_pts: i64,
    sec: Rational,
    exact: bool,
    last_real: int,
    tb: (i32, i32),
    fps_num: int,
    fps_den: int,
    duration: int,
)
    requires
        0 <= duration <= i32::MAX,
        tb.0 > 0,
        tb.1 > 0,
        fps_num > 0,
        fps_den > 0,
        seek_plan_spec(sec, exact, last_real, tb, fps_num, fps_den, duration) is Ok,
        r.pts_min == seek_plan_spec(sec, exact, last_real, tb, fps_num, fps_den, duration)->Ok_0.pts_min,
        real_pts >= r.pts_min,
    ensures
        ({
            let plan = seek_plan_spec(sec, exact, last_real, tb, fps_num, fps_den, duration)->Ok_0;
            &&& real_pts >= plan.pts_min
            &&& 0 <= plan.ts < duration
            &&& (plan.pts_min == 0 || plan.pts_min == plan.ts - tolerance_ticks(tb, fps_num, fps_den))
        }),
{
    let d = sec.den * tb.0;
    let n0 = sec.num * tb.1 + if exact {
        0
    } else {
        last_real * d
    };
    assert(d > 0) by (nonlinear_arith)
        requires
            sec.den > 0,
            tb.0 > 0,
            d == sec.den * tb.0,
    ;
    assert(duration * d >= 0) by (nonlinear_arith)
        requires
            duration >= 0,
            d > 0,
    ;
    let n1 = raise_spec(n0, duration * d, SEEK_WRAP_BUDGET as int)->0;
    lemma_raise_nonneg(n0, duration * d, SEEK_WRAP_BUDGET as int);
    lemma_lower_range(n1, duration * d, SEEK_WRAP_BUDGET as int);
    let n2 = lower_spec(n1, duration * d, SEEK_WRAP_BUDGET as int)->0;
    lemma_floor_below(n2, d, duration);
}

/// With `0 <= n < k * d`, the quotient `n / d` lies in `[0, k)`.
proof fn lemma_floor_below(n: int, d: int, k: int)
    requires
        d > 0,
        0 <= n < k * d,
    ensures
        0 <= n / d < k,
{
    vstd::arithmetic::div_mod::lemma_div_pos_is_pos(n, d);
    vstd::arithmetic::div_mod::lemma_fundamental_div_mod(n, d);
    let q = n / d;
    assert(d * q <= n);
    assert(q < k) by (nonlinear_arith)
        requires
            d > 0,
            d * q <= n,
            n < k * d,
    ;
}

proof fn lemma_raise_nonneg(n: int, step: int, budget: int)
    requires
        raise_spec(n, step, budget) is Some,
    ensures
        raise_spec(n, step, budget)->0 >= 0,
    decreases budget,
{
    if n < 0 && budget > 1 {
        lemma_raise_nonneg(n + step, step, budget - 1);
    }
}

proof fn lemma_lower_range(n: int, step: int, budget: int)
    requires
        n >= 0,
        step >= 0,
        lower_spec(n, step, budget) is Some,
    ensures
        0 <= lower_spec(n, step, budget)->0 < step,
    decreases budget,
{
    if n >= step && budget > 1 {
        lemma_lower_range(n - step, step, budget - 1);
    }
}

/// What `VidData::seek_plan` gives: nothing for a realtime or non-repeating source;
/// otherwise `seek_plan_spec` over the open source's time base, frame rate, duration
/// and last real timestamp.
pub open spec fn seek_outcome(v: &VidData, sec: Rational, exact: bool) -> Result<
    Option<SeekPlan>,
    DecodeError,
> {
    if v.info.realtime || !v.info.repeat {
        Ok(None)
    } else {
        match v.clock {
            None => Err(DecodeError::NotPrepared),
            Some(c) => if !(v.info.timebase_q.0 > 0 && v.info.timebase_q.1 > 0 && c.fps_num > 0
                && c.fps_den > 0) {
                Err(DecodeError::InvalidTimeBase)
            } else {
                match seek_plan_spec(
                    sec,
                    exact,
                    match c.last_real_pts {
                        Some(p) => p as int,
                        None => 0,
                    },
                    v.info.timebase_q,
                    c.fps_num as int,
                    c.fps_den as int,
                    duration_ticks(v.info.duration_tbu_q),
                ) {
                    Ok(p) => Ok(Some(p)),
                    Err(e) => Err(e),
                }
            },
        }
    }
}

/// The duration of a source in whole ticks, from `(num, den)`; 0 when unknown.
pub open spec fn duration_ticks(q: (i32, i32)) -> int {
    if q.1 > 0 && q.0 > 0 {
        q.0 / q.1
    } else {
        0
    }
}

/// What the container reports of a video stream, read by the caller.
#[derive(Clone, Copy, Debug, PartialEq, Eq, Structural)]
pub struct StreamProbe {
    pub width: u32,
    pub height: u32,
    /// The stream's duration in time-base ticks (zero or less when unknown).
    pub stream_duration: i64,
    /// The container's duration (zero or less when unknown).
    pub container_duration: i64,
    pub time_base_num: i32,
    pub time_base_den: i32,
}

/// A video asset and, once opened, its decode timing state.
#[derive(Debug)]
pub struct VidData {
    pub info: VidInfo,
    pub clock: Option<DecodeClock>,
}

impl VidData {
    /// The loaded asset of `spec`. `matches` is what the path's glob matched (`None`
    /// when it is no pattern, and stands for itself); exactly one file must result.
    pub fn load(spec: &Vid, matches: Option<Vec<String>>, probe: &StreamProbe) -> (r: Result<
        VidData,
        LoadError,
    >)
        ensures
            ({
                let n = match matches {
                    Some(m) => m@.len(),
                    None => 1,
                };
                &&& n == 0 ==> r == Err::<VidData, LoadError>(LoadError::NothingLoaded)
                &&& n > 1 ==> r == Err::<VidData, LoadError>(LoadError::TooManyFiles)
                &&& n == 1 && spec.realtime && spec.repeat ==> r == Err::<VidData, LoadError>(
                    LoadError::RealtimeAndRepeat,
                )
                &&& n == 1 && !(spec.realtime && spec.repeat) ==> r is Ok
            }),
            r matches Ok(v) ==> {
                &&& v.clock is None
                &&& v.info.name@ == spec.name@
                &&& v.info.path@ == (match matches {
                    Some(m) => m@[0]@,
                    None => spec.path@,
                })
                &&& v.info.repeat == spec.repeat
                &&& v.info.realtime == spec.realtime
                &&& v.info.hardware_decode == spec.hardware_decode
                &&& v.info.software_filter == spec.software_filter
                &&& opt_view(v.info.codec) == opt_view(spec.codec)
                &&& opt_view(v.info.format) == opt_view(spec.format)
                &&& opts_view(v.info.opts) == opts_view(spec.opts)
                &&& v.info.size == (probe.width, probe.height)
                &&& v.info.timebase_q == (probe.time_base_num, probe.time_base_den)
                &&& v.info.duration_tbu_q == if probe.stream_duration > 0 {
                    (probe.stream_duration as i32, 1i32)
                } else if probe.container_duration > 0 {
                    (probe.container_duration as i32, 1i32)
                } else {
                    (0i32, 1i32)
                }
            },
    {
        let path = match matches {
            Some(m) => {
                if m.len() == 0 {
                    return Err(LoadError::NothingLoaded);
                }
                if m.len() > 1 {
                    return Err(LoadError::TooManyFiles);
                }
                m[0].clone()
            },
            None => spec.path.clone(),
        };
        if spec.realtime && spec.repeat {
            return Err(LoadError::RealtimeAndRepeat);
        }
        let duration_tbu_q: (i32, i32) = if probe.stream_duration > 0 {
            (#[verifier::truncate] (probe.stream_duration as i32), 1)
        } else if probe.container_duration > 0 {
            (#[verifier::truncate] (probe.container_duration as i32), 1)
        } else {
            (0, 1)
        };
        Ok(
            VidData {
                info: VidInfo {
                    name: spec.name.clone(),
                    path,
                    repeat: spec.repeat,
                    codec: copy_opt_str(&spec.codec),
                    format: copy_opt_str(&spec.format),
                    opts: copy_opts(&spec.opts),
                    size: (probe.width, probe.height),
                    duration_tbu_q,
                    timebase_q: (probe.time_base_num, probe.time_base_den),
                    realtime: spec.realtime,
                    hardware_decode: spec.hardware_decode,
                    software_filter: spec.software_filter,
                },
                clock: None,
            },
        )
    }

    /// Opens the decode state, once: the frame rate is the stream's own rate when
    /// positive, else its average rate when positive. Calling it again does nothing.
    pub fn prepare(&mut self, rate: (i32, i32), avg_rate: (i32, i32)) -> (r: Result<(), DecodeError>)
        ensures
            final(self).info == old(self).info,
            old(self).clock is Some ==> r is Ok && final(self).clock == old(self).clock,
            old(self).clock is None ==> ({
                let pos = |q: (i32, i32)| q.1 != 0 && (q.0 > 0) == (q.1 > 0) && q.0 != 0;
                if pos(rate) {
                    r is Ok && final(self).clock == Some(DecodeClock::new_spec(rate.0, rate.1))
                } else if pos(avg_rate) {
                    r is Ok && final(self).clock == Some(DecodeClock::new_spec(avg_rate.0, avg_rate.1))
                } else {
                    r == Err::<(), DecodeError>(DecodeError::NoFrameRate) && final(self).clock is None
                }
            }),
    {
        if self.clock.is_some() {
            return Ok(());
        }
        let pos_rate = rate.1 != 0 && (rate.0 > 0) == (rate.1 > 0) && rate.0 != 0;
        let pos_avg = avg_rate.1 != 0 && (avg_rate.0 > 0) == (avg_rate.1 > 0) && avg_rate.0 != 0;
        let (n, d) = if pos_rate {
            rate
        } else if pos_avg {
            avg_rate
        } else {
            return Err(DecodeError::NoFrameRate);
        };
        self.clock = Some(DecodeClock::new(n, d));
        Ok(())
    }

    /// Drops the decode state; the next `prepare` starts from scratch.
    pub fn reset(&mut self)
        ensures
            final(self).info == old(self).info,
            final(self).clock is None,
    {
        self.clock = None;
    }

    /// Where the last frame was presented, in ticks (0 before the source is open).
    pub fn last_frame_pts(&self) -> (r: i64)
        ensures
            r == match self.clock {
                Some(c) => c.last_frame_pts,
                None => 0,
            },
    {
        match &self.clock {
            Some(c) => c.last_frame_pts,
            None => 0,
        }
    }

    /// The duration of the last frame, in ticks (0 before the source is open).
    pub fn last_frame_duration(&self) -> (r: i64)
        ensures
            r == match self.clock {
                Some(c) => c.last_frame_duration,
                None => 0,
            },
    {
        match &self.clock {
            Some(c) => c.last_frame_duration,
            None => 0,
        }
    }

    /// The real timestamp of the last frame, in ticks.
    pub fn last_real_pts(&self) -> (r: Option<i64>)
        ensures
            r == match self.clock {
                Some(c) => c.last_real_pts,
                None => None,
            },
    {
        match &self.clock {
            Some(c) => c.last_real_pts,
            None => None,
        }
    }

    /// The time base, `(0, 1)` before the source is open.
    pub fn time_base(&self) -> (r: (i32, i32))
        ensures
            r == if self.clock is Some {
                self.info.timebase_q
            } else {
                (0i32, 1i32)
            },
    {
        if self.clock.is_some() {
            self.info.timebase_q
        } else {
            (0, 1)
        }
    }

    /// The source's duration in whole ticks.
    pub fn duration_tbu(&self) -> (r: i64)
        ensures
            r == duration_ticks(self.info.duration_tbu_q),
    {
        let (n, d) = self.info.duration_tbu_q;
        if d > 0 && n > 0 {
            (n / d) as i64
        } else {
            0
        }
    }

    /// Accounts for a decoded frame of this source (see `frame_step`).
    pub fn on_frame(&mut self, pts: Option<i64>, dur: i64) -> (r: Result<FrameStep, DecodeError>)
        ensures
            final(self).info == old(self).info,
            match old(self).clock {
                None => r == Err::<FrameStep, DecodeError>(DecodeError::NotPrepared)
                    && final(self).clock is None,
                Some(c) => match frame_step(c, old(self).info.realtime, pts, dur) {
                    Some((c2, s)) => r == Ok::<FrameStep, DecodeError>(s) && final(self).clock
                        == Some(c2),
                    None => r == Err::<FrameStep, DecodeError>(DecodeError::ClockOverflow)
                        && final(self).clock == Some(c),
                },
            },
    {
        let realtime = self.info.realtime;
        match &mut self.clock {
            Some(c) => c.on_frame(realtime, pts, dur),
            None => Err(DecodeError::NotPrepared),
        }
    }

    /// Accounts for the end of this source's stream (see `end_step`).
    pub fn on_end_of_stream(&mut self) -> (r: Result<EndAction, DecodeError>)
        ensures
            final(self).info == old(self).info,
            match old(self).clock {
                None => r == Err::<EndAction, DecodeError>(DecodeError::NotPrepared)
                    && final(self).clock is None,
                Some(c) => match end_step(
                    c,
                    old(self).info.repeat,
                    duration_ticks(old(self).info.duration_tbu_q),
                ) {
                    Some((c2, a)) => r == Ok::<EndAction, DecodeError>(a) && final(self).clock
                        == Some(c2),
                    None => r == Err::<EndAction, DecodeError>(DecodeError::ClockOverflow)
                        && final(self).clock == Some(c),
                },
            },
    {
        let repeat = self.info.repeat;
        let duration = self.duration_tbu();
        match &mut self.clock {
            Some(c) => c.on_end_of_stream(repeat, duration),
            None => Err(DecodeError::NotPrepared),
        }
    }

    /// The plan of a seek to `sec` seconds: nothing for a realtime or non-repeating
    /// source (seeking those is meaningless), else `seek_plan_spec` over the open
    /// source's time base, frame rate, duration and last real timestamp.
    pub fn seek_plan(&self, sec: Rational, exact: bool) -> (r: Result<Option<SeekPlan>, DecodeError>)
        ensures
            r == seek_outcome(self, sec, exact),
    {
        if self.info.realtime || !self.info.repeat {
            return Ok(None);
        }
        let c = match &self.clock {
            Some(c) => c,
            None => return Err(DecodeError::NotPrepared),
        };
        let (tbn, tbd) = self.info.timebase_q;
        if !(tbn > 0 && tbd > 0 && c.fps_num > 0 && c.fps_den > 0) {
            return Err(DecodeError::InvalidTimeBase);
        }
        let last: i64 = match c.last_real_pts {
            Some(p) => p,
            None => 0,
        };
        let duration = self.duration_tbu();
        match plan_seek(sec, exact, last, tbn, tbd, c.fps_num, c.fps_den, duration) {
            Ok(p) => Ok(Some(p)),
            Err(e) => Err(e),
        }
    }

    /// The timing of the last presented frame of this source, as seconds: its real
    /// and its continuous timestamp, each `ticks * time base` as an unreduced fraction;
    /// `None` when one of them does not fit 32-bit parts.
    pub fn last_frame_event(&self, name: &String) -> (r: Option<FrameEvent>)
        ensures
            frame_event_spec(self, name@, r),
    {
        let (tbn, tbd) = self.time_base();
        let real_t: i64 = match self.last_real_pts() {
            Some(p) => p,
            None => 0,
        };
        let cont = self.last_frame_pts();
        proof {
            lemma_i64_product_fits(real_t as int, tbn as int);
            lemma_i64_product_fits(cont as int, tbn as int);
        }
        let a = real_t as i128 * tbn as i128;
        let b = cont as i128 * tbn as i128;
        if a < i32::MIN as i128 || a > i32::MAX as i128 || b < i32::MIN as i128 || b > i32::MAX as i128 {
            return None;
        }
        Some(FrameEvent { stream: name.clone(), real_ts: (a as i32, tbd), continuous_ts: (b as i32, tbd) })
    }
}

impl DecodeClock {
    pub open spec fn new_spec(fps_num: i32, fps_den: i32) -> DecodeClock {
        DecodeClock {
            continuous_pts: 0,
            last_frame_pts: 0,
            last_frame_duration: 0,
            last_source_pts: 0,
            last_real_pts: None,
            fps_num,
            fps_den,
        }
    }
}

/// Computes `seek_plan_spec` exactly, in 128-bit integers.
fn plan_seek(
    sec: Rational,
    exact: bool,
    last: i64,
    tbn: i32,
    tbd: i32,
    fps_num: i32,
    fps_den: i32,
    duration: i64,
) -> (r: Result<SeekPlan, DecodeError>)
    requires
        tbn > 0,
        tbd > 0,
        fps_num > 0,
        fps_den > 0,
        0 <= duration <= i32::MAX,
    ensures
        r == seek_plan_spec(sec, exact, last as int, (tbn, tbd), fps_num as int, fps_den as int, duration as int),
{
    if !(sec.num >= i32::MIN as i64 && sec.num <= i32::MAX as i64 && sec.den > 0 && sec.den <= i32::MAX as i64) {
        return Err(DecodeError::SeekOutOfRange);
    }
    let big: i128 = 0x4000_0000_0000_0000_0000_0000_0000_0000;
    assert(0 < sec.den * tbn <= 0x4000_0000_0000_0000) by (nonlinear_arith)
        requires
            0 < sec.den <= i32::MAX,
            0 < tbn <= i32::MAX,
    ;
    let d: i128 = sec.den as i128 * tbn as i128;
    assert(-0x4000_0000_0000_0000 <= sec.num * tbd <= 0x4000_0000_0000_0000) by (nonlinear_arith)
        requires
            i32::MIN <= sec.num <= i32::MAX,
            0 < tbd <= i32::MAX,
    ;
    let base: i128 = sec.num as i128 * tbd as i128;
    let shift: i128 = if exact {
        0
    } else {
        assert(-big <= last * d <= big) by (nonlinear_arith)
            requires
                i64::MIN <= last <= i64::MAX,
                0 < d <= 0x4000_0000_0000_0000,
                big == 0x4000_0000_0000_0000_0000_0000_0000_0000,
        ;
        last as i128 * d
    };
    assert(0 <= duration * d <= 0x2000_0000_0000_0000_0000_0000) by (nonlinear_arith)
        requires
            0 <= duration <= i32::MAX,
            0 < d <= 0x4000_0000_0000_0000,
    ;
    let step: i128 = duration as i128 * d;
    assert(step as int == duration * (sec.den * tbn));
    let n0: i128 = base + shift;
    assert(n0 as int == sec.num * tbd + if exact {
        0
    } else {
        last * (sec.den * tbn)
    });
    // wrap up into non-negative
    let mut n: i128 = n0;
    let mut budget: i32 = SEEK_WRAP_BUDGET;
    let mut k: i32 = 0;
    #[verifier::loop_isolation(false)]
    while n < 0
        invariant
            0 <= k <= 100,
            budget == 100 - k,
            budget >= 1,
            n == n0 + k * step,
            0 <= step <= 0x2000_0000_0000_0000_0000_0000,
            -big - 0x4000_0000_0000_0000 <= n0 <= big + 0x4000_0000_0000_0000,
            big == 0x4000_0000_0000_0000_0000_0000_0000_0000,
            raise_spec(n0 as int, step as int, SEEK_WRAP_BUDGET as int) == raise_spec(n as int, step as int, budget as int),
            step as int == duration * (sec.den * tbn),
            n0 as int == sec.num * tbd + if exact {
                0
            } else {
                last * (sec.den * tbn)
            },
        decreases budget,
    {
        if budget <= 1 {
            assert(raise_spec(n as int, step as int, budget as int) is None);
            assert(raise_spec(
                sec.num * tbd + if exact {
                    0
                } else {
                    last * (sec.den * tbn)
                },
                duration * (sec.den * tbn),
                SEEK_WRAP_BUDGET as int,
            ) is None);
            return Err(DecodeError::SeekTooNegative);
        }
        assert(n + step == n0 + (k + 1) * step) by (nonlinear_arith)
            requires
                n == n0 + k * step,
        ;
        assert((k + 1) * step <= 101 * 0x2000_0000_0000_0000_0000_0000) by (nonlinear_arith)
            requires
                0 <= k <= 100,
                0 <= step <= 0x2000_0000_0000_0000_0000_0000,
        ;
        n = n + step;
        budget = budget - 1;
        k = k + 1;
    }
    let n1 = n;
    assert(raise_spec(n0 as int, step as int, SEEK_WRAP_BUDGET as int) == Some(n1 as int));
    assert(0 <= n1);
    let mut budget: i32 = SEEK_WRAP_BUDGET;
    #[verifier::loop_isolation(false)]
    while n >= step
        invariant
            1 <= budget <= 100,
            0 <= step,
            0 <= n,
            n <= n1,
            lower_spec(n1 as int, step as int, SEEK_WRAP_BUDGET as int) == lower_spec(n as int, step as int, budget as int),
            step as int == duration * (sec.den * tbn),
        decreases budget,
    {
        if budget <= 1 {
            assert(lower_spec(n as int, step as int, budget as int) is None);
            assert(lower_spec(n1 as int, duration * (sec.den * tbn), SEEK_WRAP_BUDGET as int) is None);
            return Err(DecodeError::SeekTooLarge);
        }
        n = n - step;
        budget = budget - 1;
    }
    assert(lower_spec(n1 as int, step as int, SEEK_WRAP_BUDGET as int) == Some(n as int));
    let ts: i128 = n / d;
    proof {
        lemma_floor_below(n as int, d as int, duration as int);
    }
    assert(0 < tbd * fps_den <= 0x4000_0000_0000_0000) by (nonlinear_arith)
        requires
            0 < tbd <= i32::MAX,
            0 < fps_den <= i32::MAX,
    ;
    assert(0 < 20 * tbn * fps_num <= 0x10_0000_0000_0000_0000) by (nonlinear_arith)
        requires
            0 < tbn <= i32::MAX,
            0 < fps_num <= i32::MAX,
    ;
    let num: i128 = tbd as i128 * fps_den as i128;
    let den: i128 = 20 * tbn as i128 * fps_num as i128;
    let tol: i128 = num / den;
    assert(0 <= tol <= num) by {
        vstd::arithmetic::div_mod::lemma_div_pos_is_pos(num as int, den as int);
        vstd::arithmetic::div_mod::lemma_div_is_ordered_by_denominator(num as int, 1, den as int);
    }
    let m: i128 = ts - tol;
    let pts_min: i64 = if m < 0 || m >= duration as i128 {
        0
    } else {
        m as i64
    };
    Ok(SeekPlan { ts: ts as i64, pts_min })
}


/// The number of failed frame receptions a single decode call tolerates.
pub const DECODE_ERROR_BUDGET: u32 = 2;

/// Counts the failed frame receptions of one decode call.
#[derive(Clone, Copy, Debug, PartialEq, Eq, Structural)]
pub struct ErrorBudget {
    pub errors: u32,
}

impl ErrorBudget {
    pub fn new() -> (r: ErrorBudget)
        ensures
            r.errors == 0,
    {
        ErrorBudget { errors: 0 }
    }

    /// Records a failed reception; true when the decode call must give up.
    pub fn record(&mut self) -> (give_up: bool)
        ensures
            final(self).errors == if old(self).errors < u32::MAX {
                old(self).errors + 1
            } else {
                old(self).errors as int
            },
            give_up == (final(self).errors > DECODE_ERROR_BUDGET),
    {
        if self.errors < u32::MAX {
            self.errors = self.errors + 1;
        }
        self.errors > DECODE_ERROR_BUDGET
    }
}

} // verus!

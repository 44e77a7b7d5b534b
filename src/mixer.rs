use vstd::prelude::*;

use crate::gfxinfo::{VidInfo, VidMixerInfo};
use crate::rational::{fits_i64, lemma_i64_product_fits, sum_repr, Rational};
use crate::renderspec::SendCmd;
use crate::text::{chars_of, lines, push_all, string_from_chars};
use crate::uniforms::{
    addendum_of_lines, dec_digits, dec_digits_exec, decls_of_lines, extract_vars, find_var,
    updated_var, UniformStore, VarDecl, VarDeclView,
};

verus! {

/// Why a mixer operation failed.
#[derive(Clone, Copy, Debug, PartialEq, Eq, Structural)]
pub enum MixError {
    /// The mixer has no uniform bindings yet: it must be prepared first.
    NotPrepared,
    /// The frame rate is not positive.
    InvalidFps,
    /// A clock value or counter would leave the range of `i64`.
    ClockOverflow,
    /// An input's time base is not a fraction with a positive denominator.
    InvalidTimeBase,
    /// An input's last frame has a negative duration.
    NegativeDuration,
    /// An input position past the inputs of this mix.
    InputOutOfRange,
}

/// The last known info of a mixer input and the time up to which its frames have been
/// consumed.
#[derive(Debug)]
pub struct InputTiming {
    pub info: VidInfo,
    pub last_time: Rational,
}

/// The per-mixer state: presentation clock, per-input timing, output frame
/// bookkeeping and uniform bindings.
#[derive(Debug)]
pub struct MixerState {
    /// The time of the next frame to produce, once a frame has been mixed.
    pub next_time: Option<Rational>,
    pub last_input_times: Vec<InputTiming>,
    /// Whether the output frame buffer has been allocated.
    pub has_frame: bool,
    pub last_frame_time: Option<Rational>,
    pub frame_count: i64,
    /// The shader's uniform bindings, once prepared.
    pub uniforms: Option<UniformStore>,
    /// Whether the output frame has ever been written (cleared or rendered).
    pub has_been_rendered: bool,
}

impl MixerState {
    /// A state with nothing built: no clock, no frame, no bindings.
    pub fn new() -> (r: MixerState)
        ensures
            r.is_fresh(),
            r.wf(),
    {
        MixerState {
            next_time: None,
            last_input_times: Vec::new(),
            has_frame: false,
            last_frame_time: None,
            frame_count: 0,
            uniforms: None,
            has_been_rendered: false,
        }
    }

    pub open spec fn is_fresh(&self) -> bool {
        &&& self.next_time is None
        &&& self.last_input_times@.len() == 0
        &&& !self.has_frame
        &&& self.last_frame_time is None
        &&& self.frame_count == 0
        &&& self.uniforms is None
        &&& !self.has_been_rendered
    }

    pub open spec fn wf(&self) -> bool {
        &&& (self.next_time matches Some(t) ==> t.wf())
        &&& (self.last_frame_time matches Some(t) ==> t.wf())
        &&& forall|i: int|
            0 <= i < self.last_input_times@.len() ==> (#[trigger] self.last_input_times@[i]).last_time.wf()
        &&& (self.uniforms matches Some(u) ==> u.wf())
    }
}

/// The presentation time of a mix of `k` frames at `fps` from clock value `start`, and
/// the clock value after it: `start + (k - 1) / fps` and one frame later.
pub open spec fn mix_times(start: Rational, fps: i64, k: i64) -> Option<(Rational, Rational)> {
    let step = Rational { num: (k - 1) as i64, den: fps };
    let p = sum_repr(start, step);
    if fits_i64(p.0) && fits_i64(p.1) {
        let present = Rational { num: p.0 as i64, den: p.1 as i64 };
        let q = sum_repr(present, Rational { num: 1, den: fps });
        if fits_i64(q.0) && fits_i64(q.1) {
            Some((present, Rational { num: q.0 as i64, den: q.1 as i64 }))
        } else {
            None
        }
    } else {
        None
    }
}

/// The clock value a mixer starts from.
pub open spec fn clock_start(s: &MixerState) -> Rational {
    match s.next_time {
        Some(t) => t,
        None => Rational { num: 0, den: 1 },
    }
}

/// The value that a standard uniform receives: a fraction `num / den`, or whole-number
/// components of a vector.
#[derive(Clone, Debug)]
pub enum StdValue {
    Ratio(i64, i64),
    Components(Vec<u32>),
}

/// A standard uniform of a mix: name and value.
#[derive(Clone, Debug)]
pub struct StdUniform {
    pub name: String,
    pub value: StdValue,
}

pub enum StdValueView {
    Ratio(int, int),
    Components(Seq<u32>),
}

impl View for StdUniform {
    type V = (Seq<char>, StdValueView);

    open spec fn view(&self) -> (Seq<char>, StdValueView) {
        (
            self.name@,
            match self.value {
                StdValue::Ratio(n, d) => StdValueView::Ratio(n as int, d as int),
                StdValue::Components(c) => StdValueView::Components(c@),
            },
        )
    }
}

/// `frames` modulo 2^24, with the sign of `frames`.
pub open spec fn frame_mod(frames: i64) -> int {
    if frames >= 0 {
        frames as int % 0x100_0000
    } else {
        -((-frames) % 0x100_0000)
    }
}

/// The standard uniforms bound for a rendered frame: frame index, output resolution,
/// elapsed time, time per frame, frame rate, the resolution of each input, and the
/// host's frame counter modulo 2^24.
pub open spec fn std_uniforms(
    count: i64,
    fps: i64,
    width: u32,
    height: u32,
    inputs: Seq<(u32, u32)>,
    frames: i64,
) -> Seq<(Seq<char>, StdValueView)> {
    seq![
        ("iFrame"@, StdValueView::Ratio(count as int, 1)),
        ("iResolution"@, StdValueView::Components(seq![width, height, 1u32])),
        ("iTime"@, StdValueView::Ratio(count as int, fps as int)),
        ("iTimeDelta"@, StdValueView::Ratio(1, fps as int)),
        ("iSampleRate"@, StdValueView::Ratio(fps as int, 1)),
    ] + Seq::new(
        inputs.len(),
        |i: int|
            (
                "iResolution"@ + dec_digits(i as nat),
                StdValueView::Components(seq![inputs[i].0, inputs[i].1]),
            ),
    ) + seq![("frame"@, StdValueView::Ratio(frame_mod(frames), 1))]
}

/// The views of a list of standard uniforms.
pub open spec fn std_views(v: Seq<StdUniform>) -> Seq<(Seq<char>, StdValueView)> {
    v.map_values(|u: StdUniform| u@)
}

/// What `VidMixerData::do_cmd` returns for bindings `u`.
pub open spec fn cmd_result(u: Option<UniformStore>, cmd: SendCmd) -> Result<(), MixError> {
    match u {
        None => Err(MixError::NotPrepared),
        Some(_) => Ok(()),
    }
}

/// What to do with a video input that is not realtime.
#[derive(Clone, Copy, Debug, PartialEq, Eq, Structural)]
pub enum InputAction {
    /// The frame held still covers the presentation time: use it.
    Use,
    /// Decode the next frame and ask again.
    Decode,
}

/// The `//!VAR` declarations of an optional source fragment.
pub open spec fn fragment_decls(o: Option<String>) -> Seq<VarDeclView> {
    match o {
        Some(s) => decls_of_lines(lines(s@)),
        None => seq![],
    }
}

/// The shader code that the `//!STR` lines of an optional source fragment add.
pub open spec fn fragment_addendum(o: Option<String>) -> Seq<char> {
    match o {
        Some(s) => addendum_of_lines(lines(s@)),
        None => seq![],
    }
}

/// The shader sources of a mixer, ready to build: the prelude carries the code of the
/// `//!STR` declarations, and `decls` the `//!VAR` declarations of header, prelude and
/// body, in that order.
#[derive(Debug)]
pub struct ShaderSources {
    pub prelude: String,
    pub header: Option<String>,
    pub body: Option<String>,
    pub decls: Vec<VarDecl>,
}

/// A mixer asset and its state.
#[derive(Debug)]
pub struct VidMixerData {
    pub info: VidMixerInfo,
    pub state: MixerState,
}

impl VidMixerData {
    pub fn new(info: VidMixerInfo) -> (r: VidMixerData)
        ensures
            r.info == info,
            r.state.is_fresh(),
            r.state.wf(),
    {
        VidMixerData { info, state: MixerState::new() }
    }

    /// Whether the mixer has its uniform bindings.
    pub fn is_prepared(&self) -> (r: bool)
        ensures
            r == self.state.uniforms is Some,
    {
        self.state.uniforms.is_some()
    }

    /// Reads the uniform declarations out of the mixer's shader fragments.
    pub fn shader_sources(&self) -> (r: ShaderSources)
        ensures
            r.header == self.info.header,
            r.body == self.info.body,
            forall|i: int| 0 <= i < r.decls@.len() ==> (#[trigger] r.decls@[i])@.wf(),
            r.decls@.map_values(|d: VarDecl| d@) == fragment_decls(self.info.header) + fragment_decls(
                self.info.prelude,
            ) + fragment_decls(self.info.body),
            r.prelude@ == (match self.info.prelude {
                Some(p) => p@,
                None => Seq::<char>::empty(),
            }) + fragment_addendum(self.info.header) + fragment_addendum(self.info.prelude)
                + fragment_addendum(self.info.body),
    {
        let mut decls: Vec<VarDecl> = Vec::new();
        let mut addendum = String::new();
        if let Some(h) = &self.info.header {
            let ghost before = decls@;
            let mut v = extract_vars(h.as_str(), &mut addendum);
            let ghost added = v@;
            decls.append(&mut v);
            assert forall|i: int| 0 <= i < decls@.len() implies (#[trigger] decls@[i])@.wf() by {
                if i < before.len() {
                    assert(decls@[i] == before[i]);
                } else {
                    assert(decls@[i] == added[i - before.len()]);
                }
            }
        }
        assert(decls@.map_values(|d: VarDecl| d@) =~= fragment_decls(self.info.header));
        assert(addendum@ =~= fragment_addendum(self.info.header));
        let ghost d1 = decls@;
        let ghost a1 = addendum@;
        if let Some(p) = &self.info.prelude {
            let ghost before = decls@;
            let mut v = extract_vars(p.as_str(), &mut addendum);
            let ghost added = v@;
            decls.append(&mut v);
            assert forall|i: int| 0 <= i < decls@.len() implies (#[trigger] decls@[i])@.wf() by {
                if i < before.len() {
                    assert(decls@[i] == before[i]);
                } else {
                    assert(decls@[i] == added[i - before.len()]);
                }
            }
        }
        assert(decls@.map_values(|d: VarDecl| d@) =~= d1.map_values(|d: VarDecl| d@) + fragment_decls(
            self.info.prelude,
        ));
        assert(addendum@ =~= a1 + fragment_addendum(self.info.prelude));
        let ghost d2 = decls@;
        let ghost a2 = addendum@;
        if let Some(b) = &self.info.body {
            let ghost before = decls@;
            let mut v = extract_vars(b.as_str(), &mut addendum);
            let ghost added = v@;
            decls.append(&mut v);
            assert forall|i: int| 0 <= i < decls@.len() implies (#[trigger] decls@[i])@.wf() by {
                if i < before.len() {
                    assert(decls@[i] == before[i]);
                } else {
                    assert(decls@[i] == added[i - before.len()]);
                }
            }
        }
        assert(decls@.map_values(|d: VarDecl| d@) =~= d2.map_values(|d: VarDecl| d@) + fragment_decls(
            self.info.body,
        ));
        assert(addendum@ =~= a2 + fragment_addendum(self.info.body));
        let prelude = match &self.info.prelude {
            Some(p) => {
                let mut c = chars_of(p.as_str());
                let a = chars_of(addendum.as_str());
                push_all(&mut c, &a);
                string_from_chars(&c)
            },
            None => addendum,
        };
        assert(prelude@ =~= (match self.info.prelude {
            Some(p) => p@,
            None => Seq::<char>::empty(),
        }) + fragment_addendum(self.info.header) + fragment_addendum(self.info.prelude)
            + fragment_addendum(self.info.body));
        ShaderSources {
            prelude,
            header: self.info.header.clone(),
            body: self.info.body.clone(),
            decls,
        }
    }

    /// Installs the uniform bindings built from `shader_sources` and marks the output
    /// frame as allocated; a prepared mixer is left as it is.
    pub fn install(&mut self, store: UniformStore)
        requires
            old(self).state.wf(),
            store.wf(),
        ensures
            final(self).state.wf(),
            final(self).info == old(self).info,
            old(self).state.uniforms is Some ==> final(self).state == old(self).state,
            old(self).state.uniforms is None ==> {
                &&& final(self).state.uniforms == Some(store)
                &&& final(self).state.last_frame_time == Some(Rational { num: 0, den: 1 })
                &&& final(self).state.has_frame
                &&& final(self).state.has_been_rendered == old(self).state.has_been_rendered
                &&& final(self).state.next_time == old(self).state.next_time
                &&& final(self).state.frame_count == old(self).state.frame_count
            },
    {
        if self.state.uniforms.is_some() {
            return;
        }
        self.state.uniforms = Some(store);
        self.state.last_frame_time = Some(Rational::zero());
        self.state.has_frame = true;
    }

    /// Drops the shader bindings; the next prepare builds them again.
    pub fn unload(&mut self)
        ensures
            final(self).state.uniforms is None,
            final(self).info == old(self).info,
    {
        self.state.uniforms = None;
    }

    /// Drops all mixer state: clock, frame, bindings.
    pub fn reset(&mut self)
        ensures
            final(self).state.is_fresh(),
            final(self).state.wf(),
            final(self).info == old(self).info,
    {
        self.state = MixerState::new();
    }

    /// The clock value that applies to the next produced frame.
    pub fn get_present_time(&self) -> (r: Rational)
        ensures
            r == clock_start(&self.state),
    {
        match self.state.next_time {
            Some(t) => t,
            None => Rational::zero(),
        }
    }

    /// Starts a mix of `frames_to_mix` frames at `fps` over `n_inputs` inputs: computes
    /// the presentation time `next_time + (frames_to_mix - 1) / fps` and moves the clock
    /// one frame past it. Nothing happens when there is nothing to mix.
    pub fn begin_mix(&mut self, fps: i64, frames_to_mix: i64, n_inputs: usize) -> (r: Result<
        Option<Rational>,
        MixError,
    >)
        requires
            old(self).state.wf(),
        ensures
            final(self).state.wf(),
            final(self).info == old(self).info,
            frames_to_mix <= 0 ==> r == Ok::<Option<Rational>, MixError>(None) && final(self).state
                == old(self).state,
            frames_to_mix > 0 && fps <= 0 ==> r == Err::<Option<Rational>, MixError>(
                MixError::InvalidFps,
            ) && final(self).state == old(self).state,
            frames_to_mix > 0 && fps > 0 ==> match mix_times(clock_start(&old(self).state), fps, frames_to_mix) {
                None => r == Err::<Option<Rational>, MixError>(MixError::ClockOverflow) && final(
                    self).state == old(self).state,
                Some((present, next)) => {
                    &&& r == Ok::<Option<Rational>, MixError>(Some(present))
                    &&& final(self).state.next_time == Some(next)
                    &&& final(self).state.last_input_times@.len() == n_inputs
                    &&& (old(self).state.last_input_times@.len() == n_inputs ==> final(self).state.last_input_times@ == old(self).state.last_input_times@)
                    &&& (old(self).state.last_input_times@.len() != n_inputs ==> forall|i: int|
                        0 <= i < n_inputs ==> (#[trigger] final(self).state.last_input_times@[i]).info@
                            == VidInfo::empty_view() && final(self).state.last_input_times@[i].last_time
                            == (Rational { num: 0, den: 1 }))
                    &&& final(self).state.has_frame == old(self).state.has_frame
                    &&& final(self).state.last_frame_time == old(self).state.last_frame_time
                    &&& final(self).state.frame_count == old(self).state.frame_count
                    &&& final(self).state.uniforms == old(self).state.uniforms
                    &&& final(self).state.has_been_rendered == old(self).state.has_been_rendered
                },
            },
    {
        if frames_to_mix <= 0 {
            return Ok(None);
        }
        if fps <= 0 {
            return Err(MixError::InvalidFps);
        }
        let start = self.get_present_time();
        let present = match start.checked_add(Rational::new(frames_to_mix - 1, fps)) {
            Some(p) => p,
            None => return Err(MixError::ClockOverflow),
        };
        let next = match present.checked_add(Rational::new(1, fps)) {
            Some(n) => n,
            None => return Err(MixError::ClockOverflow),
        };
        self.state.next_time = Some(next);
        if self.state.last_input_times.len() != n_inputs {
            let mut v: Vec<InputTiming> = Vec::new();
            for i in 0..n_inputs
                invariant
                    v@.len() == i,
                    forall|k: int| 0 <= k < i ==> (#[trigger] v@[k]).last_time.wf(),
                    forall|k: int| 0 <= k < i ==> (#[trigger] v@[k]).info@ == VidInfo::empty_view()
                        && v@[k].last_time == (Rational { num: 0, den: 1 }),
            {
                v.push(InputTiming { info: VidInfo::empty(), last_time: Rational::zero() });
            }
            self.state.last_input_times = v;
        }
        Ok(Some(present))
    }

    /// One step of resolving video input `i` (not realtime) at time `present`: the held
    /// frame (if `has_frame`), lasting `last_duration` ticks of the input's time base
    /// from the input's consumption time, is used when it still covers `present`;
    /// otherwise the consumption time moves past it and the next frame is wanted. A
    /// changed input info re-baselines the consumption time at `present`.
    pub fn input_step(
        &mut self,
        i: usize,
        info: &VidInfo,
        present: Rational,
        has_frame: bool,
        last_duration: i64,
    ) -> (r: Result<InputAction, MixError>)
        requires
            old(self).state.wf(),
            present.wf(),
        ensures
            final(self).state.wf(),
            final(self).info == old(self).info,
            final(self).state.last_input_times@.len() == old(self).state.last_input_times@.len(),
            final(self).state.next_time == old(self).state.next_time,
            final(self).state.frame_count == old(self).state.frame_count,
            final(self).state.has_been_rendered == old(self).state.has_been_rendered,
            final(self).state.uniforms == old(self).state.uniforms,
            i >= old(self).state.last_input_times@.len() ==> r == Err::<InputAction, MixError>(
                MixError::InputOutOfRange,
            ),
            i < old(self).state.last_input_times@.len() ==> ({
                let slot = old(self).state.last_input_times@[i as int];
                let base = if slot.info@ == info@ {
                    slot.last_time
                } else {
                    present
                };
                let tb = info.timebase_q;
                let dn = last_duration * tb.0;
                if tb.1 <= 0 {
                    r == Err::<InputAction, MixError>(MixError::InvalidTimeBase)
                } else if dn < 0 {
                    r == Err::<InputAction, MixError>(MixError::NegativeDuration)
                } else if !fits_i64(dn) {
                    r == Err::<InputAction, MixError>(MixError::ClockOverflow)
                } else {
                    let dur = Rational { num: dn as i64, den: tb.1 as i64 };
                    let s = sum_repr(base, dur);
                    if !(fits_i64(s.0) && fits_i64(s.1)) {
                        r == Err::<InputAction, MixError>(MixError::ClockOverflow)
                    } else {
                        let end = Rational { num: s.0 as i64, den: s.1 as i64 };
                        &&& final(self).state.last_input_times@[i as int].info@ == info@
                        &&& if has_frame && dn != 0 && present.le_spec(end) {
                            r == Ok::<InputAction, MixError>(InputAction::Use)
                                && final(self).state.last_input_times@[i as int].last_time == base
                        } else {
                            r == Ok::<InputAction, MixError>(InputAction::Decode)
                                && final(self).state.last_input_times@[i as int].last_time == end
                        }
                    }
                }
            }),
    {
        if i >= self.state.last_input_times.len() {
            return Err(MixError::InputOutOfRange);
        }
        let (tbn, tbd) = info.timebase_q;
        if tbd <= 0 {
            return Err(MixError::InvalidTimeBase);
        }
        proof {
            lemma_i64_product_fits(last_duration as int, tbn as int);
        }
        let dn: i128 = last_duration as i128 * tbn as i128;
        if dn < 0 {
            return Err(MixError::NegativeDuration);
        }
        if dn > i64::MAX as i128 {
            return Err(MixError::ClockOverflow);
        }
        let dur = Rational::new(dn as i64, tbd as i64);
        let same = self.state.last_input_times[i].info.same_as(info);
        let base = if same {
            self.state.last_input_times[i].last_time
        } else {
            present
        };
        assert(self.state.last_input_times@[i as int].last_time.wf());
        let end = match base.checked_add(dur) {
            Some(e) => e,
            None => return Err(MixError::ClockOverflow),
        };
        let action = if has_frame && dn != 0 && present.le(&end) {
            InputAction::Use
        } else {
            InputAction::Decode
        };
        let t = match action {
            InputAction::Use => base,
            InputAction::Decode => end,
        };
        let mut slot = InputTiming { info: info.duplicate(), last_time: t };
        self.state.last_input_times.set_and_swap(i, &mut slot);
        Ok(action)
    }
}


/// Whether a feedback read of a mixer's output must first clear it.
pub open spec fn feedback_needs_clear(s: &MixerState) -> bool {
    !s.has_been_rendered && s.has_frame
}

impl MixerState {
    /// Claims the output frame for a feedback read. Returns whether the frame has never
    /// been written and must be cleared to transparent black before it is read; from
    /// then on it counts as written.
    pub fn claim_feedback(&mut self) -> (needs_clear: bool)
        ensures
            needs_clear == feedback_needs_clear(old(self)),
            final(self).has_been_rendered == (old(self).has_been_rendered || old(self).has_frame),
            final(self).has_frame == old(self).has_frame,
            final(self).next_time == old(self).next_time,
            final(self).last_input_times == old(self).last_input_times,
            final(self).last_frame_time == old(self).last_frame_time,
            final(self).frame_count == old(self).frame_count,
            final(self).uniforms == old(self).uniforms,
    {
        if !self.has_been_rendered && self.has_frame {
            self.has_been_rendered = true;
            true
        } else {
            false
        }
    }
}

/// Feedback never reads uninitialized memory: once a fresh mixer has its output frame
/// allocated (and nothing written it), the first feedback claim asks for the frame to be
/// cleared to transparent black, and every later claim finds it written.
pub proof fn lemma_first_feedback_is_cleared(fresh: MixerState, prepared: MixerState, after: MixerState)
    requires
        fresh.is_fresh(),
        prepared.has_frame,
        prepared.has_been_rendered == fresh.has_been_rendered,
        after.has_been_rendered == (prepared.has_been_rendered || prepared.has_frame),
    ensures
        feedback_needs_clear(&prepared),
        !feedback_needs_clear(&after),
{
}

fn literal(s: &str) -> (r: String)
    ensures
        r@ == s@,
{
    string_from_chars(&chars_of(s))
}

impl VidMixerData {
    /// Ends a mix at `present`: records the time of the produced frame; when there are
    /// inputs and all resolved to a frame, counts the frame and gives the standard
    /// uniforms to bind before rendering (`input_sizes` holds the inputs' resolutions,
    /// `frames` the host's frame counter). Otherwise nothing is rendered.
    pub fn finish_mix(
        &mut self,
        present: Rational,
        all_ready: bool,
        input_sizes: &Vec<(u32, u32)>,
        fps: i64,
        frames: i64,
    ) -> (r: Result<Option<Vec<StdUniform>>, MixError>)
        requires
            old(self).state.wf(),
            present.wf(),
        ensures
            final(self).state.wf(),
            final(self).info == old(self).info,
            final(self).state.next_time == old(self).state.next_time,
            final(self).state.has_been_rendered == old(self).state.has_been_rendered,
            final(self).state.uniforms == old(self).state.uniforms,
            !(input_sizes@.len() > 0 && all_ready) ==> r == Ok::<Option<Vec<StdUniform>>, MixError>(None)
                && final(self).state.frame_count == old(self).state.frame_count
                && final(self).state.last_frame_time == Some(present),
            input_sizes@.len() > 0 && all_ready && old(self).state.frame_count == i64::MAX ==> r
                == Err::<Option<Vec<StdUniform>>, MixError>(MixError::ClockOverflow),
            input_sizes@.len() > 0 && all_ready && old(self).state.frame_count < i64::MAX ==> {
                &&& final(self).state.frame_count == old(self).state.frame_count + 1
                &&& final(self).state.last_frame_time == Some(present)
                &&& r matches Ok(Some(v)) && std_views(v@) == std_uniforms(
                    final(self).state.frame_count,
                    fps,
                    old(self).info.width,
                    old(self).info.height,
                    input_sizes@,
                    frames,
                )
            },
    {
        if input_sizes.len() > 0 && all_ready && self.state.frame_count == i64::MAX {
            return Err(MixError::ClockOverflow);
        }
        self.state.last_frame_time = Some(present);
        if !(input_sizes.len() > 0 && all_ready) {
            return Ok(None);
        }
        self.state.frame_count = self.state.frame_count + 1;
        let count = self.state.frame_count;
        let mut v: Vec<StdUniform> = Vec::new();
        v.push(StdUniform { name: literal("iFrame"), value: StdValue::Ratio(count, 1) });
        let mut res: Vec<u32> = Vec::new();
        res.push(self.info.width);
        res.push(self.info.height);
        res.push(1);
        assert(res@ =~= seq![self.info.width, self.info.height, 1u32]);
        v.push(StdUniform { name: literal("iResolution"), value: StdValue::Components(res) });
        v.push(StdUniform { name: literal("iTime"), value: StdValue::Ratio(count, fps) });
        v.push(StdUniform { name: literal("iTimeDelta"), value: StdValue::Ratio(1, fps) });
        v.push(StdUniform { name: literal("iSampleRate"), value: StdValue::Ratio(fps, 1) });
        let ghost head = std_views(v@);
        assert(head =~= seq![
            ("iFrame"@, StdValueView::Ratio(count as int, 1)),
            ("iResolution"@, StdValueView::Components(seq![self.info.width, self.info.height, 1u32])),
            ("iTime"@, StdValueView::Ratio(count as int, fps as int)),
            ("iTimeDelta"@, StdValueView::Ratio(1, fps as int)),
            ("iSampleRate"@, StdValueView::Ratio(fps as int, 1)),
        ]);
        let ghost inputs = input_sizes@;
        let ghost mid = Seq::new(
            inputs.len(),
            |i: int|
                (
                    "iResolution"@ + dec_digits(i as nat),
                    StdValueView::Components(seq![inputs[i].0, inputs[i].1]),
                ),
        );
        for i in 0..input_sizes.len()
            invariant
                inputs == input_sizes@,
                v@.len() == 5 + i,
                std_views(v@) == head + mid.subrange(0, i as int),
                mid == Seq::new(
                    inputs.len(),
                    |i: int|
                        (
                            "iResolution"@ + dec_digits(i as nat),
                            StdValueView::Components(seq![inputs[i].0, inputs[i].1]),
                        ),
                ),
        {
            let mut name = chars_of("iResolution");
            let d = dec_digits_exec(i);
            push_all(&mut name, &d);
            let mut c: Vec<u32> = Vec::new();
            c.push(input_sizes[i].0);
            c.push(input_sizes[i].1);
            let u = StdUniform { name: string_from_chars(&name), value: StdValue::Components(c) };
            assert(u@ == mid[i as int]) by {
                assert(u@.1 == StdValueView::Components(seq![inputs[i as int].0, inputs[i as int].1])) by {
                    assert(c@ =~= seq![inputs[i as int].0, inputs[i as int].1]);
                }
            }
            let ghost before = v@;
            v.push(u);
            assert(std_views(v@) =~= std_views(before).push(u@));
            assert(mid.subrange(0, i + 1) =~= mid.subrange(0, i as int).push(mid[i as int]));
            assert(std_views(v@) =~= head + mid.subrange(0, i + 1));
        }
        assert(mid.subrange(0, inputs.len() as int) =~= mid);
        let fm: i64 = if frames >= 0 {
            frames % 0x100_0000
        } else {
            let m = (-(frames as i128)) % 0x100_0000;
            -(m as i64)
        };
        v.push(StdUniform { name: literal("frame"), value: StdValue::Ratio(fm, 1) });
        assert(std_views(v@) =~= std_uniforms(
            count,
            fps,
            self.info.width,
            self.info.height,
            input_sizes@,
            frames,
        ));
        Ok(Some(v))
    }

    /// Applies a uniform command to this mixer's bindings (see `update_values`); a
    /// mixer that is not prepared refuses it.
    pub fn do_cmd(&mut self, cmd: &SendCmd) -> (r: Result<(), MixError>)
        requires
            old(self).state.wf(),
        ensures
            final(self).state.wf(),
            final(self).info == old(self).info,
            final(self).state.next_time == old(self).state.next_time,
            final(self).state.frame_count == old(self).state.frame_count,
            r == cmd_result(old(self).state.uniforms, *cmd),
            match old(self).state.uniforms {
                None => r == Err::<(), MixError>(MixError::NotPrepared) && final(self).state.uniforms
                    is None,
                Some(u) => final(self).state.uniforms matches Some(u2) && r is Ok && match find_var(u@, cmd.name@) {
                    None => u2@ == u@,
                    Some(i) => u2@ == u@.update(i, updated_var(u@[i], cmd.value)),
                },
            },
    {
        match &mut self.state.uniforms {
            Some(u) => {
                u.update_values(cmd);
                Ok(())
            },
            None => Err(MixError::NotPrepared),
        }
    }
}

} // verus!

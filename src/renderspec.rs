use vstd::prelude::*;

use crate::rational::Rational;

verus! {

/// One declarative unit of per-frame work that a visual program asks of the host.
#[derive(Clone, Debug)]
pub enum RenderSpec {
    /// Does nothing.
    Noop,
    SendCmd(SendCmd),
    HudText(HudText),
    Mix(Mix),
    SeekVid(SeekVid),
    Reset(Reset),
}

/// Placement of a mixer's output on the display surface.
#[derive(Clone, Debug)]
pub struct CopyEx {
    pub name: String,
    pub idx: usize,
    /// Source sub-rectangle in pixels: x, y, width, height.
    pub src: Option<(i32, i32, u32, u32)>,
    /// Destination sub-rectangle in pixels: x, y, width, height.
    pub dst: Option<(i32, i32, u32, u32)>,
    /// Rotation angle in degrees, as the bit pattern of an IEEE-754 double.
    pub rotation: u64,
    pub center: Option<(i32, i32)>,
    pub flip_h: bool,
    pub flip_v: bool,
    pub color_mod: Option<(u8, u8, u8, u8)>,
}

/// A value for a shader uniform. Single-precision values travel as their IEEE-754
/// bit patterns.
#[derive(Clone, Debug)]
pub enum SendValue {
    Float(u32),
    Integer(i32),
    Unsigned(u32),
    /// Single-precision components, also used for matrices.
    Vector(Vec<u32>),
    IVector(Vec<i32>),
    UVector(Vec<u32>),
}

/// Sets the uniform `name` of the mixer `mix` to `value`.
#[derive(Clone, Debug)]
pub struct SendCmd {
    pub mix: String,
    pub name: String,
    pub value: SendValue,
}

/// Text for the on-screen diagnostic overlay.
#[derive(Clone, Debug)]
pub struct HudText {
    pub text: String,
}

/// A mixer input: a decoded video, or the last output of a mixer (feedback).
#[derive(Clone, Debug)]
pub enum MixInput {
    Video(String),
    Mixed(String),
}

/// The composite operation of a mixer over its inputs.
#[derive(Clone, Debug)]
pub struct Mix {
    pub name: String,
    pub inputs: Vec<MixInput>,
    pub target: Option<CopyEx>,
    pub lut: Option<String>,
    pub no_display: bool,
}

/// A seek of the video `target` to `sec` seconds (absolute when `exact`, otherwise
/// relative to the last decoded frame).
#[derive(Clone, Debug)]
pub struct SeekVid {
    pub target: String,
    pub sec: Rational,
    pub exact: bool,
}

/// Tears down and rebuilds the state of the asset `target`.
#[derive(Clone, Debug)]
pub struct Reset {
    pub target: String,
}

/// The status code that a visual program returns from each call.
#[derive(Clone, Copy, Debug, PartialEq, Eq, Structural)]
pub enum RenderCalcErr {
    Success,
    AssetDataErr,
    Unknown,
}

impl RenderCalcErr {
    /// The status of a code: zero is success, anything else an unknown failure.
    pub fn from_code(value: u8) -> (r: RenderCalcErr)
        ensures
            value == 0 ==> r == RenderCalcErr::Success,
            value != 0 ==> r == RenderCalcErr::Unknown,
    {
        if value == 0 {
            RenderCalcErr::Success
        } else {
            RenderCalcErr::Unknown
        }
    }

    /// The code of a status.
    pub fn code(&self) -> (r: u8)
        ensures
            *self == RenderCalcErr::Success ==> r == 0,
            *self == RenderCalcErr::AssetDataErr ==> r == 1,
            *self == RenderCalcErr::Unknown ==> r == 255,
    {
        match self {
            RenderCalcErr::Success => 0,
            RenderCalcErr::AssetDataErr => 1,
            RenderCalcErr::Unknown => 255,
        }
    }
}


impl From<SendCmd> for RenderSpec {
    fn from(value: SendCmd) -> (r: RenderSpec) {
        RenderSpec::SendCmd(value)
    }
}

impl vstd::std_specs::convert::FromSpecImpl<SendCmd> for RenderSpec {
    open spec fn obeys_from_spec() -> bool {
        true
    }

    open spec fn from_spec(v: SendCmd) -> RenderSpec {
        RenderSpec::SendCmd(v)
    }
}

impl From<HudText> for RenderSpec {
    fn from(value: HudText) -> (r: RenderSpec) {
        RenderSpec::HudText(value)
    }
}

impl vstd::std_specs::convert::FromSpecImpl<HudText> for RenderSpec {
    open spec fn obeys_from_spec() -> bool {
        true
    }

    open spec fn from_spec(v: HudText) -> RenderSpec {
        RenderSpec::HudText(v)
    }
}

impl From<Mix> for RenderSpec {
    fn from(value: Mix) -> (r: RenderSpec) {
        RenderSpec::Mix(value)
    }
}

impl vstd::std_specs::convert::FromSpecImpl<Mix> for RenderSpec {
    open spec fn obeys_from_spec() -> bool {
        true
    }

    open spec fn from_spec(v: Mix) -> RenderSpec {
        RenderSpec::Mix(v)
    }
}

/// Assembles a `CopyEx`; unset parts are empty, zero or off.
pub struct CopyExBuilder {
    pub obj: CopyEx,
}

impl CopyEx {
    pub fn builder() -> (r: CopyExBuilder)
        ensures
            r.obj.name@.len() == 0 && r.obj.idx == 0 && r.obj.src is None && r.obj.dst is None,
            r.obj.rotation == 0 && r.obj.center is None && !r.obj.flip_h && !r.obj.flip_v,
            r.obj.color_mod is None,
    {
        CopyExBuilder::new()
    }
}

impl CopyExBuilder {
    pub fn new() -> (r: CopyExBuilder)
        ensures
            r.obj.name@.len() == 0 && r.obj.idx == 0 && r.obj.src is None && r.obj.dst is None,
            r.obj.rotation == 0 && r.obj.center is None && !r.obj.flip_h && !r.obj.flip_v,
            r.obj.color_mod is None,
    {
        CopyExBuilder {
            obj: CopyEx {
                name: String::new(),
                idx: 0,
                src: None,
                dst: None,
                rotation: 0,
                center: None,
                flip_h: false,
                flip_v: false,
                color_mod: None,
            },
        }
    }

    pub fn name(self, name: String) -> (r: CopyExBuilder)
        ensures
            r.obj == (CopyEx { name, ..self.obj }),
    {
        CopyExBuilder { obj: CopyEx { name, ..self.obj } }
    }

    pub fn idx(self, idx: usize) -> (r: CopyExBuilder)
        ensures
            r.obj == (CopyEx { idx, ..self.obj }),
    {
        CopyExBuilder { obj: CopyEx { idx, ..self.obj } }
    }

    pub fn src(self, src: (i32, i32, u32, u32)) -> (r: CopyExBuilder)
        ensures
            r.obj == (CopyEx { src: Some(src), ..self.obj }),
    {
        CopyExBuilder { obj: CopyEx { src: Some(src), ..self.obj } }
    }

    pub fn dst(self, dst: (i32, i32, u32, u32)) -> (r: CopyExBuilder)
        ensures
            r.obj == (CopyEx { dst: Some(dst), ..self.obj }),
    {
        CopyExBuilder { obj: CopyEx { dst: Some(dst), ..self.obj } }
    }

    /// Sets the rotation angle, given as the bit pattern of an IEEE-754 double.
    pub fn rotation(self, rotation: u64) -> (r: CopyExBuilder)
        ensures
            r.obj == (CopyEx { rotation, ..self.obj }),
    {
        CopyExBuilder { obj: CopyEx { rotation, ..self.obj } }
    }

    pub fn center(self, center: (i32, i32)) -> (r: CopyExBuilder)
        ensures
            r.obj == (CopyEx { center: Some(center), ..self.obj }),
    {
        CopyExBuilder { obj: CopyEx { center: Some(center), ..self.obj } }
    }

    pub fn flip_h(self, flip_h: bool) -> (r: CopyExBuilder)
        ensures
            r.obj == (CopyEx { flip_h, ..self.obj }),
    {
        CopyExBuilder { obj: CopyEx { flip_h, ..self.obj } }
    }

    pub fn flip_v(self, flip_v: bool) -> (r: CopyExBuilder)
        ensures
            r.obj == (CopyEx { flip_v, ..self.obj }),
    {
        CopyExBuilder { obj: CopyEx { flip_v, ..self.obj } }
    }

    pub fn color_mod(self, color_mod: (u8, u8, u8, u8)) -> (r: CopyExBuilder)
        ensures
            r.obj == (CopyEx { color_mod: Some(color_mod), ..self.obj }),
    {
        CopyExBuilder { obj: CopyEx { color_mod: Some(color_mod), ..self.obj } }
    }

    pub fn build(self) -> (r: CopyEx)
        ensures
            r == self.obj,
    {
        self.obj
    }
}

/// Assembles a `SendCmd`; the value starts as the single-precision zero.
pub struct SendCmdBuilder {
    pub obj: SendCmd,
}

impl SendCmd {
    pub fn builder() -> (r: SendCmdBuilder)
        ensures
            r.obj.mix@.len() == 0 && r.obj.name@.len() == 0,
            r.obj.value matches SendValue::Float(b) && b == 0,
    {
        SendCmdBuilder::new()
    }
}

impl SendCmdBuilder {
    pub fn new() -> (r: SendCmdBuilder)
        ensures
            r.obj.mix@.len() == 0 && r.obj.name@.len() == 0,
            r.obj.value matches SendValue::Float(b) && b == 0,
    {
        SendCmdBuilder { obj: SendCmd { mix: String::new(), name: String::new(), value: SendValue::Float(0) } }
    }

    pub fn mix(self, mix: &str) -> (r: SendCmdBuilder)
        ensures
            r.obj.mix@ == mix@,
            r.obj == (SendCmd { mix: r.obj.mix, ..self.obj }),
    {
        SendCmdBuilder { obj: SendCmd { mix: mix.to_owned(), ..self.obj } }
    }

    pub fn name(self, name: &str) -> (r: SendCmdBuilder)
        ensures
            r.obj.name@ == name@,
            r.obj == (SendCmd { name: r.obj.name, ..self.obj }),
    {
        SendCmdBuilder { obj: SendCmd { name: name.to_owned(), ..self.obj } }
    }

    pub fn value(self, value: SendValue) -> (r: SendCmdBuilder)
        ensures
            r.obj == (SendCmd { value, ..self.obj }),
    {
        SendCmdBuilder { obj: SendCmd { value, ..self.obj } }
    }

    pub fn build(self) -> (r: SendCmd)
        ensures
            r == self.obj,
    {
        self.obj
    }
}

/// Assembles a `Mix`, inputs in the order they are added.
pub struct MixBuilder {
    pub obj: Mix,
}

impl Mix {
    pub fn builder() -> (r: MixBuilder)
        ensures
            r.obj.name@.len() == 0 && r.obj.inputs@.len() == 0 && r.obj.target is None,
            r.obj.lut is None && !r.obj.no_display,
    {
        MixBuilder::new()
    }
}

impl MixBuilder {
    pub fn new() -> (r: MixBuilder)
        ensures
            r.obj.name@.len() == 0 && r.obj.inputs@.len() == 0 && r.obj.target is None,
            r.obj.lut is None && !r.obj.no_display,
    {
        MixBuilder {
            obj: Mix { name: String::new(), inputs: Vec::new(), target: None, lut: None, no_display: false },
        }
    }

    pub fn build(self) -> (r: Mix)
        ensures
            r == self.obj,
    {
        self.obj
    }

    pub fn name(self, name: String) -> (r: MixBuilder)
        ensures
            r.obj == (Mix { name, ..self.obj }),
    {
        MixBuilder { obj: Mix { name, ..self.obj } }
    }

    pub fn video(self, video: String) -> (r: MixBuilder)
        ensures
            r.obj.inputs@ == self.obj.inputs@.push(MixInput::Video(video)),
            r.obj == (Mix { inputs: r.obj.inputs, ..self.obj }),
    {
        let mut obj = self.obj;
        obj.inputs.push(MixInput::Video(video));
        MixBuilder { obj }
    }

    pub fn mixed(self, mixed: String) -> (r: MixBuilder)
        ensures
            r.obj.inputs@ == self.obj.inputs@.push(MixInput::Mixed(mixed)),
            r.obj == (Mix { inputs: r.obj.inputs, ..self.obj }),
    {
        let mut obj = self.obj;
        obj.inputs.push(MixInput::Mixed(mixed));
        MixBuilder { obj }
    }

    pub fn target(self, target: CopyEx) -> (r: MixBuilder)
        ensures
            r.obj == (Mix { target: Some(target), ..self.obj }),
    {
        MixBuilder { obj: Mix { target: Some(target), ..self.obj } }
    }

    pub fn lut(self, lut: String) -> (r: MixBuilder)
        ensures
            r.obj == (Mix { lut: Some(lut), ..self.obj }),
    {
        MixBuilder { obj: Mix { lut: Some(lut), ..self.obj } }
    }

    pub fn no_display(self, no_display: bool) -> (r: MixBuilder)
        ensures
            r.obj == (Mix { no_display, ..self.obj }),
    {
        MixBuilder { obj: Mix { no_display, ..self.obj } }
    }
}

} // verus!

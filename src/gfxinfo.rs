use vstd::prelude::*;

use crate::keycode::KeyCode;

verus! {

/// What an asset turned out to be once loaded.
#[derive(Clone, Debug)]
pub enum GfxInfo {
    TexInfo(TexInfo),
    VidInfo(VidInfo),
    VidMixerInfo(VidMixerInfo),
}

impl GfxInfo {
    /// The asset's name.
    pub fn name(&self) -> (r: &String)
        ensures
            r@ == self.name_spec(),
    {
        match self {
            GfxInfo::TexInfo(v) => &v.name,
            GfxInfo::VidInfo(v) => &v.name,
            GfxInfo::VidMixerInfo(v) => &v.name,
        }
    }

    pub open spec fn name_spec(&self) -> Seq<char> {
        match self {
            GfxInfo::TexInfo(v) => v.name@,
            GfxInfo::VidInfo(v) => v.name@,
            GfxInfo::VidMixerInfo(v) => v.name@,
        }
    }
}

/// A declarative description of a source that a visual program needs.
#[derive(Clone, Debug)]
pub enum Asset {
    Missing,
    Tex(Tex),
    Vid(Vid),
    VidMixer(VidMixer),
}

impl Asset {
    pub open spec fn name_spec(&self) -> Seq<char> {
        match self {
            Asset::Missing => "missing"@,
            Asset::Tex(t) => t.name@,
            Asset::Vid(v) => v.name@,
            Asset::VidMixer(m) => m.name@,
        }
    }

    /// The asset's name (`"missing"` for a missing one).
    pub fn name(&self) -> (r: &str)
        ensures
            r@ == self.name_spec(),
    {
        match self {
            Asset::Missing => "missing",
            Asset::Tex(t) => t.name.as_str(),
            Asset::Vid(v) => v.name.as_str(),
            Asset::VidMixer(m) => m.name.as_str(),
        }
    }
}

/// A loaded image set.
#[derive(Debug)]
pub struct TexInfo {
    pub name: String,
    pub count: usize,
    pub size: (u32, u32),
}

/// An image set named by file-glob patterns.
#[derive(Clone, Debug)]
pub struct Tex {
    pub name: String,
    pub globs: Vec<String>,
}

/// A loaded video source; durations and time bases are rationals `(num, den)`.
#[derive(Debug)]
pub struct VidInfo {
    pub name: String,
    pub path: String,
    pub repeat: bool,
    pub codec: Option<String>,
    pub format: Option<String>,
    pub opts: Option<Vec<(String, String)>>,
    pub size: (u32, u32),
    pub duration_tbu_q: (i32, i32),
    pub timebase_q: (i32, i32),
    pub realtime: bool,
    pub hardware_decode: bool,
    pub software_filter: bool,
}

/// A video source: a path (or a glob matching exactly one file) and how to decode it.
#[derive(Debug)]
pub struct Vid {
    pub name: String,
    pub path: String,
    pub repeat: bool,
    pub realtime: bool,
    pub resolution: (u32, u32),
    pub tbq: (i32, i32),
    pub codec: Option<String>,
    pub format: Option<String>,
    pub opts: Option<Vec<(String, String)>>,
    pub hardware_decode: bool,
    pub software_filter: bool,
}

/// Parameters of a decoder's input buffer.
#[derive(Clone, Debug)]
pub struct BufferSrcArgs {
    pub name: String,
    pub width: u32,
    pub height: u32,
    pub format: String,
    pub tbn: i32,
    pub tbd: i32,
}

/// A procedural compositing node: shader source fragments and output size.
#[derive(Clone, Debug)]
pub struct VidMixer {
    pub name: String,
    pub prelude: Option<String>,
    pub header: Option<String>,
    pub body: Option<String>,
    pub width: u32,
    pub height: u32,
}

/// A loaded mixer.
#[derive(Clone, Debug)]
pub struct VidMixerInfo {
    pub name: String,
    pub prelude: Option<String>,
    pub header: Option<String>,
    pub body: Option<String>,
    pub width: u32,
    pub height: u32,
}

/// The controller knobs.
#[derive(Clone, Copy, Debug, PartialEq, Eq, Structural, Hash)]
pub enum Knob {
    /// Bottom
    B,
    /// Top right
    R,
    /// Top left
    L,
    /// Bottom counter
    CB,
    /// Right counter
    CR,
    /// Left counter
    CL,
    /// Function key counter
    CF,
}

/// A key press or release.
#[derive(Clone, Debug, PartialEq, Eq, Hash)]
pub struct KeyEvent {
    pub key: KeyCode,
    pub shift: bool,
    pub alt: bool,
    pub ctl: bool,
    pub down: bool,
    pub repeat: bool,
    pub timestamp: i64,
}

/// Timing of the frame a video input presented: real and continuous timestamps in
/// seconds, as rationals `(num, den)`.
#[derive(Debug)]
pub struct FrameEvent {
    pub stream: String,
    pub real_ts: (i32, i32),
    pub continuous_ts: (i32, i32),
}

/// An input event handed to the visual program.
#[derive(Clone, Debug)]
pub enum GfxEvent {
    KeyEvent(KeyEvent),
    FrameEvent(FrameEvent),
    ReloadEvent(),
}

impl Clone for TexInfo {
    fn clone(&self) -> (r: Self) {
        TexInfo {
            name: self.name.clone(),
            count: self.count,
            size: self.size,
        }
    }
}

impl Clone for VidInfo {
    fn clone(&self) -> (r: Self) {
        VidInfo {
            name: self.name.clone(),
            path: self.path.clone(),
            repeat: self.repeat,
            codec: self.codec.clone(),
            format: self.format.clone(),
            opts: self.opts.clone(),
            size: self.size,
            duration_tbu_q: self.duration_tbu_q,
            timebase_q: self.timebase_q,
            realtime: self.realtime,
            hardware_decode: self.hardware_decode,
            software_filter: self.software_filter,
        }
    }
}

impl Clone for Vid {
    fn clone(&self) -> (r: Self) {
        Vid {
            name: self.name.clone(),
            path: self.path.clone(),
            repeat: self.repeat,
            realtime: self.realtime,
            resolution: self.resolution,
            tbq: self.tbq,
            codec: self.codec.clone(),
            format: self.format.clone(),
            opts: self.opts.clone(),
            hardware_decode: self.hardware_decode,
            software_filter: self.software_filter,
        }
    }
}

impl Clone for FrameEvent {
    fn clone(&self) -> (r: Self) {
        FrameEvent {
            stream: self.stream.clone(),
            real_ts: self.real_ts,
            continuous_ts: self.continuous_ts,
        }
    }
}


pub open spec fn opt_view(o: Option<String>) -> Option<Seq<char>> {
    match o {
        Some(s) => Some(s@),
        None => None,
    }
}

pub open spec fn pairs_view(v: Seq<(String, String)>) -> Seq<(Seq<char>, Seq<char>)> {
    v.map_values(|p: (String, String)| (p.0@, p.1@))
}

pub open spec fn opts_view(o: Option<Vec<(String, String)>>) -> Option<Seq<(Seq<char>, Seq<char>)>> {
    match o {
        Some(v) => Some(pairs_view(v@)),
        None => None,
    }
}

pub struct TexInfoView {
    pub name: Seq<char>,
    pub count: usize,
    pub size: (u32, u32),
}

pub struct VidInfoView {
    pub name: Seq<char>,
    pub path: Seq<char>,
    pub repeat: bool,
    pub codec: Option<Seq<char>>,
    pub format: Option<Seq<char>>,
    pub opts: Option<Seq<(Seq<char>, Seq<char>)>>,
    pub size: (u32, u32),
    pub duration_tbu_q: (i32, i32),
    pub timebase_q: (i32, i32),
    pub realtime: bool,
    pub hardware_decode: bool,
    pub software_filter: bool,
}

pub struct VidMixerInfoView {
    pub name: Seq<char>,
    pub prelude: Option<Seq<char>>,
    pub header: Option<Seq<char>>,
    pub body: Option<Seq<char>>,
    pub width: u32,
    pub height: u32,
}

pub enum GfxInfoView {
    Tex(TexInfoView),
    Vid(VidInfoView),
    Mixer(VidMixerInfoView),
}

impl View for TexInfo {
    type V = TexInfoView;

    open spec fn view(&self) -> TexInfoView {
        TexInfoView { name: self.name@, count: self.count, size: self.size }
    }
}

impl View for VidInfo {
    type V = VidInfoView;

    open spec fn view(&self) -> VidInfoView {
        VidInfoView {
            name: self.name@,
            path: self.path@,
            repeat: self.repeat,
            codec: opt_view(self.codec),
            format: opt_view(self.format),
            opts: opts_view(self.opts),
            size: self.size,
            duration_tbu_q: self.duration_tbu_q,
            timebase_q: self.timebase_q,
            realtime: self.realtime,
            hardware_decode: self.hardware_decode,
            software_filter: self.software_filter,
        }
    }
}

impl View for VidMixerInfo {
    type V = VidMixerInfoView;

    open spec fn view(&self) -> VidMixerInfoView {
        VidMixerInfoView {
            name: self.name@,
            prelude: opt_view(self.prelude),
            header: opt_view(self.header),
            body: opt_view(self.body),
            width: self.width,
            height: self.height,
        }
    }
}

impl View for GfxInfo {
    type V = GfxInfoView;

    open spec fn view(&self) -> GfxInfoView {
        match self {
            GfxInfo::TexInfo(t) => GfxInfoView::Tex(t@),
            GfxInfo::VidInfo(v) => GfxInfoView::Vid(v@),
            GfxInfo::VidMixerInfo(m) => GfxInfoView::Mixer(m@),
        }
    }
}

pub fn opt_str_eq(a: &Option<String>, b: &Option<String>) -> (r: bool)
    ensures
        r == (opt_view(*a) == opt_view(*b)),
{
    match (a, b) {
        (Some(x), Some(y)) => *x == *y,
        (None, None) => true,
        _ => false,
    }
}

pub fn opts_eq(a: &Option<Vec<(String, String)>>, b: &Option<Vec<(String, String)>>) -> (r: bool)
    ensures
        r == (opts_view(*a) == opts_view(*b)),
{
    match a {
        Some(x) => match b {
            Some(y) => pairs_eq(x, y),
            None => false,
        },
        None => b.is_none(),
    }
}

fn pairs_eq(x: &Vec<(String, String)>, y: &Vec<(String, String)>) -> (r: bool)
    ensures
        r == (pairs_view(x@) == pairs_view(y@)),
{
    if x.len() != y.len() {
        assert(pairs_view(x@).len() != pairs_view(y@).len());
        return false;
    }
    for i in 0..x.len()
        invariant
            x@.len() == y@.len(),
            forall|k: int| 0 <= k < i ==> pairs_view(x@)[k] == pairs_view(y@)[k],
    {
        if !(x[i].0 == y[i].0 && x[i].1 == y[i].1) {
            assert(pairs_view(x@)[i as int] != pairs_view(y@)[i as int]);
            return false;
        }
    }
    assert(pairs_view(x@) =~= pairs_view(y@));
    true
}

impl VidInfo {
    /// Whether two infos describe the same loaded video.
    pub fn same_as(&self, o: &VidInfo) -> (r: bool)
        ensures
            r == (self@ == o@),
    {
        self.name == o.name && self.path == o.path && self.repeat == o.repeat && opt_str_eq(
            &self.codec,
            &o.codec,
        ) && opt_str_eq(&self.format, &o.format) && opts_eq(&self.opts, &o.opts) && self.size.0
            == o.size.0 && self.size.1 == o.size.1 && self.duration_tbu_q.0 == o.duration_tbu_q.0
            && self.duration_tbu_q.1 == o.duration_tbu_q.1 && self.timebase_q.0 == o.timebase_q.0
            && self.timebase_q.1 == o.timebase_q.1 && self.realtime == o.realtime
            && self.hardware_decode == o.hardware_decode && self.software_filter
            == o.software_filter
    }
}

impl GfxInfo {
    /// Whether two infos describe the same loaded asset.
    pub fn same_as(&self, o: &GfxInfo) -> (r: bool)
        ensures
            r == (self@ == o@),
    {
        match (self, o) {
            (GfxInfo::TexInfo(a), GfxInfo::TexInfo(b)) => a.name == b.name && a.count == b.count
                && a.size.0 == b.size.0 && a.size.1 == b.size.1,
            (GfxInfo::VidInfo(a), GfxInfo::VidInfo(b)) => a.same_as(b),
            (GfxInfo::VidMixerInfo(a), GfxInfo::VidMixerInfo(b)) => a.name == b.name && opt_str_eq(
                &a.prelude,
                &b.prelude,
            ) && opt_str_eq(&a.header, &b.header) && opt_str_eq(&a.body, &b.body) && a.width
                == b.width && a.height == b.height,
            _ => false,
        }
    }
}

impl VidInfo {
    /// An info describing nothing: no name, no path, everything zero or off.
    pub open spec fn empty_view() -> VidInfoView {
        VidInfoView {
            name: seq![],
            path: seq![],
            repeat: false,
            codec: None,
            format: None,
            opts: None,
            size: (0, 0),
            duration_tbu_q: (0, 0),
            timebase_q: (0, 0),
            realtime: false,
            hardware_decode: false,
            software_filter: false,
        }
    }

    /// An empty info: no name, no path, everything zero or off.
    pub fn empty() -> (r: VidInfo)
        ensures
            r@ == VidInfo::empty_view(),
    {
        VidInfo {
            name: String::new(),
            path: String::new(),
            repeat: false,
            codec: None,
            format: None,
            opts: None,
            size: (0, 0),
            duration_tbu_q: (0, 0),
            timebase_q: (0, 0),
            realtime: false,
            hardware_decode: false,
            software_filter: false,
        }
    }
}


/// A copy of an optional string.
pub fn copy_opt_str(o: &Option<String>) -> (r: Option<String>)
    ensures
        opt_view(r) == opt_view(*o),
{
    match o {
        Some(s) => Some(s.clone()),
        None => None,
    }
}

/// A copy of optional key/value pairs.
pub fn copy_opts(o: &Option<Vec<(String, String)>>) -> (r: Option<Vec<(String, String)>>)
    ensures
        opts_view(r) == opts_view(*o),
{
    match o {
        Some(v) => {
            let mut w: Vec<(String, String)> = Vec::new();
            for i in 0..v.len()
                invariant
                    w@.len() == i,
                    forall|k: int| 0 <= k < i ==> pairs_view(w@)[k] == pairs_view(v@)[k],
            {
                w.push((v[i].0.clone(), v[i].1.clone()));
            }
            assert(pairs_view(w@) =~= pairs_view(v@));
            Some(w)
        },
        None => None,
    }
}

impl VidInfo {
    /// A copy of this info.
    pub fn duplicate(&self) -> (r: VidInfo)
        ensures
            r@ == self@,
    {
        VidInfo {
            name: self.name.clone(),
            path: self.path.clone(),
            repeat: self.repeat,
            codec: copy_opt_str(&self.codec),
            format: copy_opt_str(&self.format),
            opts: copy_opts(&self.opts),
            size: self.size,
            duration_tbu_q: self.duration_tbu_q,
            timebase_q: self.timebase_q,
            realtime: self.realtime,
            hardware_decode: self.hardware_decode,
            software_filter: self.software_filter,
        }
    }
}


impl From<TexInfo> for GfxInfo {
    fn from(value: TexInfo) -> (r: GfxInfo) {
        GfxInfo::TexInfo(value)
    }
}

impl vstd::std_specs::convert::FromSpecImpl<TexInfo> for GfxInfo {
    open spec fn obeys_from_spec() -> bool {
        true
    }

    open spec fn from_spec(v: TexInfo) -> GfxInfo {
        GfxInfo::TexInfo(v)
    }
}

impl From<VidInfo> for GfxInfo {
    fn from(value: VidInfo) -> (r: GfxInfo) {
        GfxInfo::VidInfo(value)
    }
}

impl vstd::std_specs::convert::FromSpecImpl<VidInfo> for GfxInfo {
    open spec fn obeys_from_spec() -> bool {
        true
    }

    open spec fn from_spec(v: VidInfo) -> GfxInfo {
        GfxInfo::VidInfo(v)
    }
}

impl From<VidMixerInfo> for GfxInfo {
    fn from(value: VidMixerInfo) -> (r: GfxInfo) {
        GfxInfo::VidMixerInfo(value)
    }
}

impl vstd::std_specs::convert::FromSpecImpl<VidMixerInfo> for GfxInfo {
    open spec fn obeys_from_spec() -> bool {
        true
    }

    open spec fn from_spec(v: VidMixerInfo) -> GfxInfo {
        GfxInfo::VidMixerInfo(v)
    }
}

impl From<Tex> for Asset {
    fn from(value: Tex) -> (r: Asset) {
        Asset::Tex(value)
    }
}

impl vstd::std_specs::convert::FromSpecImpl<Tex> for Asset {
    open spec fn obeys_from_spec() -> bool {
        true
    }

    open spec fn from_spec(v: Tex) -> Asset {
        Asset::Tex(v)
    }
}

impl From<Vid> for Asset {
    fn from(value: Vid) -> (r: Asset) {
        Asset::Vid(value)
    }
}

impl vstd::std_specs::convert::FromSpecImpl<Vid> for Asset {
    open spec fn obeys_from_spec() -> bool {
        true
    }

    open spec fn from_spec(v: Vid) -> Asset {
        Asset::Vid(v)
    }
}

impl From<VidMixer> for Asset {
    fn from(value: VidMixer) -> (r: Asset) {
        Asset::VidMixer(value)
    }
}

impl vstd::std_specs::convert::FromSpecImpl<VidMixer> for Asset {
    open spec fn obeys_from_spec() -> bool {
        true
    }

    open spec fn from_spec(v: VidMixer) -> Asset {
        Asset::VidMixer(v)
    }
}

impl From<VidMixer> for VidMixerInfo {
    fn from(value: VidMixer) -> (r: VidMixerInfo) {
        VidMixerInfo {
            name: value.name,
            prelude: value.prelude,
            header: value.header,
            body: value.body,
            width: value.width,
            height: value.height,
        }
    }
}

impl vstd::std_specs::convert::FromSpecImpl<VidMixer> for VidMixerInfo {
    open spec fn obeys_from_spec() -> bool {
        true
    }

    open spec fn from_spec(v: VidMixer) -> VidMixerInfo {
        VidMixerInfo {
            name: v.name,
            prelude: v.prelude,
            header: v.header,
            body: v.body,
            width: v.width,
            height: v.height,
        }
    }
}

impl Asset {
    /// The asset that a resolved info was loaded from, for comparing with declared
    /// assets during a reload: an image set without its patterns, a video with the
    /// time-base hint `0/1`.
    pub fn from_info(value: GfxInfo) -> (r: Asset)
        ensures
            r.name_spec() == value.name_spec(),
            value matches GfxInfo::TexInfo(t) ==> (r matches Asset::Tex(x) && x.name == t.name
                && x.globs@.len() == 0),
            value matches GfxInfo::VidInfo(v) ==> (r matches Asset::Vid(x) && x.name == v.name
                && x.path == v.path && x.repeat == v.repeat && x.realtime == v.realtime
                && x.resolution == v.size && x.tbq == (0i32, 1i32) && x.codec == v.codec
                && x.format == v.format && x.opts == v.opts && x.hardware_decode == v.hardware_decode
                && x.software_filter == v.software_filter),
            value matches GfxInfo::VidMixerInfo(m) ==> (r matches Asset::VidMixer(x) && x.name == m.name
                && x.prelude == m.prelude && x.header == m.header && x.body == m.body && x.width
                == m.width && x.height == m.height),
    {
        match value {
            GfxInfo::TexInfo(v) => Asset::Tex(Tex { name: v.name, globs: Vec::new() }),
            GfxInfo::VidInfo(v) => Asset::Vid(
                Vid {
                    name: v.name,
                    path: v.path,
                    repeat: v.repeat,
                    realtime: v.realtime,
                    resolution: v.size,
                    tbq: (0, 1),
                    codec: v.codec,
                    format: v.format,
                    opts: v.opts,
                    hardware_decode: v.hardware_decode,
                    software_filter: v.software_filter,
                },
            ),
            GfxInfo::VidMixerInfo(v) => Asset::VidMixer(
                VidMixer {
                    name: v.name,
                    prelude: v.prelude,
                    header: v.header,
                    body: v.body,
                    width: v.width,
                    height: v.height,
                },
            ),
        }
    }
}

/// Assembles a `Vid` field by field; everything unset is empty, zero or off.
pub struct VidBuilder {
    pub name: String,
    pub path: String,
    pub repeat: bool,
    pub pix_fmt: String,
    pub resolution: (u32, u32),
    pub tbq: (i32, i32),
    pub codec: Option<String>,
    pub format: Option<String>,
    pub opts: Option<Vec<(String, String)>>,
    pub realtime: bool,
    pub hardware_decode: bool,
    pub software_filter: bool,
}

impl Vid {
    pub fn builder() -> (r: VidBuilder)
        ensures
            r.name@.len() == 0 && r.path@.len() == 0 && r.pix_fmt@.len() == 0,
            !r.repeat && !r.realtime && !r.hardware_decode && !r.software_filter,
            r.resolution == (0u32, 0u32) && r.tbq == (0i32, 0i32),
            r.codec is None && r.format is None && r.opts is None,
    {
        VidBuilder {
            name: String::new(),
            path: String::new(),
            repeat: false,
            pix_fmt: String::new(),
            resolution: (0, 0),
            tbq: (0, 0),
            codec: None,
            format: None,
            opts: None,
            realtime: false,
            hardware_decode: false,
            software_filter: false,
        }
    }
}

impl VidBuilder {
    pub fn name(self, name: &str) -> (r: VidBuilder)
        ensures
            r.name@ == name@,
            r == (VidBuilder { name: r.name, ..self }),
    {
        VidBuilder { name: name.to_owned(), ..self }
    }

    pub fn path(self, path: &str) -> (r: VidBuilder)
        ensures
            r.path@ == path@,
            r == (VidBuilder { path: r.path, ..self }),
    {
        VidBuilder { path: path.to_owned(), ..self }
    }

    pub fn repeat(self, repeat: bool) -> (r: VidBuilder)
        ensures
            r == (VidBuilder { repeat, ..self }),
    {
        VidBuilder { repeat, ..self }
    }

    pub fn resolution(self, resolution: (u32, u32)) -> (r: VidBuilder)
        ensures
            r == (VidBuilder { resolution, ..self }),
    {
        VidBuilder { resolution, ..self }
    }

    pub fn pix_fmt(self, pix_fmt: &str) -> (r: VidBuilder)
        ensures
            r.pix_fmt@ == pix_fmt@,
            r == (VidBuilder { pix_fmt: r.pix_fmt, ..self }),
    {
        VidBuilder { pix_fmt: pix_fmt.to_owned(), ..self }
    }

    pub fn tbq(self, tbq: (i32, i32)) -> (r: VidBuilder)
        ensures
            r == (VidBuilder { tbq, ..self }),
    {
        VidBuilder { tbq, ..self }
    }

    pub fn codec(self, codec: &str) -> (r: VidBuilder)
        ensures
            opt_view(r.codec) == Some(codec@),
            r == (VidBuilder { codec: r.codec, ..self }),
    {
        VidBuilder { codec: Some(codec.to_owned()), ..self }
    }

    pub fn format(self, format: &str) -> (r: VidBuilder)
        ensures
            opt_view(r.format) == Some(format@),
            r == (VidBuilder { format: r.format, ..self }),
    {
        VidBuilder { format: Some(format.to_owned()), ..self }
    }

    /// Sets the demuxer options, as key/value pairs.
    pub fn opts(self, opts: &[(&str, &str)]) -> (r: VidBuilder)
        ensures
            r.opts matches Some(v) && v@.len() == opts@.len() && forall|i: int|
                0 <= i < opts@.len() ==> (#[trigger] v@[i]).0@ == opts@[i].0@ && v@[i].1@ == opts@[i].1@,
            r == (VidBuilder { opts: r.opts, ..self }),
    {
        let mut v: Vec<(String, String)> = Vec::new();
        for i in 0..opts.len()
            invariant
                v@.len() == i,
                forall|k: int| 0 <= k < i ==> (#[trigger] v@[k]).0@ == opts@[k].0@ && v@[k].1@ == opts@[k].1@,
        {
            let (k, val) = opts[i];
            v.push((k.to_owned(), val.to_owned()));
        }
        VidBuilder { opts: Some(v), ..self }
    }

    pub fn realtime(self, realtime: bool) -> (r: VidBuilder)
        ensures
            r == (VidBuilder { realtime, ..self }),
    {
        VidBuilder { realtime, ..self }
    }

    pub fn hardware_decode(self, hardware_decode: bool) -> (r: VidBuilder)
        ensures
            r == (VidBuilder { hardware_decode, ..self }),
    {
        VidBuilder { hardware_decode, ..self }
    }

    pub fn software_filter(self, software_filter: bool) -> (r: VidBuilder)
        ensures
            r == (VidBuilder { software_filter, ..self }),
    {
        VidBuilder { software_filter, ..self }
    }

    /// The assembled video (the pixel format is not part of it).
    pub fn build(self) -> (r: Vid)
        ensures
            r == (Vid {
                name: self.name,
                path: self.path,
                repeat: self.repeat,
                realtime: self.realtime,
                resolution: self.resolution,
                tbq: self.tbq,
                codec: self.codec,
                format: self.format,
                opts: self.opts,
                hardware_decode: self.hardware_decode,
                software_filter: self.software_filter,
            }),
    {
        Vid {
            name: self.name,
            path: self.path,
            repeat: self.repeat,
            realtime: self.realtime,
            resolution: self.resolution,
            tbq: self.tbq,
            codec: self.codec,
            format: self.format,
            opts: self.opts,
            hardware_decode: self.hardware_decode,
            software_filter: self.software_filter,
        }
    }
}

/// Assembles a `VidMixer`; name, width and height must be set.
pub struct VidMixerBuilder {
    pub name: Option<String>,
    pub prelude: Option<String>,
    pub header: Option<String>,
    pub body: Option<String>,
    pub width: Option<u32>,
    pub height: Option<u32>,
}

impl VidMixer {
    pub fn builder() -> (r: VidMixerBuilder)
        ensures
            r == VidMixerBuilder::empty(),
    {
        VidMixerBuilder::new()
    }
}

impl VidMixerBuilder {
    pub open spec fn empty() -> VidMixerBuilder {
        VidMixerBuilder { name: None, prelude: None, header: None, body: None, width: None, height: None }
    }

    /// Whether name, width and height are set.
    pub open spec fn is_complete(&self) -> bool {
        self.name is Some && self.width is Some && self.height is Some
    }

    pub fn new() -> (r: VidMixerBuilder)
        ensures
            r == VidMixerBuilder::empty(),
    {
        VidMixerBuilder { name: None, prelude: None, header: None, body: None, width: None, height: None }
    }

    pub fn name(self, name: &str) -> (r: VidMixerBuilder)
        ensures
            opt_view(r.name) == Some(name@),
            r == (VidMixerBuilder { name: r.name, ..self }),
    {
        VidMixerBuilder { name: Some(name.to_owned()), ..self }
    }

    pub fn prelude(self, prelude: &str) -> (r: VidMixerBuilder)
        ensures
            opt_view(r.prelude) == Some(prelude@),
            r == (VidMixerBuilder { prelude: r.prelude, ..self }),
    {
        VidMixerBuilder { prelude: Some(prelude.to_owned()), ..self }
    }

    pub fn header(self, header: &str) -> (r: VidMixerBuilder)
        ensures
            opt_view(r.header) == Some(header@),
            r == (VidMixerBuilder { header: r.header, ..self }),
    {
        VidMixerBuilder { header: Some(header.to_owned()), ..self }
    }

    pub fn body(self, body: &str) -> (r: VidMixerBuilder)
        ensures
            opt_view(r.body) == Some(body@),
            r == (VidMixerBuilder { body: r.body, ..self }),
    {
        VidMixerBuilder { body: Some(body.to_owned()), ..self }
    }

    pub fn width(self, width: u32) -> (r: VidMixerBuilder)
        ensures
            r == (VidMixerBuilder { width: Some(width), ..self }),
    {
        VidMixerBuilder { width: Some(width), ..self }
    }

    pub fn height(self, height: u32) -> (r: VidMixerBuilder)
        ensures
            r == (VidMixerBuilder { height: Some(height), ..self }),
    {
        VidMixerBuilder { height: Some(height), ..self }
    }

    /// The assembled mixer; without a body it passes its first input through.
    pub fn build(self) -> (r: VidMixer)
        requires
            self.is_complete(),
        ensures
            r.name == self.name->0,
            r.prelude == self.prelude,
            r.header == self.header,
            self.body is Some ==> r.body == self.body,
            self.body is None ==> opt_view(r.body) == Some("color = texture(src_tex0, src_coord0);"@),
            r.width == self.width->0,
            r.height == self.height->0,
    {
        let body = match self.body {
            Some(b) => b,
            None => "color = texture(src_tex0, src_coord0);".to_owned(),
        };
        VidMixer {
            name: self.name.unwrap(),
            prelude: self.prelude,
            header: self.header,
            body: Some(body),
            width: self.width.unwrap(),
            height: self.height.unwrap(),
        }
    }
}


impl TexInfo {
    /// A copy of this info.
    pub fn duplicate(&self) -> (r: TexInfo)
        ensures
            r@ == self@,
    {
        TexInfo { name: self.name.clone(), count: self.count, size: self.size }
    }
}

impl VidMixerInfo {
    /// A copy of this info.
    pub fn duplicate(&self) -> (r: VidMixerInfo)
        ensures
            r@ == self@,
    {
        VidMixerInfo {
            name: self.name.clone(),
            prelude: copy_opt_str(&self.prelude),
            header: copy_opt_str(&self.header),
            body: copy_opt_str(&self.body),
            width: self.width,
            height: self.height,
        }
    }
}


pub open spec fn strs_view(v: Seq<String>) -> Seq<Seq<char>> {
    v.map_values(|s: String| s@)
}

pub struct VidView {
    pub name: Seq<char>,
    pub path: Seq<char>,
    pub repeat: bool,
    pub realtime: bool,
    pub resolution: (u32, u32),
    pub tbq: (i32, i32),
    pub codec: Option<Seq<char>>,
    pub format: Option<Seq<char>>,
    pub opts: Option<Seq<(Seq<char>, Seq<char>)>>,
    pub hardware_decode: bool,
    pub software_filter: bool,
}

pub enum AssetView {
    Missing,
    Tex(Seq<char>, Seq<Seq<char>>),
    Vid(VidView),
    VidMixer(VidMixerInfoView),
}

impl View for Asset {
    type V = AssetView;

    open spec fn view(&self) -> AssetView {
        match self {
            Asset::Missing => AssetView::Missing,
            Asset::Tex(t) => AssetView::Tex(t.name@, strs_view(t.globs@)),
            Asset::Vid(v) => AssetView::Vid(
                VidView {
                    name: v.name@,
                    path: v.path@,
                    repeat: v.repeat,
                    realtime: v.realtime,
                    resolution: v.resolution,
                    tbq: v.tbq,
                    codec: opt_view(v.codec),
                    format: opt_view(v.format),
                    opts: opts_view(v.opts),
                    hardware_decode: v.hardware_decode,
                    software_filter: v.software_filter,
                },
            ),
            Asset::VidMixer(m) => AssetView::VidMixer(
                VidMixerInfoView {
                    name: m.name@,
                    prelude: opt_view(m.prelude),
                    header: opt_view(m.header),
                    body: opt_view(m.body),
                    width: m.width,
                    height: m.height,
                },
            ),
        }
    }
}

fn strs_eq(x: &Vec<String>, y: &Vec<String>) -> (r: bool)
    ensures
        r == (strs_view(x@) == strs_view(y@)),
{
    if x.len() != y.len() {
        assert(strs_view(x@).len() != strs_view(y@).len());
        return false;
    }
    for i in 0..x.len()
        invariant
            x@.len() == y@.len(),
            forall|k: int| 0 <= k < i ==> strs_view(x@)[k] == strs_view(y@)[k],
    {
        if x[i] != y[i] {
            assert(strs_view(x@)[i as int] != strs_view(y@)[i as int]);
            return false;
        }
    }
    assert(strs_view(x@) =~= strs_view(y@));
    true
}

impl Asset {
    /// Whether two assets are declared identically.
    pub fn same_as(&self, o: &Asset) -> (r: bool)
        ensures
            r == (self@ == o@),
    {
        match (self, o) {
            (Asset::Missing, Asset::Missing) => true,
            (Asset::Tex(a), Asset::Tex(b)) => a.name == b.name && strs_eq(&a.globs, &b.globs),
            (Asset::Vid(a), Asset::Vid(b)) => a.name == b.name && a.path == b.path && a.repeat == b.repeat
                && a.realtime == b.realtime && a.resolution.0 == b.resolution.0 && a.resolution.1
                == b.resolution.1 && a.tbq.0 == b.tbq.0 && a.tbq.1 == b.tbq.1 && opt_str_eq(
                &a.codec,
                &b.codec,
            ) && opt_str_eq(&a.format, &b.format) && opts_eq(&a.opts, &b.opts) && a.hardware_decode
                == b.hardware_decode && a.software_filter == b.software_filter,
            (Asset::VidMixer(a), Asset::VidMixer(b)) => a.name == b.name && opt_str_eq(
                &a.prelude,
                &b.prelude,
            ) && opt_str_eq(&a.header, &b.header) && opt_str_eq(&a.body, &b.body) && a.width
                == b.width && a.height == b.height,
            _ => false,
        }
    }
}

/// The position in `cache` of the first asset declared exactly as `asset`: its resolved
/// info can be reused instead of loading the asset again.
pub fn cached_info(cache: &Vec<(Asset, GfxInfo)>, asset: &Asset) -> (r: Option<usize>)
    ensures
        r matches Some(i) ==> i < cache@.len() && cache@[i as int].0@ == asset@ && forall|k: int|
            0 <= k < i ==> (#[trigger] cache@[k]).0@ != asset@,
        r is None ==> forall|k: int| 0 <= k < cache@.len() ==> (#[trigger] cache@[k]).0@ != asset@,
{
    for i in 0..cache.len()
        invariant
            forall|k: int| 0 <= k < i ==> (#[trigger] cache@[k]).0@ != asset@,
    {
        if cache[i].0.same_as(asset) {
            return Some(i);
        }
    }
    None
}

} // verus!

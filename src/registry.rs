use vstd::prelude::*;
use vstd::std_specs::convert::FromSpec;

use crate::decode::{frame_event_spec, seek_outcome, DecodeError, LoadError, SeekPlan, VidData};
use crate::gfxinfo::{FrameEvent, GfxInfo, GfxInfoView, Tex, TexInfo, VidMixer, VidMixerInfo};
use crate::mixer::{clock_start, cmd_result, MixError, VidMixerData};
use crate::rational::Rational;
use crate::renderspec::{Mix, MixInput, RenderSpec};

verus! {

/// A loaded image set: its info and the encoded images.
#[derive(Debug)]
pub struct TexData {
    pub info: TexInfo,
    pub data: Vec<Vec<u8>>,
}

/// The live state of a loaded asset.
#[derive(Debug)]
pub enum GfxData {
    TexData(TexData),
    VidData(VidData),
    VidMixerData(VidMixerData),
}

impl GfxData {
    pub open spec fn name_spec(&self) -> Seq<char> {
        match self {
            GfxData::TexData(t) => t.info.name@,
            GfxData::VidData(v) => v.info.name@,
            GfxData::VidMixerData(m) => m.info.name@,
        }
    }

    pub open spec fn wf(&self) -> bool {
        match self {
            GfxData::VidMixerData(m) => m.state.wf(),
            _ => true,
        }
    }

    /// What the asset resolved to.
    pub fn info(&self) -> (r: GfxInfo)
        ensures
            r.name_spec() == self.name_spec(),
            self matches GfxData::TexData(t) ==> r@ == GfxInfoView::Tex(t.info@),
            self matches GfxData::VidData(v) ==> r@ == GfxInfoView::Vid(v.info@),
            self matches GfxData::VidMixerData(m) ==> r@ == GfxInfoView::Mixer(m.info@),
    {
        match self {
            GfxData::TexData(t) => GfxInfo::TexInfo(t.info.duplicate()),
            GfxData::VidData(v) => GfxInfo::VidInfo(v.info.duplicate()),
            GfxData::VidMixerData(m) => GfxInfo::VidMixerInfo(m.info.duplicate()),
        }
    }

    /// The asset's name.
    pub fn name(&self) -> (r: String)
        ensures
            r@ == self.name_spec(),
    {
        match self {
            GfxData::TexData(t) => t.info.name.clone(),
            GfxData::VidData(v) => v.info.name.clone(),
            GfxData::VidMixerData(m) => m.info.name.clone(),
        }
    }
}

/// A registered asset: what it resolved to, and its live state.
#[derive(Debug)]
pub struct Entry {
    pub info: GfxInfo,
    pub data: GfxData,
}

/// The GPU textures held for an asset, by opaque handle.
#[derive(Debug)]
pub struct TextureSet {
    pub name: String,
    pub handles: Vec<u64>,
}

/// Why a render spec could not be carried out.
#[derive(Clone, Copy, Debug, PartialEq, Eq, Structural)]
pub enum RenderError {
    NoSuchMixer,
    NoSuchVideo,
    NoSuchFeedbackMixer,
    NoSuchAsset,
    /// Image sets cannot be rebuilt in place.
    TextureReset,
    Mix(MixError),
    Decode(DecodeError),
}

/// A resolved mixer input: the registry position of a video or of a mixer.
#[derive(Clone, Copy, Debug, PartialEq, Eq, Structural)]
pub enum MixSource {
    Video(usize),
    Feedback(usize),
}

/// The outside work a render spec asks for once the registry has resolved it.
#[derive(Debug)]
pub enum RenderAction {
    /// Nothing more to do.
    Done,
    /// Composite `frames_to_mix` frames with the mixer at `mixer` over `inputs`.
    Mix { mixer: usize, inputs: Vec<MixSource>, frames_to_mix: i64 },
    /// Seek the video at the position and resync as planned.
    Seek(usize, SeekPlan),
    /// The asset at the position was reset: release its decoder or shader context.
    Reset(usize),
}

pub open spec fn entry_names(es: Seq<Entry>) -> Seq<Seq<char>> {
    es.map_values(|e: Entry| e.info.name_spec())
}

pub open spec fn entry_infos(es: Seq<Entry>) -> Seq<GfxInfoView> {
    es.map_values(|e: Entry| e.info@)
}

pub open spec fn is_index_of(names: Seq<Seq<char>>, name: Seq<char>, i: int) -> bool {
    0 <= i < names.len() && names[i] == name
}

/// The position of `name` among `names` (names are unique in a well-formed registry).
pub open spec fn index_of(names: Seq<Seq<char>>, name: Seq<char>) -> Option<int> {
    if exists|i: int| is_index_of(names, name, i) {
        Some(choose|i: int| is_index_of(names, name, i))
    } else {
        None
    }
}

pub open spec fn unique(names: Seq<Seq<char>>) -> bool {
    forall|i: int, j: int| 0 <= i < j < names.len() ==> names[i] != names[j]
}

pub open spec fn set_names(ts: Seq<TextureSet>) -> Seq<Seq<char>> {
    ts.map_values(|t: TextureSet| t.name@)
}


/// What `GfxRuntime::add` makes of entries `es` and texture sets `ts`: nothing changes
/// when the name is registered with identical info; otherwise the name's entry and
/// textures are evicted and the new entry appended.
pub open spec fn add_effect(es: Seq<Entry>, ts: Seq<TextureSet>, info: GfxInfo, data: GfxData) -> (
    Seq<Entry>,
    Seq<TextureSet>,
) {
    let name = info.name_spec();
    let same = match index_of(entry_names(es), name) {
        Some(i) => es[i].info@ == info@,
        None => false,
    };
    if same {
        (es, ts)
    } else {
        let es2 = match index_of(entry_names(es), name) {
            Some(i) => es.remove(i),
            None => es,
        };
        let ts2 = match index_of(set_names(ts), name) {
            Some(t) => ts.remove(t),
            None => ts,
        };
        (es2.push(Entry { info, data }), ts2)
    }
}

/// Adding the same resolved info twice under one name is idempotent: the second add
/// changes neither the entries nor the texture cache. Adding different info evicts the
/// name's entry and textures and registers the new one in their place.
pub proof fn lemma_add_idempotent(
    es: Seq<Entry>,
    ts: Seq<TextureSet>,
    info: GfxInfo,
    d1: GfxData,
    info2: GfxInfo,
    d2: GfxData,
)
    requires
        unique(entry_names(es)),
        info2@ == info@,
        info2.name_spec() == info.name_spec(),
    ensures
        ({
            let (es1, ts1) = add_effect(es, ts, info, d1);
            add_effect(es1, ts1, info2, d2) == (es1, ts1)
        }),
        ({
            let (es1, ts1) = add_effect(es, ts, info, d1);
            forall|info3: GfxInfo, d3: GfxData|
                info3.name_spec() == info.name_spec() && info3@ != info@ ==> {
                    let (es2, ts2) = #[trigger] add_effect(es1, ts1, info3, d3);
                    &&& es2.last() == Entry { info: info3, data: d3 }
                    &&& es2.len() == es1.len()
                }
        }),
{
    let name = info.name_spec();
    let (es1, ts1) = add_effect(es, ts, info, d1);
    lemma_add_places_last(es, ts, info, d1);
    assert forall|info3: GfxInfo, d3: GfxData|
        info3.name_spec() == info.name_spec() && info3@ != info@ implies {
            let (es2, ts2) = #[trigger] add_effect(es1, ts1, info3, d3);
            &&& es2.last() == Entry { info: info3, data: d3 }
            &&& es2.len() == es1.len()
        } by {
    }
}

/// After an add that is no idempotent no-op, the name sits at the last position, with
/// the new info, and names stay unique.
proof fn lemma_add_places_last(es: Seq<Entry>, ts: Seq<TextureSet>, info: GfxInfo, d: GfxData)
    requires
        unique(entry_names(es)),
    ensures
        ({
            let (es1, ts1) = add_effect(es, ts, info, d);
            &&& unique(entry_names(es1))
            &&& index_of(entry_names(es1), info.name_spec()) matches Some(i) && es1[i].info@ == info@
        }),
{
    let name = info.name_spec();
    let names = entry_names(es);
    match index_of(names, name) {
        Some(i) => {
            if es[i].info@ == info@ {
                assert forall|j: int| is_index_of(names, name, j) implies j == i by {
                    if j < i {
                        assert(names[j] != names[i]);
                    } else if j > i {
                        assert(names[i] != names[j]);
                    }
                }
            } else {
                let es2 = es.remove(i);
                let es1 = es2.push(Entry { info, data: d });
                let n1 = entry_names(es1);
                assert(n1 =~= names.remove(i).push(name));
                assert forall|a: int, b: int| 0 <= a < b < n1.len() implies n1[a] != n1[b] by {
                    if b == n1.len() - 1 {
                        let a0 = if a < i { a } else { a + 1 };
                        assert(n1[a] == names[a0]);
                        assert(a0 != i);
                        if names[a0] == name {
                            if a0 < i {
                                assert(names[a0] != names[i]);
                            } else {
                                assert(names[i] != names[a0]);
                            }
                        }
                    } else {
                        let a0 = if a < i { a } else { a + 1 };
                        let b0 = if b < i { b } else { b + 1 };
                        assert(n1[a] == names[a0]);
                        assert(n1[b] == names[b0]);
                    }
                }
                assert(is_index_of(n1, name, n1.len() - 1));
                assert forall|j: int| is_index_of(n1, name, j) implies j == n1.len() - 1 by {
                    if j < n1.len() - 1 {
                        assert(n1[j] != n1[n1.len() - 1]);
                    }
                }
            }
        },
        None => {
            let es1 = es.push(Entry { info, data: d });
            let n1 = entry_names(es1);
            assert(n1 =~= names.push(name));
            assert forall|a: int, b: int| 0 <= a < b < n1.len() implies n1[a] != n1[b] by {
                if b == n1.len() - 1 {
                    assert(!is_index_of(names, name, a));
                }
            }
            assert(is_index_of(n1, name, n1.len() - 1));
            assert forall|j: int| is_index_of(n1, name, j) implies j == n1.len() - 1 by {
                if j < n1.len() - 1 {
                    assert(n1[j] != n1[n1.len() - 1]);
                }
            }
        },
    }
}

/// The catalog of live assets, keyed by name, with the GPU textures held for them.
#[derive(Debug)]
pub struct GfxRuntime {
    pub entries: Vec<Entry>,
    pub textures: Vec<TextureSet>,
    pub frames_per_sec: i64,
    pub last_frame_rendered: i64,
}

impl GfxRuntime {
    pub open spec fn names(&self) -> Seq<Seq<char>> {
        entry_names(self.entries@)
    }

    pub open spec fn wf(&self) -> bool {
        &&& unique(self.names())
        &&& unique(set_names(self.textures@))
        &&& forall|i: int|
            0 <= i < self.entries@.len() ==> (#[trigger] self.entries@[i]).data.name_spec()
                == self.entries@[i].info.name_spec() && self.entries@[i].data.wf()
    }

    /// An empty registry for a host running at `frames_per_sec`, whose last rendered
    /// frame is `frame`.
    pub fn new(frames_per_sec: i64, frame: i64) -> (r: GfxRuntime)
        ensures
            r.wf(),
            r.entries@.len() == 0,
            r.textures@.len() == 0,
            r.frames_per_sec == frames_per_sec,
            r.last_frame_rendered == frame,
    {
        GfxRuntime { entries: Vec::new(), textures: Vec::new(), frames_per_sec, last_frame_rendered: frame }
    }

    /// The position of the asset called `name`.
    pub fn find(&self, name: &String) -> (r: Option<usize>)
        requires
            self.wf(),
        ensures
            r matches Some(i) ==> index_of(self.names(), name@) == Some(i as int),
            r is None ==> index_of(self.names(), name@) is None,
    {
        for i in 0..self.entries.len()
            invariant
                self.wf(),
                forall|k: int| 0 <= k < i ==> self.names()[k] != name@,
        {
            let n = self.entries[i].info.name();
            if *n == *name {
                assert(is_index_of(self.names(), name@, i as int));
                assert forall|j: int| is_index_of(self.names(), name@, j) implies j == i by {
                    if j < i {
                        assert(self.names()[j] != self.names()[i as int]);
                    } else if j > i {
                        assert(self.names()[i as int] != self.names()[j]);
                    }
                }
                return Some(i);
            }
        }
        assert forall|j: int| !is_index_of(self.names(), name@, j) by {
            if 0 <= j < self.names().len() {
                assert(self.names()[j] != name@);
            }
        }
        None
    }

    fn find_textures(&self, name: &String) -> (r: Option<usize>)
        requires
            self.wf(),
        ensures
            r matches Some(i) ==> index_of(set_names(self.textures@), name@) == Some(i as int),
            r is None ==> index_of(set_names(self.textures@), name@) is None,
    {
        let ghost names = set_names(self.textures@);
        for i in 0..self.textures.len()
            invariant
                self.wf(),
                names == set_names(self.textures@),
                forall|k: int| 0 <= k < i ==> names[k] != name@,
        {
            if self.textures[i].name == *name {
                assert(is_index_of(names, name@, i as int));
                assert forall|j: int| is_index_of(names, name@, j) implies j == i by {
                    if j < i {
                        assert(names[j] != names[i as int]);
                    } else if j > i {
                        assert(names[i as int] != names[j]);
                    }
                }
                return Some(i);
            }
        }
        assert forall|j: int| !is_index_of(names, name@, j) by {
            if 0 <= j < names.len() {
                assert(names[j] != name@);
            }
        }
        None
    }

    /// Records a GPU texture held for the asset `name`.
    pub fn insert_texture(&mut self, name: &String, handle: u64)
        requires
            old(self).wf(),
        ensures
            final(self).wf(),
            final(self).entries == old(self).entries,
            index_of(set_names(final(self).textures@), name@) is Some,
    {
        match self.find_textures(name) {
            Some(i) => {
                let mut set = TextureSet { name: String::new(), handles: Vec::new() };
                self.textures.set_and_swap(i, &mut set);
                set.handles.push(handle);
                self.textures.set_and_swap(i, &mut set);
                proof {
                    assert(set_names(self.textures@) =~= set_names(old(self).textures@));
                    assert(is_index_of(set_names(self.textures@), name@, i as int));
                }
            },
            None => {
                let mut handles: Vec<u64> = Vec::new();
                handles.push(handle);
                let ghost before = set_names(self.textures@);
                self.textures.push(TextureSet { name: name.clone(), handles });
                proof {
                    assert(set_names(self.textures@) =~= before.push(name@));
                    assert(is_index_of(set_names(self.textures@), name@, before.len() as int));
                    assert forall|a: int, b: int| 0 <= a < b < set_names(self.textures@).len() implies set_names(self.textures@)[a] != set_names(self.textures@)[b] by {
                        if b == before.len() {
                            assert(!is_index_of(before, name@, a));
                        }
                    }
                }
            },
        }
    }

    /// Evicts the asset `name`: its registry entry and its textures. Absence is no
    /// error. Returns the evicted texture handles, for the caller to destroy.
    pub fn remove(&mut self, name: &String) -> (r: Vec<u64>)
        requires
            old(self).wf(),
        ensures
            final(self).wf(),
            final(self).frames_per_sec == old(self).frames_per_sec,
            final(self).last_frame_rendered == old(self).last_frame_rendered,
            match index_of(old(self).names(), name@) {
                None => final(self).entries@ == old(self).entries@,
                Some(i) => final(self).entries@ == old(self).entries@.remove(i),
            },
            match index_of(set_names(old(self).textures@), name@) {
                None => final(self).textures@ == old(self).textures@ && r@.len() == 0,
                Some(i) => final(self).textures@ == old(self).textures@.remove(i) && r@ == old(
                    self,
                ).textures@[i].handles@,
            },
            index_of(final(self).names(), name@) is None,
    {
        if let Some(i) = self.find(name) {
            let ghost before = self.entries@;
            let _evicted = self.entries.remove(i);
            proof {
                assert(self.names() =~= entry_names(before).remove(i as int));
                assert forall|j: int| !is_index_of(self.names(), name@, j) by {
                    if 0 <= j < self.names().len() {
                        if j < i {
                            assert(self.names()[j] == entry_names(before)[j]);
                        } else {
                            assert(self.names()[j] == entry_names(before)[j + 1]);
                        }
                    }
                }
                assert forall|a: int| 0 <= a < self.entries@.len() implies (#[trigger] self.entries@[a]).data.name_spec()
                    == self.entries@[a].info.name_spec() && self.entries@[a].data.wf() by {
                    if a < i {
                        assert(self.entries@[a] == before[a]);
                    } else {
                        assert(self.entries@[a] == before[a + 1]);
                    }
                }
            }
        } else {
            proof {
                assert forall|j: int| !is_index_of(self.names(), name@, j) by {
                }
            }
        }
        match self.find_textures(name) {
            Some(i) => {
                let ghost before = self.textures@;
                let set = self.textures.remove(i);
                proof {
                    assert(set_names(self.textures@) =~= set_names(before).remove(i as int));
                }
                set.handles
            },
            None => Vec::new(),
        }
    }

    /// Registers `data` as the asset that `info` describes. Identical info under the
    /// same name changes nothing (the data is dropped); otherwise the old entry and
    /// textures of that name are evicted first. Returns the evicted texture handles.
    pub fn add(&mut self, info: GfxInfo, data: GfxData) -> (r: Vec<u64>)
        requires
            old(self).wf(),
            data.name_spec() == info.name_spec(),
            data.wf(),
        ensures
            final(self).wf(),
            final(self).frames_per_sec == old(self).frames_per_sec,
            final(self).last_frame_rendered == old(self).last_frame_rendered,
            (final(self).entries@, final(self).textures@) == add_effect(
                old(self).entries@,
                old(self).textures@,
                info,
                data,
            ),
            index_of(old(self).names(), info.name_spec()) matches Some(i) && old(self).entries@[i].info@
                == info@ ==> r@.len() == 0,
    {
        let name = info.name().clone();
        if let Some(i) = self.find(&name) {
            if self.entries[i].info.same_as(&info) {
                return Vec::new();
            }
        }
        let evicted = self.remove(&name);
        let ghost before = self.entries@;
        self.entries.push(Entry { info, data });
        proof {
            assert(self.names() =~= entry_names(before).push(name@));
            assert forall|a: int, b: int| 0 <= a < b < self.names().len() implies self.names()[a] != self.names()[b] by {
                if b == before.len() {
                    assert(!is_index_of(entry_names(before), name@, a));
                }
            }
            assert forall|a: int| 0 <= a < self.entries@.len() implies (#[trigger] self.entries@[a]).data.name_spec()
                == self.entries@[a].info.name_spec() && self.entries@[a].data.wf() by {
                if a < before.len() {
                    assert(self.entries@[a] == before[a]);
                }
            }
        }
        evicted
    }
}


impl GfxRuntime {
    /// The registered names that `declared` does not hold.
    pub fn stale_names(&self, declared: &Vec<String>) -> (r: Vec<String>)
        requires
            self.wf(),
        ensures
            forall|k: int|
                0 <= k < r@.len() ==> self.names().contains(#[trigger] r@[k]@) && !str_views(
                    declared@,
                ).contains(r@[k]@),
            forall|i: int|
                0 <= i < self.names().len() && !str_views(declared@).contains(#[trigger] self.names()[i])
                    ==> str_views(r@).contains(self.names()[i]),
            unique(str_views(r@)),
    {
        let mut out: Vec<String> = Vec::new();
        let ghost dv = str_views(declared@);
        for i in 0..self.entries.len()
            invariant
                self.wf(),
                dv == str_views(declared@),
                forall|k: int|
                    0 <= k < out@.len() ==> self.names().subrange(0, i as int).contains(#[trigger] out@[k]@)
                        && !dv.contains(out@[k]@),
                forall|j: int|
                    0 <= j < i && !dv.contains(#[trigger] self.names()[j]) ==> str_views(out@).contains(
                        self.names()[j],
                    ),
                unique(str_views(out@)),
        {
            let n = self.entries[i].info.name();
            let mut found = false;
            for j in 0..declared.len()
                invariant
                    found == exists|k: int| 0 <= k < j && dv[k] == n@,
                    dv == str_views(declared@),
            {
                if declared[j] == *n {
                    found = true;
                }
                assert(dv[j as int] == declared@[j as int]@);
            }
            assert(found == dv.contains(n@));
            let ghost before = out@;
            if !found {
                out.push(n.clone());
                proof {
                    assert(str_views(out@) =~= str_views(before).push(n@));
                    assert forall|a: int, b: int| 0 <= a < b < str_views(out@).len() implies str_views(out@)[a] != str_views(out@)[b] by {
                        if b == before.len() {
                            let x = str_views(before)[a];
                            assert(self.names().subrange(0, i as int).contains(x));
                            let w = choose|w: int| 0 <= w < i && self.names().subrange(0, i as int)[w] == x;
                            assert(self.names()[w] != self.names()[i as int]);
                        }
                    }
                }
            }
            proof {
                assert forall|k: int| 0 <= k < out@.len() implies self.names().subrange(0, i + 1).contains(
                    #[trigger] out@[k]@,
                ) && !dv.contains(out@[k]@) by {
                    if k < before.len() {
                        let x = out@[k]@;
                        let w = choose|w: int| 0 <= w < i && self.names().subrange(0, i as int)[w] == x;
                        assert(self.names().subrange(0, i + 1)[w] == x);
                    } else {
                        assert(self.names().subrange(0, i + 1)[i as int] == n@);
                    }
                }
                assert forall|j: int| 0 <= j < i + 1 && !dv.contains(#[trigger] self.names()[j]) implies str_views(
                    out@,
                ).contains(self.names()[j]) by {
                    if j < i {
                        let w = choose|w: int| 0 <= w < before.len() && str_views(before)[w] == self.names()[j];
                        assert(str_views(out@)[w] == self.names()[j]);
                    } else {
                        assert(str_views(out@)[out@.len() - 1] == n@);
                    }
                }
            }
        }
        assert(self.names().subrange(0, self.names().len() as int) =~= self.names());
        out
    }

    /// Evicts every registered asset that `declared` does not hold, as after a reload:
    /// afterwards the registered names are exactly those that were registered and
    /// declared. Returns the evicted names and texture handles.
    pub fn remove_stale(&mut self, declared: &Vec<String>) -> (r: (Vec<String>, Vec<u64>))
        requires
            old(self).wf(),
        ensures
            final(self).wf(),
            forall|k: int|
                0 <= k < r.0@.len() ==> old(self).names().contains(#[trigger] r.0@[k]@) && !str_views(
                    declared@,
                ).contains(r.0@[k]@),
            forall|i: int|
                0 <= i < old(self).names().len() && !str_views(declared@).contains(#[trigger] old(self).names()[i])
                    ==> str_views(r.0@).contains(old(self).names()[i]),
            forall|i: int|
                0 <= i < final(self).names().len() ==> str_views(declared@).contains(#[trigger] final(self).names()[i])
                    && old(self).names().contains(final(self).names()[i]),
            forall|i: int|
                0 <= i < old(self).names().len() && str_views(declared@).contains(#[trigger] old(self).names()[i])
                    ==> final(self).names().contains(old(self).names()[i]),
    {
        let stale = self.stale_names(declared);
        let ghost dv = str_views(declared@);
        let ghost sv = str_views(stale@);
        let ghost start = self.names();
        let mut evicted: Vec<u64> = Vec::new();
        assert(sv.subrange(0, sv.len() as int) =~= sv);
        for k in 0..stale.len()
            invariant
                self.wf(),
                dv == str_views(declared@),
                sv == str_views(stale@),
                forall|a: int| 0 <= a < sv.len() ==> !dv.contains(#[trigger] sv[a]),
                forall|i: int| 0 <= i < self.names().len() ==> start.contains(#[trigger] self.names()[i]),
                forall|i: int|
                    0 <= i < self.names().len() ==> dv.contains(#[trigger] self.names()[i])
                        || sv.subrange(k as int, sv.len() as int).contains(self.names()[i]),
                forall|i: int|
                    0 <= i < start.len() && dv.contains(#[trigger] start[i]) ==> self.names().contains(start[i]),
                forall|i: int|
                    0 <= i < start.len() && !dv.contains(#[trigger] start[i]) ==> sv.contains(start[i]),
        {
            let ghost before = self.names();
            let mut h = self.remove(&stale[k]);
            evicted.append(&mut h);
            proof {
                let x = sv[k as int];
                assert(x == stale@[k as int]@);
                match index_of(before, x) {
                    Some(p) => {
                        assert(self.names() =~= before.remove(p));
                    },
                    None => {
                        assert(self.names() =~= before);
                    },
                }
                assert forall|i: int| 0 <= i < self.names().len() implies start.contains(#[trigger] self.names()[i]) by {
                    let y = self.names()[i];
                    assert(before.contains(y));
                }
                assert forall|i: int| 0 <= i < self.names().len() implies dv.contains(#[trigger] self.names()[i])
                    || sv.subrange(k + 1, sv.len() as int).contains(self.names()[i]) by {
                    let y = self.names()[i];
                    assert(before.contains(y));
                    let w = choose|w: int| 0 <= w < before.len() && before[w] == y;
                    if !dv.contains(y) {
                        assert(sv.subrange(k as int, sv.len() as int).contains(y));
                        let z = choose|z: int| 0 <= z < sv.len() - k && sv.subrange(k as int, sv.len() as int)[z] == y;
                        if z == 0 {
                            assert(y == x);
                            assert(!is_index_of(self.names(), x, i));
                        } else {
                            assert(sv.subrange(k + 1, sv.len() as int)[z - 1] == y);
                        }
                    }
                }
                assert forall|i: int| 0 <= i < start.len() && dv.contains(#[trigger] start[i]) implies self.names().contains(start[i]) by {
                    let y = start[i];
                    assert(before.contains(y));
                    let w = choose|w: int| 0 <= w < before.len() && before[w] == y;
                    assert(y != x);
                    match index_of(before, x) {
                        Some(p) => {
                            assert(w != p);
                            if w < p {
                                assert(self.names()[w] == y);
                            } else {
                                assert(self.names()[w - 1] == y);
                            }
                        },
                        None => {
                            assert(self.names()[w] == y);
                        },
                    }
                }
            }
        }
        proof {
            assert forall|i: int| 0 <= i < self.names().len() implies dv.contains(#[trigger] self.names()[i]) by {
                assert(sv.subrange(stale@.len() as int, sv.len() as int).len() == 0);
            }
        }
        (stale, evicted)
    }
}

/// The views of a list of strings.
pub open spec fn str_views(v: Seq<String>) -> Seq<Seq<char>> {
    v.map_values(|s: String| s@)
}


/// The position of the mixer called `name`.
pub open spec fn mixer_at(es: Seq<Entry>, name: Seq<char>) -> Option<int> {
    match index_of(entry_names(es), name) {
        Some(i) => if es[i].data is VidMixerData {
            Some(i)
        } else {
            None
        },
        None => None,
    }
}

/// The position of the video called `name`.
pub open spec fn video_at(es: Seq<Entry>, name: Seq<char>) -> Option<int> {
    match index_of(entry_names(es), name) {
        Some(i) => if es[i].data is VidData {
            Some(i)
        } else {
            None
        },
        None => None,
    }
}

/// How a mix input resolves against the entries.
pub open spec fn resolve_input(es: Seq<Entry>, inp: MixInput) -> Result<MixSource, RenderError> {
    match inp {
        MixInput::Video(n) => match video_at(es, n@) {
            Some(i) => Ok(MixSource::Video(i as usize)),
            None => Err(RenderError::NoSuchVideo),
        },
        MixInput::Mixed(n) => match mixer_at(es, n@) {
            Some(i) => Ok(MixSource::Feedback(i as usize)),
            None => Err(RenderError::NoSuchFeedbackMixer),
        },
    }
}

fn placeholder() -> (r: Entry) {
    let info = TexInfo { name: String::new(), count: 0, size: (0, 0) };
    let data = TexData { info: TexInfo { name: String::new(), count: 0, size: (0, 0) }, data: Vec::new() };
    Entry { info: GfxInfo::TexInfo(info), data: GfxData::TexData(data) }
}

/// What resolving `mix` against entries `es` gives at host frame `next_frame`, when the
/// last rendered frame is `last`.
pub open spec fn plan_mix_spec(
    es: Seq<Entry>,
    last: i64,
    mix: Mix,
    next_frame: i64,
    r: Result<RenderAction, RenderError>,
) -> bool {
    let n = next_frame as int - last;
    &&& (n <= 0 ==> r matches Ok(RenderAction::Done))
    &&& (n > i64::MAX ==> r == Err::<RenderAction, RenderError>(
        RenderError::Mix(MixError::ClockOverflow),
    ))
    &&& (0 < n <= i64::MAX ==> match mixer_at(es, mix.name@) {
        None => r == Err::<RenderAction, RenderError>(RenderError::NoSuchMixer),
        Some(m) => {
            &&& (forall|k: int| 0 <= k < mix.inputs@.len() ==> #[trigger] resolve_input(es, mix.inputs@[k]) is Ok)
                ==> (r matches Ok(RenderAction::Mix { mixer, inputs, frames_to_mix }) && mixer == m
                && frames_to_mix == n && inputs@.len() == mix.inputs@.len() && forall|k: int|
                0 <= k < inputs@.len() ==> resolve_input(es, mix.inputs@[k]) == Ok::<
                MixSource,
                RenderError,
            >(#[trigger] inputs@[k]))
            &&& forall|k: int|
                0 <= k < mix.inputs@.len() && (#[trigger] resolve_input(es, mix.inputs@[k])) is Err
                    && (forall|j: int| 0 <= j < k ==> resolve_input(es, mix.inputs@[j]) is Ok) ==> r
                    == Err::<RenderAction, RenderError>(resolve_input(es, mix.inputs@[k])->Err_0)
        },
    })
}

impl GfxRuntime {
    fn resolve(&self, inp: &MixInput) -> (r: Result<MixSource, RenderError>)
        requires
            self.wf(),
        ensures
            r == resolve_input(self.entries@, *inp),
    {
        match inp {
            MixInput::Video(n) => match self.find(n) {
                Some(i) => match &self.entries[i].data {
                    GfxData::VidData(_) => Ok(MixSource::Video(i)),
                    _ => Err(RenderError::NoSuchVideo),
                },
                None => Err(RenderError::NoSuchVideo),
            },
            MixInput::Mixed(n) => match self.find(n) {
                Some(i) => match &self.entries[i].data {
                    GfxData::VidMixerData(_) => Ok(MixSource::Feedback(i)),
                    _ => Err(RenderError::NoSuchFeedbackMixer),
                },
                None => Err(RenderError::NoSuchFeedbackMixer),
            },
        }
    }

    /// Resolves a mix against the registry: the mixer and each input by name. Nothing
    /// is mixed when the host has not moved past the last rendered frame.
    pub fn plan_mix(&self, mix: &Mix, next_frame: i64) -> (r: Result<RenderAction, RenderError>)
        requires
            self.wf(),
        ensures
            plan_mix_spec(self.entries@, self.last_frame_rendered, *mix, next_frame, r),
    {
        let frames_to_mix: i128 = next_frame as i128 - self.last_frame_rendered as i128;
        if frames_to_mix <= 0 {
            return Ok(RenderAction::Done);
        }
        if frames_to_mix > i64::MAX as i128 {
            return Err(RenderError::Mix(MixError::ClockOverflow));
        }
        let m = match self.find(&mix.name) {
            Some(i) => match &self.entries[i].data {
                GfxData::VidMixerData(_) => i,
                _ => return Err(RenderError::NoSuchMixer),
            },
            None => return Err(RenderError::NoSuchMixer),
        };
        let mut inputs: Vec<MixSource> = Vec::new();
        #[verifier::loop_isolation(false)]
        for k in 0..mix.inputs.len()
            invariant
                self.wf(),
                inputs@.len() == k,
                forall|j: int| 0 <= j < k ==> resolve_input(self.entries@, mix.inputs@[j]) == Ok::<MixSource, RenderError>(#[trigger] inputs@[j]),
                forall|j: int| 0 <= j < k ==> (#[trigger] resolve_input(self.entries@, mix.inputs@[j])) is Ok,
        {
            match self.resolve(&mix.inputs[k]) {
                Ok(src) => inputs.push(src),
                Err(e) => {
                    assert forall|k2: int|
                        0 <= k2 < mix.inputs@.len() && (#[trigger] resolve_input(self.entries@, mix.inputs@[k2])) is Err
                            && (forall|j: int| 0 <= j < k2 ==> resolve_input(self.entries@, mix.inputs@[j]) is Ok)
                        implies Err::<RenderAction, RenderError>(e) == Err::<RenderAction, RenderError>(
                            resolve_input(self.entries@, mix.inputs@[k2])->Err_0,
                        ) by {
                        if k2 > k {
                            assert(resolve_input(self.entries@, mix.inputs@[k as int]) is Ok);
                        }
                    }
                    return Err(e);
                },
            }
        }
        assert forall|k2: int| 0 <= k2 < mix.inputs@.len() implies !((#[trigger] resolve_input(
            self.entries@,
            mix.inputs@[k2],
        )) is Err) by {
            assert(resolve_input(self.entries@, mix.inputs@[k2]) is Ok);
        }
        Ok(RenderAction::Mix { mixer: m, inputs, frames_to_mix: frames_to_mix as i64 })
    }

    /// Carries out one render spec as far as the registry goes: a uniform command is
    /// applied to its mixer, a seek is planned, a reset drops the asset's state; a mix is
    /// resolved for the caller to composite. Text and no-ops need nothing.
    pub fn render(&mut self, spec: &RenderSpec, next_frame: i64) -> (r: Result<RenderAction, RenderError>)
        requires
            old(self).wf(),
        ensures
            final(self).wf(),
            final(self).names() == old(self).names(),
            entry_infos(final(self).entries@) == entry_infos(old(self).entries@),
            final(self).textures == old(self).textures,
            final(self).frames_per_sec == old(self).frames_per_sec,
            final(self).last_frame_rendered == old(self).last_frame_rendered,
            (spec is Noop || spec is HudText) ==> r matches Ok(RenderAction::Done),
            spec matches RenderSpec::Mix(m) ==> plan_mix_spec(
                old(self).entries@,
                old(self).last_frame_rendered,
                *m,
                next_frame,
                r,
            ) && final(self).entries@ == old(self).entries@,
            spec matches RenderSpec::SendCmd(c) ==> match mixer_at(old(self).entries@, c.mix@) {
                None => r == Err::<RenderAction, RenderError>(RenderError::NoSuchMixer),
                Some(i) => (old(self).entries@[i].data matches GfxData::VidMixerData(md) && match cmd_result(md.state.uniforms, *c) {
                    Ok(_) => r matches Ok(RenderAction::Done),
                    Err(e) => r == Err::<RenderAction, RenderError>(RenderError::Mix(e)),
                }),
            },
            spec matches RenderSpec::SeekVid(sv) ==> (video_at(old(self).entries@, sv.target@) is None
                ==> r == Err::<RenderAction, RenderError>(RenderError::NoSuchVideo)),
            spec matches RenderSpec::SeekVid(sv) ==> (video_at(old(self).entries@, sv.target@) matches Some(i)
                ==> (old(self).entries@[i].data matches GfxData::VidData(v) && match seek_outcome(&v, sv.sec, sv.exact) {
                    Ok(Some(p)) => r matches Ok(RenderAction::Seek(j, q)) && j == i && q == p,
                    Ok(None) => r matches Ok(RenderAction::Done),
                    Err(e) => r == Err::<RenderAction, RenderError>(RenderError::Decode(e)),
                })),
            spec matches RenderSpec::SeekVid(sv) ==> (r is Ok ==> final(self).entries@ == old(self).entries@),
            spec matches RenderSpec::Reset(rs) ==> match index_of(old(self).names(), rs.target@) {
                None => r == Err::<RenderAction, RenderError>(RenderError::NoSuchAsset),
                Some(i) => match old(self).entries@[i].data {
                    GfxData::TexData(_) => r == Err::<RenderAction, RenderError>(RenderError::TextureReset),
                    GfxData::VidData(_) => (r matches Ok(RenderAction::Reset(j)) && j == i)
                        && (final(self).entries@[i].data matches GfxData::VidData(v) && v.clock is None),
                    GfxData::VidMixerData(_) => (r matches Ok(RenderAction::Reset(j)) && j == i)
                        && (final(self).entries@[i].data matches GfxData::VidMixerData(m) && m.state.is_fresh()),
                },
            },
    {
        match spec {
            RenderSpec::Noop => Ok(RenderAction::Done),
            RenderSpec::HudText(_) => Ok(RenderAction::Done),
            RenderSpec::Mix(m) => self.plan_mix(m, next_frame),
            RenderSpec::SendCmd(c) => {
                let i = match self.find(&c.mix) {
                    Some(i) => i,
                    None => return Err(RenderError::NoSuchMixer),
                };
                match &self.entries[i].data {
                    GfxData::VidMixerData(_) => {},
                    _ => return Err(RenderError::NoSuchMixer),
                }
                let mut e = placeholder();
                self.entries.set_and_swap(i, &mut e);
                let res = match &mut e.data {
                    GfxData::VidMixerData(md) => md.do_cmd(c),
                    _ => Ok(()),
                };
                let ghost e1 = e;
                self.entries.set_and_swap(i, &mut e);
                proof {
                    assert(self.entries@ == old(self).entries@.update(i as int, e1));
                    assert(self.names() =~= old(self).names());
                    assert(entry_infos(self.entries@) =~= entry_infos(old(self).entries@));
                }
                match res {
                    Ok(()) => Ok(RenderAction::Done),
                    Err(err) => Err(RenderError::Mix(err)),
                }
            },
            RenderSpec::SeekVid(sv) => {
                let i = match self.find(&sv.target) {
                    Some(i) => i,
                    None => return Err(RenderError::NoSuchVideo),
                };
                match &self.entries[i].data {
                    GfxData::VidData(v) => match v.seek_plan(sv.sec, sv.exact) {
                        Ok(Some(p)) => Ok(RenderAction::Seek(i, p)),
                        Ok(None) => Ok(RenderAction::Done),
                        Err(err) => Err(RenderError::Decode(err)),
                    },
                    _ => Err(RenderError::NoSuchVideo),
                }
            },
            RenderSpec::Reset(rs) => {
                let i = match self.find(&rs.target) {
                    Some(i) => i,
                    None => return Err(RenderError::NoSuchAsset),
                };
                match &self.entries[i].data {
                    GfxData::TexData(_) => return Err(RenderError::TextureReset),
                    _ => {},
                }
                let mut e = placeholder();
                self.entries.set_and_swap(i, &mut e);
                match &mut e.data {
                    GfxData::VidData(v) => v.reset(),
                    GfxData::VidMixerData(m) => m.reset(),
                    _ => {},
                }
                let ghost e1 = e;
                self.entries.set_and_swap(i, &mut e);
                proof {
                    assert(self.entries@ == old(self).entries@.update(i as int, e1));
                    assert(self.names() =~= old(self).names());
                    assert(entry_infos(self.entries@) =~= entry_infos(old(self).entries@));
                }
                Ok(RenderAction::Reset(i))
            },
        }
    }

    /// The presentation time of the next frame of the mixer `name`.
    pub fn get_present_time_for_mix(&self, name: &String) -> (r: Result<Rational, RenderError>)
        requires
            self.wf(),
        ensures
            match mixer_at(self.entries@, name@) {
                None => r == Err::<Rational, RenderError>(RenderError::NoSuchMixer),
                Some(i) => (self.entries@[i].data matches GfxData::VidMixerData(m) && r == Ok::<Rational, RenderError>(clock_start(&m.state))),
            },
    {
        match self.find(name) {
            Some(i) => match &self.entries[i].data {
                GfxData::VidMixerData(m) => Ok(m.get_present_time()),
                _ => Err(RenderError::NoSuchMixer),
            },
            None => Err(RenderError::NoSuchMixer),
        }
    }

    /// The frame timing of the video `name`, or `None` when there is no such video.
    pub fn get_last_frame_event(&self, name: &String) -> (r: Option<FrameEvent>)
        requires
            self.wf(),
        ensures
            video_at(self.entries@, name@) is None ==> r is None,
            video_at(self.entries@, name@) matches Some(i) ==> (self.entries@[i].data matches GfxData::VidData(v)
                && frame_event_spec(&v, name@, r)),
    {
        match self.find(name) {
            Some(i) => match &self.entries[i].data {
                GfxData::VidData(v) => v.last_frame_event(name),
                _ => None,
            },
            None => None,
        }
    }

    /// Records the host frame that was last rendered.
    pub fn set_last_frame_rendered(&mut self, value: i64)
        ensures
            final(self).last_frame_rendered == value,
            final(self).entries == old(self).entries,
            final(self).textures == old(self).textures,
            final(self).frames_per_sec == old(self).frames_per_sec,
    {
        self.last_frame_rendered = value;
    }
}


impl TexData {
    /// The loaded image set of `spec` from the bytes of its matched files (those that
    /// could be read), the first image being `size` pixels; nothing read is an error.
    pub fn assemble(spec: &Tex, buffers: Vec<Vec<u8>>, size: (u32, u32)) -> (r: Result<TexData, LoadError>)
        ensures
            buffers@.len() == 0 ==> r == Err::<TexData, LoadError>(LoadError::NothingLoaded),
            buffers@.len() > 0 ==> (r matches Ok(t) && t.info.name@ == spec.name@ && t.info.count
                == buffers@.len() && t.info.size == size && t.data == buffers),
    {
        if buffers.len() == 0 {
            return Err(LoadError::NothingLoaded);
        }
        let count = buffers.len();
        Ok(TexData { info: TexInfo { name: spec.name.clone(), count, size }, data: buffers })
    }
}

impl GfxData {
    /// The live state of a mixer asset: nothing built yet.
    pub fn load_mixer(m: VidMixer) -> (r: GfxData)
        ensures
            r matches GfxData::VidMixerData(d) && d.info == VidMixerInfo::from_spec(m)
                && d.state.is_fresh() && d.state.wf(),
    {
        GfxData::VidMixerData(VidMixerData::new(VidMixerInfo::from(m)))
    }
}

} // verus!

use sdlrig::decode::{StreamProbe, VidData};
use sdlrig::gfxinfo::{Asset, GfxInfo, Tex, TexInfo, Vid, VidMixer, VidMixerInfo};
use sdlrig::keycode::KeyCode;
use sdlrig::mixer::MixError;
use sdlrig::rational::Rational;
use sdlrig::registry::{GfxData, GfxRuntime, MixSource, RenderAction, RenderError, TexData};
use sdlrig::renderspec::{
    CopyEx, HudText, Mix, RenderCalcErr, RenderSpec, Reset, SeekVid, SendCmd, SendValue,
};
use sdlrig::uniforms::UniformStore;

fn mixer_asset(name: &str, width: u32) -> (GfxInfo, GfxData) {
    let m = VidMixer::builder().name(name).width(width).height(1).build();
    (GfxInfo::VidMixerInfo(VidMixerInfo::from(m.clone())), GfxData::load_mixer(m))
}

fn video_asset(name: &str) -> (GfxInfo, GfxData) {
    let vid = Vid::builder().name(name).path("a.mp4").repeat(true).build();
    let probe = StreamProbe {
        width: 8,
        height: 8,
        stream_duration: 900_000,
        container_duration: 0,
        time_base_num: 1,
        time_base_den: 90_000,
    };
    let v = VidData::load(&vid, None, &probe).unwrap();
    (GfxInfo::VidInfo(v.info.clone()), GfxData::VidData(v))
}

fn names(rt: &GfxRuntime) -> Vec<String> {
    rt.entries.iter().map(|e| e.info.name().clone()).collect()
}

#[test]
fn reload_removes_exactly_the_undeclared_asset() {
    let mut rt = GfxRuntime::new(24, 0);
    for n in ["a", "b", "c"] {
        let (info, data) = mixer_asset(n, 1);
        rt.add(info, data);
    }
    rt.insert_texture(&"b".to_string(), 42);
    let declared = vec!["a".to_string(), "c".to_string()];
    let (removed, evicted) = rt.remove_stale(&declared);
    assert_eq!(removed, vec!["b".to_string()]);
    assert_eq!(evicted, vec![42]);
    assert_eq!(names(&rt), vec!["a".to_string(), "c".to_string()]);
    assert!(rt.textures.is_empty());
}

#[test]
fn adding_identical_info_twice_is_a_no_op() {
    let mut rt = GfxRuntime::new(24, 0);
    let (info, data) = mixer_asset("a", 1);
    assert!(rt.add(info, data).is_empty());
    rt.insert_texture(&"a".to_string(), 7);
    let (info, data) = mixer_asset("a", 1);
    assert!(rt.add(info, data).is_empty());
    assert_eq!(rt.textures.len(), 1);
    assert_eq!(rt.textures[0].handles, vec![7]);
    assert_eq!(rt.entries.len(), 1);
}

#[test]
fn adding_changed_info_evicts_and_replaces() {
    let mut rt = GfxRuntime::new(24, 0);
    let (info, data) = mixer_asset("a", 1);
    rt.add(info, data);
    let (info, data) = mixer_asset("z", 1);
    rt.add(info, data);
    rt.insert_texture(&"a".to_string(), 7);
    rt.insert_texture(&"a".to_string(), 8);
    let (info, data) = mixer_asset("a", 2);
    assert_eq!(rt.add(info, data), vec![7, 8]);
    assert!(rt.textures.is_empty());
    assert_eq!(names(&rt), vec!["z".to_string(), "a".to_string()]);
    match &rt.entries[1].info {
        GfxInfo::VidMixerInfo(m) => assert_eq!(m.width, 2),
        _ => panic!("not a mixer"),
    }
}

#[test]
fn removing_an_absent_name_is_fine() {
    let mut rt = GfxRuntime::new(24, 0);
    assert!(rt.remove(&"ghost".to_string()).is_empty());
    assert!(rt.entries.is_empty());
}

#[test]
fn command_for_unknown_uniform_through_render() {
    let mut rt = GfxRuntime::new(24, 0);
    let (info, mut data) = mixer_asset("m1", 1);
    if let GfxData::VidMixerData(m) = &mut data {
        m.install(UniformStore::from_decls(&vec![], &vec![]));
    }
    rt.add(info, data);
    let cmd = SendCmd::builder().mix("m1").name("missing").value(SendValue::Integer(3)).build();
    assert!(matches!(rt.render(&RenderSpec::SendCmd(cmd), 1), Ok(RenderAction::Done)));
    let cmd = SendCmd::builder().mix("nobody").name("x").build();
    assert_eq!(rt.render(&RenderSpec::SendCmd(cmd), 1).err(), Some(RenderError::NoSuchMixer));
    let cmd = SendCmd::builder().mix("m1").name("x").build();
    let (info, data) = mixer_asset("m2", 1);
    rt.add(info, data);
    let cmd2 = SendCmd::builder().mix("m2").name("x").build();
    assert!(matches!(rt.render(&RenderSpec::SendCmd(cmd), 1), Ok(RenderAction::Done)));
    assert_eq!(
        rt.render(&RenderSpec::SendCmd(cmd2), 1).err(),
        Some(RenderError::Mix(MixError::NotPrepared))
    );
}

#[test]
fn mix_is_resolved_by_name() {
    let mut rt = GfxRuntime::new(24, 9);
    let (info, data) = mixer_asset("m1", 1);
    rt.add(info, data);
    let (info, data) = video_asset("v1");
    rt.add(info, data);
    let mix = Mix::builder().name("m1".to_string()).video("v1".to_string()).mixed("m1".to_string()).build();
    match rt.render(&RenderSpec::Mix(mix.clone()), 12) {
        Ok(RenderAction::Mix { mixer, inputs, frames_to_mix }) => {
            assert_eq!(mixer, 0);
            assert_eq!(inputs, vec![MixSource::Video(1), MixSource::Feedback(0)]);
            assert_eq!(frames_to_mix, 3);
        },
        _ => panic!("mix not resolved"),
    }
    // nothing new to present
    assert!(matches!(rt.render(&RenderSpec::Mix(mix), 9), Ok(RenderAction::Done)));
    let bad = Mix::builder().name("m1".to_string()).video("m1".to_string()).build();
    assert_eq!(rt.render(&RenderSpec::Mix(bad), 12).err(), Some(RenderError::NoSuchVideo));
    let bad = Mix::builder().name("m1".to_string()).mixed("v1".to_string()).build();
    assert_eq!(rt.render(&RenderSpec::Mix(bad), 12).err(), Some(RenderError::NoSuchFeedbackMixer));
    let bad = Mix::builder().name("v1".to_string()).build();
    assert_eq!(rt.render(&RenderSpec::Mix(bad), 12).err(), Some(RenderError::NoSuchMixer));
}

#[test]
fn seek_and_reset_through_render() {
    let mut rt = GfxRuntime::new(24, 0);
    let (info, mut data) = video_asset("v1");
    if let GfxData::VidData(v) = &mut data {
        v.prepare((30, 1), (0, 0)).unwrap();
    }
    rt.add(info, data);
    let seek = SeekVid { target: "v1".to_string(), sec: Rational::new(5, 1), exact: true };
    match rt.render(&RenderSpec::SeekVid(seek), 1) {
        Ok(RenderAction::Seek(0, plan)) => assert_eq!(plan.ts, 450_000),
        _ => panic!("seek not planned"),
    }
    let seek = SeekVid { target: "nope".to_string(), sec: Rational::new(5, 1), exact: true };
    assert_eq!(rt.render(&RenderSpec::SeekVid(seek), 1).err(), Some(RenderError::NoSuchVideo));
    assert!(matches!(rt.render(&RenderSpec::Reset(Reset { target: "v1".to_string() }), 1), Ok(RenderAction::Reset(0))));
    match &rt.entries[0].data {
        GfxData::VidData(v) => assert!(v.clock.is_none()),
        _ => panic!("not a video"),
    }
    let reset = Reset { target: "nope".to_string() };
    assert_eq!(rt.render(&RenderSpec::Reset(reset), 1).err(), Some(RenderError::NoSuchAsset));
}

#[test]
fn texture_reset_is_refused() {
    let mut rt = GfxRuntime::new(24, 0);
    let tex = Tex { name: "t".to_string(), globs: vec!["*.png".to_string()] };
    let td = TexData::assemble(&tex, vec![vec![1, 2, 3]], (4, 4)).unwrap();
    assert_eq!(td.info.count, 1);
    rt.add(GfxInfo::TexInfo(td.info.clone()), GfxData::TexData(td));
    let reset = Reset { target: "t".to_string() };
    assert_eq!(rt.render(&RenderSpec::Reset(reset), 1).err(), Some(RenderError::TextureReset));
    assert!(TexData::assemble(&tex, vec![], (4, 4)).is_err());
}

#[test]
fn text_and_no_ops_need_nothing() {
    let mut rt = GfxRuntime::new(24, 0);
    assert!(matches!(rt.render(&RenderSpec::Noop, 1), Ok(RenderAction::Done)));
    let hud = RenderSpec::from(HudText { text: "hello".to_string() });
    assert!(matches!(rt.render(&hud, 1), Ok(RenderAction::Done)));
}

#[test]
fn present_time_and_frame_event_lookups() {
    let mut rt = GfxRuntime::new(24, 0);
    let (info, data) = mixer_asset("m1", 1);
    rt.add(info, data);
    assert_eq!(rt.get_present_time_for_mix(&"m1".to_string()), Ok(Rational::new(0, 1)));
    assert_eq!(rt.get_present_time_for_mix(&"x".to_string()), Err(RenderError::NoSuchMixer));
    assert!(rt.get_last_frame_event(&"m1".to_string()).is_none());
    let (info, mut data) = video_asset("v1");
    if let GfxData::VidData(v) = &mut data {
        v.prepare((30, 1), (0, 0)).unwrap();
        v.on_frame(Some(9000), 3000).unwrap();
    }
    rt.add(info, data);
    let ev = rt.get_last_frame_event(&"v1".to_string()).unwrap();
    assert_eq!(ev.stream, "v1");
    assert_eq!(ev.real_ts, (9000, 90_000));
    assert_eq!(ev.continuous_ts, (0, 90_000));
    rt.set_last_frame_rendered(5);
    assert_eq!(rt.last_frame_rendered, 5);
}

#[test]
fn assets_convert_back_from_their_info() {
    let (info, _) = video_asset("v1");
    match Asset::from_info(info) {
        Asset::Vid(v) => {
            assert_eq!(v.name, "v1");
            assert_eq!(v.tbq, (0, 1));
            assert_eq!(v.resolution, (8, 8));
            assert!(v.repeat);
        },
        _ => panic!("not a video"),
    }
    let t = Asset::from_info(GfxInfo::TexInfo(TexInfo { name: "t".to_string(), count: 3, size: (1, 1) }));
    assert_eq!(t.name(), "t");
    assert_eq!(Asset::Missing.name(), "missing");
    let info = GfxInfo::from(TexInfo { name: "t2".to_string(), count: 1, size: (2, 2) });
    assert_eq!(info.name(), "t2");
}

#[test]
fn builders_assemble_their_values() {
    let v = Vid::builder()
        .name("v")
        .path("p")
        .codec("h264")
        .format("mp4")
        .opts(&[("k", "x")])
        .resolution((4, 3))
        .tbq((1, 30))
        .pix_fmt("yuv420p")
        .hardware_decode(true)
        .software_filter(true)
        .build();
    assert_eq!(v.codec.as_deref(), Some("h264"));
    assert_eq!(v.format.as_deref(), Some("mp4"));
    assert_eq!(v.opts, Some(vec![("k".to_string(), "x".to_string())]));
    assert_eq!(v.resolution, (4, 3));
    assert!(v.hardware_decode && v.software_filter);
    let c = CopyEx::builder()
        .name("c".to_string())
        .idx(2)
        .src((1, 2, 3, 4))
        .dst((5, 6, 7, 8))
        .rotation(90.0f64.to_bits())
        .center((1, 1))
        .flip_h(true)
        .flip_v(true)
        .color_mod((1, 2, 3, 4))
        .build();
    assert_eq!(c.dst, Some((5, 6, 7, 8)));
    assert_eq!(f64::from_bits(c.rotation), 90.0);
    let mix = Mix::builder()
        .name("m".to_string())
        .target(c)
        .lut("lut.cube".to_string())
        .no_display(true)
        .build();
    assert!(mix.no_display && mix.lut.is_some() && mix.target.is_some());
    let spec = RenderSpec::from(mix);
    assert!(matches!(spec, RenderSpec::Mix(_)));
    let m = VidMixer::builder().name("m").prelude("p").header("h").body("b").width(3).height(4).build();
    let info = VidMixerInfo::from(m);
    assert_eq!((info.width, info.height), (3, 4));
    assert_eq!(info.body.as_deref(), Some("b"));
}

#[test]
fn key_codes_round_trip() {
    assert_eq!(KeyCode::from_code(13), KeyCode::SDLK_RETURN);
    assert_eq!(KeyCode::SDLK_RETURN.code(), 13);
    assert_eq!(KeyCode::from_code(5), KeyCode::SDLK_UNKNOWN);
    assert_eq!(KeyCode::from_code(KeyCode::SDLK_AUDIOFASTFORWARD.code()), KeyCode::SDLK_AUDIOFASTFORWARD);
}

#[test]
fn status_codes_map_to_errors() {
    assert_eq!(RenderCalcErr::from_code(0), RenderCalcErr::Success);
    assert_eq!(RenderCalcErr::from_code(1), RenderCalcErr::Unknown);
    assert_eq!(RenderCalcErr::AssetDataErr.code(), 1);
    assert_eq!(RenderCalcErr::Unknown.code(), 255);
}

#[test]
fn unchanged_assets_reuse_their_info() {
    let vid = Vid::builder().name("v").path("a.mp4").build();
    let (info, _) = video_asset("v");
    let cache = vec![
        (Asset::from(Tex { name: "t".to_string(), globs: vec!["*.png".to_string()] }), info.clone()),
        (Asset::from(vid.clone()), info),
    ];
    assert_eq!(sdlrig::gfxinfo::cached_info(&cache, &Asset::from(vid.clone())), Some(1));
    let moved = Vid::builder().name("v").path("b.mp4").build();
    assert_eq!(sdlrig::gfxinfo::cached_info(&cache, &Asset::from(moved)), None);
    let tex = Asset::from(Tex { name: "t".to_string(), globs: vec!["*.jpg".to_string()] });
    assert_eq!(sdlrig::gfxinfo::cached_info(&cache, &tex), None);
    assert!(Asset::from(vid.clone()).same_as(&Asset::from(vid)));
}

#[test]
fn data_reports_its_info() {
    let (info, data) = video_asset("v1");
    let again = data.info();
    assert!(again.same_as(&info));
    assert_eq!(data.name(), "v1");
}

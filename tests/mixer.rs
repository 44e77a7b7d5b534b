use sdlrig::decode::{StreamProbe, VidData};
use sdlrig::gfxinfo::{Vid, VidMixer, VidMixerInfo};
use sdlrig::mixer::{InputAction, MixError, StdValue, VidMixerData};
use sdlrig::rational::Rational;
use sdlrig::renderspec::{SendCmd, SendValue};
use sdlrig::uniforms::{extract_vars, UniformStore, VarDecl, VarKind};

fn mixer(name: &str) -> VidMixerData {
    let m = VidMixer::builder().name(name).width(64).height(32).build();
    VidMixerData::new(VidMixerInfo::from(m))
}

fn float_bits(decls: &Vec<VarDecl>) -> Vec<Vec<u32>> {
    decls
        .iter()
        .map(|d| {
            d.tokens
                .iter()
                .map(|t| t.parse::<f32>().unwrap_or_default().to_bits())
                .collect()
        })
        .collect()
}

fn prepared(name: &str, shader: &str) -> VidMixerData {
    let mut m = mixer(name);
    let mut addendum = String::new();
    let decls = extract_vars(shader, &mut addendum);
    let bits = float_bits(&decls);
    m.install(UniformStore::from_decls(&decls, &bits));
    m
}

fn video_info() -> sdlrig::gfxinfo::VidInfo {
    let vid = Vid::builder().name("v0").path("a.mp4").repeat(true).build();
    let probe = StreamProbe {
        width: 640,
        height: 360,
        stream_duration: 900_000,
        container_duration: 0,
        time_base_num: 1,
        time_base_den: 90_000,
    };
    VidData::load(&vid, None, &probe).unwrap().info
}

#[test]
fn mix_of_two_ready_inputs_advances_one_frame() {
    let mut m = prepared("m1", "");
    let present = m.begin_mix(24, 1, 2).unwrap().unwrap();
    assert!(present.le(&Rational::new(0, 1)) && Rational::new(0, 1).le(&present));
    assert_eq!(m.get_present_time(), Rational::new(1, 24));
    let info = video_info();
    assert_eq!(m.input_step(0, &info, present, true, 3000), Ok(InputAction::Use));
    assert_eq!(m.input_step(1, &info, present, true, 3000), Ok(InputAction::Use));
    let sizes = vec![(640, 360), (640, 360)];
    let std = m.finish_mix(present, true, &sizes, 24, 100).unwrap().unwrap();
    assert_eq!(m.state.frame_count, 1);
    let names: Vec<&str> = std.iter().map(|u| u.name.as_str()).collect();
    assert_eq!(
        names,
        vec!["iFrame", "iResolution", "iTime", "iTimeDelta", "iSampleRate", "iResolution0", "iResolution1", "frame"]
    );
    assert!(matches!(std[0].value, StdValue::Ratio(1, 1)));
    assert!(matches!(&std[1].value, StdValue::Components(c) if c == &vec![64, 32, 1]));
    assert!(matches!(std[2].value, StdValue::Ratio(1, 24)));
    assert!(matches!(std[3].value, StdValue::Ratio(1, 24)));
    assert!(matches!(std[4].value, StdValue::Ratio(24, 1)));
    assert!(matches!(&std[5].value, StdValue::Components(c) if c == &vec![640, 360]));
    assert!(matches!(std[7].value, StdValue::Ratio(100, 1)));
    // the next mix is one frame later
    let next = m.begin_mix(24, 1, 2).unwrap().unwrap();
    assert_eq!(next, Rational::new(1, 24));
    assert_eq!(m.get_present_time(), Rational::new(2, 24));
}

#[test]
fn mix_of_dropped_frames_presents_the_last() {
    let mut m = prepared("m1", "");
    let present = m.begin_mix(24, 3, 0).unwrap().unwrap();
    assert_eq!(present, Rational::new(2, 24));
    assert_eq!(m.get_present_time(), Rational::new(3, 24));
}

#[test]
fn mix_of_zero_frames_changes_nothing() {
    let mut m = prepared("m1", "");
    m.begin_mix(24, 1, 1).unwrap();
    let before = m.get_present_time();
    assert_eq!(m.begin_mix(24, 0, 1), Ok(None));
    assert_eq!(m.begin_mix(24, -3, 1), Ok(None));
    assert_eq!(m.get_present_time(), before);
    assert_eq!(m.state.frame_count, 0);
}

#[test]
fn frame_counter_wraps_at_two_to_the_twenty_four() {
    let mut m = prepared("m1", "");
    let present = m.begin_mix(24, 1, 1).unwrap().unwrap();
    let std = m.finish_mix(present, true, &vec![(1, 1)], 24, (1 << 24) + 5).unwrap().unwrap();
    assert!(matches!(std[6].value, StdValue::Ratio(5, 1)));
}

#[test]
fn unready_inputs_render_nothing() {
    let mut m = prepared("m1", "");
    let present = m.begin_mix(24, 1, 1).unwrap().unwrap();
    assert!(m.finish_mix(present, false, &vec![(1, 1)], 24, 1).unwrap().is_none());
    assert!(m.finish_mix(present, true, &vec![], 24, 1).unwrap().is_none());
    assert_eq!(m.state.frame_count, 0);
    assert_eq!(m.state.last_frame_time, Some(present));
}

#[test]
fn stale_input_frame_is_decoded_past() {
    let mut m = prepared("m1", "");
    let info = video_info();
    let t0 = m.begin_mix(24, 1, 1).unwrap().unwrap();
    assert_eq!(m.input_step(0, &info, t0, false, 0), Ok(InputAction::Decode));
    assert_eq!(m.input_step(0, &info, t0, true, 3000), Ok(InputAction::Use));
    // 1/24 s is 3750 ticks: the frame of 3000 ticks no longer covers it
    let t1 = m.begin_mix(24, 1, 1).unwrap().unwrap();
    assert_eq!(m.input_step(0, &info, t1, true, 3000), Ok(InputAction::Decode));
    assert_eq!(m.state.last_input_times[0].last_time, Rational::new(3000, 90_000));
    assert_eq!(m.input_step(0, &info, t1, true, 3000), Ok(InputAction::Use));
}

#[test]
fn input_step_errors() {
    let mut m = prepared("m1", "");
    let info = video_info();
    let p = m.begin_mix(24, 1, 1).unwrap().unwrap();
    assert_eq!(m.input_step(3, &info, p, true, 1), Err(MixError::InputOutOfRange));
    assert_eq!(m.input_step(0, &info, p, true, -1), Err(MixError::NegativeDuration));
    let mut bad = video_info();
    bad.timebase_q = (1, 0);
    assert_eq!(m.input_step(0, &bad, p, true, 1), Err(MixError::InvalidTimeBase));
    assert_eq!(m.begin_mix(0, 1, 1), Err(MixError::InvalidFps));
}

#[test]
fn self_feedback_is_cleared_before_first_read() {
    let mut m = prepared("m1", "");
    assert!(!m.state.has_been_rendered);
    m.begin_mix(24, 1, 1).unwrap();
    assert!(m.state.claim_feedback());
    assert!(!m.state.claim_feedback());
    let mut fresh = mixer("m2");
    assert!(!fresh.state.claim_feedback());
}

#[test]
fn unknown_uniform_is_ignored() {
    let mut m = prepared("m1", "//!VAR float gain 1.5\n");
    let cmd = SendCmd::builder()
        .mix("m1")
        .name("nope")
        .value(SendValue::Float(2.0f32.to_bits()))
        .build();
    assert_eq!(m.do_cmd(&cmd), Ok(()));
    let store = m.state.uniforms.as_ref().unwrap();
    assert_eq!(store.vars.len(), 2);
    assert_eq!(store.vars[0].data, vec![1.5f32.to_bits()]);
    let cmd = SendCmd::builder()
        .mix("m1")
        .name("gain")
        .value(SendValue::Float(2.0f32.to_bits()))
        .build();
    assert_eq!(m.do_cmd(&cmd), Ok(()));
    assert_eq!(m.state.uniforms.as_ref().unwrap().vars[0].data, vec![2.0f32.to_bits()]);
}

#[test]
fn command_before_prepare_is_refused() {
    let mut m = mixer("m1");
    let cmd = SendCmd::builder().mix("m1").name("gain").build();
    assert_eq!(m.do_cmd(&cmd), Err(MixError::NotPrepared));
}

#[test]
fn vector_uniforms_resize() {
    let mut m = prepared("m1", "//!VAR vec2[] pts 1 2\n//!VAR vec3 col 1 2 3\n");
    let v = |xs: &[f32]| xs.iter().map(|x| x.to_bits()).collect::<Vec<u32>>();
    // an array of two-component elements takes room for at least two elements
    let cmd = SendCmd::builder().mix("m1").name("pts").value(SendValue::Vector(v(&[1.0, 2.0, 3.0, 4.0, 5.0, 6.0]))).build();
    m.do_cmd(&cmd).unwrap();
    let var = &m.state.uniforms.as_ref().unwrap().vars[0];
    assert_eq!((var.dim_v, var.dim_m, var.dim_a), (2, 1, 3));
    assert_eq!(var.data.len(), 6);
    // a single vec3 takes one element, zero-padded
    let cmd = SendCmd::builder().mix("m1").name("col").value(SendValue::Vector(v(&[9.0, 8.0]))).build();
    m.do_cmd(&cmd).unwrap();
    let var = &m.state.uniforms.as_ref().unwrap().vars[1];
    assert_eq!(var.data, vec![9.0f32.to_bits(), 8.0f32.to_bits(), 0]);
    assert_eq!(var.dim_a, 1);
}

#[test]
fn unsigned_vectors_use_the_swapped_rule() {
    let mut m = prepared("m1", "//!VAR uvec3 u 1 2 3\n");
    let cmd = SendCmd::builder().mix("m1").name("u").value(SendValue::UVector(vec![7, 8])).build();
    m.do_cmd(&cmd).unwrap();
    let var = &m.state.uniforms.as_ref().unwrap().vars[0];
    assert_eq!(var.data, vec![7, 8, 0, 0, 0, 0]);
    assert_eq!(var.dim_a, 2);
}

#[test]
fn odd_sized_vectors_are_padded_to_whole_elements() {
    let mut m = prepared("m1", "//!VAR ivec3 iv 1 2 3\n//!VAR vec2[] pts 1 2 3 4 5 6\n//!VAR uvec2 u 1 2\n");
    let cmd = SendCmd::builder().mix("m1").name("iv").value(SendValue::IVector(vec![1, 2, 3, 4])).build();
    assert_eq!(m.do_cmd(&cmd), Ok(()));
    let var = &m.state.uniforms.as_ref().unwrap().vars[0];
    assert_eq!(var.data, vec![1, 2, 3, 4, 0, 0]);
    assert_eq!(var.dim_a, 2);
    // a vec2 array of three elements sent five words takes three elements
    let cmd = SendCmd::builder().mix("m1").name("pts").value(SendValue::Vector(vec![9, 9, 9, 9, 9])).build();
    m.do_cmd(&cmd).unwrap();
    let var = &m.state.uniforms.as_ref().unwrap().vars[1];
    assert_eq!(var.data, vec![9, 9, 9, 9, 9, 0]);
    assert_eq!(var.dim_a, 3);
    // an unsigned pair grown to three elements, then sent three words, keeps two
    let cmd = SendCmd::builder().mix("m1").name("u").value(SendValue::UVector(vec![1, 2, 3, 4, 5, 6])).build();
    m.do_cmd(&cmd).unwrap();
    assert_eq!(m.state.uniforms.as_ref().unwrap().vars[2].dim_a, 3);
    let cmd = SendCmd::builder().mix("m1").name("u").value(SendValue::UVector(vec![7, 8, 9])).build();
    m.do_cmd(&cmd).unwrap();
    let var = &m.state.uniforms.as_ref().unwrap().vars[2];
    assert_eq!(var.data, vec![7, 8, 9, 0]);
    assert_eq!(var.dim_a, 2);
}

#[test]
fn scalar_commands_write_the_first_word() {
    let mut m = prepared("m1", "//!VAR int n 4\n//!VAR uint u 9\n");
    let cmd = SendCmd::builder().mix("m1").name("n").value(SendValue::Integer(-2)).build();
    m.do_cmd(&cmd).unwrap();
    let cmd = SendCmd::builder().mix("m1").name("u").value(SendValue::Unsigned(11)).build();
    m.do_cmd(&cmd).unwrap();
    let vars = &m.state.uniforms.as_ref().unwrap().vars;
    assert_eq!(vars[0].data, vec![(-2i32) as u32]);
    assert_eq!(vars[1].data, vec![11]);
}

#[test]
fn declarations_are_parsed_with_their_values() {
    let text = "//!VAR int count -5\n//!VAR uint big 4294967295\n//!VAR int over 2147483648\n\
                //!VAR mat2 m 1 2 3 4\n//!VAR int[] xs 3\n//!VAR vec2[] odd 1 2 3\n\
                //!VAR vec4 short 1 2\n//!VAR bogus b 1\n// plain comment\n";
    let mut addendum = String::new();
    let decls = extract_vars(text, &mut addendum);
    assert_eq!(addendum, "");
    let names: Vec<&str> = decls.iter().map(|d| d.name.as_str()).collect();
    assert_eq!(names, vec!["count", "big", "over", "m", "xs"]);
    assert_eq!(decls[3].kind, VarKind::Float);
    assert_eq!((decls[3].dim_v, decls[3].dim_m, decls[3].dim_a), (2, 2, 1));
    assert_eq!((decls[4].dim_v, decls[4].dim_m, decls[4].dim_a), (1, 1, 2));
    let bits = float_bits(&decls);
    let store = UniformStore::from_decls(&decls, &bits);
    assert_eq!(store.vars[0].data, vec![(-5i32) as u32]);
    assert_eq!(store.vars[1].data, vec![u32::MAX]);
    assert_eq!(store.vars[2].data, vec![0]);
    assert_eq!(store.vars[4].data, vec![3, 0]);
    assert_eq!(store.vars[5].name, "frame");
    assert!(!store.vars[5].dynamic);
}

#[test]
fn string_declarations_become_code_arrays() {
    let mut addendum = String::new();
    let decls = extract_vars("//!STR msg \"hi\\n\"\n", &mut addendum);
    assert!(decls.is_empty());
    let mut codes = vec!["0x68", "0x69", "0x0a"];
    codes.extend(std::iter::repeat("0x00").take(125));
    let expected = format!("int msg_length = 3;\nint msg[128] = {{{}}};\n", codes.join(", "));
    assert_eq!(addendum, expected);
}

#[test]
fn long_string_declarations_are_truncated() {
    let mut addendum = String::new();
    let text = format!("//!STR s \"{}\"", "\u{100}".repeat(130));
    extract_vars(&text, &mut addendum);
    assert!(addendum.starts_with("// s is too long, truncating to 128\nint s_length = 128;\nint s[128] = {0x100, "));
}

#[test]
fn string_declaration_without_quotes_adds_nothing() {
    let mut addendum = String::from("x");
    extract_vars("//!STR name nothing quoted\n//!STR q \"\n", &mut addendum);
    assert_eq!(addendum, "x");
}

#[test]
fn shader_sources_carry_string_code_in_the_prelude() {
    let mixer = VidMixer::builder()
        .name("m")
        .width(2)
        .height(2)
        .prelude("// p\n//!STR t \"\"\n")
        .header("//!VAR float a 1\n")
        .body("//!VAR int b 2\ncolor = vec4(0);")
        .build();
    let m = VidMixerData::new(VidMixerInfo::from(mixer));
    let src = m.shader_sources();
    assert!(src.prelude.starts_with("// p\n//!STR t \"\"\nint t_length = 0;\n"));
    let names: Vec<&str> = src.decls.iter().map(|d| d.name.as_str()).collect();
    assert_eq!(names, vec!["a", "b"]);
}

#[test]
fn mixer_reset_drops_everything() {
    let mut m = prepared("m1", "//!VAR float a 1\n");
    m.begin_mix(24, 1, 1).unwrap();
    m.reset();
    assert!(m.state.uniforms.is_none());
    assert_eq!(m.get_present_time(), Rational::new(0, 1));
    assert!(!m.is_prepared());
}

#[test]
fn default_mixer_body_passes_its_input_through() {
    let mixer = VidMixer::builder().name("m").width(1).height(1).build();
    assert_eq!(mixer.body.as_deref(), Some("color = texture(src_tex0, src_coord0);"));
}

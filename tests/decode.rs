use sdlrig::decode::{
    DecodeClock, DecodeError, EndAction, FrameStep, LoadError, Resync, ResyncStep, StreamProbe,
    VidData,
};
use sdlrig::gfxinfo::Vid;
use sdlrig::rational::Rational;

fn probe(duration: i64) -> StreamProbe {
    StreamProbe {
        width: 640,
        height: 360,
        stream_duration: duration,
        container_duration: 0,
        time_base_num: 1,
        time_base_den: 90_000,
    }
}

fn clip(repeat: bool, realtime: bool, duration: i64) -> VidData {
    let vid = Vid::builder()
        .name("clip1")
        .path("a.mp4")
        .repeat(repeat)
        .realtime(realtime)
        .build();
    VidData::load(&vid, None, &probe(duration)).unwrap()
}

#[test]
fn seek_to_five_seconds_lands_within_a_frame() {
    // 10 s at 30 fps in a 1/90000 time base
    let mut v = clip(true, false, 900_000);
    v.prepare((30, 1), (0, 0)).unwrap();
    assert_eq!(v.on_frame(Some(0), 3000), Ok(FrameStep::Present));
    let plan = v.seek_plan(Rational::new(5, 1), true).unwrap().unwrap();
    assert_eq!(plan.ts, 450_000);
    // one twentieth of a frame is 150 ticks
    assert_eq!(plan.pts_min, 449_850);
    let mut resync = Resync::new(&plan);
    // the seek lands on a keyframe at 4.8 s and decodes forward
    let mut pts: i64 = 432_000;
    let mut steps = 0;
    loop {
        v.on_frame(Some(pts), 3000).unwrap();
        let real = v.last_real_pts().unwrap();
        let step = resync.on_frame(real);
        steps += 1;
        if step != ResyncStep::Continue {
            assert_eq!(step, ResyncStep::Reached);
            break;
        }
        pts += 3000;
    }
    assert_eq!(steps, 7);
    let real = v.last_real_pts().unwrap();
    assert!((real - 450_000).abs() <= 3000);
    let ev = v.last_frame_event(&"clip1".to_string()).unwrap();
    assert_eq!(ev.real_ts, (450_000, 90_000));
}

#[test]
fn relative_seek_wraps_into_the_clip() {
    let mut v = clip(true, false, 900_000);
    v.prepare((30, 1), (0, 0)).unwrap();
    v.on_frame(Some(810_000), 3000).unwrap();
    // 9 s + 2 s wraps to 1 s
    let plan = v.seek_plan(Rational::new(2, 1), false).unwrap().unwrap();
    assert_eq!(plan.ts, 90_000);
    // -10 s from 9 s wraps to 9 s
    let plan = v.seek_plan(Rational::new(-10, 1), false).unwrap().unwrap();
    assert_eq!(plan.ts, 810_000);
    assert_eq!(plan.pts_min, 809_850);
}

#[test]
fn seek_window_at_start_is_zero() {
    let mut v = clip(true, false, 900_000);
    v.prepare((30, 1), (0, 0)).unwrap();
    let plan = v.seek_plan(Rational::new(0, 1), true).unwrap().unwrap();
    assert_eq!(plan.ts, 0);
    assert_eq!(plan.pts_min, 0);
}

#[test]
fn resync_stops_when_the_source_wraps() {
    let plan = sdlrig::decode::SeekPlan { ts: 500, pts_min: 450 };
    let mut r = Resync::new(&plan);
    assert_eq!(r.on_frame(100), ResyncStep::Continue);
    assert_eq!(r.on_frame(200), ResyncStep::Continue);
    assert_eq!(r.on_frame(50), ResyncStep::WrappedAround);
}

#[test]
fn resync_gives_up_after_its_budget() {
    let plan = sdlrig::decode::SeekPlan { ts: 500, pts_min: 450 };
    let mut r = Resync::new(&plan);
    let mut last = ResyncStep::Continue;
    let mut n = 0;
    while last == ResyncStep::Continue {
        last = r.on_frame(10);
        n += 1;
    }
    assert_eq!(last, ResyncStep::GaveUp);
    assert_eq!(n, 1000);
}

#[test]
fn loop_restart_reproduces_frame_durations() {
    let frames = [(Some(0), 3000), (Some(3000), 3000), (Some(6000), 3003)];
    let mut c = DecodeClock::new(30, 1);
    let mut first = vec![];
    for (pts, dur) in frames {
        assert_eq!(c.on_frame(false, pts, dur), Ok(FrameStep::Present));
        first.push(c.last_frame_duration);
    }
    let before = c.continuous_pts;
    assert_eq!(c.on_end_of_stream(true, 9003), Ok(EndAction::Rewind));
    assert_eq!(c.continuous_pts, before);
    let mut second = vec![];
    for (pts, dur) in frames {
        c.on_frame(false, pts, dur).unwrap();
        second.push(c.last_frame_duration);
    }
    assert_eq!(first, vec![3000, 3000, 3003]);
    assert_eq!(first, second);
    assert_eq!(c.continuous_pts, 2 * 9003);
    assert_eq!(c.last_real_pts, Some(6000));
}

#[test]
fn frozen_source_keeps_its_clock_moving() {
    let mut v = clip(false, false, 9003);
    v.prepare((30, 1), (0, 0)).unwrap();
    v.on_frame(Some(0), 3000).unwrap();
    v.on_frame(Some(3000), 3003).unwrap();
    let mut last = v.clock.unwrap().continuous_pts;
    assert_eq!(last, 6003);
    for _ in 0..5 {
        assert_eq!(v.on_end_of_stream(), Ok(EndAction::Freeze));
        let c = v.clock.unwrap();
        assert!(c.continuous_pts > last);
        assert_eq!(c.continuous_pts, last + 3003);
        assert_eq!(c.last_frame_pts, c.continuous_pts);
        assert_eq!(c.last_real_pts, Some(3000));
        last = c.continuous_pts;
    }
}

#[test]
fn realtime_source_skips_its_first_frame() {
    let mut c = DecodeClock::new(25, 1);
    assert_eq!(c.on_frame(true, Some(1000), 40), Ok(FrameStep::Skip));
    assert_eq!(c.continuous_pts, 0);
    assert_eq!(c.on_frame(true, Some(1050), 40), Ok(FrameStep::Present));
    assert_eq!(c.continuous_pts, 50);
    assert_eq!(c.last_frame_pts, 0);
    assert_eq!(c.last_real_pts, Some(0));
    assert_eq!(c.on_frame(true, Some(1080), 40), Ok(FrameStep::Present));
    assert_eq!(c.continuous_pts, 80);
    assert_eq!(c.last_frame_pts, 50);
}

#[test]
fn frame_without_timestamp_uses_the_clock() {
    let mut c = DecodeClock::new(25, 1);
    c.on_frame(false, None, 40).unwrap();
    assert_eq!(c.last_real_pts, Some(0));
    c.on_frame(false, None, 40).unwrap();
    assert_eq!(c.last_real_pts, Some(40));
}

#[test]
fn clock_overflow_is_reported() {
    let mut c = DecodeClock::new(25, 1);
    c.continuous_pts = i64::MAX;
    assert_eq!(c.on_frame(false, None, 1), Err(DecodeError::ClockOverflow));
    assert_eq!(c.continuous_pts, i64::MAX);
}

#[test]
fn load_needs_exactly_one_file() {
    let vid = Vid::builder().name("v").path("*.mp4").build();
    assert_eq!(VidData::load(&vid, Some(vec![]), &probe(1)).err(), Some(LoadError::NothingLoaded));
    let two = vec!["a.mp4".to_string(), "b.mp4".to_string()];
    assert_eq!(VidData::load(&vid, Some(two), &probe(1)).err(), Some(LoadError::TooManyFiles));
    let one = vec!["a.mp4".to_string()];
    let v = VidData::load(&vid, Some(one), &probe(1)).unwrap();
    assert_eq!(v.info.path, "a.mp4");
    assert_eq!(v.info.duration_tbu_q, (1, 1));
    assert_eq!(v.info.timebase_q, (1, 90_000));
}

#[test]
fn load_refuses_realtime_repeat() {
    let vid = Vid::builder().name("v").path("a").repeat(true).realtime(true).build();
    assert_eq!(VidData::load(&vid, None, &probe(1)).err(), Some(LoadError::RealtimeAndRepeat));
}

#[test]
fn load_falls_back_to_container_duration() {
    let vid = Vid::builder().name("v").path("a").build();
    let mut p = probe(0);
    p.container_duration = 77;
    let v = VidData::load(&vid, None, &p).unwrap();
    assert_eq!(v.info.duration_tbu_q, (77, 1));
    p.container_duration = 0;
    let v = VidData::load(&vid, None, &p).unwrap();
    assert_eq!(v.info.duration_tbu_q, (0, 1));
}

#[test]
fn prepare_picks_a_positive_rate() {
    let mut v = clip(true, false, 100);
    assert_eq!(v.prepare((0, 1), (0, 1)), Err(DecodeError::NoFrameRate));
    assert!(v.clock.is_none());
    v.prepare((0, 1), (24000, 1001)).unwrap();
    let c = v.clock.unwrap();
    assert_eq!((c.fps_num, c.fps_den), (24000, 1001));
    // a second prepare keeps the open state
    v.prepare((30, 1), (0, 1)).unwrap();
    assert_eq!(v.clock.unwrap().fps_num, 24000);
    v.reset();
    assert!(v.clock.is_none());
}

#[test]
fn decode_before_prepare_is_refused() {
    let mut v = clip(true, false, 100);
    assert_eq!(v.on_frame(Some(0), 1), Err(DecodeError::NotPrepared));
    assert_eq!(v.on_end_of_stream(), Err(DecodeError::NotPrepared));
    assert_eq!(v.seek_plan(Rational::new(1, 1), true), Err(DecodeError::NotPrepared));
    assert_eq!(v.last_frame_pts(), 0);
    assert_eq!(v.time_base(), (0, 1));
}

#[test]
fn seek_is_ignored_for_realtime_and_single_play() {
    let mut v = clip(false, false, 100);
    v.prepare((30, 1), (0, 0)).unwrap();
    assert_eq!(v.seek_plan(Rational::new(1, 1), true), Ok(None));
    let mut v = clip(false, true, 100);
    v.prepare((30, 1), (0, 0)).unwrap();
    assert_eq!(v.seek_plan(Rational::new(1, 1), true), Ok(None));
}

#[test]
fn seek_errors() {
    let mut v = clip(true, false, 0);
    v.prepare((30, 1), (0, 0)).unwrap();
    assert_eq!(v.seek_plan(Rational::new(-1, 1), true), Err(DecodeError::SeekTooNegative));
    assert_eq!(v.seek_plan(Rational::new(1, 1), true), Err(DecodeError::SeekTooLarge));
    assert_eq!(v.seek_plan(Rational::new(1, 1 << 40), true), Err(DecodeError::SeekOutOfRange));
    let vid = Vid::builder().name("v").path("a").repeat(true).build();
    let mut p = probe(100);
    p.time_base_num = 0;
    let mut v = VidData::load(&vid, None, &p).unwrap();
    v.prepare((30, 1), (0, 0)).unwrap();
    assert_eq!(v.seek_plan(Rational::new(1, 1), true), Err(DecodeError::InvalidTimeBase));
}

#[test]
fn rational_sums_keep_a_common_grid() {
    let a = Rational::new(1, 24);
    let b = Rational::new(3000, 90_000);
    assert_eq!(a.checked_add(Rational::new(1, 24)), Some(Rational::new(2, 24)));
    // 90000 is a multiple of 24
    assert_eq!(a.checked_add(b), Some(Rational::new(3750 + 3000, 90_000)));
    assert_eq!(Rational::new(1, 7).checked_add(Rational::new(1, 5)), Some(Rational::new(12, 35)));
    assert_eq!(Rational::new(i64::MAX, 1).checked_add(Rational::new(1, 1)), None);
    assert!(a.le(&Rational::new(2, 48)));
    assert!(!Rational::new(3, 48).le(&a));
}

#[test]
fn decode_gives_up_after_three_errors() {
    let mut b = sdlrig::decode::ErrorBudget::new();
    assert!(!b.record());
    assert!(!b.record());
    assert!(b.record());
}

#[test]
fn seek_to_the_end_wraps_to_the_start() {
    // 10 ticks in a time base of one second
    let vid = Vid::builder().name("v").path("a").repeat(true).build();
    let p = StreamProbe { width: 1, height: 1, stream_duration: 10, container_duration: 0, time_base_num: 1, time_base_den: 1 };
    let mut v = VidData::load(&vid, None, &p).unwrap();
    v.prepare((1, 1), (0, 0)).unwrap();
    assert_eq!(v.seek_plan(Rational::new(10, 1), true).unwrap().unwrap().ts, 0);
    assert_eq!(v.seek_plan(Rational::new(9, 1), true).unwrap().unwrap().ts, 9);
    assert_eq!(v.seek_plan(Rational::new(25, 1), true).unwrap().unwrap().ts, 5);
}

#[test]
fn negative_durations_never_move_the_clock_back() {
    let mut c = DecodeClock::new(25, 1);
    c.on_frame(false, Some(0), 40).unwrap();
    c.on_frame(false, Some(40), -40).unwrap();
    assert_eq!(c.continuous_pts, 40);
    assert_eq!(c.last_frame_duration, 0);
    let mut r = DecodeClock::new(25, 1);
    r.on_frame(true, Some(100), 40).unwrap();
    r.on_frame(true, Some(140), 40).unwrap();
    assert_eq!(r.continuous_pts, 40);
    // a timestamp that goes backwards counts as no time
    r.on_frame(true, Some(120), 40).unwrap();
    assert_eq!(r.continuous_pts, 40);
}

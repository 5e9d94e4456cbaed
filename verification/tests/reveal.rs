use window_reveal::{
    accumulate, catch_ready, reveal_if_safe, reveal_if_safe_without_window, startup, tick,
    tick_without_window, RevealState, RevealStatus, Rgba, WindowHandle, WindowRevealConfig,
};

fn cfg(frames_after_ready: u32, ms_after_ready: u64) -> WindowRevealConfig {
    WindowRevealConfig { frames_after_ready, ms_after_ready, initial_clear: None }
}

fn hidden_window() -> WindowHandle {
    WindowHandle { visible: false, transparent: false }
}

#[test]
fn default_config_is_two_frames_black_clear() {
    let c = WindowRevealConfig::default();
    assert_eq!(c.frames_after_ready, 2);
    assert_eq!(c.ms_after_ready, 0);
    assert_eq!(c.initial_clear, Some(Rgba { red: 0, green: 0, blue: 0, alpha: 255 }));
}

#[test]
fn default_state_is_not_ready_with_zeroed_counters() {
    let s = RevealState::default();
    assert_eq!(s.status, RevealStatus::NotReady);
    assert_eq!(s.frames_since_ready, 0);
    assert_eq!(s.micros_since_ready, 0);
}

#[test]
fn startup_hides_window_irrespective_of_prior_flags() {
    let mut w = WindowHandle { visible: true, transparent: true };
    startup(&mut w);
    assert!(!w.visible);
    assert!(!w.transparent);

    let mut w2 = hidden_window();
    startup(&mut w2);
    assert!(!w2.visible);
    assert!(!w2.transparent);
}

#[test]
fn two_frame_settle_scenario() {
    // config{frames=2, ms=0}, no initial clear.
    let c = cfg(2, 0);
    let mut s = RevealState::default();
    let mut w = WindowHandle { visible: true, transparent: true };

    // t0: initialize; the window is hidden.
    startup(&mut w);
    assert!(!w.visible);

    // t1: one readiness event arrives; status Ready, counters zero.
    tick(&c, &mut s, &mut w, true, 16_000);
    assert_eq!(s.status, RevealStatus::Ready);
    assert_eq!(s.frames_since_ready, 0);
    assert_eq!(s.micros_since_ready, 0);
    assert!(!w.visible);

    // t2: one frame counted; 1 < 2, still hidden.
    tick(&c, &mut s, &mut w, false, 16_000);
    assert_eq!(s.status, RevealStatus::Ready);
    assert_eq!(s.frames_since_ready, 1);
    assert!(!w.visible);

    // t3: two frames counted; 2 >= 2, revealed.
    tick(&c, &mut s, &mut w, false, 16_000);
    assert_eq!(s.status, RevealStatus::Revealed);
    assert_eq!(s.frames_since_ready, 2);
    assert!(w.visible);
}

#[test]
fn zero_frame_threshold_reveals_one_tick_after_readiness() {
    // config{frames=0, ms=500}: the frame threshold of 0 is trivially
    // satisfied one tick after readiness, before 500 ms can accumulate.
    let c = cfg(0, 500);
    let mut s = RevealState::default();
    let mut w = hidden_window();

    // t1: readiness, counters reset.
    tick(&c, &mut s, &mut w, true, 16_000);
    assert_eq!(s.status, RevealStatus::Ready);
    assert_eq!(s.frames_since_ready, 0);
    assert!(!w.visible);

    // t2: frames_since_ready reaches 1 >= 0; revealed by the frame
    // threshold even though only 16 ms have accumulated.
    tick(&c, &mut s, &mut w, false, 16_000);
    assert_eq!(s.status, RevealStatus::Revealed);
    assert!(s.ms_since_ready() < 500);
    assert!(w.visible);
}

#[test]
fn no_readiness_means_hidden_forever() {
    let c = cfg(2, 0);
    let mut s = RevealState::default();
    let mut w = hidden_window();
    startup(&mut w);
    for _ in 0..100 {
        tick(&c, &mut s, &mut w, false, 16_000);
        assert_eq!(s.status, RevealStatus::NotReady);
        assert_eq!(s.frames_since_ready, 0);
        assert_eq!(s.micros_since_ready, 0);
        assert!(!w.visible);
    }
}

#[test]
fn time_threshold_fires_first_when_met_earlier() {
    // config{frames=100, ms=50}, 16 ms per tick: 64 ms have accumulated on
    // the fourth tick after readiness, long before 100 frames.
    let c = cfg(100, 50);
    let mut s = RevealState::default();
    let mut w = hidden_window();

    tick(&c, &mut s, &mut w, true, 16_000);
    for expected_frames in 1..=3u32 {
        tick(&c, &mut s, &mut w, false, 16_000);
        assert_eq!(s.status, RevealStatus::Ready);
        assert_eq!(s.frames_since_ready, expected_frames);
        assert_eq!(s.ms_since_ready(), 16 * expected_frames as u64);
        assert!(!w.visible);
    }
    tick(&c, &mut s, &mut w, false, 16_000);
    assert_eq!(s.status, RevealStatus::Revealed);
    assert_eq!(s.ms_since_ready(), 64);
    assert!(w.visible);
}

#[test]
fn frame_threshold_fires_first_when_met_earlier() {
    // config{frames=2, ms=10000}, 16 ms per tick: two frames elapse long
    // before ten seconds.
    let c = cfg(2, 10_000);
    let mut s = RevealState::default();
    let mut w = hidden_window();

    tick(&c, &mut s, &mut w, true, 16_000);
    tick(&c, &mut s, &mut w, false, 16_000);
    assert_eq!(s.status, RevealStatus::Ready);
    assert!(!w.visible);
    tick(&c, &mut s, &mut w, false, 16_000);
    assert_eq!(s.status, RevealStatus::Revealed);
    assert_eq!(s.frames_since_ready, 2);
    assert!(w.visible);
}

#[test]
fn both_thresholds_zero_reveal_on_first_tick_after_readiness() {
    let c = cfg(0, 0);
    let mut s = RevealState::default();
    let mut w = hidden_window();
    tick(&c, &mut s, &mut w, true, 16_000);
    assert_eq!(s.status, RevealStatus::Ready);
    assert!(!w.visible);
    tick(&c, &mut s, &mut w, false, 16_000);
    assert_eq!(s.status, RevealStatus::Revealed);
    assert!(w.visible);
}

#[test]
fn sub_millisecond_deltas_accumulate_without_drift() {
    // Four ticks of 500 us each reach the 2 ms threshold exactly; per-tick
    // truncation to whole milliseconds would never get there.
    let c = cfg(u32::MAX, 2);
    let mut s = RevealState::default();
    let mut w = hidden_window();

    tick(&c, &mut s, &mut w, true, 500);
    for _ in 0..3 {
        tick(&c, &mut s, &mut w, false, 500);
        assert_eq!(s.status, RevealStatus::Ready);
        assert!(!w.visible);
    }
    tick(&c, &mut s, &mut w, false, 500);
    assert_eq!(s.micros_since_ready, 2_000);
    assert_eq!(s.status, RevealStatus::Revealed);
    assert!(w.visible);
}

#[test]
fn ms_since_ready_truncates_to_whole_milliseconds() {
    let s = RevealState {
        status: RevealStatus::Ready,
        frames_since_ready: 1,
        micros_since_ready: 1_999,
    };
    assert_eq!(s.ms_since_ready(), 1);
}

#[test]
fn multiple_readiness_events_count_as_one_transition() {
    let mut s = RevealState::default();
    // The host saw a whole batch of events this tick: one transition.
    catch_ready(&mut s, true);
    assert_eq!(s.status, RevealStatus::Ready);
    assert_eq!(s.frames_since_ready, 0);

    // Later events are drained without effect: no re-reset of counters.
    let c = cfg(10, 0);
    let mut w = hidden_window();
    accumulate(&c, &mut s, 16_000);
    accumulate(&c, &mut s, 16_000);
    assert_eq!(s.frames_since_ready, 2);
    catch_ready(&mut s, true);
    assert_eq!(s.status, RevealStatus::Ready);
    assert_eq!(s.frames_since_ready, 2);
    tick(&c, &mut s, &mut w, true, 16_000);
    assert_eq!(s.frames_since_ready, 3);
}

#[test]
fn status_never_regresses_and_side_effect_fires_once() {
    let c = cfg(1, 0);
    let mut s = RevealState::default();
    let mut w = hidden_window();

    tick(&c, &mut s, &mut w, true, 16_000);
    tick(&c, &mut s, &mut w, false, 16_000);
    assert_eq!(s.status, RevealStatus::Revealed);
    assert!(w.visible);

    // Once revealed the controller does no further work: readiness events,
    // frames and time change nothing, and the visibility side effect does
    // not fire again even if the host hides the window.
    w.visible = false;
    let frozen = s;
    for _ in 0..10 {
        tick(&c, &mut s, &mut w, true, 16_000);
        assert_eq!(s, frozen);
        assert!(!w.visible);
    }
}

#[test]
fn accumulate_is_a_no_op_outside_ready() {
    let c = cfg(2, 100);
    let mut s = RevealState::default();
    accumulate(&c, &mut s, 16_000);
    assert_eq!(s, RevealState::default());

    let mut revealed = RevealState {
        status: RevealStatus::Revealed,
        frames_since_ready: 7,
        micros_since_ready: 42,
    };
    accumulate(&c, &mut revealed, 16_000);
    assert_eq!(revealed.frames_since_ready, 7);
    assert_eq!(revealed.micros_since_ready, 42);
}

#[test]
fn accumulate_skips_time_when_threshold_disabled() {
    let c = cfg(5, 0);
    let mut s = RevealState {
        status: RevealStatus::Ready,
        frames_since_ready: 0,
        micros_since_ready: 0,
    };
    accumulate(&c, &mut s, 16_000);
    assert_eq!(s.frames_since_ready, 1);
    assert_eq!(s.micros_since_ready, 0);
}

#[test]
fn reveal_if_safe_is_a_no_op_before_due_and_outside_ready() {
    let c = cfg(2, 0);
    let mut w = hidden_window();

    let mut not_ready = RevealState::default();
    reveal_if_safe(&c, &mut not_ready, &mut w);
    assert_eq!(not_ready.status, RevealStatus::NotReady);
    assert!(!w.visible);

    let mut short = RevealState {
        status: RevealStatus::Ready,
        frames_since_ready: 1,
        micros_since_ready: 0,
    };
    reveal_if_safe(&c, &mut short, &mut w);
    assert_eq!(short.status, RevealStatus::Ready);
    assert!(!w.visible);
}

#[test]
fn missing_window_skips_side_effect_but_still_transitions() {
    let c = cfg(1, 0);
    let mut s = RevealState::default();

    tick_without_window(&c, &mut s, true, 16_000);
    assert_eq!(s.status, RevealStatus::Ready);
    tick_without_window(&c, &mut s, false, 16_000);
    assert_eq!(s.status, RevealStatus::Revealed);

    // The handle comes back, but the controller does not retry: the window
    // stays hidden.
    let mut w = hidden_window();
    tick(&c, &mut s, &mut w, false, 16_000);
    assert_eq!(s.status, RevealStatus::Revealed);
    assert!(!w.visible);
}

#[test]
fn reveal_if_safe_without_window_matches_reveal_if_safe_on_state() {
    let c = cfg(2, 0);
    let mut with_window = RevealState {
        status: RevealStatus::Ready,
        frames_since_ready: 2,
        micros_since_ready: 0,
    };
    let mut without_window = with_window;
    let mut w = hidden_window();
    reveal_if_safe(&c, &mut with_window, &mut w);
    reveal_if_safe_without_window(&c, &mut without_window);
    assert_eq!(with_window, without_window);
    assert!(w.visible);
}

#[test]
fn window_setters_touch_only_their_flag() {
    let mut w = hidden_window();
    w.set_visible(true);
    assert!(w.visible);
    assert!(!w.transparent);
    w.set_transparent(true);
    assert!(w.visible);
    assert!(w.transparent);
}

//! A reveal controller for an application's primary window.
//!
//! The controller delays the visible presentation of a window until the host
//! windowing layer signals readiness, then reveals it only after a
//! configurable settle period, measured in frames, elapsed time, or either.
//! The host drives it once per frame tick, in a fixed order: drain readiness
//! events ([`catch_ready`]), accumulate elapsed frames and time
//! ([`accumulate`]), and reveal once a threshold is met ([`reveal_if_safe`]).
//! The host supplies plain values — whether a readiness event was seen, the
//! elapsed time of the tick — and performs the real windowing calls; the
//! controller owns every decision.

use vstd::prelude::*;

pub mod laws;

verus! {

/// A color by its four channels, used for the background clear color that is
/// painted behind window content before the first real frame.
#[derive(PartialEq, Eq, Clone, Copy, Debug)]
pub struct Rgba {
    pub red: u8,
    pub green: u8,
    pub blue: u8,
    pub alpha: u8,
}

/// Configuration for the window reveal controller, immutable after
/// construction.
///
/// - `frames_after_ready`: number of frames to wait after readiness before
///   revealing.
/// - `ms_after_ready`: milliseconds to wait after readiness before revealing;
///   zero disables the time threshold.
/// - `initial_clear`: optional background clear color for the frames before
///   the window becomes visible.
///
/// If both thresholds are zero, the reveal happens on the first tick after
/// readiness.
#[derive(Clone, Copy)]
pub struct WindowRevealConfig {
    pub frames_after_ready: u32,
    pub ms_after_ready: u64,
    pub initial_clear: Option<Rgba>,
}

impl Default for WindowRevealConfig {
    /// The default settle period: two frames, no time threshold, and a solid
    /// black initial clear color.
    fn default() -> (c: Self)
        ensures
            c.frames_after_ready == 2,
            c.ms_after_ready == 0,
            c.initial_clear == Some((Rgba { red: 0, green: 0, blue: 0, alpha: 255 })),
    {
        WindowRevealConfig {
            frames_after_ready: 2,
            ms_after_ready: 0,
            initial_clear: Some(Rgba { red: 0, green: 0, blue: 0, alpha: 255 }),
        }
    }
}

/// The lifecycle of a managed window's reveal: `NotReady` until the host
/// signals readiness, `Ready` while the settle period elapses, `Revealed`
/// once the window has been shown. Transitions only ever move forward.
#[derive(PartialEq, Eq, Structural, Clone, Copy, Debug)]
pub enum RevealStatus {
    NotReady,
    Ready,
    Revealed,
}

/// The mutable state of the reveal controller, one instance per managed
/// window.
///
/// `frames_since_ready` counts ticks since entering `Ready`, and
/// `micros_since_ready` the elapsed time since then. Time is kept in whole
/// microseconds so that sub-millisecond deltas accumulate without drift; the
/// whole milliseconds elapsed are [`RevealState::ms_since_ready`]. Both
/// counters are meaningful only while `status == Ready`: they are reset on
/// the transition to `Ready` and frozen once `Revealed`.
#[derive(PartialEq, Eq, Structural, Clone, Copy, Debug)]
pub struct RevealState {
    pub status: RevealStatus,
    pub frames_since_ready: u32,
    pub micros_since_ready: u64,
}

impl Default for RevealState {
    /// The state at application startup: not ready, with zeroed counters.
    fn default() -> (s: Self)
        ensures
            s == initial_state(),
    {
        RevealState { status: RevealStatus::NotReady, frames_since_ready: 0, micros_since_ready: 0 }
    }
}

/// The state a controller starts in.
pub open spec fn initial_state() -> RevealState {
    RevealState { status: RevealStatus::NotReady, frames_since_ready: 0, micros_since_ready: 0 }
}

/// The state right after the readiness transition: `Ready`, counters zeroed.
pub open spec fn ready_start() -> RevealState {
    RevealState { status: RevealStatus::Ready, frames_since_ready: 0, micros_since_ready: 0 }
}

impl RevealState {
    /// The whole milliseconds elapsed since readiness: the accumulated
    /// microseconds, truncated.
    pub open spec fn spec_ms_since_ready(self) -> u64 {
        self.micros_since_ready / 1000
    }

    /// The whole milliseconds elapsed since readiness.
    pub fn ms_since_ready(&self) -> (ms: u64)
        ensures
            ms == self.spec_ms_since_ready(),
    {
        self.micros_since_ready / 1000
    }
}

/// What the controller sees of the managed window: its visibility and
/// transparency flags. The host mirrors changes of these flags onto the real
/// window handle.
#[derive(PartialEq, Eq, Structural, Clone, Copy, Debug)]
pub struct WindowHandle {
    pub visible: bool,
    pub transparent: bool,
}

impl WindowHandle {
    pub fn set_visible(&mut self, visible: bool)
        ensures
            final(self).visible == visible,
            final(self).transparent == old(self).transparent,
    {
        self.visible = visible;
    }

    pub fn set_transparent(&mut self, transparent: bool)
        ensures
            final(self).transparent == transparent,
            final(self).visible == old(self).visible,
    {
        self.transparent = transparent;
    }
}

/// What observing the readiness stream does to the state: the first tick on
/// which at least one readiness event is seen moves `NotReady` to `Ready` and
/// zeroes both counters; any later event leaves the state untouched.
pub open spec fn spec_catch_ready(s: RevealState, ready_seen: bool) -> RevealState {
    if s.status == RevealStatus::NotReady && ready_seen {
        ready_start()
    } else {
        s
    }
}

/// What one tick's accumulation does to the state: while `Ready`, one more
/// frame is counted, and, if the time threshold is enabled, the tick's
/// elapsed microseconds are added; in any other status nothing changes.
pub open spec fn spec_accumulate(cfg: WindowRevealConfig, s: RevealState, delta_micros: u64) -> RevealState {
    if s.status == RevealStatus::Ready {
        RevealState {
            status: RevealStatus::Ready,
            frames_since_ready: (s.frames_since_ready + 1) as u32,
            micros_since_ready: if cfg.ms_after_ready > 0 {
                (s.micros_since_ready + delta_micros) as u64
            } else {
                s.micros_since_ready
            },
        }
    } else {
        s
    }
}

/// The frame half of the reveal predicate: enough frames have elapsed since
/// readiness.
pub open spec fn spec_frames_ok(cfg: WindowRevealConfig, s: RevealState) -> bool {
    s.frames_since_ready >= cfg.frames_after_ready
}

/// The time half of the reveal predicate: the time threshold is enabled and
/// enough whole milliseconds have elapsed since readiness.
pub open spec fn spec_time_ok(cfg: WindowRevealConfig, s: RevealState) -> bool {
    cfg.ms_after_ready > 0 && s.spec_ms_since_ready() >= cfg.ms_after_ready
}

/// Whether the reveal is due: the state is `Ready` and either threshold is
/// met.
pub open spec fn spec_reveal_due(cfg: WindowRevealConfig, s: RevealState) -> bool {
    s.status == RevealStatus::Ready && (spec_frames_ok(cfg, s) || spec_time_ok(cfg, s))
}

/// What evaluating the reveal predicate does to the state: when due, the
/// status moves to `Revealed` and the counters freeze; otherwise nothing
/// changes.
pub open spec fn spec_reveal_transition(cfg: WindowRevealConfig, s: RevealState) -> RevealState {
    if spec_reveal_due(cfg, s) {
        RevealState { status: RevealStatus::Revealed, ..s }
    } else {
        s
    }
}

/// What evaluating the reveal predicate does to the window: when due, it
/// becomes visible; otherwise it is untouched.
pub open spec fn spec_reveal_window(cfg: WindowRevealConfig, s: RevealState, w: WindowHandle) -> WindowHandle {
    if spec_reveal_due(cfg, s) {
        WindowHandle { visible: true, ..w }
    } else {
        w
    }
}

/// Hides the managed window at startup: visibility and transparency both
/// false, irrespective of configuration, so that no prior framebuffer
/// contents show. Runs once, before the per-tick operations.
pub fn startup(window: &mut WindowHandle)
    ensures
        final(window).visible == false,
        final(window).transparent == false,
{
    window.set_visible(false);
    window.set_transparent(false);
}

/// Consumes the tick's readiness observation: `ready_seen` says whether the
/// host saw at least one readiness event this tick. On the first observation
/// the status moves from `NotReady` to `Ready` with both counters reset;
/// multiple events in one batch count as one transition, and events after
/// the first tick that saw one have no effect.
pub fn catch_ready(state: &mut RevealState, ready_seen: bool)
    ensures
        *final(state) == spec_catch_ready(*old(state), ready_seen),
{
    if state.status == RevealStatus::NotReady && ready_seen {
        state.status = RevealStatus::Ready;
        state.frames_since_ready = 0;
        state.micros_since_ready = 0;
    }
}

/// Accumulates one tick's progress while `Ready`: counts one more frame and,
/// if the time threshold is enabled, adds the tick's elapsed microseconds.
/// A no-op in any other status.
pub fn accumulate(cfg: &WindowRevealConfig, state: &mut RevealState, delta_micros: u64)
    requires
        old(state).status == RevealStatus::Ready ==> old(state).frames_since_ready < u32::MAX,
        old(state).status == RevealStatus::Ready && cfg.ms_after_ready > 0
            ==> old(state).micros_since_ready + delta_micros <= u64::MAX,
    ensures
        *final(state) == spec_accumulate(*cfg, *old(state), delta_micros),
{
    if state.status == RevealStatus::Ready {
        state.frames_since_ready = state.frames_since_ready + 1;
        if cfg.ms_after_ready > 0 {
            state.micros_since_ready = state.micros_since_ready + delta_micros;
        }
    }
}

/// Reveals the window if the settle period has elapsed: while `Ready`, when
/// enough frames or enough time has passed, the window is made visible and
/// the status moves to `Revealed`. A no-op in any other status. The
/// visibility side effect happens exactly on the `Ready` to `Revealed`
/// transition, so at most once per controller lifetime.
pub fn reveal_if_safe(cfg: &WindowRevealConfig, state: &mut RevealState, window: &mut WindowHandle)
    ensures
        *final(state) == spec_reveal_transition(*cfg, *old(state)),
        *final(window) == spec_reveal_window(*cfg, *old(state), *old(window)),
{
    if state.status == RevealStatus::Ready {
        let frames_ok = state.frames_since_ready >= cfg.frames_after_ready;
        let time_ok = cfg.ms_after_ready > 0 && state.ms_since_ready() >= cfg.ms_after_ready;
        if frames_ok || time_ok {
            window.set_visible(true);
            state.status = RevealStatus::Revealed;
        }
    }
}

/// Like [`reveal_if_safe`], for a tick on which the host has no window
/// handle: the status transition still happens when the settle period has
/// elapsed, but the visibility side effect is skipped. The controller does
/// not retry the reveal once `Revealed`, so a handle that was only
/// transiently unavailable leaves the window hidden; whether it should
/// instead stay `Ready` and retry is an open question of the design, and
/// this keeps the no-retry behavior.
pub fn reveal_if_safe_without_window(cfg: &WindowRevealConfig, state: &mut RevealState)
    ensures
        *final(state) == spec_reveal_transition(*cfg, *old(state)),
{
    if state.status == RevealStatus::Ready {
        let frames_ok = state.frames_since_ready >= cfg.frames_after_ready;
        let time_ok = cfg.ms_after_ready > 0 && state.ms_since_ready() >= cfg.ms_after_ready;
        if frames_ok || time_ok {
            state.status = RevealStatus::Revealed;
        }
    }
}

/// What one whole frame tick does to the state. A tick that starts
/// `NotReady` only observes the readiness stream: readiness detected this
/// tick starts contributing frames and time on the next tick, so there is a
/// minimum one-frame `Ready` duration before the reveal is even evaluated.
/// A tick that starts `Ready` accumulates and then evaluates the reveal
/// predicate; a tick that starts `Revealed` does nothing.
pub open spec fn spec_tick(cfg: WindowRevealConfig, s: RevealState, ready_seen: bool, delta_micros: u64) -> RevealState {
    if s.status == RevealStatus::NotReady {
        spec_catch_ready(s, ready_seen)
    } else {
        spec_reveal_transition(cfg, spec_accumulate(cfg, s, delta_micros))
    }
}

/// Whether the reveal fires on this tick: the tick started `Ready` and its
/// accumulation makes the reveal due.
pub open spec fn spec_tick_fires(cfg: WindowRevealConfig, s: RevealState, ready_seen: bool, delta_micros: u64) -> bool {
    s.status != RevealStatus::NotReady && spec_reveal_due(cfg, spec_accumulate(cfg, s, delta_micros))
}

/// What one whole frame tick does to the window: it becomes visible exactly
/// when the reveal fires.
pub open spec fn spec_tick_window(cfg: WindowRevealConfig, s: RevealState, w: WindowHandle, ready_seen: bool, delta_micros: u64) -> WindowHandle {
    if s.status == RevealStatus::NotReady {
        w
    } else {
        spec_reveal_window(cfg, spec_accumulate(cfg, s, delta_micros), w)
    }
}

/// Runs one whole frame tick. On a tick that starts `NotReady` the
/// controller only observes the readiness stream ([`catch_ready`]); from the
/// next tick on it accumulates ([`accumulate`]) and evaluates the reveal
/// ([`reveal_if_safe`]). `ready_seen` says whether the host saw at least one
/// readiness event this tick, and `delta_micros` is the tick's elapsed time.
pub fn tick(
    cfg: &WindowRevealConfig,
    state: &mut RevealState,
    window: &mut WindowHandle,
    ready_seen: bool,
    delta_micros: u64,
)
    requires
        old(state).status == RevealStatus::Ready ==> old(state).frames_since_ready < u32::MAX,
        old(state).status == RevealStatus::Ready && cfg.ms_after_ready > 0
            ==> old(state).micros_since_ready + delta_micros <= u64::MAX,
    ensures
        *final(state) == spec_tick(*cfg, *old(state), ready_seen, delta_micros),
        *final(window) == spec_tick_window(*cfg, *old(state), *old(window), ready_seen, delta_micros),
{
    if state.status == RevealStatus::NotReady {
        catch_ready(state, ready_seen);
    } else {
        accumulate(cfg, state, delta_micros);
        reveal_if_safe(cfg, state, window);
    }
}

/// Like [`tick`], for a tick on which the host has no window handle: the
/// state advances the same way, but no visibility side effect can happen, so
/// a reveal that falls on such a tick leaves the window hidden (see
/// [`reveal_if_safe_without_window`]).
pub fn tick_without_window(
    cfg: &WindowRevealConfig,
    state: &mut RevealState,
    ready_seen: bool,
    delta_micros: u64,
)
    requires
        old(state).status == RevealStatus::Ready ==> old(state).frames_since_ready < u32::MAX,
        old(state).status == RevealStatus::Ready && cfg.ms_after_ready > 0
            ==> old(state).micros_since_ready + delta_micros <= u64::MAX,
    ensures
        *final(state) == spec_tick(*cfg, *old(state), ready_seen, delta_micros),
{
    if state.status == RevealStatus::NotReady {
        catch_ready(state, ready_seen);
    } else {
        accumulate(cfg, state, delta_micros);
        reveal_if_safe_without_window(cfg, state);
    }
}

} // verus!

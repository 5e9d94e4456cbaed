//! The laws of the reveal controller, proved over the spec transition
//! functions that the executable operations are specified by: runs of whole
//! ticks, forward progress of the status, the single firing of the
//! visibility side effect, and the exact tick on which the reveal happens.

use vstd::prelude::*;

use crate::initial_state;
use crate::ready_start;
use crate::spec_catch_ready;
use crate::spec_reveal_due;
use crate::spec_tick;
use crate::spec_tick_fires;
use crate::spec_tick_window;
use crate::RevealState;
use crate::RevealStatus;
use crate::WindowHandle;
use crate::WindowRevealConfig;

verus! {

/// How far along the lifecycle a status is: `NotReady`, then `Ready`, then
/// `Revealed`.
pub open spec fn status_rank(status: RevealStatus) -> int {
    match status {
        RevealStatus::NotReady => 0,
        RevealStatus::Ready => 1,
        RevealStatus::Revealed => 2,
    }
}

/// The state after the first `n` of a run of ticks, where `ready[k]` says
/// whether a readiness event was seen on tick `k` and `deltas[k]` is that
/// tick's elapsed time in microseconds.
pub open spec fn spec_run(
    cfg: WindowRevealConfig,
    s: RevealState,
    ready: Seq<bool>,
    deltas: Seq<u64>,
    n: int,
) -> RevealState
    decreases n,
{
    if n <= 0 {
        s
    } else {
        spec_tick(cfg, spec_run(cfg, s, ready, deltas, n - 1), ready[n - 1], deltas[n - 1])
    }
}

/// The window after the first `n` ticks of a run, when the window handle is
/// available on every tick.
pub open spec fn spec_run_window(
    cfg: WindowRevealConfig,
    s: RevealState,
    w: WindowHandle,
    ready: Seq<bool>,
    deltas: Seq<u64>,
    n: int,
) -> WindowHandle
    decreases n,
{
    if n <= 0 {
        w
    } else {
        spec_tick_window(
            cfg,
            spec_run(cfg, s, ready, deltas, n - 1),
            spec_run_window(cfg, s, w, ready, deltas, n - 1),
            ready[n - 1],
            deltas[n - 1],
        )
    }
}

/// How many of the first `n` ticks of a run fire the visibility side effect.
pub open spec fn spec_fire_count(
    cfg: WindowRevealConfig,
    s: RevealState,
    ready: Seq<bool>,
    deltas: Seq<u64>,
    n: int,
) -> int
    decreases n,
{
    if n <= 0 {
        0
    } else {
        spec_fire_count(cfg, s, ready, deltas, n - 1) + if spec_tick_fires(
            cfg,
            spec_run(cfg, s, ready, deltas, n - 1),
            ready[n - 1],
            deltas[n - 1],
        ) {
            1int
        } else {
            0int
        }
    }
}

/// The elapsed microseconds over the first `k` ticks of a run.
pub open spec fn micros_sum(deltas: Seq<u64>, k: int) -> int
    decreases k,
{
    if k <= 0 {
        0
    } else {
        micros_sum(deltas, k - 1) + deltas[k - 1]
    }
}

/// Whether, counting from the readiness transition, the settle period has
/// elapsed by tick `k`: at least one tick has passed, and either `k` reaches
/// the frame threshold or the time threshold is enabled and the elapsed
/// whole milliseconds reach it.
pub open spec fn due_by_tick(cfg: WindowRevealConfig, deltas: Seq<u64>, k: int) -> bool {
    k >= 1 && (k >= cfg.frames_after_ready || (cfg.ms_after_ready > 0 && micros_sum(
        deltas,
        k,
    ) / 1000 >= cfg.ms_after_ready))
}

/// Readiness events after the first are ignored: once the status has left
/// `NotReady`, observing the readiness stream changes nothing — in
/// particular, the counters are never reset a second time.
pub proof fn lemma_later_readiness_ignored(s: RevealState, ready_seen: bool)
    requires
        s.status != RevealStatus::NotReady,
    ensures
        spec_catch_ready(s, ready_seen) == s,
{
}

/// The status never regresses: one tick, whatever was seen and however much
/// time passed, moves it only forward along `NotReady`, `Ready`, `Revealed`.
pub proof fn lemma_tick_status_monotone(
    cfg: WindowRevealConfig,
    s: RevealState,
    ready_seen: bool,
    delta_micros: u64,
)
    ensures
        status_rank(spec_tick(cfg, s, ready_seen, delta_micros).status) >= status_rank(s.status),
{
}

/// Over a whole run the status never regresses: after more ticks, the status
/// is at least as far along.
pub proof fn lemma_run_status_monotone(
    cfg: WindowRevealConfig,
    s: RevealState,
    ready: Seq<bool>,
    deltas: Seq<u64>,
    m: int,
    n: int,
)
    requires
        0 <= m <= n,
    ensures
        status_rank(spec_run(cfg, s, ready, deltas, n).status) >= status_rank(
            spec_run(cfg, s, ready, deltas, m).status,
        ),
    decreases n - m,
{
    if m < n {
        lemma_run_status_monotone(cfg, s, ready, deltas, m, n - 1);
        lemma_tick_status_monotone(
            cfg,
            spec_run(cfg, s, ready, deltas, n - 1),
            ready[n - 1],
            deltas[n - 1],
        );
    }
}

/// `Revealed` is terminal: a tick from a revealed state changes nothing.
pub proof fn lemma_revealed_is_terminal(
    cfg: WindowRevealConfig,
    s: RevealState,
    ready_seen: bool,
    delta_micros: u64,
)
    requires
        s.status == RevealStatus::Revealed,
    ensures
        spec_tick(cfg, s, ready_seen, delta_micros) == s,
        !spec_tick_fires(cfg, s, ready_seen, delta_micros),
{
}

/// The visibility side effect fires on a tick exactly when that tick is the
/// `Ready` to `Revealed` transition.
pub proof fn lemma_tick_fires_iff_transition(
    cfg: WindowRevealConfig,
    s: RevealState,
    ready_seen: bool,
    delta_micros: u64,
)
    ensures
        spec_tick_fires(cfg, s, ready_seen, delta_micros) <==> (s.status != RevealStatus::Revealed
            && spec_tick(cfg, s, ready_seen, delta_micros).status == RevealStatus::Revealed),
{
}

/// The visibility side effect fires at most once over the lifetime of a
/// controller state: however many ticks a run has, at most one of them fires.
pub proof fn lemma_reveal_fires_at_most_once(
    cfg: WindowRevealConfig,
    s: RevealState,
    ready: Seq<bool>,
    deltas: Seq<u64>,
    n: int,
)
    ensures
        spec_fire_count(cfg, s, ready, deltas, n) <= 1,
{
    lemma_fire_count_is_transition_count(cfg, s, ready, deltas, n);
}

/// The firing ticks of a run are exactly its one `Ready` to `Revealed`
/// transition: the count is 1 when the run starts short of `Revealed` and
/// ends there, and 0 otherwise.
pub proof fn lemma_fire_count_is_transition_count(
    cfg: WindowRevealConfig,
    s: RevealState,
    ready: Seq<bool>,
    deltas: Seq<u64>,
    n: int,
)
    ensures
        spec_fire_count(cfg, s, ready, deltas, n) == if s.status != RevealStatus::Revealed
            && spec_run(cfg, s, ready, deltas, n).status == RevealStatus::Revealed {
            1int
        } else {
            0int
        },
    decreases n,
{
    if n > 0 {
        lemma_fire_count_is_transition_count(cfg, s, ready, deltas, n - 1);
        lemma_run_status_monotone(cfg, s, ready, deltas, 0, n - 1);
        lemma_tick_fires_iff_transition(
            cfg,
            spec_run(cfg, s, ready, deltas, n - 1),
            ready[n - 1],
            deltas[n - 1],
        );
    }
}

/// While readiness never arrives, nothing happens: a run of ticks without a
/// readiness event leaves a fresh controller state exactly as it started,
/// and fires no side effect.
pub proof fn lemma_no_readiness_no_progress(
    cfg: WindowRevealConfig,
    ready: Seq<bool>,
    deltas: Seq<u64>,
    n: int,
)
    requires
        forall|k: int| 0 <= k < n ==> !ready[k],
    ensures
        spec_run(cfg, initial_state(), ready, deltas, n) == initial_state(),
        spec_fire_count(cfg, initial_state(), ready, deltas, n) == 0,
    decreases n,
{
    if n > 0 {
        lemma_no_readiness_no_progress(cfg, ready, deltas, n - 1);
    }
}

/// The elapsed microseconds of a run never go negative: every tick's delta
/// is nonnegative.
pub proof fn lemma_micros_sum_nonneg(deltas: Seq<u64>, k: int)
    ensures
        micros_sum(deltas, k) >= 0,
    decreases k,
{
    if k > 0 {
        lemma_micros_sum_nonneg(deltas, k - 1);
    }
}

/// What a run of ticks from the readiness transition amounts to: the status
/// has reached `Revealed` exactly when some tick so far had the settle
/// period elapsed — whichever of the two thresholds is met first fires the
/// reveal — and until then the state is exactly `Ready` with one frame
/// counted per tick and the ticks' elapsed time accumulated (when the time
/// threshold is enabled).
pub proof fn lemma_run_from_ready(
    cfg: WindowRevealConfig,
    ready: Seq<bool>,
    deltas: Seq<u64>,
    n: int,
)
    requires
        0 <= n,
        cfg.ms_after_ready > 0 ==> forall|k: int| 1 <= k <= n ==> micros_sum(deltas, k) <= u64::MAX,
    ensures
        (exists|k: int| 1 <= k <= n && due_by_tick(cfg, deltas, k)) ==> spec_run(
            cfg,
            ready_start(),
            ready,
            deltas,
            n,
        ).status == RevealStatus::Revealed,
        !(exists|k: int| 1 <= k <= n && due_by_tick(cfg, deltas, k)) ==> spec_run(
            cfg,
            ready_start(),
            ready,
            deltas,
            n,
        ) == (RevealState {
            status: RevealStatus::Ready,
            frames_since_ready: n as u32,
            micros_since_ready: if cfg.ms_after_ready > 0 {
                micros_sum(deltas, n) as u64
            } else {
                0u64
            },
        }),
    decreases n,
{
    if n > 0 {
        lemma_run_from_ready(cfg, ready, deltas, n - 1);
        lemma_micros_sum_nonneg(deltas, n - 1);
        lemma_micros_sum_nonneg(deltas, n);
        if exists|k: int| 1 <= k <= n - 1 && due_by_tick(cfg, deltas, k) {
            let k = choose|k: int| 1 <= k <= n - 1 && due_by_tick(cfg, deltas, k);
            assert(1 <= k <= n && due_by_tick(cfg, deltas, k));
            lemma_revealed_is_terminal(
                cfg,
                spec_run(cfg, ready_start(), ready, deltas, n - 1),
                ready[n - 1],
                deltas[n - 1],
            );
        } else {
            // The run is still `Ready` after `n - 1` ticks, with `n - 1`
            // frames counted, so tick `n` fires exactly when the settle
            // period has elapsed by tick `n`.
            assert(!due_by_tick(cfg, deltas, n - 1));
            if due_by_tick(cfg, deltas, n) {
                assert(spec_run(cfg, ready_start(), ready, deltas, n).status
                    == RevealStatus::Revealed);
            } else {
                assert(forall|k: int| 1 <= k <= n ==> !due_by_tick(cfg, deltas, k));
            }
        }
    }
}

/// The reveal happens exactly on the first tick, counted from the readiness
/// transition, by which the settle period has elapsed: the window's status
/// is `Ready` strictly before that tick and `Revealed` from it on.
pub proof fn lemma_reveal_on_first_due_tick(
    cfg: WindowRevealConfig,
    ready: Seq<bool>,
    deltas: Seq<u64>,
    n: int,
    k: int,
)
    requires
        0 <= n,
        cfg.ms_after_ready > 0 ==> forall|j: int| 1 <= j <= n ==> micros_sum(deltas, j) <= u64::MAX,
        1 <= k,
        due_by_tick(cfg, deltas, k),
        forall|j: int| 1 <= j < k ==> !due_by_tick(cfg, deltas, j),
    ensures
        spec_run(cfg, ready_start(), ready, deltas, n).status == if n >= k {
            RevealStatus::Revealed
        } else {
            RevealStatus::Ready
        },
{
    lemma_run_from_ready(cfg, ready, deltas, n);
    if n >= k {
        assert(1 <= k <= n && due_by_tick(cfg, deltas, k));
    } else {
        assert(forall|j: int| 1 <= j <= n ==> !due_by_tick(cfg, deltas, j));
    }
}

/// The frame threshold alone decides the reveal when the time threshold is
/// disabled: counted from the readiness transition, the window is revealed
/// exactly from the tick on which the frame count first reaches
/// `frames_after_ready` — and a threshold of zero is met on the very first
/// tick after readiness.
pub proof fn lemma_frames_threshold_decides(
    cfg: WindowRevealConfig,
    ready: Seq<bool>,
    deltas: Seq<u64>,
    n: int,
)
    requires
        0 <= n,
        cfg.ms_after_ready == 0,
    ensures
        spec_run(cfg, ready_start(), ready, deltas, n).status == if n >= cfg.frames_after_ready
            && n >= 1 {
            RevealStatus::Revealed
        } else {
            RevealStatus::Ready
        },
{
    let k: int = if cfg.frames_after_ready >= 1 {
        cfg.frames_after_ready as int
    } else {
        1int
    };
    lemma_reveal_on_first_due_tick(cfg, ready, deltas, n, k);
}

/// The time threshold decides the reveal when it is enabled and met before
/// the frame threshold: if the accumulated whole milliseconds first reach
/// `ms_after_ready` on tick `k`, counted from the readiness transition, and
/// the frame threshold is not met before tick `k`, the window is revealed
/// exactly from tick `k` on.
pub proof fn lemma_time_threshold_decides(
    cfg: WindowRevealConfig,
    ready: Seq<bool>,
    deltas: Seq<u64>,
    n: int,
    k: int,
)
    requires
        0 <= n,
        cfg.ms_after_ready > 0,
        forall|j: int| 1 <= j <= n ==> micros_sum(deltas, j) <= u64::MAX,
        1 <= k <= cfg.frames_after_ready,
        micros_sum(deltas, k) / 1000 >= cfg.ms_after_ready,
        forall|j: int| 1 <= j < k ==> micros_sum(deltas, j) / 1000 < cfg.ms_after_ready,
    ensures
        spec_run(cfg, ready_start(), ready, deltas, n).status == if n >= k {
            RevealStatus::Revealed
        } else {
            RevealStatus::Ready
        },
{
    assert(due_by_tick(cfg, deltas, k));
    assert(forall|j: int| 1 <= j < k ==> !due_by_tick(cfg, deltas, j));
    lemma_reveal_on_first_due_tick(cfg, ready, deltas, n, k);
}

/// A hidden window stays hidden until the reveal and is visible from then
/// on: over a run from a not-yet-revealed state with the handle available on
/// every tick, the window is visible exactly when the status has reached
/// `Revealed`, and its transparency is never touched.
pub proof fn lemma_window_visible_iff_revealed(
    cfg: WindowRevealConfig,
    s: RevealState,
    w: WindowHandle,
    ready: Seq<bool>,
    deltas: Seq<u64>,
    n: int,
)
    requires
        !w.visible,
        s.status != RevealStatus::Revealed,
    ensures
        spec_run_window(cfg, s, w, ready, deltas, n).visible <==> spec_run(
            cfg,
            s,
            ready,
            deltas,
            n,
        ).status == RevealStatus::Revealed,
        spec_run_window(cfg, s, w, ready, deltas, n).transparent == w.transparent,
    decreases n,
{
    if n > 0 {
        lemma_window_visible_iff_revealed(cfg, s, w, ready, deltas, n - 1);
        lemma_tick_fires_iff_transition(
            cfg,
            spec_run(cfg, s, ready, deltas, n - 1),
            ready[n - 1],
            deltas[n - 1],
        );
        lemma_run_status_monotone(cfg, s, ready, deltas, n - 1, n);
    }
}

} // verus!

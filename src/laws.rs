use vstd::prelude::*;
use crate::binding::Handler;
use crate::controller::{
    ControllerView, RunState, TimerId, Toggled, click_model, frame_model, frame_of, tick_model,
    toggle_model,
};
use crate::random::{lemma_draw_below_unit, nth_draw, state_after};
use crate::rectangle::{Rectangle, contains_point, draws_per_spawn, lemma_scale_bounds, spawned};

verus! {

/// Every spawned rectangle has a size in `[5, 125)`, a velocity in `[1, 7)`, color
/// channels in `[0, 1)`, and enters at the top edge.
pub proof fn lemma_spawned_in_bounds(surface: (i32, i32), s: u64)
    requires
        surface.0 >= 0,
        surface.1 >= 0,
    ensures
        spawned(surface, s).wf(),
        spawned(surface, s).position.1 == surface.1,
{
    lemma_draw_below_unit(state_after(s, 1));
    lemma_draw_below_unit(state_after(s, 2));
    lemma_draw_below_unit(state_after(s, 4));
    lemma_draw_below_unit(state_after(s, 5));
    lemma_draw_below_unit(state_after(s, 6));
    lemma_draw_below_unit(state_after(s, 7));
    lemma_scale_bounds(nth_draw(s, 0) as int, 120);
    lemma_scale_bounds(nth_draw(s, 1) as int, 120);
    lemma_scale_bounds(nth_draw(s, 3) as int, 6);
}

/// A frame keeps the controller well formed.
pub proof fn lemma_frame_wf(v: ControllerView)
    requires
        v.wf(),
    ensures
        frame_model(v).0.wf(),
{
    lemma_spawned_in_bounds(v.surface, v.rng);
}

/// While running, a tick moves the rectangle down by exactly its velocity, unless
/// that takes it below the bottom edge: then the miss count grows by one and a
/// fresh rectangle enters at the top.
pub proof fn lemma_tick_descends(v: ControllerView)
    requires
        v.wf(),
        v.run_state == RunState::Running,
        v.rect.position.1 - v.rect.velocity < 0 ==> v.game.misses < u64::MAX,
    ensures
        v.rect.position.1 - v.rect.velocity >= 0 ==> {
            &&& tick_model(v).0.rect.position.1 == v.rect.position.1 - v.rect.velocity
            &&& tick_model(v).0.rect.position.0 == v.rect.position.0
            &&& tick_model(v).0.rect.size == v.rect.size
            &&& tick_model(v).0.game == v.game
        },
        v.rect.position.1 - v.rect.velocity < 0 ==> {
            &&& tick_model(v).0.rect == spawned(v.surface, v.rng)
            &&& tick_model(v).0.rect.position.1 == v.surface.1
            &&& tick_model(v).0.game.misses == v.game.misses + 1
            &&& tick_model(v).0.game.score == v.game.score
        },
        tick_model(v).0.run_state == RunState::Running,
{
}

/// A tick while stopped changes nothing and draws nothing.
pub proof fn lemma_tick_while_stopped(v: ControllerView)
    requires
        v.run_state == RunState::Stopped,
    ensures
        tick_model(v).0 == v,
        tick_model(v).1 is None,
{
}

/// The controller after `n` ticks from `v`.
pub open spec fn ticks_n(v: ControllerView, n: nat) -> ControllerView
    decreases n,
{
    if n == 0 {
        v
    } else {
        tick_model(ticks_n(v, (n - 1) as nat)).0
    }
}

/// The rectangle `r` lowered by `d`.
pub open spec fn lowered(r: Rectangle, d: int) -> Rectangle {
    Rectangle { position: (r.position.0, (r.position.1 - d) as i32), ..r }
}

/// While running and left alone, the first `y / velocity` ticks each lower the
/// rectangle by its velocity and count no miss.
pub proof fn lemma_ticks_fall(v: ControllerView, k: nat)
    requires
        v.wf(),
        v.run_state == RunState::Running,
        k <= v.rect.position.1 / v.rect.velocity,
    ensures
        ticks_n(v, k) == (ControllerView { rect: lowered(v.rect, k * v.rect.velocity), ..v }),
    decreases k,
{
    let y = v.rect.position.1 as int;
    let vel = v.rect.velocity as int;
    assert(k * vel <= y) by (nonlinear_arith)
        requires k <= y / vel, vel >= 1, y >= 0;
    if k > 0 {
        lemma_ticks_fall(v, (k - 1) as nat);
        assert((k - 1) * vel + vel == k * vel) by (nonlinear_arith);
        assert((k - 1) * vel >= 0) by (nonlinear_arith)
            requires k >= 1, vel >= 1;
    }
}

/// While running and left alone, tick number `y / velocity + 1` is the first to
/// take the rectangle below the bottom edge: it counts exactly one miss and a
/// fresh rectangle enters at the top.
pub proof fn lemma_ticks_reach_miss(v: ControllerView)
    requires
        v.wf(),
        v.run_state == RunState::Running,
        v.game.misses < u64::MAX,
    ensures
        ({
            let k = (v.rect.position.1 / v.rect.velocity) as nat;
            &&& forall|j: nat| j <= k ==> #[trigger] ticks_n(v, j).game == v.game
            &&& ticks_n(v, k + 1).game.misses == v.game.misses + 1
            &&& ticks_n(v, k + 1).game.score == v.game.score
            &&& ticks_n(v, k + 1).rect == spawned(v.surface, v.rng)
            &&& ticks_n(v, k + 1).rect.position.1 == v.surface.1
            &&& ticks_n(v, k + 1).run_state == RunState::Running
        }),
{
    let y = v.rect.position.1 as int;
    let vel = v.rect.velocity as int;
    let k = (y / vel) as nat;
    assert forall|j: nat| j <= k implies #[trigger] ticks_n(v, j).game == v.game by {
        lemma_ticks_fall(v, j);
    }
    lemma_ticks_fall(v, k);
    assert(y - k * vel - vel < 0 && y - k * vel >= 0) by (nonlinear_arith)
        requires k == y / vel, vel >= 1, y >= 0;
    assert(ticks_n(v, k + 1) == tick_model(ticks_n(v, k)).0);
}

/// An event handed to the controller.
pub enum Event {
    Tick,
    Click((i32, i32)),
    /// A toggle; when it starts the animation, the tick source's handle.
    Toggle(TimerId),
}

pub open spec fn apply(v: ControllerView, e: Event) -> ControllerView {
    match e {
        Event::Tick => tick_model(v).0,
        Event::Click(p) => click_model(v, p).0,
        Event::Toggle(t) => toggle_model(v, Some(t)).0,
    }
}

/// The controller after the events `es`, in order.
pub open spec fn run_events(v: ControllerView, es: Seq<Event>) -> ControllerView
    decreases es.len(),
{
    if es.len() == 0 {
        v
    } else {
        apply(run_events(v, es.drop_last()), es.last())
    }
}

pub open spec fn toggle_count(es: Seq<Event>) -> nat
    decreases es.len(),
{
    if es.len() == 0 {
        0
    } else {
        toggle_count(es.drop_last()) + (if es.last() is Toggle { 1nat } else { 0nat })
    }
}

/// From stopped, whatever ticks and clicks come between: after an odd number of
/// toggles the controller runs, with only the stop handler on the control and a
/// tick source recorded; after an even number it is stopped, with only the start
/// handler and no tick source.
pub proof fn lemma_toggle_parity(v: ControllerView, es: Seq<Event>)
    requires
        v.wf(),
        v.run_state == RunState::Stopped,
    ensures
        toggle_count(es) % 2 == 1 ==> run_events(v, es).run_state == RunState::Running
            && run_events(v, es).binding == Some(Handler::Stop)
            && run_events(v, es).timer is Some,
        toggle_count(es) % 2 == 0 ==> run_events(v, es).run_state == RunState::Stopped
            && run_events(v, es).binding == Some(Handler::Start)
            && run_events(v, es).timer is None,
    decreases es.len(),
{
    if es.len() > 0 {
        lemma_toggle_parity(v, es.drop_last());
    }
}

/// Two toggles in a row from stopped bring the controller back to stopped, with the
/// start handler on the control and no tick source, and leave the rectangle, the
/// counters and the generator as they were.
pub proof fn lemma_double_toggle(v: ControllerView, t: TimerId)
    requires
        v.wf(),
        v.run_state == RunState::Stopped,
    ensures
        ({
            let once = toggle_model(v, Some(t));
            let twice = toggle_model(once.0, None);
            &&& twice.0 == v
            &&& twice.1 == Toggled::Stopped { timer: t }
            &&& once.1 == Toggled::Started { timer: t, frame: frame_of(v.rect, None) }
        }),
{
}

/// While running, a click on the bottom-left corner of the live rectangle always
/// scores exactly one point and replaces the rectangle with a fresh one.
pub proof fn lemma_corner_click_scores(v: ControllerView)
    requires
        v.wf(),
        v.run_state == RunState::Running,
        v.game.score < u64::MAX,
    ensures
        contains_point(v.rect, v.rect.position),
        click_model(v, v.rect.position).1 == Some((v.game.score + 1) as u64),
        click_model(v, v.rect.position).0.game.score == v.game.score + 1,
        click_model(v, v.rect.position).0.game.misses == v.game.misses,
        click_model(v, v.rect.position).0.rect == spawned(v.surface, v.rng),
        click_model(v, v.rect.position).0.rng == state_after(v.rng, draws_per_spawn()),
{
}

} // verus!

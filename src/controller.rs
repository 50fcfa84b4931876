use vstd::prelude::*;
use crate::binding::{ControlBinding, Handler, attached, detached};
use crate::game_state::GameState;
use crate::random::{RandomGenerator, state_after};
use crate::rectangle::{Rectangle, contains_point, draws_per_spawn, hit_test, spawned};

verus! {

/// Period of the tick source, in milliseconds (about 60 updates a second).
pub const TICK_PERIOD_MS: u32 = 17;

#[derive(Clone, Copy, Debug, PartialEq, Eq, Structural)]
pub enum RunState {
    Stopped,
    Running,
}

/// The handle that the timer source gave back when it started a periodic tick.
#[derive(Clone, Copy, Debug, PartialEq, Eq, Structural)]
pub struct TimerId {
    pub id: i32,
}

/// What one frame asks of the outside: clear `region` (x, y, width, height) with
/// `color`, and, where the rectangle was missed, show the new miss count.
#[derive(Clone, Copy, Debug, PartialEq, Eq)]
pub struct Frame {
    pub region: (i32, i32, i32, i32),
    pub color: (u32, u32, u32),
    pub misses: Option<u64>,
}

/// What a toggle asks of the outside.
#[derive(Clone, Copy, Debug, PartialEq, Eq)]
pub enum Toggled {
    /// The tick source `timer` is now recorded; move the control from the start
    /// handler to the stop handler, and draw `frame` at once.
    Started { timer: TimerId, frame: Frame },
    /// Cancel the tick source `timer`, and move the control from the stop handler
    /// to the start handler.
    Stopped { timer: TimerId },
}

/// The handler that the control carries in a run state: the action it offers.
pub open spec fn handler_for(s: RunState) -> Handler {
    match s {
        RunState::Stopped => Handler::Start,
        RunState::Running => Handler::Stop,
    }
}

/// The abstract state of a controller.
pub struct ControllerView {
    pub run_state: RunState,
    pub rect: Rectangle,
    pub game: GameState,
    pub timer: Option<TimerId>,
    pub binding: Option<Handler>,
    pub rng: u64,
    pub surface: (i32, i32),
}

impl ControllerView {
    pub open spec fn wf(&self) -> bool {
        &&& self.rect.wf()
        &&& self.rect.position.1 >= 0
        &&& self.surface.0 >= 0
        &&& self.surface.1 >= 0
        &&& (self.timer is Some <==> self.run_state == RunState::Running)
        &&& self.binding == Some(handler_for(self.run_state))
    }
}

pub open spec fn frame_of(r: Rectangle, misses: Option<u64>) -> Frame {
    Frame { region: (r.position.0, r.position.1, r.size.0, r.size.1), color: r.color, misses }
}

/// One frame of physics: descend; a rectangle below the bottom edge is a miss and
/// is replaced by a fresh one.
pub open spec fn frame_model(v: ControllerView) -> (ControllerView, Frame) {
    let moved = v.rect.advanced();
    if moved.position.1 < 0 {
        let misses = (v.game.misses + 1) as u64;
        let fresh = spawned(v.surface, v.rng);
        (
            ControllerView {
                rect: fresh,
                rng: state_after(v.rng, draws_per_spawn()),
                game: GameState { misses, ..v.game },
                ..v
            },
            frame_of(fresh, Some(misses)),
        )
    } else {
        (ControllerView { rect: moved, ..v }, frame_of(moved, None))
    }
}

/// A tick: one frame while running, nothing while stopped.
pub open spec fn tick_model(v: ControllerView) -> (ControllerView, Option<Frame>) {
    if v.run_state == RunState::Running {
        (frame_model(v).0, Some(frame_model(v).1))
    } else {
        (v, None)
    }
}

/// A click at `p`: while running, a click inside the rectangle scores and
/// replaces the rectangle; anything else changes nothing.
pub open spec fn click_model(v: ControllerView, p: (i32, i32)) -> (ControllerView, Option<u64>) {
    if v.run_state == RunState::Running && contains_point(v.rect, p) {
        let score = (v.game.score + 1) as u64;
        (
            ControllerView {
                rect: spawned(v.surface, v.rng),
                rng: state_after(v.rng, draws_per_spawn()),
                game: GameState { score, ..v.game },
                ..v
            },
            Some(score),
        )
    } else {
        (v, None)
    }
}

pub open spec fn timer_of(t: Option<TimerId>) -> TimerId {
    match t {
        Some(t) => t,
        None => TimerId { id: 0 },
    }
}

/// A toggle: from stopped, the tick source `started` recorded, the stop handler on
/// the control, and the live rectangle drawn as it stands; from running, the
/// recorded tick source handed back for cancelling and the start handler back on
/// the control. The rectangle, the counters and the generator are left as they are.
pub open spec fn toggle_model(v: ControllerView, started: Option<TimerId>) -> (ControllerView, Toggled) {
    match v.run_state {
        RunState::Stopped => {
            let t = timer_of(started);
            (
                ControllerView {
                    run_state: RunState::Running,
                    timer: Some(t),
                    binding: attached(detached(v.binding, Handler::Start), Handler::Stop),
                    ..v
                },
                Toggled::Started { timer: t, frame: frame_of(v.rect, None) },
            )
        },
        RunState::Running => (
            ControllerView {
                run_state: RunState::Stopped,
                timer: None,
                binding: attached(detached(v.binding, Handler::Stop), Handler::Start),
                ..v
            },
            Toggled::Stopped { timer: timer_of(v.timer) },
        ),
    }
}

/// The animation engine: one live rectangle, the counters, the run state with
/// its tick source, and the binding of the toggle control.
pub struct AnimationController {
    run_state: RunState,
    active_rectangle: Rectangle,
    game_state: GameState,
    timer_handle: Option<TimerId>,
    binding: ControlBinding,
    rng: RandomGenerator,
    surface: (i32, i32),
}

impl View for AnimationController {
    type V = ControllerView;

    closed spec fn view(&self) -> ControllerView {
        ControllerView {
            run_state: self.run_state,
            rect: self.active_rectangle,
            game: self.game_state,
            timer: self.timer_handle,
            binding: self.binding@,
            rng: self.rng.state,
            surface: self.surface,
        }
    }
}

impl AnimationController {
    /// A stopped controller on a surface of size `surface`, with a rectangle
    /// spawned from a generator seeded with `seed`.
    pub fn new(surface: (i32, i32), seed: u64) -> (r: AnimationController)
        requires
            surface.0 >= 0,
            surface.1 >= 0,
        ensures
            r@.wf(),
            r@.run_state == RunState::Stopped,
            r@.rect == spawned(surface, (if seed == 0 { 1 } else { seed }) as u64),
            r@.rng == state_after((if seed == 0 { 1 } else { seed }) as u64, draws_per_spawn()),
            r@.game.score == 0,
            r@.game.misses == 0,
            r@.surface == surface,
            r@.timer is None,
    {
        let mut rng = RandomGenerator::new(seed);
        let rect = Rectangle::spawn(surface, &mut rng);
        AnimationController::with_rectangle(surface, rect, rng)
    }

    /// A stopped controller whose live rectangle is `rect`, drawing later
    /// rectangles from `rng`.
    pub fn with_rectangle(surface: (i32, i32), rect: Rectangle, rng: RandomGenerator) -> (r:
        AnimationController)
        requires
            surface.0 >= 0,
            surface.1 >= 0,
            rect.wf(),
            rect.position.1 >= 0,
        ensures
            r@.wf(),
            r@.run_state == RunState::Stopped,
            r@.rect == rect,
            r@.rng == rng.state,
            r@.game.score == 0,
            r@.game.misses == 0,
            r@.surface == surface,
            r@.timer is None,
    {
        AnimationController {
            run_state: RunState::Stopped,
            active_rectangle: rect,
            game_state: GameState::new(),
            timer_handle: None,
            binding: ControlBinding::new(),
            rng,
            surface,
        }
    }

    fn frame(&mut self) -> (r: Frame)
        requires
            old(self)@.wf(),
            old(self)@.rect.advanced().position.1 < 0 ==> old(self)@.game.misses < u64::MAX,
        ensures
            final(self)@.wf(),
            final(self)@ == frame_model(old(self)@).0,
            r == frame_model(old(self)@).1,
    {
        self.active_rectangle.advance();
        let mut misses: Option<u64> = None;
        if self.active_rectangle.position.1 < 0 {
            let m = self.game_state.miss();
            self.active_rectangle.regenerate(self.surface, &mut self.rng);
            misses = Some(m);
        }
        let r = self.active_rectangle;
        Frame { region: (r.position.0, r.position.1, r.size.0, r.size.1), color: r.color, misses }
    }

    /// One tick of the periodic source. While stopped (a tick queued before a
    /// cancellation) it changes nothing and asks for no drawing.
    pub fn tick(&mut self) -> (r: Option<Frame>)
        requires
            old(self)@.wf(),
            old(self)@.run_state == RunState::Running && old(self)@.rect.advanced().position.1 < 0
                ==> old(self)@.game.misses < u64::MAX,
        ensures
            final(self)@.wf(),
            (final(self)@, r) == tick_model(old(self)@),
            old(self)@.run_state == RunState::Stopped ==> final(self)@ == old(self)@ && r is None,
            old(self)@.run_state == RunState::Running && old(self)@.rect.advanced().position.1 >= 0
                ==> final(self)@.rect.position.1 == old(self)@.rect.position.1
                - old(self)@.rect.velocity,
    {
        match self.run_state {
            RunState::Running => Some(self.frame()),
            RunState::Stopped => None,
        }
    }

    /// A click at `point`, in surface coordinates with the vertical axis upward.
    /// Returns the new score where it caught the rectangle.
    pub fn on_click(&mut self, point: (i32, i32)) -> (r: Option<u64>)
        requires
            old(self)@.wf(),
            old(self)@.run_state == RunState::Running && contains_point(old(self)@.rect, point)
                ==> old(self)@.game.score < u64::MAX,
        ensures
            final(self)@.wf(),
            (final(self)@, r) == click_model(old(self)@, point),
    {
        if self.run_state == RunState::Running && hit_test(point, &self.active_rectangle) {
            let s = self.game_state.hit();
            self.active_rectangle.regenerate(self.surface, &mut self.rng);
            Some(s)
        } else {
            None
        }
    }

    /// Starts or stops the animation, and moves the control to the other handler.
    /// When starting, `started` is the handle of the periodic tick source (every
    /// `TICK_PERIOD_MS`) that the caller has just set going; when stopping it is not
    /// read, and the handle to cancel comes back in the result.
    pub fn toggle(&mut self, started: Option<TimerId>) -> (r: Toggled)
        requires
            old(self)@.wf(),
            old(self)@.run_state == RunState::Stopped ==> started is Some,
        ensures
            final(self)@.wf(),
            (final(self)@, r) == toggle_model(old(self)@, started),
    {
        match self.run_state {
            RunState::Stopped => {
                let timer = started.unwrap();
                self.timer_handle = Some(timer);
                self.run_state = RunState::Running;
                self.binding.rebind(Handler::Start, Handler::Stop);
                let r = self.active_rectangle;
                let frame = Frame {
                    region: (r.position.0, r.position.1, r.size.0, r.size.1),
                    color: r.color,
                    misses: None,
                };
                Toggled::Started { timer, frame }
            },
            RunState::Running => {
                let timer = self.timer_handle.unwrap();
                self.timer_handle = None;
                self.run_state = RunState::Stopped;
                self.binding.rebind(Handler::Stop, Handler::Start);
                Toggled::Stopped { timer }
            },
        }
    }

    pub fn run_state(&self) -> (r: RunState)
        ensures
            r == self@.run_state,
    {
        self.run_state
    }

    pub fn rectangle(&self) -> (r: Rectangle)
        ensures
            r == self@.rect,
    {
        self.active_rectangle
    }

    pub fn score(&self) -> (r: u64)
        ensures
            r == self@.game.score,
    {
        self.game_state.score
    }

    pub fn misses(&self) -> (r: u64)
        ensures
            r == self@.game.misses,
    {
        self.game_state.misses
    }

    pub fn timer(&self) -> (r: Option<TimerId>)
        ensures
            r == self@.timer,
    {
        self.timer_handle
    }

    /// The handler now on the toggle control.
    pub fn attached_handler(&self) -> (r: Option<Handler>)
        ensures
            r == self@.binding,
    {
        self.binding.attached()
    }

    pub fn surface(&self) -> (r: (i32, i32))
        ensures
            r == self@.surface,
    {
        self.surface
    }
}

} // verus!

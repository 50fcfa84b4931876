use raining_rectangles::binding::{ControlBinding, Handler};
use raining_rectangles::controller::{AnimationController, RunState, TimerId, Toggled, TICK_PERIOD_MS};
use raining_rectangles::game_state::GameState;
use raining_rectangles::random::{RandomGenerator, UNIT};
use raining_rectangles::rectangle::{hit_test, Rectangle};

fn rect_at(x: i32, y: i32, w: i32, h: i32, velocity: i32) -> Rectangle {
    Rectangle { size: (w, h), position: (x, y), velocity, color: (1, 2, 3) }
}

#[test]
fn hit_test_boundaries() {
    let r = rect_at(10, 10, 20, 20, 3);
    assert!(r.contains((10, 10)));
    assert!(r.contains((29, 29)));
    assert!(!r.contains((30, 30)));
    assert!(!r.contains((9, 10)));
    assert!(hit_test((10, 10), &r));
    assert!(!hit_test((10, 30), &r));
    assert!(!hit_test((30, 10), &r));
}

#[test]
fn hit_test_extreme_coordinates() {
    let r = rect_at(10, 10, 20, 20, 3);
    assert!(!r.contains((i32::MIN, i32::MIN)));
    assert!(!r.contains((i32::MAX, 15)));
}

#[test]
fn generated_rectangles_stay_in_bounds() {
    for seed in 0u64..300 {
        let mut rng = RandomGenerator::new(seed.wrapping_mul(0x9E37_79B9_7F4A_7C15));
        for _ in 0..20 {
            let r = Rectangle::spawn((300, 150), &mut rng);
            assert!(5 <= r.size.0 && r.size.0 < 125);
            assert!(5 <= r.size.1 && r.size.1 < 125);
            assert!(1 <= r.velocity && r.velocity < 7);
            assert!(r.color.0 < UNIT && r.color.1 < UNIT && r.color.2 < UNIT);
            assert_eq!(r.position.1, 150);
            assert!(0 <= r.position.0 && r.position.0 <= 300 - r.size.0);
        }
    }
}

#[test]
fn from_units_exact_values() {
    let r = Rectangle::from_units((200, 100), (0, UNIT - 1), UNIT / 2, UNIT / 2, (0, 7, UNIT - 1));
    assert_eq!(r.size, (5, 124));
    assert_eq!(r.position, (97, 100));
    assert_eq!(r.velocity, 4);
    assert_eq!(r.color, (0, 7, UNIT - 1));
    let top = Rectangle::from_units((10, 10), (UNIT - 1, 0), 0, UNIT - 1, (0, 0, 0));
    assert_eq!(top.size, (124, 5));
    assert_eq!(top.position, (0, 10));
    assert_eq!(top.velocity, 6);
}

#[test]
fn from_units_truncates_toward_zero_on_narrow_surface() {
    let r = Rectangle::from_units((0, 0), (0, 0), UNIT / 2, 0, (0, 0, 0));
    assert_eq!(r.size, (5, 5));
    assert_eq!(r.position, (-2, 0));
    assert_eq!(r.velocity, 1);
}

#[test]
fn generator_steps_xorshift() {
    let mut rng = RandomGenerator::new(0);
    assert_eq!(rng.state, 1);
    let d = rng.uniform();
    assert_eq!(rng.state, 0x4082_2041);
    assert_eq!(d, 0);
    let mut a = RandomGenerator::new(42);
    let mut b = RandomGenerator::new(42);
    for _ in 0..50 {
        let x = a.uniform();
        assert_eq!(x, b.uniform());
        assert!(x < UNIT);
    }
}

#[test]
fn advance_moves_down_by_velocity() {
    let mut r = rect_at(3, 10, 20, 20, 6);
    r.advance();
    assert_eq!(r.position, (3, 4));
    r.advance();
    assert_eq!(r.position, (3, -2));
    assert_eq!(r.size, (20, 20));
}

#[test]
fn regenerate_replaces_wholesale() {
    let mut rng = RandomGenerator::new(7);
    let mut copy = RandomGenerator::new(7);
    let expected = Rectangle::spawn((200, 100), &mut copy);
    let mut r = rect_at(3, -4, 20, 20, 6);
    r.regenerate((200, 100), &mut rng);
    assert_eq!(r, expected);
    assert_eq!(rng.state, copy.state);
}

#[test]
fn game_state_counts() {
    let mut g = GameState::new();
    assert_eq!(g.hit(), 1);
    assert_eq!(g.hit(), 2);
    assert_eq!(g.miss(), 1);
    assert_eq!((g.score, g.misses), (2, 1));
}

#[test]
fn binding_attach_detach_idempotent() {
    let mut b = ControlBinding::new();
    assert_eq!(b.attached(), Some(Handler::Start));
    b.attach(Handler::Start);
    assert_eq!(b.attached(), Some(Handler::Start));
    b.attach(Handler::Stop);
    assert_eq!(b.attached(), Some(Handler::Start));
    b.detach(Handler::Stop);
    assert_eq!(b.attached(), Some(Handler::Start));
    b.detach(Handler::Start);
    assert_eq!(b.attached(), None);
    b.detach(Handler::Start);
    assert_eq!(b.attached(), None);
    b.attach(Handler::Stop);
    assert_eq!(b.attached(), Some(Handler::Stop));
    b.rebind(Handler::Stop, Handler::Start);
    assert_eq!(b.attached(), Some(Handler::Start));
}

#[test]
fn handler_labels() {
    assert_eq!(Handler::Start.label(), "start");
    assert_eq!(Handler::Stop.label(), "stop");
}

#[test]
fn tick_while_stopped_changes_nothing() {
    let mut c = AnimationController::new((200, 100), 5);
    let before = c.rectangle();
    for _ in 0..10 {
        assert_eq!(c.tick(), None);
    }
    assert_eq!(c.rectangle(), before);
    assert_eq!((c.score(), c.misses()), (0, 0));
    assert_eq!(c.run_state(), RunState::Stopped);
    assert_eq!(c.timer(), None);
}

/// Toggles `c`, handing it a tick source handle `id` when it starts.
fn press(c: &mut AnimationController, id: i32) -> Toggled {
    let started = if c.run_state() == RunState::Stopped { Some(TimerId { id }) } else { None };
    c.toggle(started)
}

#[test]
fn toggle_parity() {
    let mut c = AnimationController::with_rectangle((200, 100), rect_at(0, 100, 10, 10, 1), RandomGenerator::new(3));
    assert_eq!(c.attached_handler(), Some(Handler::Start));
    for n in 1..=9 {
        press(&mut c, n);
        if n % 3 == 0 {
            c.tick();
            c.on_click((1, 1));
        }
        if n % 2 == 1 {
            assert_eq!(c.run_state(), RunState::Running);
            assert_eq!(c.attached_handler(), Some(Handler::Stop));
            assert_eq!(c.timer(), Some(TimerId { id: n }));
        } else {
            assert_eq!(c.run_state(), RunState::Stopped);
            assert_eq!(c.attached_handler(), Some(Handler::Start));
            assert!(c.timer().is_none());
        }
    }
}

#[test]
fn scenario_fall_to_miss() {
    assert_eq!(TICK_PERIOD_MS, 17);
    let mut c = AnimationController::with_rectangle((200, 100), rect_at(40, 100, 30, 30, 5), RandomGenerator::new(11));
    match press(&mut c, 7) {
        Toggled::Started { timer, frame } => {
            assert_eq!(timer, TimerId { id: 7 });
            assert_eq!(frame.region, (40, 100, 30, 30));
            assert_eq!(frame.color, (1, 2, 3));
            assert_eq!(frame.misses, None);
        }
        Toggled::Stopped { .. } => panic!("expected a start"),
    }
    assert_eq!(c.rectangle().position.1, 100);
    let f = c.tick().unwrap();
    assert_eq!(c.rectangle().position.1, 95);
    assert_eq!(f.region, (40, 95, 30, 30));
    let mut ticks = 1;
    while c.misses() == 0 {
        let y = c.rectangle().position.1;
        let f = c.tick().unwrap();
        ticks += 1;
        if c.misses() == 0 {
            assert_eq!(c.rectangle().position.1, y - 5);
        } else {
            assert_eq!(f.misses, Some(1));
        }
    }
    assert_eq!(ticks, 21);
    assert_eq!(c.misses(), 1);
    assert_eq!(c.score(), 0);
    assert_eq!(c.rectangle().position.1, 100);
    let mut rng = RandomGenerator::new(11);
    assert_eq!(c.rectangle(), Rectangle::spawn((200, 100), &mut rng));
}

#[test]
fn scenario_corner_click_scores() {
    let mut c = AnimationController::new((300, 200), 99);
    press(&mut c, 1);
    let before = c.rectangle();
    assert_eq!(c.on_click(before.position), Some(1));
    assert_eq!(c.score(), 1);
    assert_eq!(c.misses(), 0);
    let after = c.rectangle();
    assert_ne!(after, before);
    assert_eq!(after.position.1, 200);
    let mut rng = RandomGenerator::new(99);
    Rectangle::spawn((300, 200), &mut rng);
    assert_eq!(after, Rectangle::spawn((300, 200), &mut rng));
    let corner = after.position;
    assert_eq!(c.on_click(corner), Some(2));
    assert_eq!(c.score(), 2);
}

#[test]
fn click_outside_or_while_stopped_is_ignored() {
    let mut c = AnimationController::with_rectangle((200, 100), rect_at(10, 50, 20, 20, 2), RandomGenerator::new(1));
    assert_eq!(c.on_click((10, 50)), None);
    assert_eq!(c.score(), 0);
    press(&mut c, 1);
    assert_eq!(c.rectangle().position, (10, 50));
    assert_eq!(c.on_click((9, 50)), None);
    assert_eq!(c.on_click((30, 50)), None);
    assert_eq!(c.on_click((10, 70)), None);
    assert_eq!(c.score(), 0);
    assert_eq!(c.rectangle().position, (10, 50));
}

#[test]
fn scenario_double_toggle() {
    let start = rect_at(40, 100, 30, 30, 5);
    let mut c = AnimationController::with_rectangle((200, 100), start, RandomGenerator::new(11));
    let first = press(&mut c, 4);
    let second = press(&mut c, 5);
    let timer = match first {
        Toggled::Started { timer, .. } => timer,
        Toggled::Stopped { .. } => panic!("expected a start"),
    };
    assert_eq!(timer, TimerId { id: 4 });
    assert_eq!(second, Toggled::Stopped { timer });
    assert_eq!(c.run_state(), RunState::Stopped);
    assert_eq!(c.attached_handler(), Some(Handler::Start));
    assert_eq!(c.timer(), None);
    assert_eq!(c.rectangle(), start);
    assert_eq!((c.score(), c.misses()), (0, 0));
}

#[test]
fn stop_hands_back_the_recorded_timer() {
    let mut c = AnimationController::new((200, 100), 8);
    press(&mut c, 31);
    assert_eq!(c.timer(), Some(TimerId { id: 31 }));
    assert_eq!(c.toggle(None), Toggled::Stopped { timer: TimerId { id: 31 } });
    press(&mut c, -2);
    assert_eq!(c.timer(), Some(TimerId { id: -2 }));
    assert_eq!(c.toggle(Some(TimerId { id: 9 })), Toggled::Stopped { timer: TimerId { id: -2 } });
}

#[test]
fn degenerate_surface_misses_every_tick() {
    let mut c = AnimationController::new((0, 0), 4);
    assert_eq!(c.rectangle().position.1, 0);
    press(&mut c, 1);
    assert_eq!(c.misses(), 0);
    c.tick();
    assert_eq!(c.misses(), 1);
    c.tick();
    assert_eq!(c.misses(), 2);
    assert_eq!(c.surface(), (0, 0));
}

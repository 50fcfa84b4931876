use vstd::prelude::*;
use crate::random::{RandomGenerator, UNIT, nth_draw, state_after, lemma_draw_below_unit};

verus! {

/// `k` scaled by the fraction `u / UNIT`, truncated toward zero.
pub open spec fn scale(u: int, k: int) -> int {
    if k >= 0 {
        u * k / (UNIT as int)
    } else {
        -((u * -k) / (UNIT as int))
    }
}

/// The rectangle that the fractions `su`, `xu`, `vu` and `cu` give on a surface of
/// size `surface`: a size in `[5, 125)`, entering at the top edge at a horizontal
/// position within the surface, a velocity in `[1, 7)`, and the color `cu`.
pub open spec fn rect_from_units(
    surface: (i32, i32),
    su: (u32, u32),
    xu: u32,
    vu: u32,
    cu: (u32, u32, u32),
) -> Rectangle {
    let w = 5 + scale(su.0 as int, 120);
    let h = 5 + scale(su.1 as int, 120);
    Rectangle {
        size: (w as i32, h as i32),
        position: (scale(xu as int, surface.0 - w) as i32, surface.1),
        velocity: (1 + scale(vu as int, 6)) as i32,
        color: cu,
    }
}

/// The rectangle spawned from a generator in state `s`: its seven draws, in order,
/// give width, height, horizontal position, velocity, and the three color channels.
pub open spec fn spawned(surface: (i32, i32), s: u64) -> Rectangle {
    rect_from_units(
        surface,
        (nth_draw(s, 0), nth_draw(s, 1)),
        nth_draw(s, 2),
        nth_draw(s, 3),
        (nth_draw(s, 4), nth_draw(s, 5), nth_draw(s, 6)),
    )
}

/// Number of draws that one spawn takes from the generator.
pub open spec fn draws_per_spawn() -> nat {
    7
}

/// A falling rectangle. The position is its bottom-left corner, with the vertical
/// axis increasing upward; the color channels are fractions `n / UNIT`.
#[derive(Clone, Copy, Debug, PartialEq, Eq)]
pub struct Rectangle {
    pub size: (i32, i32),
    pub position: (i32, i32),
    pub velocity: i32,
    pub color: (u32, u32, u32),
}

/// The point lies in the rectangle: `point - position` is in `[0, size)` on both axes.
pub open spec fn contains_point(r: Rectangle, point: (i32, i32)) -> bool {
    0 <= point.0 - r.position.0 < r.size.0 && 0 <= point.1 - r.position.1 < r.size.1
}

pub proof fn lemma_scale_bounds(u: int, k: int)
    requires
        0 <= u < UNIT as int,
    ensures
        k >= 0 ==> 0 <= scale(u, k) <= k,
        k > 0 ==> scale(u, k) < k,
        k < 0 ==> k <= scale(u, k) <= 0,
{
    let d = UNIT as int;
    if k >= 0 {
        assert(0 <= u * k <= (d - 1) * k) by (nonlinear_arith)
            requires 0 <= u < d, k >= 0;
        assert(0 <= u * k / d) by (nonlinear_arith)
            requires 0 <= u * k, d > 0;
        if k > 0 {
            assert(u * k / d < k) by (nonlinear_arith)
                requires 0 <= u * k <= (d - 1) * k, d > 0, k > 0;
        }
        assert(u * k / d <= k) by (nonlinear_arith)
            requires 0 <= u * k <= (d - 1) * k, d > 0, k >= 0;
    } else {
        let m = -k;
        assert(0 <= u * m <= (d - 1) * m) by (nonlinear_arith)
            requires 0 <= u < d, m > 0;
        assert(0 <= u * m / d <= m) by (nonlinear_arith)
            requires 0 <= u * m <= (d - 1) * m, d > 0, m > 0;
    }
}

/// Fraction `u / UNIT` of `k`, truncated toward zero.
fn scale_exec(u: u32, k: i32) -> (r: i32)
    requires
        u < UNIT,
        k > i32::MIN,
    ensures
        r == scale(u as int, k as int),
{
    proof {
        lemma_scale_bounds(u as int, k as int);
    }
    if k >= 0 {
        assert((u as u64) * (k as u64) <= 0xffff_ffff_ffff_ffffu64) by (nonlinear_arith)
            requires u < 0x1_0000_0000u64, 0 <= k < 0x8000_0000;
        let p: u64 = (u as u64) * (k as u64);
        (p / (UNIT as u64)) as i32
    } else {
        let m: u64 = (-(k as i64)) as u64;
        assert((u as u64) * m <= 0xffff_ffff_ffff_ffffu64) by (nonlinear_arith)
            requires u < 0x1_0000_0000u64, 0 < m <= 0x8000_0000;
        let p: u64 = (u as u64) * m;
        let q: u64 = p / (UNIT as u64);
        -(q as i32)
    }
}

impl Rectangle {
    /// Generated bounds: size in `[5, 125)`, velocity in `[1, 7)`, color channels in `[0, 1)`.
    pub open spec fn wf(&self) -> bool {
        5 <= self.size.0 < 125 && 5 <= self.size.1 < 125 && 1 <= self.velocity < 7
            && self.color.0 < UNIT && self.color.1 < UNIT && self.color.2 < UNIT
    }

    pub open spec fn advanced(&self) -> Rectangle {
        Rectangle { position: (self.position.0, (self.position.1 - self.velocity) as i32), ..*self }
    }

    /// Builds a rectangle from uniform fractions, as `spawn` does from its draws.
    pub fn from_units(
        surface: (i32, i32),
        su: (u32, u32),
        xu: u32,
        vu: u32,
        cu: (u32, u32, u32),
    ) -> (r: Rectangle)
        requires
            surface.0 >= 0,
            surface.1 >= 0,
            su.0 < UNIT,
            su.1 < UNIT,
            xu < UNIT,
            vu < UNIT,
            cu.0 < UNIT,
            cu.1 < UNIT,
            cu.2 < UNIT,
        ensures
            r == rect_from_units(surface, su, xu, vu, cu),
            r.wf(),
            0 <= r.position.0 <= surface.0 - r.size.0 || surface.0 - r.size.0 <= r.position.0 <= 0,
            r.position.1 == surface.1,
    {
        proof {
            lemma_scale_bounds(su.0 as int, 120);
            lemma_scale_bounds(su.1 as int, 120);
            lemma_scale_bounds(vu as int, 6);
        }
        let w = 5 + scale_exec(su.0, 120);
        let h = 5 + scale_exec(su.1, 120);
        proof {
            lemma_scale_bounds(xu as int, surface.0 - w);
        }
        let x = scale_exec(xu, surface.0 - w);
        let v = 1 + scale_exec(vu, 6);
        Rectangle { size: (w, h), position: (x, surface.1), velocity: v, color: cu }
    }

    /// A fresh rectangle at the top edge of the surface, from seven draws of `rng`.
    pub fn spawn(surface: (i32, i32), rng: &mut RandomGenerator) -> (r: Rectangle)
        requires
            surface.0 >= 0,
            surface.1 >= 0,
        ensures
            r == spawned(surface, old(rng).state),
            final(rng).state == state_after(old(rng).state, draws_per_spawn()),
            r.wf(),
            r.position.1 == surface.1,
    {
        let ghost s = rng.state;
        let a = rng.uniform();
        let b = rng.uniform();
        let c = rng.uniform();
        let d = rng.uniform();
        let e = rng.uniform();
        let f = rng.uniform();
        let g = rng.uniform();
        proof {
            reveal_with_fuel(state_after, 8);
        }
        Rectangle::from_units(surface, (a, b), c, d, (e, f, g))
    }

    /// Replaces this rectangle wholesale with a freshly spawned one.
    pub fn regenerate(&mut self, surface: (i32, i32), rng: &mut RandomGenerator)
        requires
            surface.0 >= 0,
            surface.1 >= 0,
        ensures
            *final(self) == spawned(surface, old(rng).state),
            final(rng).state == state_after(old(rng).state, draws_per_spawn()),
            final(self).wf(),
    {
        *self = Rectangle::spawn(surface, rng);
    }

    /// One step of descent: the vertical position drops by the velocity, unclamped.
    pub fn advance(&mut self)
        requires
            old(self).position.1 - old(self).velocity >= i32::MIN,
            old(self).position.1 - old(self).velocity <= i32::MAX,
        ensures
            *final(self) == old(self).advanced(),
            final(self).position.1 == old(self).position.1 - old(self).velocity,
    {
        self.position.1 = self.position.1 - self.velocity;
    }

    /// Whether `point` lies in the rectangle.
    pub fn contains(&self, point: (i32, i32)) -> (r: bool)
        ensures
            r == contains_point(*self, point),
    {
        let dx: i64 = point.0 as i64 - self.position.0 as i64;
        let dy: i64 = point.1 as i64 - self.position.1 as i64;
        0 <= dx && dx < self.size.0 as i64 && 0 <= dy && dy < self.size.1 as i64
    }
}

/// The hit test of a click at `point` (surface coordinates, vertical axis upward).
pub fn hit_test(point: (i32, i32), rect: &Rectangle) -> (r: bool)
    ensures
        r == contains_point(*rect, point),
{
    rect.contains(point)
}

} // verus!

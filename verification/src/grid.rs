//! The toroidal coordinate space: a bounded grid whose single-step moves
//! wrap around at every edge.

use vstd::prelude::*;

verus! {

/// The grid: a rectangle of `w` columns and `h` rows. Coordinates wrap
/// modulo these bounds, so both must be at least 1.
#[derive(Clone, Copy, PartialEq, Eq, Structural, Debug)]
pub struct Planet {
    pub w: u8,
    pub h: u8,
}

/// A point of the grid. Valid positions satisfy `0 <= x < w` and
/// `0 <= y < h` for the planet they live on.
#[derive(Clone, Copy, PartialEq, Eq, Structural, Debug)]
pub struct Position {
    pub x: u8,
    pub y: u8,
}

/// One step up modulo `m`: the successor of `v`, re-entering at 0 past the
/// top edge.
pub open spec fn wrap_inc(v: u8, m: u8) -> u8 {
    (((v as int) + 1) % (m as int)) as u8
}

/// One step down modulo `m`: the predecessor of `v`, re-entering at `m - 1`
/// past the bottom edge.
pub open spec fn wrap_dec(v: u8, m: u8) -> u8 {
    (((v as int) - 1 + (m as int)) % (m as int)) as u8
}

impl Planet {
    /// A planet is well formed when both bounds are at least 1, so that
    /// the wraparound arithmetic is defined.
    pub open spec fn wf(self) -> bool {
        self.w >= 1 && self.h >= 1
    }

    /// Builds a planet from explicit bounds, rejecting a zero width or
    /// height at construction time.
    pub fn new(w: u8, h: u8) -> (r: Option<Planet>)
        ensures
            r is Some <==> w >= 1 && h >= 1,
            r is Some ==> (r->0 == Planet { w, h } && r->0.wf()),
    {
        if w >= 1 && h >= 1 {
            Some(Planet { w, h })
        } else {
            None
        }
    }

    /// The position one step north of `p`: `y` advances modulo `h`.
    pub open spec fn spec_next_north(self, p: Position) -> Position {
        Position { x: p.x, y: wrap_inc(p.y, self.h) }
    }

    /// The position one step east of `p`: `x` advances modulo `w`.
    pub open spec fn spec_next_east(self, p: Position) -> Position {
        Position { x: wrap_inc(p.x, self.w), y: p.y }
    }

    /// The position one step south of `p`: `y` recedes modulo `h`.
    pub open spec fn spec_next_south(self, p: Position) -> Position {
        Position { x: p.x, y: wrap_dec(p.y, self.h) }
    }

    /// The position one step west of `p`: `x` recedes modulo `w`.
    pub open spec fn spec_next_west(self, p: Position) -> Position {
        Position { x: wrap_dec(p.x, self.w), y: p.y }
    }

    /// Steps north: `y' = (y + 1) mod h`, `x` unchanged.
    pub fn next_north(&self, position: Position) -> (r: Position)
        requires
            self.wf(),
            position.in_bounds(*self),
        ensures
            r == self.spec_next_north(position),
            r.in_bounds(*self),
    {
        proof {
            lemma_wrap_inc_values(position.y, self.h);
        }
        if position.y + 1 == self.h {
            Position { x: position.x, y: 0 }
        } else {
            Position { x: position.x, y: position.y + 1 }
        }
    }

    /// Steps east: `x' = (x + 1) mod w`, `y` unchanged.
    pub fn next_east(&self, position: Position) -> (r: Position)
        requires
            self.wf(),
            position.in_bounds(*self),
        ensures
            r == self.spec_next_east(position),
            r.in_bounds(*self),
    {
        proof {
            lemma_wrap_inc_values(position.x, self.w);
        }
        if position.x + 1 == self.w {
            Position { x: 0, y: position.y }
        } else {
            Position { x: position.x + 1, y: position.y }
        }
    }

    /// Steps south: `y' = (y - 1 + h) mod h`, `x` unchanged.
    pub fn next_south(&self, position: Position) -> (r: Position)
        requires
            self.wf(),
            position.in_bounds(*self),
        ensures
            r == self.spec_next_south(position),
            r.in_bounds(*self),
    {
        proof {
            lemma_wrap_dec_values(position.y, self.h);
        }
        if position.y == 0 {
            Position { x: position.x, y: self.h - 1 }
        } else {
            Position { x: position.x, y: position.y - 1 }
        }
    }

    /// Steps west: `x' = (x - 1 + w) mod w`, `y` unchanged.
    pub fn next_west(&self, position: Position) -> (r: Position)
        requires
            self.wf(),
            position.in_bounds(*self),
        ensures
            r == self.spec_next_west(position),
            r.in_bounds(*self),
    {
        proof {
            lemma_wrap_dec_values(position.x, self.w);
        }
        if position.x == 0 {
            Position { x: self.w - 1, y: position.y }
        } else {
            Position { x: position.x - 1, y: position.y }
        }
    }
}

impl Position {
    /// Whether this position lies inside the bounds of `p`.
    pub open spec fn in_bounds(self, p: Planet) -> bool {
        self.x < p.w && self.y < p.h
    }

    /// Builds a position from explicit coordinates, rejecting one outside
    /// the bounds of `p` at construction time.
    pub fn new(x: u8, y: u8, p: &Planet) -> (r: Option<Position>)
        ensures
            r is Some <==> x < p.w && y < p.h,
            r is Some ==> (r->0 == Position { x, y } && r->0.in_bounds(*p)),
    {
        if x < p.w && y < p.h {
            Some(Position { x, y })
        } else {
            None
        }
    }
}

/// On `[0, m)` the step up is the successor, except at the top edge, where
/// it re-enters at 0.
pub proof fn lemma_wrap_inc_values(v: u8, m: u8)
    requires
        m >= 1,
        v < m,
    ensures
        wrap_inc(v, m) == if v + 1 == m { 0u8 } else { (v + 1) as u8 },
{
    if v + 1 == m {
        vstd::arithmetic::div_mod::lemma_mod_self_0(m as int);
    } else {
        vstd::arithmetic::div_mod::lemma_small_mod((v + 1) as nat, m as nat);
    }
}

/// On `[0, m)` the step down is the predecessor, except at the bottom edge,
/// where it re-enters at `m - 1`.
pub proof fn lemma_wrap_dec_values(v: u8, m: u8)
    requires
        m >= 1,
        v < m,
    ensures
        wrap_dec(v, m) == if v == 0 { (m - 1) as u8 } else { (v - 1) as u8 },
{
    if v == 0 {
        vstd::arithmetic::div_mod::lemma_small_mod((m - 1) as nat, m as nat);
    } else {
        vstd::arithmetic::div_mod::lemma_mod_multiples_vanish(1, v as int - 1, m as int);
        vstd::arithmetic::div_mod::lemma_small_mod((v - 1) as nat, m as nat);
    }
}

/// Stepping up then down (or down then up) modulo the same bound restores
/// the starting value: the two wrap operations are inverse on `[0, m)`.
pub proof fn lemma_wrap_inverse(v: u8, m: u8)
    requires
        m >= 1,
        v < m,
    ensures
        wrap_dec(wrap_inc(v, m), m) == v,
        wrap_inc(wrap_dec(v, m), m) == v,
{
    lemma_wrap_inc_values(v, m);
    lemma_wrap_dec_values(v, m);
    lemma_wrap_bounds(v, m);
    lemma_wrap_dec_values(wrap_inc(v, m), m);
    lemma_wrap_inc_values(wrap_dec(v, m), m);
}

/// Both wrap operations stay inside `[0, m)`.
pub proof fn lemma_wrap_bounds(v: u8, m: u8)
    requires
        m >= 1,
    ensures
        wrap_inc(v, m) < m,
        wrap_dec(v, m) < m,
{
    vstd::arithmetic::div_mod::lemma_mod_bound(v as int + 1, m as int);
    vstd::arithmetic::div_mod::lemma_mod_bound(v as int - 1 + m as int, m as int);
}

} // verus!

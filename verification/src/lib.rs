//! Round pegs, square pegs, and a round hole.
//!
//! A round hole accepts any shape that can report an *effective radius*:
//! the radius of the circle circumscribing the shape. A round peg reports
//! its own radius; a square peg is wrapped in an adapter whose effective
//! radius is half the square's diagonal, `width * sqrt(2) / 2`.
//!
//! Lengths are measured in whole units. Since `sqrt(2)` is irrational, the
//! library never computes an effective radius directly: it compares twice
//! the *square* of each radius instead. For non-negative lengths the two
//! comparisons agree exactly:
//!
//! * a round peg of radius `r` fits a hole of radius `R` iff
//!   `r <= R` iff `2*r^2 <= 2*R^2`;
//! * a square peg of width `w` fits iff `w * sqrt(2) / 2 <= R` iff
//!   `2 * (w * sqrt(2) / 2)^2 = w^2 <= 2*R^2`.
//!
//! The comparison is therefore exact at every input, including the
//! boundary, with no rounding anywhere.

use vstd::prelude::*;

verus! {

/// Twice the square of a length: the quantity on which all fitting
/// decisions are made.
pub open spec fn doubled_sq(x: int) -> int {
    2 * (x * x)
}

/// A shape that a round hole can measure: it reports twice the square of
/// its effective radius, the radius of its circumscribing circle.
pub trait Circular {
    /// Twice the square of the effective radius, as a mathematical integer.
    spec fn eff_radius_sq2(&self) -> int;

    /// Report twice the square of the effective radius.
    fn get_radius_sq2(&self) -> (r: u128)
        ensures
            r as int == self.eff_radius_sq2(),
    ;
}

/// A round hole of a fixed radius.
pub struct RoundHole {
    pub radius: u32,
}

impl RoundHole {
    /// What the hole admits: any shape whose doubled squared effective
    /// radius is at most the hole's own. The comparison is inclusive, so
    /// a shape on the exact boundary fits.
    pub open spec fn admits(self, sq2: int) -> bool {
        sq2 <= doubled_sq(self.radius as int)
    }

    pub fn new(radius: u32) -> (h: Self)
        ensures
            h.radius == radius,
    {
        Self { radius }
    }

    /// Decide whether `peg` fits in this hole.
    pub fn fits<T: Circular>(&self, peg: T) -> (r: bool)
        ensures
            r == self.admits(peg.eff_radius_sq2()),
    {
        proof {
            lemma_doubled_sq_u32_bound(self.radius);
        }
        let own: u128 = 2 * ((self.radius as u128) * (self.radius as u128));
        peg.get_radius_sq2() <= own
    }
}

/// Twice the square of a length that fits in a `u32` stays well inside a
/// `u128`, so the executable comparisons never overflow.
pub proof fn lemma_doubled_sq_u32_bound(x: u32)
    ensures
        0 <= doubled_sq(x as int) <= 2 * 0xffff_ffff * 0xffff_ffff,
        0 <= (x as int) * (x as int) <= 0xffff_ffff * 0xffff_ffff,
{
    assert(0 <= (x as int) * (x as int) <= 0xffff_ffff * 0xffff_ffff) by (nonlinear_arith)
        requires
            0 <= x <= 0xffff_ffff,
    ;
}

/// A round peg: its effective radius is its own radius.
pub struct RoundPeg {
    pub radius: u32,
}

impl Circular for RoundPeg {
    open spec fn eff_radius_sq2(&self) -> int {
        doubled_sq(self.radius as int)
    }

    fn get_radius_sq2(&self) -> (r: u128)
        ensures
            r as int == self.eff_radius_sq2(),
    {
        proof {
            lemma_doubled_sq_u32_bound(self.radius);
        }
        2 * ((self.radius as u128) * (self.radius as u128))
    }
}

/// A square peg of a fixed width, its side length.
pub struct SquarePeg {
    pub width: u32,
}

impl SquarePeg {
    pub fn new(width: u32) -> (p: Self)
        ensures
            p.width == width,
    {
        Self { width }
    }

    pub fn get_width(&self) -> (w: u32)
        ensures
            w == self.width,
    {
        self.width
    }
}

/// Adapts a square peg to the round hole's measure. The effective radius
/// is that of the circle circumscribing the square, half its diagonal:
/// `width * sqrt(2) / 2`. Twice the square of that is exactly `width^2`,
/// so the adapter reports a whole number with no rounding.
pub struct SquarePegAdapter {
    pub peg: SquarePeg,
}

impl SquarePegAdapter {
    pub fn new(peg: SquarePeg) -> (a: Self)
        ensures
            a.peg == peg,
    {
        Self { peg }
    }
}

impl Circular for SquarePegAdapter {
    open spec fn eff_radius_sq2(&self) -> int {
        (self.peg.width as int) * (self.peg.width as int)
    }

    fn get_radius_sq2(&self) -> (r: u128)
        ensures
            r as int == self.eff_radius_sq2(),
    {
        proof {
            lemma_doubled_sq_u32_bound(self.peg.width);
        }
        (self.peg.width as u128) * (self.peg.width as u128)
    }
}

/// A round peg fits a round hole exactly when the peg's radius is at most
/// the hole's: comparing doubled squared radii is the same as comparing
/// the radii themselves.
pub proof fn lemma_round_peg_fits_iff(hole: RoundHole, peg: RoundPeg)
    ensures
        hole.admits(peg.eff_radius_sq2()) <==> peg.radius <= hole.radius,
{
    assert(2 * ((peg.radius as int) * (peg.radius as int))
        <= 2 * ((hole.radius as int) * (hole.radius as int)) <==> peg.radius <= hole.radius)
        by (nonlinear_arith);
}

/// A round peg whose radius equals the hole's fits: the comparison is
/// inclusive on the boundary.
pub proof fn lemma_equal_radii_fit(hole: RoundHole, peg: RoundPeg)
    requires
        peg.radius == hole.radius,
    ensures
        hole.admits(peg.eff_radius_sq2()),
{
    lemma_round_peg_fits_iff(hole, peg);
}

/// A wrapped square peg of width `w` fits a hole of radius `R` exactly
/// when `w^2 <= 2 * R^2`. Over non-negative reals that is the same as
/// `w * sqrt(2) / 2 <= R`: squaring is monotone there, and twice the
/// square of `w * sqrt(2) / 2` is `w^2`.
pub proof fn lemma_square_peg_fits_iff(hole: RoundHole, adapter: SquarePegAdapter)
    ensures
        hole.admits(adapter.eff_radius_sq2()) <==> (adapter.peg.width as int)
            * (adapter.peg.width as int) <= 2 * ((hole.radius as int) * (hole.radius as int)),
{
}

/// A square peg on the exact boundary, where twice the square of its
/// effective radius equals twice the square of the hole's radius, fits:
/// the comparison is inclusive.
pub proof fn lemma_boundary_square_peg_fits(hole: RoundHole, adapter: SquarePegAdapter)
    requires
        adapter.eff_radius_sq2() == doubled_sq(hole.radius as int),
    ensures
        hole.admits(adapter.eff_radius_sq2()),
{
}

/// The adapter's effective radius is a pure function of the adapter value:
/// any two results its contract allows for the same adapter are equal, so
/// measuring twice yields the same answer.
pub proof fn lemma_effective_radius_deterministic(adapter: SquarePegAdapter, r1: u128, r2: u128)
    requires
        r1 as int == adapter.eff_radius_sq2(),
        r2 as int == adapter.eff_radius_sq2(),
    ensures
        r1 == r2,
{
}

} // verus!

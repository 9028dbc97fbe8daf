//! The discrete rules of shading: which colour of a pattern a point takes,
//! and whether a reflection is followed.
use vstd::prelude::*;
use crate::scalar::{less_than, lt};
use crate::scene::PatternType;

verus! {

/// The most rays followed for one pixel: the camera ray and its reflections.
pub const REFLECTION_DEPTH: u32 = 5;

/// Bit pattern of `0.01`: the reflectance below which reflections are no
/// longer followed, and the distance by which secondary rays leave a surface.
pub const EPSILON: u32 = 0x3c23_d70a;

/// The cell of a pattern's local space that a point falls in: the floors of
/// its coordinates and of its distance from the y axis.
#[derive(Clone, Copy, PartialEq, Eq, Structural, Debug)]
pub struct Cell {
    pub x: i64,
    pub y: i64,
    pub z: i64,
    pub radius: i64,
}

pub open spec fn even(n: int) -> bool {
    n % 2 == 0
}

/// Stripes alternate with x, rings with the distance from the y axis, and
/// checkers with x, y and z together. A gradient blends its two colours and
/// picks neither.
pub open spec fn spec_takes_first(kind: PatternType, cell: Cell) -> Option<bool> {
    match kind {
        PatternType::Stripes => Some(even(cell.x as int)),
        PatternType::Ring => Some(even(cell.radius as int)),
        PatternType::Checker => Some(even(cell.x + cell.y + cell.z)),
        PatternType::Gradient => None,
    }
}

fn is_even(n: i64) -> (r: bool)
    ensures
        r == even(n as int),
{
    n % 2 == 0
}

impl PatternType {
    /// Whether a point in `cell` takes the pattern's first colour, or `None`
    /// for a gradient.
    pub fn takes_first(self, cell: Cell) -> (r: Option<bool>)
        ensures
            r == spec_takes_first(self, cell),
    {
        match self {
            PatternType::Stripes => Some(is_even(cell.x)),
            PatternType::Ring => Some(is_even(cell.radius)),
            PatternType::Checker => {
                let r = (is_even(cell.x) == is_even(cell.y)) == is_even(cell.z);
                proof {
                    let (x, y, z) = (cell.x as int, cell.y as int, cell.z as int);
                    assert(r == even(x + y + z)) by {
                        assert((x + y + z) % 2 == ((x % 2) + (y % 2) + (z % 2)) % 2) by (nonlinear_arith);
                    }
                }
                Some(r)
            },
            PatternType::Gradient => None,
        }
    }
}

/// A reflection is followed only while fewer than [`REFLECTION_DEPTH`] rays
/// have been followed and the carried reflectance is not below [`EPSILON`].
pub open spec fn follows(bounce: u32, carried: u32) -> bool {
    bounce + 1 < REFLECTION_DEPTH && !lt(carried, EPSILON)
}

/// After ray number `bounce` (counted from 0) hit a surface and left
/// `carried` reflectance, whether its reflection is followed.
pub fn follow_reflection(bounce: u32, carried: u32) -> (r: bool)
    ensures
        r == follows(bounce, carried),
{
    bounce < REFLECTION_DEPTH - 1 && !less_than(carried, EPSILON)
}

/// However reflective the surfaces (two mirrors facing each other), a pixel
/// follows at most [`REFLECTION_DEPTH`] rays: when the reflections of rays
/// `0` to `n - 1` are all followed, with whatever reflectances, `n` is below
/// the depth.
pub proof fn lemma_reflections_bounded(reflectances: Seq<u32>, n: nat)
    requires
        forall|b: int| 0 <= b < n ==> follows(b as u32, #[trigger] reflectances[b]),
        n <= reflectances.len(),
    ensures
        n < REFLECTION_DEPTH,
{
    if n >= REFLECTION_DEPTH {
        assert(follows((REFLECTION_DEPTH - 1) as u32, reflectances[REFLECTION_DEPTH - 1]));
    }
}

} // verus!

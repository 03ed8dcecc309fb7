//! The level: platforms that never move, each an axis-aligned box.
//!
//! Collision is two-dimensional. Seen from the north or the south the x
//! axis runs across the screen and y is depth; seen from the east or the
//! west it is the other way round, and depth is never tested.

use vstd::prelude::*;
use crate::camera::Perspective;
use crate::fixed::{distance, magnitude};

verus! {

/// Red, green and blue, each in thousandths of full intensity.
pub type Color = (u16, u16, u16);

pub struct Platform {
    /// The centre of the top surface.
    pub surface_center: (i64, i64, i64),
    /// The extents of the surface along x and along y.
    pub surface_dim: (u64, u64),
    /// How far the platform reaches below its surface.
    pub height: u64,
    pub color: Color,
}

pub struct Level {
    pub bg_color: Color,
    pub platforms: Vec<Platform>,
}

/// The level as contracts see it.
pub struct LevelView {
    pub bg_color: Color,
    pub platforms: Seq<Platform>,
}

impl View for Level {
    type V = LevelView;

    open spec fn view(&self) -> LevelView {
        LevelView { bg_color: self.bg_color, platforms: self.platforms@ }
    }
}

/// Whether an interval of width `width` centred at `at` meets one of width
/// `extent` centred at `center`; touching counts.
pub open spec fn spans_meet(at: int, width: int, center: int, extent: int) -> bool {
    2 * magnitude(at - center) <= width + extent
}

impl Platform {
    pub fn new(
        surface_center: (i64, i64, i64),
        surface_dim: (u64, u64),
        height: u64,
        color: Color,
    ) -> (r: Platform)
        ensures
            r.surface_center == surface_center,
            r.surface_dim == surface_dim,
            r.height == height,
            r.color == color,
    {
        Platform { surface_center, surface_dim, height, color }
    }

    /// Whether the surface lies at a height within `[z_lower, z_upper]`.
    pub open spec fn surface_within(self, z_lower: int, z_upper: int) -> bool {
        z_lower <= self.surface_center.2 <= z_upper
    }

    /// Whether a body of width `xdim` centred at `x` is over the surface
    /// along x while the surface lies within `[z_lower, z_upper]`.
    pub open spec fn intersects_x(self, x: int, xdim: int, z_lower: int, z_upper: int) -> bool {
        spans_meet(x, xdim, self.surface_center.0 as int, self.surface_dim.0 as int)
            && self.surface_within(z_lower, z_upper)
    }

    /// The same along y.
    pub open spec fn intersects_y(self, y: int, ydim: int, z_lower: int, z_upper: int) -> bool {
        spans_meet(y, ydim, self.surface_center.1 as int, self.surface_dim.1 as int)
            && self.surface_within(z_lower, z_upper)
    }

    /// The test that counts from the given viewpoint, for a body at `(x, y)`.
    pub open spec fn intersects_from(
        self,
        facing: Perspective,
        x: int,
        y: int,
        dim: int,
        z_lower: int,
        z_upper: int,
    ) -> bool {
        if facing.along_x() {
            self.intersects_x(x, dim, z_lower, z_upper)
        } else {
            self.intersects_y(y, dim, z_lower, z_upper)
        }
    }

    pub fn intersection_x(&self, x: i64, xdim: u64, z_lower: i64, z_upper: i64) -> (r: bool)
        ensures
            r == self.intersects_x(x as int, xdim as int, z_lower as int, z_upper as int),
    {
        if 2 * distance(x, self.surface_center.0) > (xdim as i128) + (self.surface_dim.0 as i128) {
            false
        } else {
            z_lower <= self.surface_center.2 && self.surface_center.2 <= z_upper
        }
    }

    pub fn intersection_y(&self, y: i64, ydim: u64, z_lower: i64, z_upper: i64) -> (r: bool)
        ensures
            r == self.intersects_y(y as int, ydim as int, z_lower as int, z_upper as int),
    {
        if 2 * distance(y, self.surface_center.1) > (ydim as i128) + (self.surface_dim.1 as i128) {
            false
        } else {
            z_lower <= self.surface_center.2 && self.surface_center.2 <= z_upper
        }
    }
}

/// The index of the last platform among the first `n` that a body of width
/// `dim` at `(x, y)` meets while the surface lies within `[z_lower, z_upper]`.
pub open spec fn last_hit(
    platforms: Seq<Platform>,
    n: int,
    facing: Perspective,
    x: int,
    y: int,
    dim: int,
    z_lower: int,
    z_upper: int,
) -> Option<int>
    decreases n,
{
    if n <= 0 {
        None
    } else if platforms[n - 1].intersects_from(facing, x, y, dim, z_lower, z_upper) {
        Some(n - 1)
    } else {
        last_hit(platforms, n - 1, facing, x, y, dim, z_lower, z_upper)
    }
}

/// `last_hit` names a platform that is met and after which none is met;
/// it names none only where none is met.
pub proof fn lemma_last_hit_is_last(
    platforms: Seq<Platform>,
    n: int,
    facing: Perspective,
    x: int,
    y: int,
    dim: int,
    z_lower: int,
    z_upper: int,
)
    requires
        0 <= n <= platforms.len(),
    ensures
        match last_hit(platforms, n, facing, x, y, dim, z_lower, z_upper) {
            Some(i) => {
                &&& 0 <= i < n
                &&& platforms[i].intersects_from(facing, x, y, dim, z_lower, z_upper)
                &&& forall|j: int|
                    i < j < n ==> !(#[trigger] platforms[j]).intersects_from(
                        facing,
                        x,
                        y,
                        dim,
                        z_lower,
                        z_upper,
                    )
            },
            None => forall|j: int|
                0 <= j < n ==> !(#[trigger] platforms[j]).intersects_from(
                    facing,
                    x,
                    y,
                    dim,
                    z_lower,
                    z_upper,
                ),
        },
    decreases n,
{
    if n > 0 && !platforms[n - 1].intersects_from(facing, x, y, dim, z_lower, z_upper) {
        lemma_last_hit_is_last(platforms, n - 1, facing, x, y, dim, z_lower, z_upper);
    }
}

} // verus!

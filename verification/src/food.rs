//! Food sources: axis-aligned rectangles in field coordinates, created
//! once at simulation start and never moved, resized or depleted. All
//! coordinates and extents are fixed-point positions in thousandths of a
//! grid cell.

use vstd::prelude::*;

verus! {

/// One inexhaustible food rectangle.
#[derive(Clone, Copy, Debug, PartialEq, Eq, Structural)]
pub struct Food {
    /// Left edge of the rectangle.
    pub x: i64,
    /// Top edge of the rectangle.
    pub y: i64,
    /// Horizontal extent.
    pub width: i64,
    /// Vertical extent.
    pub height: i64,
}

impl Food {
    /// A well-formed rectangle has non-negative extents and far edges
    /// that still fit in a coordinate.
    pub open spec fn wf(self) -> bool {
        &&& 0 <= self.width
        &&& 0 <= self.height
        &&& self.x + self.width <= i64::MAX
        &&& self.y + self.height <= i64::MAX
    }

    /// Whether a position lies strictly inside the rectangle: a position
    /// exactly on any edge is outside.
    pub open spec fn contains(self, px: int, py: int) -> bool {
        &&& self.x < px < self.x + self.width
        &&& self.y < py < self.y + self.height
    }

    /// Builds the food collection from `(x, y, width, height)` tuples, in
    /// order, one rectangle per tuple.
    pub fn spawn(locations: Vec<(i64, i64, i64, i64)>) -> (food: Vec<Food>)
        requires
            forall|i: int|
                0 <= i < locations@.len() ==> tuple_wf(#[trigger] locations@[i]),
        ensures
            food@.len() == locations@.len(),
            forall|i: int|
                0 <= i < food@.len() ==> #[trigger] food@[i] == (Food {
                    x: locations@[i].0,
                    y: locations@[i].1,
                    width: locations@[i].2,
                    height: locations@[i].3,
                }),
            forall|i: int| 0 <= i < food@.len() ==> (#[trigger] food@[i]).wf(),
    {
        let mut food: Vec<Food> = Vec::new();
        let mut i: usize = 0;
        while i < locations.len()
            invariant
                i <= locations@.len(),
                food@.len() == i,
                forall|k: int|
                    0 <= k < locations@.len() ==> tuple_wf(#[trigger] locations@[k]),
                forall|k: int|
                    0 <= k < i ==> #[trigger] food@[k] == (Food {
                        x: locations@[k].0,
                        y: locations@[k].1,
                        width: locations@[k].2,
                        height: locations@[k].3,
                    }),
                forall|k: int| 0 <= k < i ==> (#[trigger] food@[k]).wf(),
            decreases locations@.len() - i,
        {
            let loc = locations[i];
            food.push(Food { x: loc.0, y: loc.1, width: loc.2, height: loc.3 });
            i += 1;
        }
        food
    }

    /// Runtime form of [`Food::contains`]: true exactly when the position
    /// lies strictly inside the rectangle.
    pub fn overlaps(&self, px: i64, py: i64) -> (r: bool)
        requires
            self.wf(),
        ensures
            r == self.contains(px as int, py as int),
    {
        self.x < px && px < self.x + self.width && self.y < py && py < self.y + self.height
    }
}

/// The well-formedness of a `(x, y, width, height)` tuple handed to
/// [`Food::spawn`]: the rectangle it describes must be well-formed.
pub open spec fn tuple_wf(loc: (i64, i64, i64, i64)) -> bool {
    &&& 0 <= loc.2
    &&& 0 <= loc.3
    &&& loc.0 + loc.2 <= i64::MAX
    &&& loc.1 + loc.3 <= i64::MAX
}

/// Whether a position lies strictly inside any rectangle of a food
/// collection.
pub open spec fn touches_food(px: int, py: int, food: Seq<Food>) -> bool {
    exists|j: int| 0 <= j < food.len() && (#[trigger] food[j]).contains(px, py)
}

/// A position exactly on a rectangle's left edge is never inside it:
/// overlap is strict on every edge.
pub proof fn lemma_edge_is_outside(f: Food, py: int)
    ensures
        !f.contains(f.x as int, py),
        !f.contains(f.x + f.width, py),
{
}

} // verus!

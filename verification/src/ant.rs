//! Agents ("ants") and their per-tick Step algorithm: advance along the
//! current heading, sense the eight neighboring grid cells for a trail,
//! and either turn toward the first signal found or turn by a random
//! amount. Positions are fixed-point integers in thousandths of a grid
//! cell; headings are whole degrees in `[0, 360)`.

use vstd::prelude::*;

use crate::pheromones::grid_height;
use crate::pheromones::grid_width;
use crate::pheromones::Pheromones;
use crate::pheromones::PheromoneTypes;
use crate::trig::cos_milli;
use crate::trig::cos_milli_exec;
use crate::trig::lemma_trig_bounds;
use crate::trig::sin_milli;
use crate::trig::sin_milli_exec;
use crate::MILLIS_PER_CELL;

verus! {

/// How far an agent moves each step, in grid cells.
pub const STEP_SIZE: i64 = 5;

/// Largest magnitude of a random heading change, in degrees: a turn is
/// drawn from `[-HEADING_CHANGE, HEADING_CHANGE]`.
pub const HEADING_CHANGE: i64 = 60;

/// How far from the spawn center an agent may start, in position units,
/// when the caller gives no spread of its own.
pub const DEFAULT_SPREAD: i64 = 20000;

/// One agent: a position, a heading, and a one-way carrying flag.
#[derive(Clone, Copy, Debug, PartialEq, Eq, Structural)]
pub struct Ant {
    /// Horizontal position, in thousandths of a cell.
    pub x: i64,
    /// Vertical position, in thousandths of a cell; larger is lower.
    pub y: i64,
    /// Direction of travel, in whole degrees in `[0, 360)`.
    pub heading: i64,
    /// Whether the agent has ever touched food; never cleared.
    pub carrying: bool,
}

/// How far a step moves an agent horizontally: the step length times the
/// scaled cosine of the heading, which is already a count of position
/// units because the trigonometric scale equals the units per cell.
pub open spec fn step_dx(h: int) -> int
    recommends
        0 <= h < 360,
{
    STEP_SIZE * cos_milli(h)
}

/// How far a step moves an agent vertically: minus the step length times
/// the scaled sine, because the vertical axis grows downward.
pub open spec fn step_dy(h: int) -> int
    recommends
        0 <= h < 360,
{
    -STEP_SIZE * sin_milli(h)
}

/// Addition of a bounded displacement to a coordinate, saturating at the
/// ends of the coordinate range instead of wrapping.
pub open spec fn sat_add(a: int, d: int) -> int {
    if a + d > i64::MAX {
        i64::MAX as int
    } else if a + d < i64::MIN {
        i64::MIN as int
    } else {
        a + d
    }
}

/// Whether the neighbor cell one offset step away from a fixed-point
/// position is inside the grid and holds a trail marker. The neighbor is
/// looked at one whole cell away, and positions past the last whole cell
/// boundary count as outside, so sensing never reads beyond the grid.
pub open spec fn offset_signal(
    g: Seq<Seq<PheromoneTypes>>,
    x: int,
    y: int,
    ox: int,
    oy: int,
) -> bool {
    let nx = x + ox * (MILLIS_PER_CELL as int);
    let ny = y + oy * (MILLIS_PER_CELL as int);
    &&& 0 <= nx <= (grid_width(g) - 1) * (MILLIS_PER_CELL as int)
    &&& 0 <= ny <= (grid_height(g) - 1) * (MILLIS_PER_CELL as int)
    &&& g[ny / (MILLIS_PER_CELL as int)][nx / (MILLIS_PER_CELL as int)]
        != PheromoneTypes::Empty
}

/// The eight compass neighbors in their fixed priority order, each with
/// the heading that points toward it. The first offset whose cell holds
/// a trail wins; both trail kinds count the same.
pub open spec fn sensed_heading(g: Seq<Seq<PheromoneTypes>>, x: int, y: int) -> Option<int> {
    if offset_signal(g, x, y, -1, -1) {
        Option::Some(135int)
    } else if offset_signal(g, x, y, 0, -1) {
        Option::Some(90int)
    } else if offset_signal(g, x, y, 1, -1) {
        Option::Some(45int)
    } else if offset_signal(g, x, y, 1, 0) {
        Option::Some(0int)
    } else if offset_signal(g, x, y, 1, 1) {
        Option::Some(315int)
    } else if offset_signal(g, x, y, 0, 1) {
        Option::Some(270int)
    } else if offset_signal(g, x, y, -1, 1) {
        Option::Some(225int)
    } else if offset_signal(g, x, y, -1, 0) {
        Option::Some(180int)
    } else {
        Option::None
    }
}

/// The turn delta a raw random value yields: a degree count in
/// `[-HEADING_CHANGE, HEADING_CHANGE]`.
pub open spec fn turn_delta(turn: u64) -> int {
    turn as int % (2 * (HEADING_CHANGE as int) + 1) - HEADING_CHANGE as int
}

/// The heading an agent leaves a step with, given the grid and the
/// agent's post-advance position: the first sensed compass heading if
/// any neighbor holds a trail, otherwise the old heading turned by the
/// random delta and wrapped into `[0, 360)`.
pub open spec fn stepped_heading(
    g: Seq<Seq<PheromoneTypes>>,
    x: int,
    y: int,
    heading: int,
    turn: u64,
) -> int {
    match sensed_heading(g, x, y) {
        Option::Some(c) => c,
        Option::None => (heading + turn_delta(turn)) % 360,
    }
}

/// What may hold of a heading once a step at the given post-advance
/// position has turned it: a sensed trail fixes the heading to the
/// sensed compass heading exactly; with no signal the old heading moves
/// by at most the fixed turn range and wraps into `[0, 360)`.
#[verifier::opaque]
pub open spec fn heading_outcome_ok(
    g: Seq<Seq<PheromoneTypes>>,
    x: int,
    y: int,
    h_old: int,
    h_new: int,
) -> bool {
    match sensed_heading(g, x, y) {
        Option::Some(c) => h_new == c,
        Option::None => exists|d: int|
            -HEADING_CHANGE <= d <= HEADING_CHANGE && h_new == #[trigger] ((h_old + d) % 360),
    }
}

/// Relies on `rand::random` with the standard distribution on `u64`:
/// each call returns some `u64`, and nothing is assumed of the value.
#[verifier::external_body]
fn random_u64() -> u64 {
    rand::random::<u64>()
}

impl Ant {
    /// A well-formed agent's heading is a whole degree in `[0, 360)`.
    pub open spec fn wf(self) -> bool {
        0 <= self.heading < 360
    }

    /// One agent at the given position, not carrying, with a random
    /// heading.
    pub fn new(x: i64, y: i64) -> (a: Ant)
        ensures
            a.wf(),
            a.x == x,
            a.y == y,
            !a.carrying,
    {
        let r = random_u64();
        Ant { x, y, heading: (r % 360) as i64, carrying: false }
    }

    /// A batch of agents scattered near a center: each starts within
    /// `spread` position units to the right of and below the center
    /// (the default spread when none is given), carries nothing, and
    /// faces a random whole-degree heading. A non-positive count yields
    /// an empty batch.
    pub fn spawn(count: i32, center_x: i64, center_y: i64, spread: Option<i64>) -> (ants: Vec<
        Ant,
    >)
        requires
            spread matches Some(s) ==> 0 < s,
            center_x + spread_of(spread) <= i64::MAX,
            center_y + spread_of(spread) <= i64::MAX,
        ensures
            ants@.len() == if count > 0 {
                count as int
            } else {
                0
            },
            forall|i: int|
                0 <= i < ants@.len() ==> {
                    &&& (#[trigger] ants@[i]).wf()
                    &&& !ants@[i].carrying
                    &&& center_x <= ants@[i].x < center_x + spread_of(spread)
                    &&& center_y <= ants@[i].y < center_y + spread_of(spread)
                },
    {
        let spread_val: i64 = match spread {
            Some(val) => val,
            None => DEFAULT_SPREAD,
        };
        let mut ant_group: Vec<Ant> = Vec::new();
        if count <= 0 {
            return ant_group;
        }
        let n = count as usize;
        let mut i: usize = 0;
        while i < n
            invariant
                i <= n,
                0 < spread_val,
                spread_val == spread_of(spread),
                center_x + spread_val <= i64::MAX,
                center_y + spread_val <= i64::MAX,
                ant_group@.len() == i,
                forall|k: int|
                    0 <= k < i ==> {
                        &&& (#[trigger] ant_group@[k]).wf()
                        &&& !ant_group@[k].carrying
                        &&& center_x <= ant_group@[k].x < center_x + spread_val
                        &&& center_y <= ant_group@[k].y < center_y + spread_val
                    },
            decreases n - i,
        {
            let off_x = (random_u64() % (spread_val as u64)) as i64;
            let off_y = (random_u64() % (spread_val as u64)) as i64;
            let heading = (random_u64() % 360) as i64;
            ant_group.push(
                Ant { x: center_x + off_x, y: center_y + off_y, heading, carrying: false },
            );
            i += 1;
        }
        ant_group
    }

    /// One step with an explicit random value, so outcomes are
    /// reproducible: the agent advances one step length along its old
    /// heading (saturating at the coordinate range's ends), keeps its
    /// carrying flag, and turns toward the first sensed trail or else by
    /// the delta the random value yields. The grid is only read.
    pub fn step_with(&mut self, pheromones: &Pheromones, turn: u64)
        requires
            old(self).wf(),
            pheromones.wf(),
        ensures
            final(self).wf(),
            final(self).x == sat_add(old(self).x as int, step_dx(old(self).heading as int)),
            final(self).y == sat_add(old(self).y as int, step_dy(old(self).heading as int)),
            final(self).carrying == old(self).carrying,
            final(self).heading == stepped_heading(
                pheromones.grid(),
                final(self).x as int,
                final(self).y as int,
                old(self).heading as int,
                turn,
            ),
    {
        proof {
            lemma_trig_bounds(self.heading as int);
        }
        let dx = STEP_SIZE * cos_milli_exec(self.heading);
        let dy = -STEP_SIZE * sin_milli_exec(self.heading);
        self.x = sat_add_exec(self.x, dx);
        self.y = sat_add_exec(self.y, dy);

        let mut new_heading: Option<i64> = Option::None;
        if offset_has_signal(pheromones, self.x, self.y, -1, -1) {
            new_heading = Option::Some(135);
        } else if offset_has_signal(pheromones, self.x, self.y, 0, -1) {
            new_heading = Option::Some(90);
        } else if offset_has_signal(pheromones, self.x, self.y, 1, -1) {
            new_heading = Option::Some(45);
        } else if offset_has_signal(pheromones, self.x, self.y, 1, 0) {
            new_heading = Option::Some(0);
        } else if offset_has_signal(pheromones, self.x, self.y, 1, 1) {
            new_heading = Option::Some(315);
        } else if offset_has_signal(pheromones, self.x, self.y, 0, 1) {
            new_heading = Option::Some(270);
        } else if offset_has_signal(pheromones, self.x, self.y, -1, 1) {
            new_heading = Option::Some(225);
        } else if offset_has_signal(pheromones, self.x, self.y, -1, 0) {
            new_heading = Option::Some(180);
        }
        match new_heading {
            Option::Some(c) => {
                self.heading = c;
            },
            Option::None => {
                let delta = (turn % (2 * HEADING_CHANGE + 1) as u64) as i64 - HEADING_CHANGE;
                let mut h = self.heading + delta;
                if h < 0 {
                    h = h + 360;
                } else if h >= 360 {
                    h = h - 360;
                }
                self.heading = h;
            },
        }
    }

    /// One step as the simulation takes it, drawing the turn delta from
    /// the process-wide random source. The advance and the carrying flag
    /// are exact; when a trail is sensed the new heading is the sensed
    /// compass heading, and otherwise it is the old heading turned by
    /// some delta within the fixed symmetric range.
    pub fn step(&mut self, pheromones: &Pheromones)
        requires
            old(self).wf(),
            pheromones.wf(),
        ensures
            final(self).wf(),
            final(self).x == sat_add(old(self).x as int, step_dx(old(self).heading as int)),
            final(self).y == sat_add(old(self).y as int, step_dy(old(self).heading as int)),
            final(self).carrying == old(self).carrying,
            heading_outcome_ok(
                pheromones.grid(),
                final(self).x as int,
                final(self).y as int,
                old(self).heading as int,
                final(self).heading as int,
            ),
    {
        let turn = random_u64();
        self.step_with(pheromones, turn);
        proof {
            reveal(heading_outcome_ok);
            if sensed_heading(pheromones.grid(), self.x as int, self.y as int) is None {
                let d = turn_delta(turn);
                assert(-HEADING_CHANGE <= d <= HEADING_CHANGE);
                assert(self.heading == (old(self).heading + d) % 360);
            }
        }
    }
}

/// Saturating addition of a bounded displacement.
fn sat_add_exec(a: i64, d: i64) -> (r: i64)
    requires
        -(STEP_SIZE * MILLIS_PER_CELL) <= d <= STEP_SIZE * MILLIS_PER_CELL,
    ensures
        r == sat_add(a as int, d as int),
{
    if d >= 0 {
        if a <= i64::MAX - d {
            a + d
        } else {
            i64::MAX
        }
    } else {
        if a >= i64::MIN - d {
            a + d
        } else {
            i64::MIN
        }
    }
}

/// Runtime form of [`offset_signal`] for one compass offset.
fn offset_has_signal(ph: &Pheromones, x: i64, y: i64, ox: i64, oy: i64) -> (r: bool)
    requires
        ph.wf(),
        -1 <= ox <= 1,
        -1 <= oy <= 1,
    ensures
        r == offset_signal(ph.grid(), x as int, y as int, ox as int, oy as int),
{
    let width = ph.location[0].len() as i64;
    let height = ph.location.len() as i64;
    proof {
        assert(ph.location@.len() == ph.grid().len());
        assert(ph.location@[0]@ == ph.grid()[0]);
        assert(width == ph.width());
        assert(height == ph.height());
    }
    let lo_x = -ox * MILLIS_PER_CELL;
    let hi_x = (width - 1) * MILLIS_PER_CELL - ox * MILLIS_PER_CELL;
    if x < lo_x || x > hi_x {
        return false;
    }
    let lo_y = -oy * MILLIS_PER_CELL;
    let hi_y = (height - 1) * MILLIS_PER_CELL - oy * MILLIS_PER_CELL;
    if y < lo_y || y > hi_y {
        return false;
    }
    let nx = x + ox * MILLIS_PER_CELL;
    let ny = y + oy * MILLIS_PER_CELL;
    let cx = ((nx as u64) / (MILLIS_PER_CELL as u64)) as usize;
    let cy = ((ny as u64) / (MILLIS_PER_CELL as u64)) as usize;
    proof {
        let m = MILLIS_PER_CELL as int;
        let nxg = nx as int;
        let nyg = ny as int;
        let w = ph.width();
        let h = ph.height();
        assert(nxg / m <= w - 1) by (nonlinear_arith)
            requires
                0 <= nxg,
                nxg <= (w - 1) * m,
                m == 1000,
        ;
        assert(nyg / m <= h - 1) by (nonlinear_arith)
            requires
                0 <= nyg,
                nyg <= (h - 1) * m,
                m == 1000,
        ;
        assert(cx < ph.width());
        assert(cy < ph.height());
        assert(ph.location@[cy as int]@ == ph.grid()[cy as int]);
    }
    match ph.location[cy][cx] {
        PheromoneTypes::Empty => false,
        PheromoneTypes::ToFood => true,
        PheromoneTypes::ToHome => true,
    }
}

/// Whether an offset pair is one of the eight compass neighbors.
pub open spec fn is_compass_offset(ox: int, oy: int) -> bool {
    -1 <= ox <= 1 && -1 <= oy <= 1 && !(ox == 0 && oy == 0)
}

/// The heading that points toward a compass neighbor, as the sensing
/// scan associates them: up is toward smaller vertical positions.
pub open spec fn compass_heading(ox: int, oy: int) -> int
    recommends
        is_compass_offset(ox, oy),
{
    if ox == -1 && oy == -1 {
        135
    } else if ox == 0 && oy == -1 {
        90
    } else if ox == 1 && oy == -1 {
        45
    } else if ox == 1 && oy == 0 {
        0
    } else if ox == 1 && oy == 1 {
        315
    } else if ox == 0 && oy == 1 {
        270
    } else {
        if ox == -1 && oy == 1 {
            225
        } else {
            180
        }
    }
}

/// A trail at one reachable compass neighbor, with every other neighbor
/// silent, always steers the scan to that neighbor's heading: the sensed
/// heading is exactly the one the offset is associated with, whatever
/// the trail's kind and whatever random turn would otherwise apply.
pub proof fn lemma_lone_signal_wins(
    g: Seq<Seq<PheromoneTypes>>,
    x: int,
    y: int,
    ox: int,
    oy: int,
)
    requires
        is_compass_offset(ox, oy),
        offset_signal(g, x, y, ox, oy),
        forall|px: int, py: int|
            is_compass_offset(px, py) && !(px == ox && py == oy) ==> !#[trigger] offset_signal(
                g,
                x,
                y,
                px,
                py,
            ),
    ensures
        sensed_heading(g, x, y) == Option::Some(compass_heading(ox, oy)),
{
}

/// At the four cardinal headings the advance vector is exact: one step
/// length straight along an axis, with the vertical axis growing
/// downward.
pub proof fn lemma_cardinal_directions()
    ensures
        step_dx(0) == STEP_SIZE * MILLIS_PER_CELL && step_dy(0) == 0,
        step_dx(90) == 0 && step_dy(90) == -STEP_SIZE * MILLIS_PER_CELL,
        step_dx(180) == -STEP_SIZE * MILLIS_PER_CELL && step_dy(180) == 0,
        step_dx(270) == 0 && step_dy(270) == STEP_SIZE * MILLIS_PER_CELL,
{
}

/// The spread a spawn call works with: the caller's when one was given,
/// otherwise the default.
pub open spec fn spread_of(spread: Option<i64>) -> int {
    match spread {
        Option::Some(s) => s as int,
        Option::None => DEFAULT_SPREAD as int,
    }
}

} // verus!

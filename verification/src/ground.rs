//! The simulation root ("Ground"): the agent population, the food
//! rectangles and the pheromone grid, driven by discrete ticks. One tick
//! steps every agent in collection order, tests food overlap on the new
//! position, and writes the agent's trail mark into the grid, so marks
//! laid by earlier agents are sensed by later agents of the same tick.

use vstd::prelude::*;

use crate::ant::heading_outcome_ok;
use crate::ant::sat_add;
use crate::ant::spread_of;
use crate::ant::step_dx;
use crate::ant::step_dy;
use crate::ant::Ant;
use crate::food::touches_food;
use crate::food::tuple_wf;
use crate::food::Food;
use crate::pheromones::cell_index;
use crate::pheromones::trail_kind;
use crate::pheromones::write_cell;
use crate::pheromones::PheromoneTypes;
use crate::pheromones::Pheromones;
use crate::SetupError;

verus! {

/// The horizontal position an agent's step advances it to.
pub open spec fn advanced_x(a: Ant) -> int {
    sat_add(a.x as int, step_dx(a.heading as int))
}

/// The vertical position an agent's step advances it to.
pub open spec fn advanced_y(a: Ant) -> int {
    sat_add(a.y as int, step_dy(a.heading as int))
}

/// Whether an agent carries food once this tick's overlap test has run:
/// it already carried, or its post-step position lies strictly inside
/// some food rectangle. Carrying is never taken away.
pub open spec fn carrying_after(a: Ant, food: Seq<Food>) -> bool {
    a.carrying || touches_food(advanced_x(a), advanced_y(a), food)
}

/// The grid after one agent's tick mark: the cell under its post-step
/// position (clamped to the grid) receives `ToFood` when the agent now
/// carries, `ToHome` otherwise.
pub open spec fn tick_mark(
    g: Seq<Seq<PheromoneTypes>>,
    a: Ant,
    food: Seq<Food>,
    w: int,
    h: int,
) -> Seq<Seq<PheromoneTypes>> {
    write_cell(
        g,
        cell_index(advanced_x(a), w),
        cell_index(advanced_y(a), h),
        trail_kind(carrying_after(a, food)),
    )
}

/// The grid after a whole tick: every agent's mark applied in collection
/// order, so a later agent's mark overwrites an earlier one on the same
/// cell.
pub open spec fn grid_after_tick(
    g: Seq<Seq<PheromoneTypes>>,
    ants: Seq<Ant>,
    food: Seq<Food>,
    w: int,
    h: int,
) -> Seq<Seq<PheromoneTypes>>
    decreases ants.len(),
{
    if ants.len() == 0 {
        g
    } else {
        tick_mark(grid_after_tick(g, ants.drop_last(), food, w, h), ants.last(), food, w, h)
    }
}

/// A tick's fold preserves the grid's shape: as many rows as before,
/// each as wide as before.
proof fn lemma_grid_after_tick_dims(
    g: Seq<Seq<PheromoneTypes>>,
    ants: Seq<Ant>,
    food: Seq<Food>,
    w: int,
    h: int,
)
    requires
        0 < w,
        0 < h,
        g.len() == h,
        forall|r: int| 0 <= r < h ==> (#[trigger] g[r]).len() == w,
    ensures
        grid_after_tick(g, ants, food, w, h).len() == h,
        forall|r: int|
            0 <= r < h ==> (#[trigger] grid_after_tick(g, ants, food, w, h)[r]).len() == w,
    decreases ants.len(),
{
    if ants.len() > 0 {
        lemma_grid_after_tick_dims(g, ants.drop_last(), food, w, h);
        let a = ants.last();
        crate::pheromones::lemma_cell_index_in_range(advanced_x(a), w);
        crate::pheromones::lemma_cell_index_in_range(advanced_y(a), h);
    }
}

/// A tick's marks are the only changes: any cell whose marker differs
/// from its pre-tick marker is the mark cell of some agent, so one tick
/// changes at most as many cells as there are agents.
pub proof fn lemma_tick_changes_only_mark_cells(
    g: Seq<Seq<PheromoneTypes>>,
    ants: Seq<Ant>,
    food: Seq<Food>,
    w: int,
    h: int,
    x: int,
    y: int,
)
    requires
        0 < w,
        0 < h,
        g.len() == h,
        forall|r: int| 0 <= r < h ==> (#[trigger] g[r]).len() == w,
        0 <= x < w,
        0 <= y < h,
        grid_after_tick(g, ants, food, w, h)[y][x] != g[y][x],
    ensures
        exists|i: int|
            0 <= i < ants.len() && x == cell_index(advanced_x(#[trigger] ants[i]), w) && y
                == cell_index(advanced_y(ants[i]), h),
    decreases ants.len(),
{
    let a = ants.last();
    let prev = grid_after_tick(g, ants.drop_last(), food, w, h);
    let cx = cell_index(advanced_x(a), w);
    let cy = cell_index(advanced_y(a), h);
    lemma_grid_after_tick_dims(g, ants.drop_last(), food, w, h);
    crate::pheromones::lemma_cell_index_in_range(advanced_x(a), w);
    crate::pheromones::lemma_cell_index_in_range(advanced_y(a), h);
    if x == cx && y == cy {
        assert(ants.last() == ants[ants.len() - 1]);
    } else {
        assert(grid_after_tick(g, ants, food, w, h)[y][x] == prev[y][x]);
        lemma_tick_changes_only_mark_cells(g, ants.drop_last(), food, w, h, x, y);
        let i = choose|i: int|
            0 <= i < ants.drop_last().len() && x == cell_index(
                advanced_x(#[trigger] ants.drop_last()[i]),
                w,
            ) && y == cell_index(advanced_y(ants.drop_last()[i]), h);
        assert(ants.drop_last()[i] == ants[i]);
    }
}

/// Every agent's mark cell holds a trail once the tick's fold has run:
/// a mark is never the empty marker, and whichever agent wrote that cell
/// last wrote a trail. Together with the lemma above, the cells holding
/// a trail after a tick are exactly those that held one before plus the
/// agents' mark cells.
pub proof fn lemma_mark_cells_hold_trails(
    g: Seq<Seq<PheromoneTypes>>,
    ants: Seq<Ant>,
    food: Seq<Food>,
    w: int,
    h: int,
    i: int,
)
    requires
        0 < w,
        0 < h,
        g.len() == h,
        forall|r: int| 0 <= r < h ==> (#[trigger] g[r]).len() == w,
        0 <= i < ants.len(),
    ensures
        grid_after_tick(g, ants, food, w, h)[cell_index(advanced_y(ants[i]), h)][cell_index(
            advanced_x(ants[i]),
            w,
        )] != PheromoneTypes::Empty,
    decreases ants.len(),
{
    let a = ants.last();
    let prev = grid_after_tick(g, ants.drop_last(), food, w, h);
    let cx = cell_index(advanced_x(a), w);
    let cy = cell_index(advanced_y(a), h);
    lemma_grid_after_tick_dims(g, ants.drop_last(), food, w, h);
    crate::pheromones::lemma_cell_index_in_range(advanced_x(a), w);
    crate::pheromones::lemma_cell_index_in_range(advanced_y(a), h);
    if i == ants.len() - 1 {
        assert(ants[i] == a);
    } else {
        lemma_mark_cells_hold_trails(g, ants.drop_last(), food, w, h, i);
        assert(ants.drop_last()[i] == ants[i]);
        let xi = cell_index(advanced_x(ants[i]), w);
        let yi = cell_index(advanced_y(ants[i]), h);
        crate::pheromones::lemma_cell_index_in_range(advanced_x(ants[i]), w);
        crate::pheromones::lemma_cell_index_in_range(advanced_y(ants[i]), h);
        if xi == cx && yi == cy {
            assert(grid_after_tick(g, ants, food, w, h)[yi][xi] == trail_kind(
                carrying_after(a, food),
            ));
        } else {
            assert(grid_after_tick(g, ants, food, w, h)[yi][xi] == prev[yi][xi]);
        }
    }
}

/// The composition root of one simulation run.
#[derive(Debug)]
pub struct Ground {
    /// Whether the run is active; the driver may pause it.
    pub running: bool,
    /// The agent population, stepped in order each tick.
    pub ants: Vec<Ant>,
    /// The food rectangles, immutable after construction.
    pub food: Vec<Food>,
    /// The shared trail grid.
    pub pheromones: Pheromones,
}

impl Ground {
    /// A well-formed simulation has a well-formed grid, and every agent
    /// and food rectangle well-formed.
    pub open spec fn wf(self) -> bool {
        &&& self.pheromones.wf()
        &&& forall|i: int| 0 <= i < self.ants@.len() ==> (#[trigger] self.ants@[i]).wf()
        &&& forall|j: int| 0 <= j < self.food@.len() ==> (#[trigger] self.food@[j]).wf()
    }

    /// Sets a run up: an empty grid of the given size, a batch of agents
    /// scattered around the center, and the food rectangles, in order.
    /// Fails exactly on a zero grid dimension or an empty population;
    /// the dimension error takes precedence.
    pub fn new(
        size: (u32, u32),
        ant_count: i32,
        center_x: i64,
        center_y: i64,
        spread: Option<i64>,
        food_locations: Vec<(i64, i64, i64, i64)>,
    ) -> (r: Result<Ground, SetupError>)
        requires
            spread matches Some(s) ==> 0 < s,
            center_x + spread_of(spread) <= i64::MAX,
            center_y + spread_of(spread) <= i64::MAX,
            forall|i: int|
                0 <= i < food_locations@.len() ==> tuple_wf(#[trigger] food_locations@[i]),
        ensures
            r is Ok <==> (size.0 > 0 && size.1 > 0 && ant_count > 0),
            r matches Ok(g) ==> {
                &&& g.wf()
                &&& g.running
                &&& g.ants@.len() == ant_count
                &&& forall|i: int| 0 <= i < g.ants@.len() ==> !(#[trigger] g.ants@[i]).carrying
                &&& g.food@.len() == food_locations@.len()
                &&& g.pheromones.width() == size.0
                &&& g.pheromones.height() == size.1
                &&& forall|x: int, y: int|
                    g.pheromones.in_bounds(x, y) ==> g.pheromones.cell(x, y)
                        == PheromoneTypes::Empty
            },
            (size.0 == 0 || size.1 == 0) ==> r == Result::<Ground, SetupError>::Err(
                SetupError::ZeroGridDimension,
            ),
            size.0 > 0 && size.1 > 0 && ant_count <= 0 ==> r == Result::<Ground, SetupError>::Err(
                SetupError::EmptyPopulation,
            ),
    {
        let pheromones = match Pheromones::new(size) {
            Ok(p) => p,
            Err(e) => {
                return Err(e);
            },
        };
        if ant_count <= 0 {
            return Err(SetupError::EmptyPopulation);
        }
        let ants = Ant::spawn(ant_count, center_x, center_y, spread);
        let food = Food::spawn(food_locations);
        Ok(Ground { running: true, ants, food, pheromones })
    }

    /// One discrete tick. Every agent, in collection order: it steps
    /// (position advance exact, heading possibly random), its carrying
    /// flag is set if its new position lies strictly inside some food
    /// rectangle, and its trail mark is written into the grid. The grid
    /// afterward is exactly the in-order fold of the agents' marks, and
    /// an agent that carried keeps carrying.
    #[verifier::rlimit(60)]
    pub fn tick(&mut self)
        requires
            old(self).wf(),
        ensures
            final(self).wf(),
            final(self).running == old(self).running,
            final(self).food == old(self).food,
            final(self).ants@.len() == old(self).ants@.len(),
            final(self).pheromones.width() == old(self).pheromones.width(),
            final(self).pheromones.height() == old(self).pheromones.height(),
            forall|i: int|
                0 <= i < old(self).ants@.len() ==> {
                    &&& (#[trigger] final(self).ants@[i]).x == advanced_x(old(self).ants@[i])
                    &&& final(self).ants@[i].y == advanced_y(old(self).ants@[i])
                    &&& final(self).ants@[i].carrying == carrying_after(
                        old(self).ants@[i],
                        old(self).food@,
                    )
                },
            forall|i: int|
                0 <= i < old(self).ants@.len() && old(self).ants@[i].carrying ==> (
                #[trigger] final(self).ants@[i]).carrying,
            forall|i: int|
                0 <= i < old(self).ants@.len() ==> heading_outcome_ok(
                    grid_after_tick(
                        old(self).pheromones.grid(),
                        old(self).ants@.take(i),
                        old(self).food@,
                        old(self).pheromones.width(),
                        old(self).pheromones.height(),
                    ),
                    advanced_x(#[trigger] old(self).ants@[i]),
                    advanced_y(old(self).ants@[i]),
                    old(self).ants@[i].heading as int,
                    final(self).ants@[i].heading as int,
                ),
            final(self).pheromones.grid() == grid_after_tick(
                old(self).pheromones.grid(),
                old(self).ants@,
                old(self).food@,
                old(self).pheromones.width(),
                old(self).pheromones.height(),
            ),
    {
        let ghost w = old(self).pheromones.width();
        let ghost h = old(self).pheromones.height();
        let n = self.ants.len();
        let mut i: usize = 0;
        while i < n
            invariant
                i <= n,
                n == old(self).ants@.len(),
                self.ants@.len() == n,
                self.food == old(self).food,
                self.running == old(self).running,
                self.pheromones.wf(),
                self.pheromones.width() == w,
                self.pheromones.height() == h,
                w == old(self).pheromones.width(),
                h == old(self).pheromones.height(),
                forall|j: int| 0 <= j < self.food@.len() ==> (#[trigger] self.food@[j]).wf(),
                forall|k: int|
                    0 <= k < n ==> (#[trigger] old(self).ants@[k]).wf(),
                forall|k: int|
                    i <= k < n ==> #[trigger] self.ants@[k] == old(self).ants@[k],
                forall|k: int|
                    0 <= k < i ==> {
                        &&& (#[trigger] self.ants@[k]).wf()
                        &&& self.ants@[k].x == advanced_x(old(self).ants@[k])
                        &&& self.ants@[k].y == advanced_y(old(self).ants@[k])
                        &&& self.ants@[k].carrying == carrying_after(
                            old(self).ants@[k],
                            old(self).food@,
                        )
                    },
                forall|k: int|
                    0 <= k < i ==> heading_outcome_ok(
                        grid_after_tick(
                            old(self).pheromones.grid(),
                            old(self).ants@.take(k),
                            old(self).food@,
                            w,
                            h,
                        ),
                        advanced_x(#[trigger] old(self).ants@[k]),
                        advanced_y(old(self).ants@[k]),
                        old(self).ants@[k].heading as int,
                        self.ants@[k].heading as int,
                    ),
                self.pheromones.grid() == grid_after_tick(
                    old(self).pheromones.grid(),
                    old(self).ants@.take(i as int),
                    old(self).food@,
                    w,
                    h,
                ),
            decreases n - i,
        {
            let mut a = self.ants[i];
            let ghost grid_seen = self.pheromones.grid();
            a.step(&self.pheromones);
            let ghost stepped = a;
            check_food(&mut a, &self.food);
            self.pheromones.update(&a);
            self.ants[i] = a;
            proof {
                assert(grid_seen == grid_after_tick(
                    old(self).pheromones.grid(),
                    old(self).ants@.take(i as int),
                    old(self).food@,
                    w,
                    h,
                ));
                assert(heading_outcome_ok(
                    grid_seen,
                    stepped.x as int,
                    stepped.y as int,
                    old(self).ants@[i as int].heading as int,
                    a.heading as int,
                ));
                let taken = old(self).ants@.take(i + 1);
                assert(taken.drop_last() =~= old(self).ants@.take(i as int));
                assert(taken.last() == old(self).ants@[i as int]);
            }
            i += 1;
        }
        proof {
            assert(old(self).ants@.take(n as int) =~= old(self).ants@);
        }
    }
}

/// This tick's food test for one agent, run on its post-step position:
/// the food rectangles are scanned in order, and the first one the agent
/// lies strictly inside sets the carrying flag and ends the scan. The
/// position and heading stay as they are; carrying is never cleared.
fn check_food(a: &mut Ant, food: &Vec<Food>)
    requires
        forall|j: int| 0 <= j < food@.len() ==> (#[trigger] food@[j]).wf(),
    ensures
        final(a).x == old(a).x,
        final(a).y == old(a).y,
        final(a).heading == old(a).heading,
        final(a).carrying == (old(a).carrying || touches_food(
            old(a).x as int,
            old(a).y as int,
            food@,
        )),
    {
    let mut j: usize = 0;
    while j < food.len()
        invariant
            j <= food@.len(),
            *a == *old(a),
            forall|k: int| 0 <= k < food@.len() ==> (#[trigger] food@[k]).wf(),
            forall|k: int|
                0 <= k < j ==> !(#[trigger] food@[k]).contains(a.x as int, a.y as int),
        decreases food@.len() - j,
    {
        if food[j].overlaps(a.x, a.y) {
            if !a.carrying {
                a.carrying = true;
            }
            proof {
                assert(touches_food(old(a).x as int, old(a).y as int, food@));
            }
            return ;
        }
        j += 1;
    }
    proof {
        assert(!touches_food(old(a).x as int, old(a).y as int, food@));
    }
}

} // verus!

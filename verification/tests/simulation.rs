use anthill::ant::Ant;
use anthill::food::Food;
use anthill::ground::Ground;
use anthill::pheromones::PheromoneTypes;
use anthill::pheromones::Pheromones;
use anthill::SetupError;

fn grid_600() -> Pheromones {
    match Pheromones::new((600, 600)) {
        Ok(p) => p,
        Err(_) => panic!("grid dimensions were valid"),
    }
}

fn count_marked(p: &Pheromones) -> usize {
    let mut n = 0;
    for row in &p.location {
        for cell in row {
            if *cell != PheromoneTypes::Empty {
                n += 1;
            }
        }
    }
    n
}

#[test]
fn food_overlap_is_strict_on_the_edge() {
    let f = Food { x: 100000, y: 100000, width: 40000, height: 40000 };
    assert!(!f.overlaps(100000, 100000));
    assert!(!f.overlaps(100000, 110000));
    assert!(!f.overlaps(110000, 100000));
    assert!(!f.overlaps(140000, 110000));
    assert!(!f.overlaps(110000, 140000));
}

#[test]
fn food_overlap_holds_just_inside_the_edge() {
    let f = Food { x: 100000, y: 100000, width: 40000, height: 40000 };
    // 10 units is a hundredth of a cell beyond the edge.
    assert!(f.overlaps(100010, 110000));
    assert!(f.overlaps(110000, 110000));
    assert!(f.overlaps(139990, 139990));
}

#[test]
fn food_spawn_keeps_order_and_fields() {
    let food = Food::spawn(vec![(0, 0, 10, 10), (100000, 200000, 40000, 50000)]);
    assert_eq!(food.len(), 2);
    assert_eq!(food[1].x, 100000);
    assert_eq!(food[1].y, 200000);
    assert_eq!(food[1].width, 40000);
    assert_eq!(food[1].height, 50000);
}

#[test]
fn ground_new_rejects_zero_grid_dimension() {
    match Ground::new((0, 600), 10, 300000, 300000, None, vec![]) {
        Ok(_) => panic!("zero width must fail"),
        Err(e) => assert_eq!(e, SetupError::ZeroGridDimension),
    }
}

#[test]
fn ground_new_rejects_an_empty_population() {
    match Ground::new((600, 600), 0, 300000, 300000, None, vec![]) {
        Ok(_) => panic!("empty population must fail"),
        Err(e) => assert_eq!(e, SetupError::EmptyPopulation),
    }
}

#[test]
fn ground_new_builds_the_requested_run() {
    let g = match Ground::new(
        (600, 600),
        10,
        300000,
        300000,
        None,
        vec![(100000, 100000, 40000, 40000)],
    ) {
        Ok(g) => g,
        Err(_) => panic!("setup was valid"),
    };
    assert!(g.running);
    assert_eq!(g.ants.len(), 10);
    assert_eq!(g.food.len(), 1);
    assert_eq!(count_marked(&g.pheromones), 0);
    for a in &g.ants {
        assert!(!a.carrying);
    }
}

#[test]
fn tick_advances_and_marks_the_trail() {
    let mut g = Ground {
        running: true,
        ants: vec![Ant { x: 110000, y: 115000, heading: 90, carrying: false }],
        food: vec![],
        pheromones: grid_600(),
    };
    g.tick();
    assert_eq!(g.ants[0].x, 110000);
    assert_eq!(g.ants[0].y, 110000);
    assert!(!g.ants[0].carrying);
    assert_eq!(g.pheromones.sense(110, 110), Some(PheromoneTypes::ToHome));
    assert_eq!(count_marked(&g.pheromones), 1);
}

#[test]
fn tick_picks_food_up_strictly_inside_a_rectangle() {
    let mut g = Ground {
        running: true,
        ants: vec![Ant { x: 110000, y: 115000, heading: 90, carrying: false }],
        food: vec![Food { x: 100000, y: 100000, width: 40000, height: 40000 }],
        pheromones: grid_600(),
    };
    g.tick();
    // The agent lands on (110000, 110000), strictly inside the food.
    assert!(g.ants[0].carrying);
    assert_eq!(g.pheromones.sense(110, 110), Some(PheromoneTypes::ToFood));
}

#[test]
fn tick_leaves_an_agent_on_the_food_edge_empty_handed() {
    let mut g = Ground {
        running: true,
        ants: vec![Ant { x: 100000, y: 105000, heading: 90, carrying: false }],
        food: vec![Food { x: 100000, y: 100000, width: 40000, height: 40000 }],
        pheromones: grid_600(),
    };
    g.tick();
    // The agent lands on (100000, 100000), exactly on the corner.
    assert_eq!(g.ants[0].x, 100000);
    assert_eq!(g.ants[0].y, 100000);
    assert!(!g.ants[0].carrying);
    assert_eq!(g.pheromones.sense(100, 100), Some(PheromoneTypes::ToHome));
}

#[test]
fn carrying_never_resets_over_many_ticks() {
    let mut g = Ground {
        running: true,
        ants: vec![Ant { x: 300000, y: 300000, heading: 45, carrying: true }],
        food: vec![],
        pheromones: grid_600(),
    };
    for _ in 0..100 {
        g.tick();
        assert!(g.ants[0].carrying);
    }
}

#[test]
fn every_agent_that_finds_food_stays_carrying() {
    // Food that covers everything an agent can reach in a few steps, so
    // the whole population picks up on the first tick.
    let g = Ground::new(
        (600, 600),
        10,
        300000,
        300000,
        None,
        vec![(-1000000, -1000000, 3000000, 3000000)],
    );
    let mut g = match g {
        Ok(g) => g,
        Err(_) => panic!("setup was valid"),
    };
    g.tick();
    for a in &g.ants {
        assert!(a.carrying);
    }
    for _ in 0..20 {
        g.tick();
        for a in &g.ants {
            assert!(a.carrying);
        }
    }
}

#[test]
fn full_population_tick_marks_at_most_one_cell_per_agent() {
    let g = Ground::new(
        (600, 600),
        10,
        300000,
        300000,
        None,
        vec![(100000, 100000, 40000, 40000)],
    );
    let mut g = match g {
        Ok(g) => g,
        Err(_) => panic!("setup was valid"),
    };
    g.tick();
    let marked = count_marked(&g.pheromones);
    assert!(1 <= marked && marked <= 10);
    // Over several ticks the count can only grow by at most one cell
    // per agent per tick; collisions overwrite instead of accumulating.
    let mut ticks = 1;
    for _ in 0..5 {
        g.tick();
        ticks += 1;
        let marked = count_marked(&g.pheromones);
        assert!(1 <= marked && marked <= 10 * ticks);
    }
}

#[test]
fn intra_tick_causality_later_agent_senses_earlier_mark() {
    // The first agent lands on (5500, 5500) and marks cell (5, 5); the
    // second lands on (6500, 6500), whose top-left neighbor is that
    // cell, so it must turn to 135 instead of keeping its heading.
    let mut g = Ground {
        running: true,
        ants: vec![
            Ant { x: 5500, y: 10500, heading: 90, carrying: false },
            Ant { x: 6500, y: 11500, heading: 90, carrying: false },
        ],
        food: vec![],
        pheromones: match Pheromones::new((12, 12)) {
            Ok(p) => p,
            Err(_) => panic!("grid dimensions were valid"),
        },
    };
    g.tick();
    assert_eq!(g.ants[1].heading, 135);
}

use anthill::ant::Ant;
use anthill::pheromones::PheromoneTypes;
use anthill::pheromones::Pheromones;
use anthill::SetupError;

fn fresh_grid(w: u32, h: u32) -> Pheromones {
    match Pheromones::new((w, h)) {
        Ok(p) => p,
        Err(_) => panic!("grid dimensions were valid"),
    }
}

#[test]
fn new_grid_has_requested_dimensions_and_is_empty() {
    let p = fresh_grid(7, 4);
    assert_eq!(p.location.len(), 4);
    for row in &p.location {
        assert_eq!(row.len(), 7);
        for cell in row {
            assert_eq!(*cell, PheromoneTypes::Empty);
        }
    }
}

#[test]
fn zero_width_is_refused() {
    match Pheromones::new((0, 5)) {
        Ok(_) => panic!("zero width must fail"),
        Err(e) => assert_eq!(e, SetupError::ZeroGridDimension),
    }
}

#[test]
fn zero_height_is_refused() {
    match Pheromones::new((5, 0)) {
        Ok(_) => panic!("zero height must fail"),
        Err(e) => assert_eq!(e, SetupError::ZeroGridDimension),
    }
}

#[test]
fn mark_then_sense_round_trips_to_home() {
    let mut p = fresh_grid(10, 10);
    p.mark(3, 4, PheromoneTypes::ToHome);
    assert_eq!(p.sense(3, 4), Some(PheromoneTypes::ToHome));
}

#[test]
fn mark_then_sense_round_trips_to_food() {
    let mut p = fresh_grid(10, 10);
    p.mark(9, 0, PheromoneTypes::ToFood);
    assert_eq!(p.sense(9, 0), Some(PheromoneTypes::ToFood));
}

#[test]
fn mark_leaves_other_cells_alone() {
    let mut p = fresh_grid(10, 10);
    p.mark(3, 4, PheromoneTypes::ToHome);
    assert_eq!(p.sense(4, 3), None);
    assert_eq!(p.sense(3, 5), None);
}

#[test]
fn sense_of_empty_cell_is_no_signal() {
    let p = fresh_grid(10, 10);
    assert_eq!(p.sense(0, 0), None);
    assert_eq!(p.sense(9, 9), None);
}

#[test]
fn sense_outside_bounds_is_no_signal() {
    let p = fresh_grid(10, 12);
    assert_eq!(p.sense(-1, 0), None);
    assert_eq!(p.sense(0, -1), None);
    assert_eq!(p.sense(10, 0), None);
    assert_eq!(p.sense(0, 12), None);
    assert_eq!(p.sense(-1, -1), None);
    assert_eq!(p.sense(10, 12), None);
}

#[test]
fn update_marks_to_home_when_not_carrying() {
    let mut p = fresh_grid(10, 10);
    let a = Ant { x: 5500, y: 2500, heading: 0, carrying: false };
    p.update(&a);
    assert_eq!(p.sense(5, 2), Some(PheromoneTypes::ToHome));
}

#[test]
fn update_marks_to_food_when_carrying() {
    let mut p = fresh_grid(10, 10);
    let a = Ant { x: 5500, y: 2500, heading: 0, carrying: true };
    p.update(&a);
    assert_eq!(p.sense(5, 2), Some(PheromoneTypes::ToFood));
}

#[test]
fn update_clamps_positions_outside_the_grid() {
    let mut p = fresh_grid(10, 10);
    let low = Ant { x: -700, y: -1, heading: 0, carrying: false };
    p.update(&low);
    assert_eq!(p.sense(0, 0), Some(PheromoneTypes::ToHome));

    let high = Ant { x: 10000, y: 700000, heading: 0, carrying: true };
    p.update(&high);
    assert_eq!(p.sense(9, 9), Some(PheromoneTypes::ToFood));
}

#[test]
fn update_overwrites_the_previous_mark() {
    let mut p = fresh_grid(10, 10);
    let home = Ant { x: 1500, y: 1500, heading: 0, carrying: false };
    let food = Ant { x: 1500, y: 1500, heading: 0, carrying: true };
    p.update(&home);
    assert_eq!(p.sense(1, 1), Some(PheromoneTypes::ToHome));
    p.update(&food);
    assert_eq!(p.sense(1, 1), Some(PheromoneTypes::ToFood));
}

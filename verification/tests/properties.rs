use mars_rover::agent::{execute, Command, Direction, Rover};
use mars_rover::grid::{Planet, Position};

fn rover_at(x: u8, y: u8, direction: Direction) -> Rover {
    Rover {
        planet: Planet { w: 5, h: 4 },
        position: Position { x, y },
        direction,
    }
}

#[test]
fn position_stays_in_bounds_under_every_command() {
    let commands = [Command::F, Command::B, Command::L, Command::R];
    let mut rover = rover_at(3, 2, Direction::E);
    for round in 0..8 {
        for c in commands {
            rover = execute(rover, c);
            assert!(rover.position.x < rover.planet.w, "round {round}");
            assert!(rover.position.y < rover.planet.h, "round {round}");
        }
    }
}

#[test]
fn execute_is_deterministic() {
    let commands = [Command::F, Command::B, Command::L, Command::R];
    for c in commands {
        let once = execute(rover_at(2, 3, Direction::W), c);
        let twice = execute(rover_at(2, 3, Direction::W), c);
        assert_eq!(once, twice);
    }
}

#[test]
fn four_left_turns_restore_the_rover() {
    let start = rover_at(1, 2, Direction::S);
    let mut rover = start;
    for _ in 0..4 {
        rover = execute(rover, Command::L);
    }
    assert_eq!(start, rover);
}

#[test]
fn four_right_turns_restore_the_rover() {
    let start = rover_at(4, 0, Direction::E);
    let mut rover = start;
    for _ in 0..4 {
        rover = execute(rover, Command::R);
    }
    assert_eq!(start, rover);
}

#[test]
fn left_then_right_is_identity_on_facing() {
    for d in [Direction::N, Direction::E, Direction::S, Direction::W] {
        let start = rover_at(0, 0, d);
        assert_eq!(start, execute(execute(start, Command::L), Command::R));
        assert_eq!(start, execute(execute(start, Command::R), Command::L));
    }
}

#[test]
fn forward_then_backward_restores_the_position() {
    for d in [Direction::N, Direction::E, Direction::S, Direction::W] {
        for x in 0..5u8 {
            for y in 0..4u8 {
                let start = rover_at(x, y, d);
                assert_eq!(start, execute(execute(start, Command::F), Command::B));
                assert_eq!(start, execute(execute(start, Command::B), Command::F));
            }
        }
    }
}

#[test]
fn turns_never_change_the_position() {
    for x in 0..5u8 {
        for y in 0..4u8 {
            let start = rover_at(x, y, Direction::N);
            let left = execute(start, Command::L);
            let right = execute(start, Command::R);
            assert_eq!(start.position, left.position);
            assert_eq!(start.position, right.position);
        }
    }
}

#[test]
fn single_cell_grid_wraps_to_itself() {
    let rover = Rover {
        planet: Planet { w: 1, h: 1 },
        position: Position { x: 0, y: 0 },
        direction: Direction::N,
    };
    for c in [Command::F, Command::B] {
        let moved = execute(rover, c);
        assert_eq!(0, moved.position.x);
        assert_eq!(0, moved.position.y);
    }
}

#[test]
fn construction_rejects_zero_bounds() {
    assert!(Planet::new(0, 4).is_none());
    assert!(Planet::new(5, 0).is_none());
    assert!(Planet::new(0, 0).is_none());
    let planet = Planet::new(5, 4).unwrap();
    assert_eq!(5, planet.w);
    assert_eq!(4, planet.h);
}

#[test]
fn construction_rejects_out_of_bounds_position() {
    let planet = Planet::new(5, 4).unwrap();
    assert!(Position::new(5, 0, &planet).is_none());
    assert!(Position::new(0, 4, &planet).is_none());
    let position = Position::new(4, 3, &planet).unwrap();
    assert_eq!(4, position.x);
    assert_eq!(3, position.y);
    assert!(Rover::new(planet, position, Direction::W).is_some());
    assert!(Rover::new(planet, Position { x: 9, y: 0 }, Direction::W).is_none());
    assert!(Rover::new(Planet { w: 0, h: 4 }, Position { x: 0, y: 0 }, Direction::W).is_none());
}

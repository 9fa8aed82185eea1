//! The rover and its command interpreter: four facings, four commands, and
//! one total transition function from (rover, command) to the next rover.

use crate::grid::Planet;
use crate::grid::Position;
use crate::grid::lemma_wrap_bounds;
use crate::grid::lemma_wrap_inverse;
use vstd::prelude::*;

verus! {

/// A cardinal facing. Turning right follows the order north, east, south,
/// west; turning left follows it backwards.
#[derive(Clone, Copy, PartialEq, Eq, Structural, Debug)]
pub enum Direction {
    N,
    E,
    S,
    W,
}

/// One atomic instruction: move forward, move backward, turn left, or turn
/// right.
#[derive(Clone, Copy, PartialEq, Eq, Structural, Debug)]
pub enum Command {
    F,
    B,
    L,
    R,
}

/// The agent: a planet, a position on it, and a facing. Every command
/// yields a new rover value; nothing is mutated in place.
#[derive(Clone, Copy, PartialEq, Eq, Structural, Debug)]
pub struct Rover {
    pub planet: Planet,
    pub position: Position,
    pub direction: Direction,
}

/// The facing one quarter turn counter-clockwise from `d`.
pub open spec fn left_of(d: Direction) -> Direction {
    match d {
        Direction::N => Direction::W,
        Direction::W => Direction::S,
        Direction::S => Direction::E,
        Direction::E => Direction::N,
    }
}

/// The facing one quarter turn clockwise from `d`.
pub open spec fn right_of(d: Direction) -> Direction {
    match d {
        Direction::N => Direction::E,
        Direction::E => Direction::S,
        Direction::S => Direction::W,
        Direction::W => Direction::N,
    }
}

impl Rover {
    /// A rover is well formed when its planet is and its position lies
    /// inside the planet's bounds.
    pub open spec fn wf(self) -> bool {
        self.planet.wf() && self.position.in_bounds(self.planet)
    }

    /// Builds a rover from explicit parts, rejecting a malformed planet or
    /// an out-of-bounds position at construction time.
    pub fn new(planet: Planet, position: Position, direction: Direction) -> (r: Option<Rover>)
        ensures
            r is Some <==> (Rover { planet, position, direction }).wf(),
            r is Some ==> r->0 == (Rover { planet, position, direction }),
    {
        if planet.w >= 1 && planet.h >= 1 && position.x < planet.w && position.y < planet.h {
            Some(Rover { planet, position, direction })
        } else {
            None
        }
    }
}

/// The rover moved one step ahead, in the direction it faces.
pub open spec fn spec_forward(r: Rover) -> Rover {
    let p = match r.direction {
        Direction::N => r.planet.spec_next_north(r.position),
        Direction::E => r.planet.spec_next_east(r.position),
        Direction::S => r.planet.spec_next_south(r.position),
        Direction::W => r.planet.spec_next_west(r.position),
    };
    Rover { planet: r.planet, position: p, direction: r.direction }
}

/// The rover moved one step back: the step opposite to its facing.
pub open spec fn spec_backward(r: Rover) -> Rover {
    let p = match r.direction {
        Direction::N => r.planet.spec_next_south(r.position),
        Direction::E => r.planet.spec_next_west(r.position),
        Direction::S => r.planet.spec_next_north(r.position),
        Direction::W => r.planet.spec_next_east(r.position),
    };
    Rover { planet: r.planet, position: p, direction: r.direction }
}

/// The rover turned a quarter left: same planet, same position.
pub open spec fn spec_rotate_left(r: Rover) -> Rover {
    Rover { planet: r.planet, position: r.position, direction: left_of(r.direction) }
}

/// The rover turned a quarter right: same planet, same position.
pub open spec fn spec_rotate_right(r: Rover) -> Rover {
    Rover { planet: r.planet, position: r.position, direction: right_of(r.direction) }
}

/// The next state of `r` under command `c`: the full transition function.
pub open spec fn spec_execute(r: Rover, c: Command) -> Rover {
    match c {
        Command::F => spec_forward(r),
        Command::B => spec_backward(r),
        Command::L => spec_rotate_left(r),
        Command::R => spec_rotate_right(r),
    }
}

/// Interprets one command: dispatches to the move or turn it names.
pub fn execute(rover: Rover, command: Command) -> (r: Rover)
    requires
        rover.wf(),
    ensures
        r == spec_execute(rover, command),
        r.wf(),
{
    match command {
        Command::F => forward(rover),
        Command::B => backward(rover),
        Command::L => rotate_left(rover),
        Command::R => rotate_right(rover),
    }
}

/// Moves the rover one step in the direction it faces, wrapping at the
/// grid's edges. The facing is unchanged.
pub fn forward(rover: Rover) -> (r: Rover)
    requires
        rover.wf(),
    ensures
        r == spec_forward(rover),
        r.wf(),
        r.direction == rover.direction,
        r.planet == rover.planet,
{
    let new_position = match rover.direction {
        Direction::N => rover.planet.next_north(rover.position),
        Direction::E => rover.planet.next_east(rover.position),
        Direction::S => rover.planet.next_south(rover.position),
        Direction::W => rover.planet.next_west(rover.position),
    };

    Rover { planet: rover.planet, position: new_position, direction: rover.direction }
}

/// Moves the rover one step opposite to the direction it faces, wrapping at
/// the grid's edges. The facing is unchanged.
pub fn backward(rover: Rover) -> (r: Rover)
    requires
        rover.wf(),
    ensures
        r == spec_backward(rover),
        r.wf(),
        r.direction == rover.direction,
        r.planet == rover.planet,
{
    let new_position = match rover.direction {
        Direction::N => rover.planet.next_south(rover.position),
        Direction::E => rover.planet.next_west(rover.position),
        Direction::S => rover.planet.next_north(rover.position),
        Direction::W => rover.planet.next_east(rover.position),
    };

    Rover { planet: rover.planet, position: new_position, direction: rover.direction }
}

/// Turns the rover a quarter counter-clockwise. The position never changes,
/// whatever it is.
pub fn rotate_left(rover: Rover) -> (r: Rover)
    ensures
        r == spec_rotate_left(rover),
        r.position == rover.position,
        r.planet == rover.planet,
{
    let new_direction = match rover.direction {
        Direction::N => Direction::W,
        Direction::E => Direction::N,
        Direction::S => Direction::E,
        Direction::W => Direction::S,
    };

    Rover { planet: rover.planet, position: rover.position, direction: new_direction }
}

/// Turns the rover a quarter clockwise. The position never changes,
/// whatever it is.
pub fn rotate_right(rover: Rover) -> (r: Rover)
    ensures
        r == spec_rotate_right(rover),
        r.position == rover.position,
        r.planet == rover.planet,
{
    let new_direction = match rover.direction {
        Direction::N => Direction::E,
        Direction::E => Direction::S,
        Direction::S => Direction::W,
        Direction::W => Direction::N,
    };

    Rover { planet: rover.planet, position: rover.position, direction: new_direction }
}

/// Builds the default rover: a 5-by-4 planet, the origin, facing north.
pub fn create_rover() -> (r: Rover)
    ensures
        r == (Rover {
            planet: Planet { w: 5u8, h: 4u8 },
            position: Position { x: 0u8, y: 0u8 },
            direction: Direction::N,
        }),
        r.wf(),
{
    let planet = Planet { w: 5, h: 4 };
    let starting_position = Position { x: 0, y: 0 };
    let direction = Direction::N;

    let rover = Rover { planet, position: starting_position, direction };

    rover
}

/// Closure: every command carries a valid rover to a valid rover, so the
/// position stays inside the grid's bounds forever.
pub proof fn lemma_execute_preserves_wf(r: Rover, c: Command)
    requires
        r.wf(),
    ensures
        spec_execute(r, c).wf(),
{
    lemma_wrap_bounds(r.position.x, r.planet.w);
    lemma_wrap_bounds(r.position.y, r.planet.h);
}

/// Determinism: the transition is a function, so equal rovers and equal
/// commands yield equal results.
pub proof fn lemma_execute_deterministic(r1: Rover, r2: Rover, c1: Command, c2: Command)
    requires
        r1 == r2,
        c1 == c2,
    ensures
        spec_execute(r1, c1) == spec_execute(r2, c2),
{
}

/// Rotation cycle: four left turns (or four right turns) restore the rover,
/// and a left turn undoes a right turn and vice versa.
pub proof fn lemma_rotation_cycle(r: Rover)
    ensures
        spec_execute(
            spec_execute(spec_execute(spec_execute(r, Command::L), Command::L), Command::L),
            Command::L,
        ) == r,
        spec_execute(
            spec_execute(spec_execute(spec_execute(r, Command::R), Command::R), Command::R),
            Command::R,
        ) == r,
        spec_execute(spec_execute(r, Command::L), Command::R) == r,
        spec_execute(spec_execute(r, Command::R), Command::L) == r,
{
}

/// Rotation independence from position: a turn never changes the position
/// or the planet, for any starting position.
pub proof fn lemma_rotation_keeps_position(r: Rover)
    ensures
        spec_execute(r, Command::L).position == r.position,
        spec_execute(r, Command::R).position == r.position,
        spec_execute(r, Command::L).planet == r.planet,
        spec_execute(r, Command::R).planet == r.planet,
{
}

/// Forward/backward inverse: on a valid rover, a forward step followed by a
/// backward step (or the other way round) restores the starting state.
pub proof fn lemma_forward_backward_inverse(r: Rover)
    requires
        r.wf(),
    ensures
        spec_execute(spec_execute(r, Command::F), Command::B) == r,
        spec_execute(spec_execute(r, Command::B), Command::F) == r,
{
    lemma_wrap_inverse(r.position.x, r.planet.w);
    lemma_wrap_inverse(r.position.y, r.planet.h);
}

} // verus!

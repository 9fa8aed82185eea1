//! A directional agent ("rover") moving on a toroidal rectangular grid.
//!
//! A `Planet` gives the grid its width and height; a `Rover` holds a
//! `Position` inside those bounds and a facing `Direction`. The function
//! `execute` maps one `Command` (forward, backward, turn left, turn right)
//! to the rover's next state, wrapping coordinates at each edge.

pub mod agent;
pub mod grid;

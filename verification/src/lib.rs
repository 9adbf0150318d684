//! Conway's Game of Life on a fixed 32x32 grid: the simulation engine,
//! the pointer-driven edit session, and the play/pause/speed controller.
pub mod grid;
pub mod life;

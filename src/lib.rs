//! The game engine of a scrolling-cave worm game: three sliding tracks (the
//! worm, the cave ceiling under it, the cave ceiling ahead), a gap that
//! narrows as the cave oscillates, and the check that the worm stays inside.

pub mod game;
pub mod laws;

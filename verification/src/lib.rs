//! Game logic of a small voxel mining game: what the player carries, how
//! mining a block progresses, what the heads-up display shows, which key
//! opens and closes the shop, and where the starting cubes stand.
pub mod text;
pub mod player;
pub mod mining;
pub mod input;
pub mod world;

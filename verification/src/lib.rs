//! A character-grid arcade game core: a ball, a player paddle, boundary
//! walls and a row of destructible bricks, advanced one frame at a time.
//!
//! The library holds the geometry, the collision engine and the per-frame
//! state transition. Rendering and terminal input live outside it: a caller
//! draws the entities from their public state, polls for a key, and hands
//! the decoded event to [`game::Game::step`].

pub mod game;

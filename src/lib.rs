//! Execution back-end of a chess rollup: a transaction codec, a game-session
//! state machine, a block store with soft/firm commitment heights, and the
//! block-execution protocol built on top of them.
pub mod codec;
pub mod hashing;
pub mod rules;
pub mod game;
pub mod blocks;
pub mod service;

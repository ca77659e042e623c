//! Core rules of a small steering game: a square is moved about the play
//! area one tick at a time until it comes to rest inside a goal band, after
//! which the session is won and nothing moves any more.

pub mod geometry;
pub mod movement;
pub mod game;

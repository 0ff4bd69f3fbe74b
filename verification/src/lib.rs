//! A tiny virtual pet: its traits, the rules that turn its stats into a mood,
//! a face and a sprite, and the bookkeeping of a play session (messages and saves).

pub mod pet;
pub mod mood;
pub mod sprite;
pub mod session;
pub mod birth;

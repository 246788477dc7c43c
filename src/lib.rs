//! Scene building and time-stepped driving for particle simulations of
//! laser-cooled atom clouds.
//!
//! The library decides what a run consists of: which apparatus is built, how
//! many particles are made and from which draws, when each output writer fires,
//! and the order of engine passes. The physics itself, random sampling and
//! file handling are left to the caller.
pub mod apparatus;
pub mod config;
pub mod driver;
pub mod population;
pub mod schedule;

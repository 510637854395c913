//! Core of an animated slide deck: smoothed values, step-sequenced scenes and
//! the controller that walks through them.
//!
//! Every quantity is a fixed-point integer counted in millionths
//! ([`utils::ONE`] stands for `1.0`); time deltas are microseconds.


pub mod build_circ;
pub mod catalog;
pub mod funding;
pub mod model;
pub mod motivation;
pub mod quote;
pub mod rng;
pub mod scene;
pub mod slides;
pub mod target_value;
pub mod timeline;
pub mod title;
pub mod utils;

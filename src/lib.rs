//! A procedural fire effect: a heat-diffusion cellular automaton on a grid of
//! character cells, and the mapping from heat to glyphs and colours.

pub mod appearance;
pub mod chance;
pub mod driver;
pub mod engine;
pub mod grid;
pub mod ignition;
pub mod render;
pub mod rules;

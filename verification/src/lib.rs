//! The planning state and the geometry of an artillery planner.
//!
//! Users place guns, targets and spotters on the image of a map and get the data to aim
//! by. This crate holds what decides and computes there, verified with Verus:
//!
//! - [`units`]: quantities as whole thousandths, with exact rounding;
//! - [`grid`]: metres, map-image pixels and grid labels;
//! - [`calc`]: distance, bearing, accuracy radius and compensation for wind;
//! - [`map_view`]: markers, their pairings, and what clicks do to them;
//! - [`planner`]: the planning state, its undo history and the keyboard;
//! - [`view`]: zoom, pan and the pointer sessions;
//! - [`coords`]: from the screen to the map;
//! - [`api`], [`graphql`], [`assets`], [`models`]: the data exchanged with the service
//!   and the checks made on it;
//! - [`report`], [`text`]: summaries and numbers as text.
//!
//! Floating point has no place in the crate. Trigonometry comes in as functions that the
//! caller supplies; contracts state what is done with their results.

pub mod api;
pub mod assets;
pub mod calc;
pub mod coords;
pub mod graphql;
pub mod grid;
pub mod map_view;
pub mod models;
pub mod planner;
pub mod report;
pub mod text;
pub mod units;
pub mod view;

//! Per-turn decision kernel for a creature on a discrete rectangular grid.
//!
//! Each turn the kernel is handed the full board state and must pick exactly
//! one cardinal move: one that survives this turn's collision checks and,
//! subject to survival, approaches the nearest food item. The kernel is a
//! pure function of its inputs plus one injected random draw used only when
//! the food-seeking heuristic is indecisive.

pub mod board;
pub mod food;
pub mod geometry;
pub mod logic;
mod rng;
pub mod safety;
pub mod selector;

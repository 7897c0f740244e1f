//! Simulation core of a turn-based tile-dungeon game: combat tags and
//! advantage tables, battler stats and damage resolution, positioned actors
//! with turn-readiness timers, an append-only event log, and a tile-grid
//! world with collision and text rendering.

pub mod actor;
pub mod advantage;
pub mod battler;
pub mod decimal;
pub mod log;
pub mod world;

//! Animation engine for an addressable-LED star sculpture: a signal algebra of
//! composable oscillators, a pattern-composition layer mapping logical LED
//! coordinates to HSV colors, a bounded traveling-streak engine over a
//! fixed-capacity slot allocator, and a traversal engine that enumerates every
//! physical LED in wiring order.

pub mod color;
pub mod config;
pub mod osc;
pub mod pattern;
pub mod rand;
pub mod slotmap;
pub mod star;
pub mod storage;
pub mod streak;

pub use pattern::Compound;
pub use pattern::Index;
pub use pattern::Oscillator;
pub use pattern::Pattern;
pub use pattern::PerSpine;

//! Streaming technical-analysis indicators: the bookkeeping that decides,
//! bar by bar, what the average directional index, the relative strength
//! index and a rolling correlation do with their newest input.
//!
//! Each indicator has a core that holds its phase and its buffers, generic
//! over the values it buffers. A caller feeds the core one tick at a time and
//! is told which update the tick calls for and whether it yields a value.
pub mod adx;
pub mod correlation;
pub mod error;
pub mod rsi;
pub mod window;

pub use adx::{AdxCore, AdxOutput, AdxPhase, AdxStep};
pub use correlation::{CorrelationCore, PairUpdate};
pub use error::TaError;
pub use rsi::{RsiCore, RsiStep};
pub use window::SlidingWindow;

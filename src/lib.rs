//! A small real-time rendering framework core: a fixed-tick clock, the
//! presentation-surface state machine and the frame driver that ties them
//! together, with the plain data types the application sees.

pub mod app;
pub mod canvas;
pub mod color;
pub mod error;
pub mod event;
pub mod framework;
pub mod lifecycle;
pub mod shader;
pub mod surface;
pub mod time;

pub use time::Time;

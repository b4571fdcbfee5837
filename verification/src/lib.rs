//! Interactive Game of Life engine: a fixed-size double-buffered cell grid,
//! pointer-editable and advanced by the classic step rule, together with the
//! button widgets, speed control, autoplay clock and per-frame event router
//! that drive it. Rendering and windowing stay outside; the engine works on
//! plain coordinates and timestamps.

pub mod clock;
pub mod grid;
pub mod input;
pub mod layout;
pub mod life;
pub(crate) mod rng;
pub mod router;
pub mod speed;
pub mod widget;

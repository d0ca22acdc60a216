//! A font descriptor: a typeface name at a size, together with the outcome of
//! resolving that name through a font backend.
//!
//! The descriptor estimates the pixel box that a text occupies and draws text
//! by handing each covered pixel to a sink of the caller's. It knows nothing
//! of fonts itself: a backend resolves the typeface, measures and draws. What
//! the descriptor owns is the discipline around the backend. Resolution
//! happens once and its failure is kept rather than raised; every query on a
//! failed descriptor reports that failure; resizing shares what was resolved;
//! and a failure of the sink is never mistaken for one of the font.

pub mod backend;
pub mod font;
pub mod laws;
pub mod layout;
pub mod size;

pub use crate::backend::{DrawInto, FontData, LayoutBox, PixelSink};
pub use crate::font::{FontDesc, FontError, FontResult};
pub use crate::size::{Coverage, FontSize};

//! What the descriptor asks of its collaborators: a backend that knows fonts,
//! and a sink that takes pixels.
//!
//! Neither is implemented here. A backend may read font files, consult a
//! cache or fail for reasons of its own, so no contract below promises what a
//! call returns. Each backend method instead has a relation beside it, which
//! says of its arguments and an outcome whether the method may give that
//! outcome. The method's contract is that relation and nothing else. A
//! backend that is itself verified narrows the relation and proves its method
//! against it; left alone, the relation admits every outcome.

use vstd::prelude::*;
use crate::size::{Coverage, FontSize};

verus! {

/// The pixel box that a text occupies: its least corner, then its greatest.
pub type LayoutBox = ((i32, i32), (i32, i32));

/// Receives the pixels of a drawing, one call for each covered pixel.
///
/// A sink may fail for reasons of its own, such as a pixel outside its
/// buffer. Whoever emits into it is expected to stop at the first failure and
/// hand that failure back as it is.
pub trait PixelSink {
    /// Why the sink refused a pixel.
    type Error;

    /// Takes the pixel at (`x`, `y`) with the given coverage.
    fn emit(&mut self, x: i32, y: i32, coverage: Coverage) -> Result<(), Self::Error>;
}

/// A font backend: it resolves a typeface by name and measures text. What
/// draws is [`DrawInto`].
pub trait FontData: Clone + Sized {
    /// Why the backend failed. A descriptor stores one of these when its
    /// typeface does not resolve, and hands out clones of it afterwards.
    type ErrorType: Clone;

    /// Whether resolving `face` may end in `outcome`.
    open spec fn may_resolve(face: Seq<char>, outcome: Result<Self, Self::ErrorType>) -> bool {
        true
    }

    /// Resolves the typeface named `face`.
    fn new(face: &str) -> (outcome: Result<Self, Self::ErrorType>)
        ensures
            Self::may_resolve(face@, outcome),
    ;

    /// Whether measuring `text` at `size` with this font may end in `outcome`.
    open spec fn may_measure(
        &self,
        size: FontSize,
        text: Seq<char>,
        outcome: Result<LayoutBox, Self::ErrorType>,
    ) -> bool {
        true
    }

    /// Estimates the box that `text` occupies when set at `size`.
    fn estimate_layout(&self, size: FontSize, text: &str) -> (outcome: Result<
        LayoutBox,
        Self::ErrorType,
    >)
        ensures
            self.may_measure(size, text@, outcome),
    ;
}

/// A font backend that draws into sinks of the type `S`.
///
/// A backend that can draw into any sink implements this once, for every
/// `S`. The sink's type stands on the trait so that the relation beside
/// `draw` can speak of the sink's state before and after.
pub trait DrawInto<S: PixelSink>: FontData {
    /// Whether drawing `text` at `size` from `pos` with this font may take a
    /// sink from the state `before` to the state `after` and end in
    /// `outcome`.
    open spec fn may_draw(
        &self,
        pos: (i32, i32),
        size: FontSize,
        text: Seq<char>,
        before: S,
        after: S,
        outcome: Result<Result<(), S::Error>, Self::ErrorType>,
    ) -> bool {
        true
    }

    /// Draws `text` at `size` from `pos`, pixel by pixel, into `sink`.
    ///
    /// The outer result is the backend's own; the inner one is the sink's.
    fn draw(&self, pos: (i32, i32), size: FontSize, text: &str, sink: &mut S) -> (outcome: Result<
        Result<(), S::Error>,
        Self::ErrorType,
    >)
        ensures
            self.may_draw(pos, size, text@, *old(sink), *final(sink), outcome),
    ;
}

} // verus!

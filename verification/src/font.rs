//! The font descriptor.
//!
//! A descriptor is a typeface name, a size, and what came of resolving the
//! name: a backend handle or the backend's error. Resolution is attempted
//! once, when the descriptor is made, and never fails outward: a failure is
//! kept as data. Every later query answers from what is kept. On a handle it
//! asks the backend, at the descriptor's size; on an error it hands out a
//! clone of that error and touches nothing else.

use vstd::prelude::*;
use crate::backend::{DrawInto, FontData, LayoutBox, PixelSink};
use crate::layout::{dimensions_of, measured_extents};
use crate::size::FontSize;

verus! {

/// The error of the backend `B`.
pub type FontError<B> = <B as FontData>::ErrorType;

/// The result of an operation that fails as the backend `B` fails.
pub type FontResult<T, B> = Result<T, <B as FontData>::ErrorType>;

/// What a descriptor is, to a specification.
pub struct FontDescModel<B: FontData> {
    /// The typeface name that the descriptor was made from.
    pub name: Seq<char>,
    /// The size that queries are made at.
    pub size: FontSize,
    /// What came of resolving the name.
    pub backend: Result<B, B::ErrorType>,
}

/// Whether `outcome` is a failure with a clone of the error `stored`.
pub open spec fn replays<T, E: Clone>(stored: E, outcome: Result<T, E>) -> bool {
    outcome matches Err(e) && cloned(stored, e)
}

/// Whether `copy` holds a clone of what `held` holds: a clone of its handle
/// where `held` is a success, a clone of its error where it is a failure.
pub open spec fn duplicates<T: Clone, E: Clone>(held: Result<T, E>, copy: Result<T, E>) -> bool {
    match held {
        Ok(handle) => copy matches Ok(kept) && cloned(handle, kept),
        Err(error) => copy matches Err(kept) && cloned(error, kept),
    }
}

impl<B: FontData> FontDescModel<B> {
    /// Whether the typeface resolved.
    pub open spec fn resolved(self) -> bool {
        self.backend is Ok
    }

    /// Whether making a descriptor from `name` and `size` may give `self`:
    /// both are kept, and the backend is what resolving `name` may give.
    pub open spec fn made_from(self, name: Seq<char>, size: FontSize) -> bool {
        &&& self.name == name
        &&& self.size == size
        &&& B::may_resolve(name, self.backend)
    }

    /// Whether resizing `origin` to `size` may give `self`: the name is
    /// kept, the size is the new one, and the backend is a clone of the
    /// origin's, not the result of resolving again.
    pub open spec fn resized_from(self, origin: Self, size: FontSize) -> bool {
        &&& self.name == origin.name
        &&& self.size == size
        &&& duplicates(origin.backend, self.backend)
    }

    /// Whether measuring `text` may end in `outcome`: on a handle, what the
    /// backend may give at the descriptor's size; on a stored error, a
    /// clone of it.
    pub open spec fn layout_outcome(
        self,
        text: Seq<char>,
        outcome: Result<LayoutBox, B::ErrorType>,
    ) -> bool {
        match self.backend {
            Ok(font) => font.may_measure(self.size, text, outcome),
            Err(error) => replays(error, outcome),
        }
    }

    /// Whether asking for the size of `text` may end in `outcome`: it is the
    /// width and height of some outcome of measuring `text`.
    pub open spec fn size_outcome(
        self,
        text: Seq<char>,
        outcome: Result<(u32, u32), B::ErrorType>,
    ) -> bool {
        exists|layout: Result<LayoutBox, B::ErrorType>|
            #[trigger] self.layout_outcome(text, layout) && outcome == measured_extents(layout)
    }

    /// Whether drawing `text` from `pos` may take a sink from `before` to
    /// `after` and end in `outcome`: on a handle, what the backend may do
    /// at the descriptor's size; on a stored error, the sink is left as it
    /// was and the outcome is a clone of the error.
    pub open spec fn draw_outcome<S: PixelSink>(
        self,
        text: Seq<char>,
        pos: (i32, i32),
        before: S,
        after: S,
        outcome: Result<Result<(), S::Error>, B::ErrorType>,
    ) -> bool where B: DrawInto<S> {
        match self.backend {
            Ok(font) => font.may_draw(pos, self.size, text, before, after, outcome),
            Err(error) => after == before && replays(error, outcome),
        }
    }
}

/// A typeface at a size, with the outcome of resolving it through the
/// backend `B`.
pub struct FontDesc<'a, B: FontData> {
    size: FontSize,
    name: &'a str,
    data: Result<B, B::ErrorType>,
}

impl<'a, B: FontData> View for FontDesc<'a, B> {
    type V = FontDescModel<B>;

    closed spec fn view(&self) -> FontDescModel<B> {
        FontDescModel { name: self.name@, size: self.size, backend: self.data }
    }
}

impl<'a, B: FontData> FontDesc<'a, B> {
    /// Makes a descriptor for `typeface` at `size`, resolving the typeface
    /// at once. A typeface that does not resolve still gives a descriptor:
    /// one that holds the backend's error.
    pub fn new(typeface: &'a str, size: FontSize) -> (desc: Self)
        ensures
            desc@.made_from(typeface@, size),
    {
        FontDesc { size, name: typeface, data: B::new(typeface) }
    }

    /// The same font at another size. The backend is not asked again: the
    /// new descriptor gets a clone of the handle, or of the error, that this
    /// one holds.
    pub fn resize(&self, size: FontSize) -> (desc: FontDesc<'a, B>)
        ensures
            desc@.resized_from(self@, size),
    {
        let data = match &self.data {
            Ok(font) => Ok(font.clone()),
            Err(error) => Err(error.clone()),
        };
        FontDesc { size, name: self.name, data }
    }

    /// The typeface name.
    pub fn get_name(&self) -> (name: &'a str)
        ensures
            name@ == self@.name,
    {
        self.name
    }

    /// The size.
    pub fn get_size(&self) -> (size: FontSize)
        ensures
            size == self@.size,
    {
        self.size
    }

    /// The box that `text` occupies when set in this font.
    ///
    /// A failure is either the stored resolution error or an error that the
    /// backend raised for this text; the caller sees one error type for
    /// both.
    pub fn layout_box(&self, text: &str) -> (outcome: FontResult<LayoutBox, B>)
        ensures
            self@.layout_outcome(text@, outcome),
    {
        match &self.data {
            Ok(font) => font.estimate_layout(self.size, text),
            Err(error) => Err(error.clone()),
        }
    }

    /// The width and height, in pixels, that `text` occupies when set in
    /// this font. An axis along which the backend reports an inverted box
    /// counts as zero.
    pub fn box_size(&self, text: &str) -> (outcome: FontResult<(u32, u32), B>)
        ensures
            self@.size_outcome(text@, outcome),
    {
        dimensions_of(self.layout_box(text))
    }

    /// Draws `text` from `pos` into `sink`.
    ///
    /// The outer result tells of the font: the stored resolution error or a
    /// failure of the backend while drawing. The inner result is the
    /// sink's, exactly as the backend handed it back. Where resolution had
    /// failed the sink is not called.
    pub fn draw<S: PixelSink>(&self, text: &str, pos: (i32, i32), sink: &mut S) -> (outcome:
        FontResult<Result<(), S::Error>, B>) where B: DrawInto<S>
        ensures
            self@.draw_outcome(text@, pos, *old(sink), *final(sink), outcome),
    {
        match &self.data {
            Ok(font) => font.draw(pos, self.size, text, sink),
            Err(error) => Err(error.clone()),
        }
    }
}

impl<'a, B: FontData> From<&'a str> for FontDesc<'a, B> {
    /// Makes a descriptor for `typeface` at the size one.
    fn from(typeface: &'a str) -> (desc: Self)
        ensures
            desc@.made_from(typeface@, FontSize::unit()),
    {
        FontDesc::new(typeface, FontSize::unit())
    }
}

/// The conversion asks the backend, so no specification function gives its
/// result; the contract of `from` says what holds of it.
impl<'a, B: FontData> vstd::std_specs::convert::FromSpecImpl<&'a str> for FontDesc<'a, B> {
    open spec fn obeys_from_spec() -> bool {
        false
    }

    open spec fn from_spec(typeface: &'a str) -> Self {
        arbitrary()
    }
}

} // verus!

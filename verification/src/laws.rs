//! What holds of every descriptor, proved from the contracts of its
//! operations.
//!
//! Each statement speaks of the models of descriptors and of outcomes that
//! the operations may give, so it holds of every run of them, whatever the
//! backend answers.

use vstd::prelude::*;
use crate::backend::{DrawInto, FontData, LayoutBox, PixelSink};
use crate::font::{duplicates, replays, FontDescModel};
use crate::layout::{box_extents, extent, measured_extents};
use crate::size::FontSize;

verus! {

/// Resizing changes the size and nothing else. The new descriptor has the
/// size asked for and the name of the one it came from. It is resolved
/// exactly if that one is, and it holds a clone of the same handle or of the
/// same error: what resolution once gave is shared, never asked for again.
pub proof fn lemma_resize_keeps_name_and_backend<B: FontData>(
    origin: FontDescModel<B>,
    size: FontSize,
    resized: FontDescModel<B>,
)
    requires
        resized.resized_from(origin, size),
    ensures
        resized.size == size,
        resized.name == origin.name,
        resized.resolved() == origin.resolved(),
        origin.backend matches Ok(font) ==> resized.backend matches Ok(kept) && cloned(font, kept),
        origin.backend matches Err(error) ==> resized.backend matches Err(kept) && cloned(
            error,
            kept,
        ),
{
}

/// Two descriptors resized from one origin agree in all but their sizes: they
/// have one name, both are resolved or neither is, and each holds a clone of
/// what the origin holds.
pub proof fn lemma_resizes_of_one_origin_agree<B: FontData>(
    origin: FontDescModel<B>,
    first_size: FontSize,
    first: FontDescModel<B>,
    second_size: FontSize,
    second: FontDescModel<B>,
)
    requires
        first.resized_from(origin, first_size),
        second.resized_from(origin, second_size),
    ensures
        first.name == second.name,
        first.resolved() == second.resolved(),
        duplicates(origin.backend, first.backend),
        duplicates(origin.backend, second.backend),
{
}

/// On a descriptor whose typeface did not resolve, every query fails with a
/// clone of the stored error: measuring, asking for the size, and drawing.
/// Drawing moreover leaves the sink as it found it.
pub proof fn lemma_failed_resolution_is_replayed<B: DrawInto<S>, S: PixelSink>(
    desc: FontDescModel<B>,
    text: Seq<char>,
    pos: (i32, i32),
    before: S,
    after: S,
    layout: Result<LayoutBox, B::ErrorType>,
    dims: Result<(u32, u32), B::ErrorType>,
    drawn: Result<Result<(), S::Error>, B::ErrorType>,
)
    requires
        desc.backend is Err,
        desc.layout_outcome(text, layout),
        desc.size_outcome(text, dims),
        desc.draw_outcome(text, pos, before, after, drawn),
    ensures
        replays(desc.backend->Err_0, layout),
        replays(desc.backend->Err_0, dims),
        replays(desc.backend->Err_0, drawn),
        after == before,
{
    let measured = choose|measured: Result<LayoutBox, B::ErrorType>|
        #[trigger] desc.layout_outcome(text, measured) && dims == measured_extents(
            measured,
        );
    assert(replays(desc.backend->Err_0, measured));
}

/// Resizing cannot mend a failed resolution: a descriptor resized from a
/// failed one is failed too, and what it reports is a clone of the error that
/// it holds, which is itself a clone of the origin's.
pub proof fn lemma_resize_cannot_repair<B: FontData>(
    origin: FontDescModel<B>,
    size: FontSize,
    resized: FontDescModel<B>,
    text: Seq<char>,
    layout: Result<LayoutBox, B::ErrorType>,
    dims: Result<(u32, u32), B::ErrorType>,
)
    requires
        origin.backend is Err,
        resized.resized_from(origin, size),
        resized.layout_outcome(text, layout),
        resized.size_outcome(text, dims),
    ensures
        resized.backend is Err,
        cloned(origin.backend->Err_0, resized.backend->Err_0),
        replays(resized.backend->Err_0, layout),
        replays(resized.backend->Err_0, dims),
{
    let measured = choose|measured: Result<LayoutBox, B::ErrorType>|
        #[trigger] resized.layout_outcome(text, measured) && dims
            == measured_extents(measured);
    assert(replays(resized.backend->Err_0, measured));
}

/// Where the backend can only report the box `reported` for a text, asking
/// for the size of that text gives the width and height of that box, and
/// nothing else.
pub proof fn lemma_box_size_follows_layout<B: FontData>(
    desc: FontDescModel<B>,
    text: Seq<char>,
    reported: LayoutBox,
    dims: Result<(u32, u32), B::ErrorType>,
)
    requires
        desc.backend is Ok,
        forall|layout: Result<LayoutBox, B::ErrorType>| #[trigger]
            desc.backend->Ok_0.may_measure(desc.size, text, layout) ==> layout == Ok::<
                LayoutBox,
                B::ErrorType,
            >(reported),
        desc.size_outcome(text, dims),
    ensures
        dims == Ok::<(u32, u32), B::ErrorType>(box_extents(reported)),
{
    let measured = choose|measured: Result<LayoutBox, B::ErrorType>|
        #[trigger] desc.layout_outcome(text, measured) && dims == measured_extents(
            measured,
        );
    assert(desc.backend->Ok_0.may_measure(desc.size, text, measured));
}

/// Asking for the size fails exactly as measuring does: an error that it
/// reports is one that measuring may report, unchanged.
pub proof fn lemma_box_size_fails_as_layout<B: FontData>(
    desc: FontDescModel<B>,
    text: Seq<char>,
    error: B::ErrorType,
)
    requires
        desc.size_outcome(text, Err::<(u32, u32), B::ErrorType>(error)),
    ensures
        desc.layout_outcome(text, Err::<LayoutBox, B::ErrorType>(error)),
{
    let measured = choose|measured: Result<LayoutBox, B::ErrorType>|
        #[trigger] desc.layout_outcome(text, measured) && Err::<(u32, u32), B::ErrorType>(error)
            == measured_extents(measured);
    assert(measured == Err::<LayoutBox, B::ErrorType>(error));
}

/// Along each axis the extent of a box is the difference of its corners
/// where the greatest is not below the least, and zero where it is. Either
/// way it fits in a `u32`, so the width and height of a box are exact.
pub proof fn lemma_box_extents_are_exact(layout: LayoutBox)
    ensures
        layout.1.0 >= layout.0.0 ==> box_extents(layout).0 == layout.1.0 - layout.0.0,
        layout.1.1 >= layout.0.1 ==> box_extents(layout).1 == layout.1.1 - layout.0.1,
        layout.1.0 < layout.0.0 ==> box_extents(layout).0 == 0,
        layout.1.1 < layout.0.1 ==> box_extents(layout).1 == 0,
        box_extents(layout).0 == extent(layout.0.0, layout.1.0),
        box_extents(layout).1 == extent(layout.0.1, layout.1.1),
{
}

} // verus!

//! What holds of the viewport's operations taken together.

use crate::components::state::{Operation, ViewportState};
use crate::text::{
    are_lines, document_lines, lemma_join_blank_rows, lemma_join_split, lemma_split_join,
    normalize_line_endings, padded, split_lines,
};
use vstd::prelude::*;

verus! {

/// Every operation leaves a window that is within bounds within bounds, and
/// `go_to_bottom` and `set_content` bring any window within bounds.
pub proof fn lemma_apply_keeps_in_bounds(state: ViewportState, operation: Operation)
    ensures
        state.in_bounds() ==> state.apply(operation).in_bounds(),
        operation is GoToBottom || operation is SetContent ==> state.apply(
            operation,
        ).in_bounds(),
{
}

/// Start within bounds and call the operations in any number and order: the
/// window is within bounds after each call.
pub proof fn lemma_in_bounds_after_every_call(state: ViewportState, operations: Seq<Operation>)
    requires
        state.in_bounds(),
    ensures
        forall|calls: int|
            0 <= calls <= operations.len() ==> #[trigger] state.run(
                operations.take(calls),
            ).in_bounds(),
    decreases operations.len(),
{
    assert forall|calls: int| 0 <= calls <= operations.len() implies #[trigger] state.run(
        operations.take(calls),
    ).in_bounds() by {
        if calls > 0 {
            let done = operations.take(calls);
            lemma_in_bounds_after_every_call(state, done.drop_last());
            assert(done.drop_last().take(calls - 1) == done.drop_last());
            lemma_apply_keeps_in_bounds(state.run(done.drop_last()), done.last());
        }
    }
}

/// An operation that moves nothing leaves everything as it was, and one that
/// moves the window changes the offset and nothing else.
pub proof fn lemma_scrolling_moves_the_offset_only(state: ViewportState, operation: Operation)
    requires
        !(operation is SetContent),
    ensures
        state.apply(operation) == state.scrolled_to(state.apply(operation).y_offset),
{
}

/// After `go_to_top`, a second `go_to_top` moves nothing.
pub proof fn lemma_go_to_top_twice(state: ViewportState)
    ensures
        state.apply(Operation::GoToTop).go_to_top() is None,
{
}

/// After `go_to_bottom`, a second `go_to_bottom` leaves the window where it
/// is.
pub proof fn lemma_go_to_bottom_twice(state: ViewportState)
    ensures
        state.go_to_bottom().go_to_bottom() == state.go_to_bottom(),
{
}

/// At the top `view_up` moves nothing, so that the window is still at the
/// top for the next call; so it is with `view_down` at the bottom.
pub proof fn lemma_page_at_boundary(state: ViewportState)
    ensures
        state.at_top() ==> state.view_up() is None && state.apply(Operation::ViewUp) == state,
        state.at_bottom() ==> state.view_down() is None && state.apply(Operation::ViewDown)
            == state,
{
}

/// After `go_to_bottom`, `view_down` moves nothing; after `go_to_top`,
/// `view_up` moves nothing.
pub proof fn lemma_page_after_going_to_boundary(state: ViewportState)
    ensures
        state.go_to_bottom().view_down() is None,
        state.apply(Operation::GoToTop).view_up() is None,
{
}

/// Where a page down moves the window by a whole page, and the page up that
/// follows does so too, the window is back where it was.
pub proof fn lemma_page_down_then_up(state: ViewportState)
    requires
        state.view_down() is Some,
        state.view_down()->0.y_offset == state.y_offset + state.height,
        state.view_down()->0.view_up() is Some,
        state.view_down()->0.view_up()->0.y_offset == state.view_down()->0.y_offset
            - state.height,
    ensures
        state.view_down()->0.view_up() == Some(state),
{
}

/// Where all lines fit the window and the window is within bounds, it is at
/// the top and at the bottom at once, it counts as scrolled all the way, and
/// no operation moves it.
pub proof fn lemma_short_content(state: ViewportState, n: nat)
    requires
        state.in_bounds(),
        state.lines.len() <= state.height,
    ensures
        state.at_top(),
        state.at_bottom(),
        state.scroll_fraction() == (1nat, 1nat),
        state.view_down() is None,
        state.view_up() is None,
        state.half_view_down() is None,
        state.half_view_up() is None,
        state.line_down(n) is None,
        state.line_up(n) is None,
        state.go_to_top() is None,
        state.go_to_bottom() == state,
{
}

/// `set_content` takes the lines of the text and leaves the offset where it
/// is still within bounds; else it moves the window to the largest offset
/// within bounds. So it does in particular where the old offset is the index
/// of no new line.
pub proof fn lemma_set_content_offset(state: ViewportState, text: Seq<char>)
    ensures
        state.set_content(text).lines == document_lines(text),
        state.set_content(text).y_offset == if state.y_offset <= state.set_content(
            text,
        ).max_offset() {
            state.y_offset
        } else {
            state.set_content(text).max_offset()
        },
        state.y_offset > document_lines(text).len() - 1 ==> state.set_content(text).y_offset
            == state.set_content(text).max_offset(),
        state.set_content(text) == state.set_content(text).scrolled_to(
            state.set_content(text).y_offset,
        ),
{
    lemma_join_split(normalize_line_endings(text));
}

/// The lines that `set_content` takes from a text hold no line feed, and
/// there is at least one of them.
pub proof fn lemma_set_content_lines(state: ViewportState, text: Seq<char>)
    ensures
        state.set_content(text).lines.len() >= 1,
        are_lines(state.set_content(text).lines),
{
    lemma_join_split(normalize_line_endings(text));
}

/// A frame has as many rows as the window is high: cut at its line feeds it
/// gives the lines on screen, or none of them in high performance mode, and
/// blank rows after them. This holds of a window of at least one row onto
/// lines that hold no line feed.
pub proof fn lemma_frame_rows(state: ViewportState)
    requires
        state.height >= 1,
        are_lines(state.lines),
    ensures
        split_lines(state.frame()).len() == state.height,
        split_lines(state.frame()) == padded(
            if state.high_performance_rendering {
                Seq::empty()
            } else {
                state.window()
            },
            state.height,
        ),
{
    if state.high_performance_rendering {
        lemma_join_blank_rows(state.height);
        lemma_split_join(padded(Seq::empty(), state.height));
    } else {
        lemma_split_join(padded(state.window(), state.height));
    }
}

} // verus!

//! The viewport as mathematical values, and what each operation makes of it.

use crate::text::{blank_frame, document_lines, join_lines, padded};
use vstd::prelude::*;

verus! {

/// A viewport: a window of `height` rows onto `lines`, whose first row shows
/// line `y_offset`.
pub struct ViewportState {
    pub width: nat,
    pub height: nat,
    pub y_offset: nat,
    pub y_position: int,
    pub high_performance_rendering: bool,
    pub lines: Seq<Seq<char>>,
}

/// A call of one of the operations that move the window or replace the
/// text, with its argument.
pub enum Operation {
    ViewDown,
    ViewUp,
    HalfViewDown,
    HalfViewUp,
    LineDown(nat),
    LineUp(nat),
    GoToTop,
    GoToBottom,
    SetContent(Seq<char>),
}

/// The viewport after a scroll operation: where the operation moved, what it
/// gave, else the viewport as it was.
pub open spec fn moved_or_same(
    before: ViewportState,
    moved: Option<ViewportState>,
) -> ViewportState {
    match moved {
        Some(after) => after,
        None => before,
    }
}

impl ViewportState {
    /// The viewport before it has a size or a text.
    pub open spec fn empty() -> Self {
        ViewportState {
            width: 0,
            height: 0,
            y_offset: 0,
            y_position: 0,
            high_performance_rendering: false,
            lines: Seq::empty(),
        }
    }

    /// The largest offset that still leaves the window full, or 0 where the
    /// lines do not fill it.
    pub open spec fn max_offset(self) -> nat {
        if self.lines.len() > self.height {
            (self.lines.len() - self.height) as nat
        } else {
            0
        }
    }

    /// The window has not been scrolled past the last line.
    pub open spec fn in_bounds(self) -> bool {
        self.y_offset <= self.max_offset()
    }

    /// The first line is in the first row.
    pub open spec fn at_top(self) -> bool {
        self.y_offset == 0
    }

    /// The window reaches the last line or beyond it.
    pub open spec fn at_bottom(self) -> bool {
        self.y_offset >= self.lines.len() - self.height
    }

    /// The window reaches beyond the last line.
    pub open spec fn past_bottom(self) -> bool {
        self.y_offset > self.lines.len() - self.height
    }

    /// The lines on screen: from line `y_offset` on, as many as there are
    /// rows, or fewer where the lines end before the window does.
    pub open spec fn window(self) -> Seq<Seq<char>> {
        if self.y_offset >= self.lines.len() {
            Seq::empty()
        } else if self.y_offset + self.height >= self.lines.len() {
            self.lines.subrange(self.y_offset as int, self.lines.len() as int)
        } else {
            self.lines.subrange(self.y_offset as int, (self.y_offset + self.height) as int)
        }
    }

    /// The same viewport with its first row at line `y_offset`.
    pub open spec fn scrolled_to(self, y_offset: nat) -> Self {
        ViewportState { y_offset, ..self }
    }

    /// One page down, but not past the bottom; `None` at the bottom.
    pub open spec fn view_down(self) -> Option<Self> {
        if self.at_bottom() {
            None
        } else if self.y_offset + self.height <= self.max_offset() {
            Some(self.scrolled_to(self.y_offset + self.height))
        } else {
            Some(self.scrolled_to(self.max_offset()))
        }
    }

    /// One page up, but not past the top; `None` at the top.
    pub open spec fn view_up(self) -> Option<Self> {
        if self.at_top() {
            None
        } else if self.y_offset >= self.height {
            Some(self.scrolled_to((self.y_offset - self.height) as nat))
        } else {
            Some(self.scrolled_to(0))
        }
    }

    /// Half a page down, but not past the bottom; `None` at the bottom.
    pub open spec fn half_view_down(self) -> Option<Self> {
        if self.at_bottom() {
            None
        } else if self.y_offset + self.height / 2 <= self.max_offset() {
            Some(self.scrolled_to(self.y_offset + self.height / 2))
        } else {
            Some(self.scrolled_to(self.max_offset()))
        }
    }

    /// Half a page up, but not past the top; `None` at the top.
    pub open spec fn half_view_up(self) -> Option<Self> {
        if self.at_top() {
            None
        } else if self.y_offset >= self.height / 2 {
            Some(self.scrolled_to((self.y_offset - self.height / 2) as nat))
        } else {
            Some(self.scrolled_to(0))
        }
    }

    /// `n` lines down, or as many as are left below the window; `None` at
    /// the bottom and for no lines.
    pub open spec fn line_down(self, n: nat) -> Option<Self> {
        if self.at_bottom() || n == 0 {
            None
        } else if self.y_offset + n <= self.max_offset() {
            Some(self.scrolled_to(self.y_offset + n))
        } else {
            Some(self.scrolled_to(self.max_offset()))
        }
    }

    /// `n` lines up, or as many as are above the window; `None` at the top
    /// and for no lines.
    pub open spec fn line_up(self, n: nat) -> Option<Self> {
        if self.at_top() || n == 0 {
            None
        } else if self.y_offset >= n {
            Some(self.scrolled_to((self.y_offset - n) as nat))
        } else {
            Some(self.scrolled_to(0))
        }
    }

    /// To the first line; `None` when already there.
    pub open spec fn go_to_top(self) -> Option<Self> {
        if self.at_top() {
            None
        } else {
            Some(self.scrolled_to(0))
        }
    }

    /// To the largest offset in bounds.
    pub open spec fn go_to_bottom(self) -> Self {
        self.scrolled_to(self.max_offset())
    }

    /// With the lines of `text` in place of the old ones, and moved to the
    /// bottom where the old offset would leave the window past it.
    pub open spec fn set_content(self, text: Seq<char>) -> Self {
        let replaced = ViewportState { lines: document_lines(text), ..self };
        if replaced.past_bottom() {
            replaced.go_to_bottom()
        } else {
            replaced
        }
    }

    /// How far the window has been scrolled, as a fraction: numerator and
    /// denominator. It is 1 where all lines fit the window, else the offset
    /// over the largest offset, and never more than 1.
    pub open spec fn scroll_fraction(self) -> (nat, nat) {
        if self.lines.len() <= self.height {
            (1, 1)
        } else if self.y_offset <= self.max_offset() {
            (self.y_offset, self.max_offset())
        } else {
            (self.max_offset(), self.max_offset())
        }
    }

    /// The text drawn for this viewport: always `height` rows. In high
    /// performance mode all of them are blank; else they are the lines on
    /// screen, with blank rows below them where these are fewer.
    pub open spec fn frame(self) -> Seq<char> {
        if self.high_performance_rendering {
            blank_frame(self.height)
        } else {
            join_lines(padded(self.window(), self.height))
        }
    }

    /// The viewport after one call.
    pub open spec fn apply(self, operation: Operation) -> Self {
        match operation {
            Operation::ViewDown => moved_or_same(self, self.view_down()),
            Operation::ViewUp => moved_or_same(self, self.view_up()),
            Operation::HalfViewDown => moved_or_same(self, self.half_view_down()),
            Operation::HalfViewUp => moved_or_same(self, self.half_view_up()),
            Operation::LineDown(n) => moved_or_same(self, self.line_down(n)),
            Operation::LineUp(n) => moved_or_same(self, self.line_up(n)),
            Operation::GoToTop => moved_or_same(self, self.go_to_top()),
            Operation::GoToBottom => self.go_to_bottom(),
            Operation::SetContent(text) => self.set_content(text),
        }
    }

    /// The viewport after a row of calls, the first of them first.
    pub open spec fn run(self, operations: Seq<Operation>) -> Self
        decreases operations.len(),
    {
        if operations.len() == 0 {
            self
        } else {
            self.run(operations.drop_last()).apply(operations.last())
        }
    }
}

} // verus!

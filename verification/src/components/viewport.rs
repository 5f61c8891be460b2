//! The viewport widget.

use crate::components::state::{Operation, ViewportState};
use crate::model::Model;
use crate::text::{
    are_lines, document_lines, join_padded, lemma_join_blank_rows, lemma_join_split, lines_of,
    normalize_line_endings, reads_as,
};
use vstd::prelude::*;

verus! {

/// A window of `height` rows onto a text, with `y_offset` the index of the
/// line in its first row.
///
/// A viewport is made empty by [`ViewportModel::new`] and given its text by
/// [`ViewportModel::set_content`]. The owner sets the size through the
/// fields. The scroll operations are the intended way to move the offset:
/// they keep it within bounds, which is to say at most
/// `max(0, lines.len() - height)`. They are defined for every offset all the
/// same, so a viewport whose fields were set by hand can still be scrolled.
#[derive(Debug)]
pub struct ViewportModel {
    pub width: usize,
    pub height: usize,
    pub y_offset: usize,
    /// For the owner's use; no operation reads or writes it.
    pub y_position: i32,
    /// When set, `view` draws a blank frame and leaves the lines to a
    /// renderer that reuses what is already on screen.
    pub high_performance_rendering: bool,
    /// The text, line by line. [`ViewportModel::set_content`] fills it.
    pub lines: Vec<String>,
}

impl ViewportModel {
    /// The viewport as mathematical values.
    pub open spec fn state(&self) -> ViewportState {
        ViewportState {
            width: self.width as nat,
            height: self.height as nat,
            y_offset: self.y_offset as nat,
            y_position: self.y_position as int,
            high_performance_rendering: self.high_performance_rendering,
            lines: self.lines.deep_view(),
        }
    }

    /// A viewport of no size and no lines.
    pub fn new() -> (viewport: Self)
        ensures
            viewport.state() == ViewportState::empty(),
            viewport.state().in_bounds(),
    {
        let viewport = ViewportModel {
            width: 0,
            height: 0,
            y_offset: 0,
            y_position: 0,
            high_performance_rendering: false,
            lines: Vec::new(),
        };
        assert(viewport.lines.deep_view() == Seq::<Seq<char>>::empty());
        viewport
    }

    /// Whether the window shows the first line.
    pub fn at_top(&self) -> (top: bool)
        ensures
            top == self.state().at_top(),
    {
        self.y_offset == 0
    }

    /// Whether the window shows the last line or reaches below it; so it
    /// does wherever the lines do not fill it.
    pub fn at_bottom(&self) -> (bottom: bool)
        ensures
            bottom == self.state().at_bottom(),
    {
        self.lines.len() <= self.height || self.y_offset >= self.lines.len() - self.height
    }

    /// Whether the window reaches below the last line.
    pub fn past_bottom(&self) -> (past: bool)
        ensures
            past == self.state().past_bottom(),
    {
        self.lines.len() < self.height || self.y_offset > self.lines.len() - self.height
    }

    /// How far the window has been scrolled, as the numerator and the
    /// denominator of a fraction from 0 to 1. Where all lines fit the window
    /// it is 1 over 1; else it is the offset, or the largest offset within
    /// bounds where the offset is beyond it, over that largest offset.
    pub fn scroll_fraction(&self) -> (fraction: (usize, usize))
        ensures
            (fraction.0 as nat, fraction.1 as nat) == self.state().scroll_fraction(),
            0 <= fraction.0 <= fraction.1,
            fraction.1 > 0,
    {
        if self.lines.len() <= self.height {
            (1, 1)
        } else {
            let most: usize = self.lines.len() - self.height;
            if self.y_offset <= most {
                (self.y_offset, most)
            } else {
                (most, most)
            }
        }
    }

    /// Takes the lines of `s` in place of the old ones: `s` with each
    /// carriage return before a line feed taken out, cut at its line feeds.
    /// Where the window would then reach below the last line, it is moved to
    /// the bottom. The window is within bounds afterwards, wherever it was.
    pub fn set_content(&mut self, s: &str)
        ensures
            final(self).state() == old(self).state().set_content(s@),
            final(self).state().in_bounds(),
            final(self).lines.len() >= 1,
            are_lines(final(self).state().lines),
    {
        self.lines = lines_of(s);
        proof {
            assert(self.lines.deep_view() == document_lines(s@));
            lemma_join_split(normalize_line_endings(s@));
        }
        if self.past_bottom() {
            self.y_offset = self.bottom_offset();
        }
    }

    /// The lines on screen: those from `y_offset` on, as many as the window
    /// has rows, or fewer where the text ends before the window does.
    pub fn visible_lines(&self) -> (rows: Vec<String>)
        ensures
            reads_as(rows@, self.state().window()),
            rows.len() <= self.height,
    {
        let mut rows: Vec<String> = Vec::new();
        if self.y_offset < self.lines.len() {
            let left: usize = self.lines.len() - self.y_offset;
            let count: usize = if self.height < left {
                self.height
            } else {
                left
            };
            let bottom: usize = self.y_offset + count;
            let mut i: usize = self.y_offset;
            while i < bottom
                invariant
                    self.y_offset <= i <= bottom <= self.lines.len(),
                    rows.deep_view() == self.lines.deep_view().subrange(
                        self.y_offset as int,
                        i as int,
                    ),
                decreases bottom - i,
            {
                let ghost above = rows.deep_view();
                rows.push(self.lines[i].clone());
                assert(rows.deep_view() == above.push(self.lines[i as int]@));
                i += 1;
            }
        }
        rows
    }

    /// Scrolls down by the height of the window, but not past the bottom,
    /// and returns the lines then on screen. At the bottom nothing moves and
    /// `None` is returned.
    pub fn view_down(&mut self) -> (shown: Option<Vec<String>>)
        ensures
            final(self).state() == old(self).state().apply(Operation::ViewDown),
            shown is None <==> old(self).state().at_bottom(),
            shown matches Some(rows) ==> reads_as(rows@, final(self).state().window()),
            old(self).state().in_bounds() ==> final(self).state().in_bounds(),
    {
        if self.at_bottom() {
            None
        } else {
            let below: usize = self.lines.len() - self.height - self.y_offset;
            let step: usize = if self.height < below {
                self.height
            } else {
                below
            };
            self.y_offset = self.y_offset + step;
            Some(self.visible_lines())
        }
    }

    /// Scrolls up by the height of the window, but not past the top, and
    /// returns the lines then on screen. At the top nothing moves and `None`
    /// is returned.
    pub fn view_up(&mut self) -> (shown: Option<Vec<String>>)
        ensures
            final(self).state() == old(self).state().apply(Operation::ViewUp),
            shown is None <==> old(self).state().at_top(),
            shown matches Some(rows) ==> reads_as(rows@, final(self).state().window()),
            old(self).state().in_bounds() ==> final(self).state().in_bounds(),
    {
        if self.at_top() {
            None
        } else {
            let step: usize = if self.height < self.y_offset {
                self.height
            } else {
                self.y_offset
            };
            self.y_offset = self.y_offset - step;
            Some(self.visible_lines())
        }
    }

    /// Scrolls down by half the height of the window, rounded down, but not
    /// past the bottom, and returns the lines then on screen. At the bottom
    /// nothing moves and `None` is returned.
    pub fn half_view_down(&mut self) -> (shown: Option<Vec<String>>)
        ensures
            final(self).state() == old(self).state().apply(Operation::HalfViewDown),
            shown is None <==> old(self).state().at_bottom(),
            shown matches Some(rows) ==> reads_as(rows@, final(self).state().window()),
            old(self).state().in_bounds() ==> final(self).state().in_bounds(),
    {
        if self.at_bottom() {
            None
        } else {
            let below: usize = self.lines.len() - self.height - self.y_offset;
            let half: usize = self.height / 2;
            let step: usize = if half < below {
                half
            } else {
                below
            };
            self.y_offset = self.y_offset + step;
            Some(self.visible_lines())
        }
    }

    /// Scrolls up by half the height of the window, rounded down, but not
    /// past the top, and returns the lines then on screen. At the top nothing
    /// moves and `None` is returned.
    pub fn half_view_up(&mut self) -> (shown: Option<Vec<String>>)
        ensures
            final(self).state() == old(self).state().apply(Operation::HalfViewUp),
            shown is None <==> old(self).state().at_top(),
            shown matches Some(rows) ==> reads_as(rows@, final(self).state().window()),
            old(self).state().in_bounds() ==> final(self).state().in_bounds(),
    {
        if self.at_top() {
            None
        } else {
            let half: usize = self.height / 2;
            let step: usize = if half < self.y_offset {
                half
            } else {
                self.y_offset
            };
            self.y_offset = self.y_offset - step;
            Some(self.visible_lines())
        }
    }

    /// Scrolls down by `n` lines, or by the lines that are left below the
    /// window where these are fewer, and returns the lines then on screen.
    /// At the bottom, and for `n == 0`, nothing moves and `None` is returned.
    pub fn line_down(&mut self, n: u32) -> (shown: Option<Vec<String>>)
        ensures
            final(self).state() == old(self).state().apply(Operation::LineDown(n as nat)),
            shown is None <==> old(self).state().at_bottom() || n == 0,
            shown matches Some(rows) ==> reads_as(rows@, final(self).state().window()),
            old(self).state().in_bounds() ==> final(self).state().in_bounds(),
    {
        if self.at_bottom() || n == 0 {
            None
        } else {
            let below: usize = self.lines.len() - self.height - self.y_offset;
            let step: usize = if (n as usize) < below {
                n as usize
            } else {
                below
            };
            self.y_offset = self.y_offset + step;
            Some(self.visible_lines())
        }
    }

    /// Scrolls up by `n` lines, or by the lines that are above the window
    /// where these are fewer, and returns the lines then on screen. At the
    /// top, and for `n == 0`, nothing moves and `None` is returned.
    pub fn line_up(&mut self, n: u32) -> (shown: Option<Vec<String>>)
        ensures
            final(self).state() == old(self).state().apply(Operation::LineUp(n as nat)),
            shown is None <==> old(self).state().at_top() || n == 0,
            shown matches Some(rows) ==> reads_as(rows@, final(self).state().window()),
            old(self).state().in_bounds() ==> final(self).state().in_bounds(),
    {
        if self.at_top() || n == 0 {
            None
        } else {
            let step: usize = if (n as usize) < self.y_offset {
                n as usize
            } else {
                self.y_offset
            };
            self.y_offset = self.y_offset - step;
            Some(self.visible_lines())
        }
    }

    /// Scrolls to the first line and returns the lines then on screen. At
    /// the top nothing moves and `None` is returned.
    pub fn go_to_top(&mut self) -> (shown: Option<Vec<String>>)
        ensures
            final(self).state() == old(self).state().apply(Operation::GoToTop),
            shown is None <==> old(self).state().at_top(),
            shown matches Some(rows) ==> reads_as(rows@, final(self).state().window()),
            old(self).state().in_bounds() ==> final(self).state().in_bounds(),
    {
        if self.at_top() {
            None
        } else {
            self.y_offset = 0;
            Some(self.visible_lines())
        }
    }

    /// Scrolls to the largest offset within bounds, wherever the window is,
    /// and returns the lines then on screen.
    pub fn go_to_bottom(&mut self) -> (rows: Vec<String>)
        ensures
            final(self).state() == old(self).state().go_to_bottom(),
            reads_as(rows@, final(self).state().window()),
            final(self).state().in_bounds(),
    {
        self.y_offset = self.bottom_offset();
        self.visible_lines()
    }

    /// Draws the viewport: a text of `height` rows with a line feed between
    /// each two. In high performance mode the rows are blank; else they are
    /// the lines on screen, and blank rows below them where these are fewer.
    pub fn view(&self) -> (frame: String)
        ensures
            frame@ == self.state().frame(),
    {
        let rows: Vec<String> = if self.high_performance_rendering {
            Vec::new()
        } else {
            self.visible_lines()
        };
        proof {
            if self.high_performance_rendering {
                assert(rows.deep_view() == Seq::<Seq<char>>::empty());
                lemma_join_blank_rows(self.height as nat);
            } else {
                assert(rows.deep_view() == self.state().window());
            }
        }
        join_padded(rows.as_slice(), self.height)
    }

    fn bottom_offset(&self) -> (offset: usize)
        ensures
            offset == self.state().max_offset(),
    {
        if self.lines.len() > self.height {
            self.lines.len() - self.height
        } else {
            0
        }
    }
}

impl Clone for ViewportModel {
    fn clone(&self) -> (copy: Self)
        ensures
            copy.state() == self.state(),
    {
        let lines = self.lines.clone();
        assert(lines.deep_view() == self.lines.deep_view());
        ViewportModel {
            width: self.width,
            height: self.height,
            y_offset: self.y_offset,
            y_position: self.y_position,
            high_performance_rendering: self.high_performance_rendering,
            lines,
        }
    }
}

impl Default for ViewportModel {
    fn default() -> (viewport: Self)
        ensures
            viewport.state() == ViewportState::empty(),
    {
        ViewportModel::new()
    }
}

/// The viewport knows no events of its own: its owner turns events into
/// calls of the scroll operations. So whatever the event, it leaves the
/// viewport as it is and asks for no command.
impl<Message, Command> Model<Message, Command> for ViewportModel {
    fn view(&self) -> (text: String)
        ensures
            text@ == self.state().frame(),
    {
        ViewportModel::view(self)
    }

    fn update(self, _message: Message) -> (next: (Self, Option<Command>))
        returns
            (self, None::<Command>),
    {
        (self, None)
    }
}

} // verus!

//! The scrolling state of the pager: which line sits at the top of the
//! viewport, how large the viewport is, how many lines there are to show, and
//! whether what is on screen is stale.
//!
//! Everything here is pure arithmetic on a handful of integers. The state is
//! described by [`ViewModel`], every operation by a function on that model,
//! and the executable [`ViewState`] is proved to follow the model step by
//! step. The one invariant, that the top line never passes the largest top
//! line, is a type invariant of `ViewState`, so no operation asks anything of
//! its caller.

use vstd::prelude::*;

verus! {

/// The mathematical state of a view.
pub struct ViewModel {
    /// Index of the first visible line, counted from zero.
    pub top_line: nat,
    /// Rows available for text: the terminal's rows without the status row.
    pub height: nat,
    /// Columns of the terminal.
    pub width: nat,
    /// Number of lines in the document.
    pub total_lines: nat,
    /// Whether the screen must be drawn again.
    pub needs_redraw: bool,
}

/// The rows left for text on a terminal of `terminal_height` rows, one of which
/// is kept for the status line.
pub open spec fn text_rows(terminal_height: nat) -> nat {
    if terminal_height > 0 {
        (terminal_height - 1) as nat
    } else {
        0
    }
}

/// The smaller of two natural numbers.
pub open spec fn least(a: nat, b: nat) -> nat {
    if a <= b {
        a
    } else {
        b
    }
}

impl ViewModel {
    /// The view a pager starts with: at the top, and not yet drawn.
    pub open spec fn initial(terminal_width: nat, terminal_height: nat, total_lines: nat) -> ViewModel {
        ViewModel {
            top_line: 0,
            height: text_rows(terminal_height),
            width: terminal_width,
            total_lines,
            needs_redraw: true,
        }
    }

    /// The largest valid top line: total lines minus viewport height, floored at
    /// zero.
    pub open spec fn max_top_line(self) -> nat {
        if self.total_lines > self.height {
            (self.total_lines - self.height) as nat
        } else {
            0
        }
    }

    /// The invariant of a view: the top line does not pass the largest top line.
    pub open spec fn in_range(self) -> bool {
        self.top_line <= self.max_top_line()
    }

    /// Whether the view shows the end of a document that does not fit in one
    /// viewport.
    pub open spec fn at_end(self) -> bool {
        self.top_line >= self.max_top_line() && self.max_top_line() > 0
    }

    /// The scroll position as a percentage: 100 for an empty document and at the
    /// end, otherwise the top line's share of all lines, rounded down.
    pub open spec fn percentage(self) -> nat {
        if self.total_lines == 0 || self.at_end() {
            100
        } else {
            (self.top_line * 100 / self.total_lines) as nat
        }
    }

    /// This view moved to `top`, which also makes it stale.
    pub open spec fn moved_to(self, top: nat) -> ViewModel {
        ViewModel { top_line: top, needs_redraw: true, ..self }
    }

    /// One viewport further down, but not past the largest top line.
    pub open spec fn scroll_down_page(self) -> ViewModel {
        self.moved_to(least(self.top_line + self.height, self.max_top_line()))
    }

    /// One line further down, but not past the largest top line.
    pub open spec fn scroll_down_line(self) -> ViewModel {
        self.moved_to(
            if self.top_line < self.max_top_line() {
                self.top_line + 1
            } else {
                self.top_line
            },
        )
    }

    /// One viewport further up, but not past the first line.
    pub open spec fn scroll_up_page(self) -> ViewModel {
        self.moved_to(
            if self.top_line > self.height {
                (self.top_line - self.height) as nat
            } else {
                0
            },
        )
    }

    /// One line further up, but not past the first line.
    pub open spec fn scroll_up_line(self) -> ViewModel {
        self.moved_to(
            if self.top_line > 0 {
                (self.top_line - 1) as nat
            } else {
                0
            },
        )
    }

    /// Jump to a line given by its number, counted from one.
    pub open spec fn jump_to_line(self, line: nat) -> ViewModel {
        self.moved_to(least(if line > 0 { (line - 1) as nat } else { 0 }, self.max_top_line()))
    }

    /// Jump to the line that lies `percent` per cent into the document; anything
    /// above 100 counts as 100.
    pub open spec fn jump_to_percentage(self, percent: nat) -> ViewModel {
        self.moved_to(
            least((self.total_lines * least(percent, 100) / 100) as nat, self.max_top_line()),
        )
    }

    /// To the first line.
    pub open spec fn jump_to_start(self) -> ViewModel {
        self.moved_to(0)
    }

    /// To the largest top line.
    pub open spec fn jump_to_end(self) -> ViewModel {
        self.moved_to(self.max_top_line())
    }

    /// The document now has `total` lines; the top line is pulled back if it
    /// would otherwise lie past the new end.
    pub open spec fn update_total_lines(self, total: nat) -> ViewModel {
        let resized = ViewModel { total_lines: total, ..self };
        resized.moved_to(least(self.top_line, resized.max_top_line()))
    }

    /// The terminal now has `width` columns and `height` rows, one of which is
    /// the status row; the top line is pulled back if need be.
    pub open spec fn update_dimensions(self, width: nat, height: nat) -> ViewModel {
        let resized = ViewModel { width, height: text_rows(height), ..self };
        resized.moved_to(least(self.top_line, resized.max_top_line()))
    }

    /// The screen was drawn: the view is no longer stale.
    pub open spec fn redrawn(self) -> ViewModel {
        ViewModel { needs_redraw: false, ..self }
    }

    /// The view after one operation.
    pub open spec fn apply(self, op: ViewOp) -> ViewModel {
        match op {
            ViewOp::ScrollDownPage => self.scroll_down_page(),
            ViewOp::ScrollDownLine => self.scroll_down_line(),
            ViewOp::ScrollUpPage => self.scroll_up_page(),
            ViewOp::ScrollUpLine => self.scroll_up_line(),
            ViewOp::JumpToLine(line) => self.jump_to_line(line),
            ViewOp::JumpToPercentage(percent) => self.jump_to_percentage(percent),
            ViewOp::JumpToStart => self.jump_to_start(),
            ViewOp::JumpToEnd => self.jump_to_end(),
            ViewOp::UpdateTotalLines(total) => self.update_total_lines(total),
            ViewOp::UpdateDimensions(width, height) => self.update_dimensions(width, height),
            ViewOp::Redrawn => self.redrawn(),
        }
    }

    /// The view after a sequence of operations, applied first to last.
    pub open spec fn apply_all(self, ops: Seq<ViewOp>) -> ViewModel
        decreases ops.len(),
    {
        if ops.len() == 0 {
            self
        } else {
            self.apply_all(ops.drop_last()).apply(ops.last())
        }
    }
}

/// One operation on a view, as a value: what the methods of [`ViewState`] do.
pub enum ViewOp {
    ScrollDownPage,
    ScrollDownLine,
    ScrollUpPage,
    ScrollUpLine,
    JumpToLine(nat),
    JumpToPercentage(nat),
    JumpToStart,
    JumpToEnd,
    UpdateTotalLines(nat),
    UpdateDimensions(nat, nat),
    Redrawn,
}

/// One operation keeps the top line in range.
pub proof fn lemma_apply_keeps_in_range(view: ViewModel, op: ViewOp)
    requires
        view.in_range(),
    ensures
        view.apply(op).in_range(),
{
}

/// Whatever the number of lines and the size of the viewport, and whatever
/// operations are applied in whatever order, the top line stays between zero
/// and the largest top line.
pub proof fn lemma_top_line_stays_in_range(view: ViewModel, ops: Seq<ViewOp>)
    requires
        view.in_range(),
    ensures
        view.apply_all(ops).in_range(),
        0 <= view.apply_all(ops).top_line <= view.apply_all(ops).max_top_line(),
    decreases ops.len(),
{
    if ops.len() > 0 {
        lemma_top_line_stays_in_range(view, ops.drop_last());
        lemma_apply_keeps_in_range(view.apply_all(ops.drop_last()), ops.last());
    }
}

/// The same law from the start: a fresh view of any size over any number of
/// lines is in range, and stays so under any sequence of operations.
pub proof fn lemma_fresh_view_stays_in_range(
    terminal_width: nat,
    terminal_height: nat,
    total_lines: nat,
    ops: Seq<ViewOp>,
)
    ensures
        ViewModel::initial(terminal_width, terminal_height, total_lines).in_range(),
        ViewModel::initial(terminal_width, terminal_height, total_lines).apply_all(ops).in_range(),
{
    lemma_top_line_stays_in_range(
        ViewModel::initial(terminal_width, terminal_height, total_lines),
        ops,
    );
}

/// Jumping to 0 per cent lands on the first line, jumping to 100 per cent (or
/// more) on the largest top line.
pub proof fn lemma_jump_to_percentage_ends(view: ViewModel, percent: nat)
    ensures
        percent == 0 ==> view.jump_to_percentage(percent).top_line == 0,
        percent >= 100 ==> view.jump_to_percentage(percent).top_line == view.max_top_line(),
{
    let total = view.total_lines as int;
    assert(total * 0 / 100 == 0 && total * 100 / 100 == total) by (nonlinear_arith);
}

/// The percentage is 100 when the view is at the largest top line of a document
/// longer than the viewport, and when the document is empty; it never exceeds
/// 100 for a view that is in range.
pub proof fn lemma_percentage_bounds(view: ViewModel)
    requires
        view.in_range(),
    ensures
        view.total_lines == 0 ==> view.percentage() == 100,
        view.top_line == view.max_top_line() && view.max_top_line() > 0 ==> view.percentage()
            == 100,
        view.percentage() <= 100,
{
    if view.total_lines > 0 && !view.at_end() {
        let top = view.top_line as int;
        let total = view.total_lines as int;
        assert(top * 100 / total < 100) by (nonlinear_arith)
            requires
                0 <= top < total,
        ;
    }
}

/// The scrolling state of the pager.
#[derive(Clone, Copy, Debug)]
pub struct ViewState {
    top_line: usize,
    terminal_height: u16,
    terminal_width: u16,
    total_lines: usize,
    needs_redraw: bool,
}

impl View for ViewState {
    type V = ViewModel;

    closed spec fn view(&self) -> ViewModel {
        ViewModel {
            top_line: self.top_line as nat,
            height: self.terminal_height as nat,
            width: self.terminal_width as nat,
            total_lines: self.total_lines as nat,
            needs_redraw: self.needs_redraw,
        }
    }
}

impl ViewState {
    /// What holds of every view at all times: its top line is in range.
    #[verifier::type_invariant]
    pub open spec fn top_line_in_range(self) -> bool {
        self@.in_range()
    }

    /// A view of `total_lines` lines on a terminal of the given size. One row of
    /// the terminal is kept for the status line.
    pub fn new(terminal_width: u16, terminal_height: u16, total_lines: usize) -> (state: Self)
        ensures
            state@ == ViewModel::initial(
                terminal_width as nat,
                terminal_height as nat,
                total_lines as nat,
            ),
            state@.in_range(),
    {
        Self {
            top_line: 0,
            terminal_height: if terminal_height > 0 {
                terminal_height - 1
            } else {
                0
            },
            terminal_width,
            total_lines,
            needs_redraw: true,
        }
    }

    /// Scrolls down by one viewport, and stops at the largest top line.
    pub fn scroll_down_page(&mut self)
        ensures
            final(self)@ == old(self)@.scroll_down_page(),
            final(self)@.in_range(),
    {
        proof {
            use_type_invariant(&*self);
        }
        let limit = self.max_top_line();
        let page = self.terminal_height as usize;
        // The room left is compared with the page, so that the sum is only formed
        // where it stays within the limit.
        let target = if limit - self.top_line < page {
            limit
        } else {
            self.top_line + page
        };
        self.top_line = target;
        self.needs_redraw = true;
    }

    /// Scrolls down by one line, and stops at the largest top line.
    pub fn scroll_down_line(&mut self)
        ensures
            final(self)@ == old(self)@.scroll_down_line(),
            final(self)@.in_range(),
    {
        proof {
            use_type_invariant(&*self);
        }
        if self.top_line < self.max_top_line() {
            self.top_line = self.top_line + 1;
        }
        self.needs_redraw = true;
    }

    /// Scrolls up by one viewport, and stops at the first line.
    pub fn scroll_up_page(&mut self)
        ensures
            final(self)@ == old(self)@.scroll_up_page(),
            final(self)@.in_range(),
    {
        proof {
            use_type_invariant(&*self);
        }
        let page = self.terminal_height as usize;
        self.top_line = if self.top_line > page {
            self.top_line - page
        } else {
            0
        };
        self.needs_redraw = true;
    }

    /// Scrolls up by one line, and stops at the first line.
    pub fn scroll_up_line(&mut self)
        ensures
            final(self)@ == old(self)@.scroll_up_line(),
            final(self)@.in_range(),
    {
        proof {
            use_type_invariant(&*self);
        }
        if self.top_line > 0 {
            self.top_line = self.top_line - 1;
        }
        self.needs_redraw = true;
    }

    /// Jumps to the line with number `line`, counted from one. Line 0 is taken
    /// for line 1, and a line past the end for the end.
    pub fn jump_to_line(&mut self, line: usize)
        ensures
            final(self)@ == old(self)@.jump_to_line(line as nat),
            final(self)@.in_range(),
    {
        let limit = self.max_top_line();
        let wanted = if line > 0 {
            line - 1
        } else {
            0
        };
        self.top_line = if wanted < limit {
            wanted
        } else {
            limit
        };
        self.needs_redraw = true;
    }

    /// Jumps to the line `percent` per cent into the document. 0 is the first
    /// line; 100 and anything above it is the end.
    pub fn jump_to_percentage(&mut self, percent: u8)
        ensures
            final(self)@ == old(self)@.jump_to_percentage(percent as nat),
            final(self)@.in_range(),
            percent == 0 ==> final(self)@.top_line == 0,
            percent >= 100 ==> final(self)@.top_line == old(self)@.max_top_line(),
    {
        let limit = self.max_top_line();
        proof {
            lemma_jump_to_percentage_ends(self@, percent as nat);
        }
        let percent: u128 = if percent > 100 {
            100
        } else {
            percent as u128
        };
        assert(self.total_lines as u128 * percent <= usize::MAX as u128 * 100) by (nonlinear_arith)
            requires
                self.total_lines as u128 <= usize::MAX as u128,
                percent <= 100,
        ;
        let target: u128 = (self.total_lines as u128 * percent) / 100;
        assert(target <= self.total_lines) by (nonlinear_arith)
            requires
                target == (self.total_lines as u128 * percent) / 100,
                percent <= 100,
        ;
        self.top_line = if target < limit as u128 {
            target as usize
        } else {
            limit
        };
        self.needs_redraw = true;
    }

    /// Jumps to the first line.
    pub fn jump_to_start(&mut self)
        ensures
            final(self)@ == old(self)@.jump_to_start(),
            final(self)@.in_range(),
            final(self)@.top_line == 0,
    {
        self.top_line = 0;
        self.needs_redraw = true;
    }

    /// Jumps to the largest top line.
    pub fn jump_to_end(&mut self)
        ensures
            final(self)@ == old(self)@.jump_to_end(),
            final(self)@.in_range(),
            final(self)@.top_line == old(self)@.max_top_line(),
    {
        self.top_line = self.max_top_line();
        self.needs_redraw = true;
    }

    /// Takes over a new number of lines, and pulls the top line back if it would
    /// otherwise lie past the new end.
    pub fn update_total_lines(&mut self, total: usize)
        ensures
            final(self)@ == old(self)@.update_total_lines(total as nat),
            final(self)@.in_range(),
    {
        let rows = self.terminal_height as usize;
        let limit = if total > rows {
            total - rows
        } else {
            0
        };
        let top = if self.top_line > limit {
            limit
        } else {
            self.top_line
        };
        *self = Self { top_line: top, total_lines: total, needs_redraw: true, ..*self };
    }

    /// Takes over a new terminal size, one row of which is the status row, and
    /// pulls the top line back if need be.
    pub fn update_dimensions(&mut self, width: u16, height: u16)
        ensures
            final(self)@ == old(self)@.update_dimensions(width as nat, height as nat),
            final(self)@.in_range(),
    {
        let rows: u16 = if height > 0 {
            height - 1
        } else {
            0
        };
        let limit = if self.total_lines > rows as usize {
            self.total_lines - rows as usize
        } else {
            0
        };
        let top = if self.top_line > limit {
            limit
        } else {
            self.top_line
        };
        *self = Self {
            top_line: top,
            terminal_width: width,
            terminal_height: rows,
            needs_redraw: true,
            ..*self
        };
    }

    /// Says that the screen must be drawn again.
    pub fn request_redraw(&mut self)
        ensures
            final(self)@ == (ViewModel { needs_redraw: true, ..old(self)@ }),
            final(self)@.in_range(),
    {
        proof {
            use_type_invariant(&*self);
        }
        self.needs_redraw = true;
    }

    /// Says that the screen has been drawn.
    pub fn mark_redrawn(&mut self)
        ensures
            final(self)@ == old(self)@.redrawn(),
            final(self)@.in_range(),
    {
        proof {
            use_type_invariant(&*self);
        }
        self.needs_redraw = false;
    }

    /// Whether the screen must be drawn again.
    pub fn needs_redraw(&self) -> (stale: bool)
        ensures
            stale == self@.needs_redraw,
    {
        self.needs_redraw
    }

    /// The lines to show: the index of the first one and how many rows there are
    /// for them.
    pub fn get_visible_range(&self) -> (range: (usize, usize))
        ensures
            range.0 == self@.top_line,
            range.1 == self@.height,
    {
        (self.top_line, self.terminal_height as usize)
    }

    /// The scroll position as a percentage between 0 and 100.
    pub fn get_percentage(&self) -> (percent: u8)
        ensures
            percent == self@.percentage(),
            percent <= 100,
            self@.total_lines == 0 ==> percent == 100,
            self@.top_line == self@.max_top_line() && self@.max_top_line() > 0 ==> percent == 100,
    {
        proof {
            use_type_invariant(&*self);
            lemma_percentage_bounds(self@);
        }
        if self.total_lines == 0 {
            return 100;
        }
        if self.is_at_end() {
            return 100;
        }
        assert(self.top_line as u128 * 100 <= usize::MAX as u128 * 100) by (nonlinear_arith)
            requires
                self.top_line as u128 <= usize::MAX as u128,
        ;
        let share: u128 = (self.top_line as u128 * 100) / (self.total_lines as u128);
        share as u8
    }

    /// Whether the view shows the end of a document longer than the viewport.
    pub fn is_at_end(&self) -> (at_end: bool)
        ensures
            at_end == self@.at_end(),
    {
        let limit = self.max_top_line();
        self.top_line >= limit && limit > 0
    }

    /// The index of the first visible line, counted from zero.
    pub fn top_line(&self) -> (top: usize)
        ensures
            top == self@.top_line,
            top <= self@.max_top_line(),
    {
        proof {
            use_type_invariant(&*self);
        }
        self.top_line
    }

    /// The columns of the terminal.
    pub fn terminal_width(&self) -> (width: u16)
        ensures
            width == self@.width,
    {
        self.terminal_width
    }

    /// The rows for text: the terminal's rows without the status row.
    pub fn viewport_height(&self) -> (height: u16)
        ensures
            height == self@.height,
    {
        self.terminal_height
    }

    /// The largest valid top line: total lines minus viewport height, floored at
    /// zero.
    pub fn max_top_line(&self) -> (limit: usize)
        ensures
            limit == self@.max_top_line(),
    {
        let rows = self.terminal_height as usize;
        if self.total_lines > rows {
            self.total_lines - rows
        } else {
            0
        }
    }
}

} // verus!

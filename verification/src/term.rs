//! The grid state and the state machine of the interactive session.
//!
//! `Terminal` owns the rectangular array of cell colors, the cursor, and
//! the run state. Every mutation goes through `step`, which dispatches one
//! input event: it keeps the cursor inside the grid, so the coordinate a
//! mutation uses can never be out of bounds. `update` computes the full
//! row-major list of paint commands that a redraw must issue; carrying
//! them to the screen is the caller's business.

use vstd::prelude::*;

use crate::color::Color;
use crate::color::next_color;
use crate::color::next_color_spec;

verus! {

/// The fixed dimensions of the grid, in cells.
#[derive(Clone, Copy)]
pub struct TermSize {
    pub width: u16,
    pub length: u16,
}

/// One input event of the session, already stripped of how the terminal
/// encoded it.
#[derive(Clone, Copy, Debug, PartialEq, Eq, Structural)]
pub enum Event {
    /// The quit key: end the session.
    Quit,
    /// The mutate key: cycle the color under the cursor.
    Mutate,
    Down,
    Up,
    Right,
    Left,
    /// Any other input: ignored by design.
    Other,
}

/// What the caller must do after a step.
#[derive(Clone, Copy, Debug, PartialEq, Eq, Structural)]
pub enum Action {
    /// A cell changed: repaint the whole grid.
    Redraw,
    /// The cursor moved: reposition the terminal cursor.
    Moved,
    /// Nothing changed.
    Ignored,
    /// The session ended: leave the loop and release the terminal.
    Quit,
}

/// Whether the session still accepts events.
#[derive(Clone, Copy, Debug, PartialEq, Eq, Structural)]
pub enum RunState {
    Running,
    Terminated,
}

/// One paint command of a full redraw: draw a solid block glyph of the
/// given color at cell `(x, y)`.
#[derive(Clone, Copy, Debug, PartialEq, Eq, Structural)]
pub struct PaintCmd {
    pub x: u16,
    pub y: u16,
    pub color: Color,
}

/// The cells after one cycle step at index `i`: that entry advances along
/// the fixed palette cycle, every other entry stays.
pub open spec fn cycle_at(p: Seq<Color>, i: int) -> Seq<Color> {
    p.update(i, next_color_spec(p[i]))
}

/// The grid, the cursor, and the run state of one editing session.
pub struct Terminal {
    dimensions: TermSize,
    pix_array: Vec<Color>,
    cursor_x: u16,
    cursor_y: u16,
    run_state: RunState,
}

impl Terminal {
    /// The grid width, in cells.
    pub closed spec fn spec_width(self) -> u16 {
        self.dimensions.width
    }

    /// The grid length (number of rows), in cells.
    pub closed spec fn spec_length(self) -> u16 {
        self.dimensions.length
    }

    /// The cell colors, row-major: cell `(x, y)` is entry `y * width + x`.
    pub closed spec fn pixels(self) -> Seq<Color> {
        self.pix_array@
    }

    /// The cursor coordinate `(x, y)`.
    pub closed spec fn spec_cursor(self) -> (u16, u16) {
        (self.cursor_x, self.cursor_y)
    }

    /// Whether the session still accepts events.
    pub closed spec fn spec_is_running(self) -> bool {
        self.run_state is Running
    }

    /// The row-major cell index of coordinate `(x, y)`.
    pub open spec fn pix_index(self, x: u16, y: u16) -> int {
        y as int * self.spec_width() as int + x as int
    }

    /// Well-formedness: positive dimensions, exactly `width * length`
    /// cells, no cell holding the true-color sentinel, and the cursor
    /// inside the grid.
    pub open spec fn wf(self) -> bool {
        &&& self.spec_width() > 0
        &&& self.spec_length() > 0
        &&& self.pixels().len() == self.spec_width() as int * self.spec_length() as int
        &&& (forall|i: int|
            0 <= i < self.pixels().len() ==> !(#[trigger] self.pixels()[i]).is_rgb())
        &&& self.spec_cursor().0 < self.spec_width()
        &&& self.spec_cursor().1 < self.spec_length()
    }

    /// The paint command a full redraw issues at position `i` of its
    /// row-major output.
    pub open spec fn render_cmd(self, i: int) -> PaintCmd {
        PaintCmd {
            x: (i % self.spec_width() as int) as u16,
            y: (i / self.spec_width() as int) as u16,
            color: self.pixels()[i],
        }
    }

    /// A fresh session: a `width * length` grid with every cell set to
    /// `background`, the cursor at the origin, running.
    pub fn new(size: TermSize, background: Color) -> (t: Terminal)
        requires
            size.width > 0,
            size.length > 0,
            !background.is_rgb(),
        ensures
            t.wf(),
            t.spec_width() == size.width,
            t.spec_length() == size.length,
            forall|i: int| 0 <= i < t.pixels().len() ==> t.pixels()[i] == background,
            t.spec_cursor() == (0u16, 0u16),
            t.spec_is_running(),
    {
        proof {
            lemma_area_fits(size.width as int, size.length as int);
        }
        let total: usize = (size.width as usize) * (size.length as usize);
        let mut pix: Vec<Color> = Vec::new();
        let mut i: usize = 0;
        while i < total
            invariant
                i <= total,
                pix@.len() == i,
                forall|j: int| 0 <= j < i ==> pix@[j] == background,
            decreases total - i,
        {
            pix.push(background);
            i = i + 1;
        }
        Terminal {
            dimensions: size,
            pix_array: pix,
            cursor_x: 0,
            cursor_y: 0,
            run_state: RunState::Running,
        }
    }

    /// The grid width, in cells.
    pub fn width(&self) -> (w: u16)
        ensures
            w == self.spec_width(),
    {
        self.dimensions.width
    }

    /// The grid length (number of rows), in cells.
    pub fn length(&self) -> (l: u16)
        ensures
            l == self.spec_length(),
    {
        self.dimensions.length
    }

    /// The cursor coordinate `(x, y)`.
    pub fn cursor(&self) -> (c: (u16, u16))
        ensures
            c == self.spec_cursor(),
    {
        (self.cursor_x, self.cursor_y)
    }

    /// Whether the session still accepts events.
    pub fn is_running(&self) -> (r: bool)
        ensures
            r == self.spec_is_running(),
    {
        matches!(self.run_state, RunState::Running)
    }

    /// The color of cell `(x, y)`. The coordinate must lie inside the
    /// grid: an out-of-bounds access is a caller defect, not a runtime
    /// condition.
    pub fn get_color(&self, x: u16, y: u16) -> (c: Color)
        requires
            self.wf(),
            x < self.spec_width(),
            y < self.spec_length(),
        ensures
            c == self.pixels()[self.pix_index(x, y)],
    {
        proof {
            lemma_row_major_in_bounds(
                x as int,
                y as int,
                self.spec_width() as int,
                self.spec_length() as int,
            );
        }
        // Naming the length pins the cell count to a machine word, which
        // bounds the index sum below.
        let _total: usize = self.pix_array.len();
        let idx: usize = y_to_index(y, self.dimensions.width) + (x as usize);
        self.pix_array[idx]
    }

    /// Advance the color of cell `(x, y)` one step along the fixed
    /// palette cycle. Everything else — the other cells, the cursor, the
    /// run state, the dimensions — stays as it was.
    pub fn change_pix(&mut self, x_coor: u16, y_coor: u16)
        requires
            old(self).wf(),
            x_coor < old(self).spec_width(),
            y_coor < old(self).spec_length(),
        ensures
            final(self).wf(),
            final(self).spec_width() == old(self).spec_width(),
            final(self).spec_length() == old(self).spec_length(),
            final(self).pixels() == cycle_at(
                old(self).pixels(),
                old(self).pix_index(x_coor, y_coor),
            ),
            final(self).spec_cursor() == old(self).spec_cursor(),
            final(self).spec_is_running() == old(self).spec_is_running(),
    {
        proof {
            lemma_row_major_in_bounds(
                x_coor as int,
                y_coor as int,
                self.spec_width() as int,
                self.spec_length() as int,
            );
        }
        // Naming the length pins the cell count to a machine word, which
        // bounds the index sum below.
        let _total: usize = self.pix_array.len();
        let idx: usize = y_to_index(y_coor, self.dimensions.width) + (x_coor as usize);
        let next = next_color(self.pix_array[idx]);
        self.pix_array[idx] = next;
    }

    /// The full redraw of the current grid: one paint command per cell,
    /// in row-major order. The output is a function of the grid state
    /// alone, so an unchanged state always redraws identically.
    pub fn update(&self) -> (cmds: Vec<PaintCmd>)
        requires
            self.wf(),
        ensures
            cmds@.len() == self.pixels().len(),
            forall|i: int| 0 <= i < cmds@.len() ==> cmds@[i] == self.render_cmd(i),
    {
        let width: u16 = self.dimensions.width;
        let total: usize = self.pix_array.len();
        let mut cmds: Vec<PaintCmd> = Vec::new();
        let mut idx: usize = 0;
        while idx < total
            invariant
                idx <= total,
                total == self.pixels().len(),
                width == self.spec_width(),
                width > 0,
                total == width as int * self.spec_length() as int,
                cmds@.len() == idx,
                forall|i: int| 0 <= i < idx ==> cmds@[i] == self.render_cmd(i),
            decreases total - idx,
        {
            proof {
                lemma_div_mod_in_bounds(idx as int, width as int, self.spec_length() as int);
            }
            let x: u16 = (idx % (width as usize)) as u16;
            let y: u16 = (idx / (width as usize)) as u16;
            let cmd = PaintCmd { x, y, color: self.pix_array[idx] };
            cmds.push(cmd);
            idx = idx + 1;
        }
        cmds
    }

    /// Dispatch one input event, as the main loop does while running.
    ///
    /// Quit terminates the session; the mutate key cycles the color under
    /// the cursor and asks for a redraw; a directional key moves the
    /// cursor one cell, stopping at the grid's edge; anything else is
    /// ignored. The cursor never leaves the grid, so the coordinate a
    /// mutation uses is always in bounds.
    pub fn step(&mut self, ev: Event) -> (a: Action)
        requires
            old(self).wf(),
            old(self).spec_is_running(),
        ensures
            final(self).wf(),
            final(self).spec_width() == old(self).spec_width(),
            final(self).spec_length() == old(self).spec_length(),
            match ev {
                Event::Quit => {
                    &&& !final(self).spec_is_running()
                    &&& final(self).pixels() == old(self).pixels()
                    &&& final(self).spec_cursor() == old(self).spec_cursor()
                    &&& a == Action::Quit
                },
                Event::Mutate => {
                    &&& final(self).spec_is_running()
                    &&& final(self).spec_cursor() == old(self).spec_cursor()
                    &&& final(self).pixels() == cycle_at(
                        old(self).pixels(),
                        old(self).pix_index(old(self).spec_cursor().0, old(self).spec_cursor().1),
                    )
                    &&& a == Action::Redraw
                },
                Event::Down => {
                    &&& final(self).spec_is_running()
                    &&& final(self).pixels() == old(self).pixels()
                    &&& final(self).spec_cursor().0 == old(self).spec_cursor().0
                    &&& final(self).spec_cursor().1 == (if old(self).spec_cursor().1 + 1
                        < old(self).spec_length() {
                        old(self).spec_cursor().1 + 1
                    } else {
                        old(self).spec_cursor().1 as int
                    })
                    &&& a == Action::Moved
                },
                Event::Up => {
                    &&& final(self).spec_is_running()
                    &&& final(self).pixels() == old(self).pixels()
                    &&& final(self).spec_cursor().0 == old(self).spec_cursor().0
                    &&& final(self).spec_cursor().1 == (if old(self).spec_cursor().1 > 0 {
                        old(self).spec_cursor().1 - 1
                    } else {
                        0int
                    })
                    &&& a == Action::Moved
                },
                Event::Right => {
                    &&& final(self).spec_is_running()
                    &&& final(self).pixels() == old(self).pixels()
                    &&& final(self).spec_cursor().1 == old(self).spec_cursor().1
                    &&& final(self).spec_cursor().0 == (if old(self).spec_cursor().0 + 1
                        < old(self).spec_width() {
                        old(self).spec_cursor().0 + 1
                    } else {
                        old(self).spec_cursor().0 as int
                    })
                    &&& a == Action::Moved
                },
                Event::Left => {
                    &&& final(self).spec_is_running()
                    &&& final(self).pixels() == old(self).pixels()
                    &&& final(self).spec_cursor().1 == old(self).spec_cursor().1
                    &&& final(self).spec_cursor().0 == (if old(self).spec_cursor().0 > 0 {
                        old(self).spec_cursor().0 - 1
                    } else {
                        0int
                    })
                    &&& a == Action::Moved
                },
                Event::Other => {
                    &&& final(self).spec_is_running()
                    &&& final(self).pixels() == old(self).pixels()
                    &&& final(self).spec_cursor() == old(self).spec_cursor()
                    &&& a == Action::Ignored
                },
            },
    {
        match ev {
            Event::Quit => {
                self.run_state = RunState::Terminated;
                Action::Quit
            },
            Event::Mutate => {
                let x: u16 = self.cursor_x;
                let y: u16 = self.cursor_y;
                self.change_pix(x, y);
                Action::Redraw
            },
            Event::Down => {
                if self.cursor_y + 1 < self.dimensions.length {
                    self.cursor_y = self.cursor_y + 1;
                }
                Action::Moved
            },
            Event::Up => {
                if self.cursor_y > 0 {
                    self.cursor_y = self.cursor_y - 1;
                }
                Action::Moved
            },
            Event::Right => {
                if self.cursor_x + 1 < self.dimensions.width {
                    self.cursor_x = self.cursor_x + 1;
                }
                Action::Moved
            },
            Event::Left => {
                if self.cursor_x > 0 {
                    self.cursor_x = self.cursor_x - 1;
                }
                Action::Moved
            },
            Event::Other => Action::Ignored,
        }
    }
}

/// The row-major start of row `y`, as a machine index.
fn y_to_index(y: u16, width: u16) -> (i: usize)
    ensures
        i == y as int * width as int,
{
    proof {
        lemma_area_fits(y as int, width as int);
    }
    (y as usize) * (width as usize)
}

/// Law: cycling the color at one valid array index six times in a row
/// returns the cell array to exactly its original contents, provided the
/// cell held a palette color — as every cell of a well-formed fresh grid
/// does.
pub proof fn lemma_cycle_at_period_six(p: Seq<Color>, i: int)
    requires
        0 <= i < p.len(),
        p[i].is_palette(),
    ensures
        cycle_at(cycle_at(cycle_at(cycle_at(cycle_at(cycle_at(p, i), i), i), i), i), i) == p,
{
    crate::color::lemma_cycle_period_six(p[i]);
    assert(cycle_at(cycle_at(cycle_at(cycle_at(cycle_at(cycle_at(p, i), i), i), i), i), i)
        =~= p);
}

/// Law: in a well-formed session the mutation coordinate, derived from
/// the session's own cursor, always addresses a cell of the array — the
/// loop can never derive an out-of-range coordinate.
pub proof fn lemma_cursor_index_in_bounds(t: Terminal)
    requires
        t.wf(),
    ensures
        0 <= t.pix_index(t.spec_cursor().0, t.spec_cursor().1) < t.pixels().len(),
{
    lemma_row_major_in_bounds(
        t.spec_cursor().0 as int,
        t.spec_cursor().1 as int,
        t.spec_width() as int,
        t.spec_length() as int,
    );
}

/// Law: a full redraw is a function of the grid state alone. Any two
/// command lists that meet `update`'s contract for the same session are
/// equal, so redrawing twice with no mutation in between paints the same
/// cells the same way.
pub proof fn lemma_update_deterministic(t: Terminal, a: Seq<PaintCmd>, b: Seq<PaintCmd>)
    requires
        a.len() == t.pixels().len(),
        forall|i: int| 0 <= i < a.len() ==> a[i] == t.render_cmd(i),
        b.len() == t.pixels().len(),
        forall|i: int| 0 <= i < b.len() ==> b[i] == t.render_cmd(i),
    ensures
        a == b,
{
    assert(a =~= b);
}

/// The cell count of a grid with 16-bit dimensions fits a machine index.
proof fn lemma_area_fits(w: int, l: int)
    by (nonlinear_arith)
    requires
        0 <= w <= 0xFFFF,
        0 <= l <= 0xFFFF,
    ensures
        0 <= w * l <= 0xFFFE0001,
{
}

/// A coordinate inside a `w` by `l` grid has its row-major index inside
/// the `l * w` cell array.
proof fn lemma_row_major_in_bounds(x: int, y: int, w: int, l: int)
    by (nonlinear_arith)
    requires
        0 <= x < w,
        0 <= y < l,
    ensures
        0 <= y * w + x < w * l,
{
}

/// An index inside the `w * l` cell array decomposes into a column below
/// `w` and a row below `l`.
proof fn lemma_div_mod_in_bounds(i: int, w: int, l: int)
    by (nonlinear_arith)
    requires
        0 <= i < w * l,
        0 < w,
    ensures
        0 <= i % w < w,
        0 <= i / w < l,
{
}

} // verus!

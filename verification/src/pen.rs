//! What a sequence of commands makes a terminal show.
//!
//! A terminal prints each character in the colours it was last set to.  The
//! display surface relies on that when it leaves out the colour commands
//! that would change nothing; this module says what a terminal makes of a
//! command sequence and proves that nothing is lost by leaving them out.

use vstd::prelude::*;

use crate::command::{before_last, cell_commands, clean_state, frame, sweep, Command};
use crate::terminal::{CanvasView, VisualElement};

verus! {

/// The colours a terminal prints in: a palette index each, or the
/// terminal's own colour where none was set since the last reset.
pub struct Pen {
    pub foreground: Option<u8>,
    pub background: Option<u8>,
}

/// A character as it appears on the terminal, in the colours it was printed
/// in.
pub struct Glyph {
    pub value: char,
    pub foreground: Option<u8>,
    pub background: Option<u8>,
}

impl Pen {
    /// The pen that prints in the colours of `element`.
    pub open spec fn of(element: VisualElement) -> Pen {
        Pen {
            foreground: Some(element.foreground.spec_code()),
            background: Some(element.background.spec_code()),
        }
    }

    /// This pen after the terminal has carried out `command`.
    pub open spec fn after(self, command: Command) -> Pen {
        match command {
            Command::SetForeground(index) => Pen { foreground: Some(index), ..self },
            Command::SetBackground(index) => Pen { background: Some(index), ..self },
            Command::ResetColor => Pen { foreground: None, background: None },
            _ => self,
        }
    }

    /// This pen after the terminal has carried out `commands`, first to
    /// last.
    pub open spec fn after_all(self, commands: Seq<Command>) -> Pen
        decreases commands.len(),
    {
        if commands.len() == 0 {
            self
        } else {
            self.after_all(commands.drop_last()).after(commands.last())
        }
    }
}

impl Glyph {
    /// The glyph that shows `element` in its own colours.
    pub open spec fn of(element: VisualElement) -> Glyph {
        Glyph {
            value: element.value,
            foreground: Some(element.foreground.spec_code()),
            background: Some(element.background.spec_code()),
        }
    }
}

/// The glyphs that a terminal starting with `pen` prints when it carries
/// out `commands`, in the order printed.
pub open spec fn printed(commands: Seq<Command>, pen: Pen) -> Seq<Glyph>
    decreases commands.len(),
{
    if commands.len() == 0 {
        Seq::empty()
    } else {
        let earlier = printed(commands.drop_last(), pen);
        match commands.last() {
            Command::Print(value) => {
                let now = pen.after_all(commands.drop_last());
                earlier.push(
                    Glyph { value, foreground: now.foreground, background: now.background },
                )
            },
            _ => earlier,
        }
    }
}

/// The glyphs that show `cells`, each in its own colours.
pub open spec fn glyphs(cells: Seq<VisualElement>) -> Seq<Glyph> {
    Seq::new(cells.len(), |i: int| Glyph::of(cells[i]))
}

/// Carrying out two sequences one after the other leaves the pen where the
/// second leaves it, starting from where the first left it.
pub proof fn lemma_pen_after_concat(pen: Pen, first: Seq<Command>, second: Seq<Command>)
    ensures
        pen.after_all(first + second) == pen.after_all(first).after_all(second),
    decreases second.len(),
{
    if second.len() == 0 {
        assert(first + second =~= first);
    } else {
        assert((first + second).drop_last() =~= first + second.drop_last());
        lemma_pen_after_concat(pen, first, second.drop_last());
    }
}

/// Carrying out two sequences one after the other prints what the first
/// prints and then what the second prints with the pen the first left.
pub proof fn lemma_printed_concat(pen: Pen, first: Seq<Command>, second: Seq<Command>)
    ensures
        printed(first + second, pen) == printed(first, pen) + printed(
            second,
            pen.after_all(first),
        ),
    decreases second.len(),
{
    if second.len() == 0 {
        assert(first + second =~= first);
        assert(printed(first, pen) + Seq::<Glyph>::empty() =~= printed(first, pen));
    } else {
        let shorter = second.drop_last();
        assert((first + second).drop_last() =~= first + shorter);
        lemma_printed_concat(pen, first, shorter);
        lemma_pen_after_concat(pen, first, shorter);
        let mid = pen.after_all(first);
        match second.last() {
            Command::Print(value) => {
                let now = mid.after_all(shorter);
                let glyph = Glyph { value, foreground: now.foreground, background: now.background };
                assert((printed(first, pen) + printed(shorter, mid)).push(glyph) =~= printed(
                    first,
                    pen,
                ) + printed(shorter, mid).push(glyph));
            },
            _ => {},
        }
    }
}

/// The clean state prints nothing and leaves the pen at the default
/// element's colours, wherever the pen was before.
pub proof fn lemma_clean_state_sets_pen(pen: Pen, default_element: VisualElement)
    ensures
        pen.after_all(clean_state(default_element)) == Pen::of(default_element),
        printed(clean_state(default_element), pen) == Seq::<Glyph>::empty(),
{
    let state = clean_state(default_element);
    reveal_with_fuel(Pen::after_all, 4);
    reveal_with_fuel(printed, 4);
    assert(state.drop_last() =~= seq![state[0], state[1]]);
    assert(state.drop_last().drop_last() =~= seq![state[0]]);
    assert(state.drop_last().drop_last().drop_last() =~= Seq::<Command>::empty());
}

/// With the pen at the colours of the cell before, the commands for a cell
/// print that cell in its own colours and leave the pen at them: a colour
/// command left out is one that would have changed nothing.
pub proof fn lemma_cell_prints_in_its_colors(previous: VisualElement, element: VisualElement)
    ensures
        Pen::of(previous).after_all(cell_commands(previous, element)) == Pen::of(element),
        printed(cell_commands(previous, element), Pen::of(previous)) == seq![Glyph::of(element)],
{
    let commands = cell_commands(previous, element);
    let pen = Pen::of(previous);
    let foreground = Command::SetForeground(element.foreground.spec_code());
    let background = Command::SetBackground(element.background.spec_code());
    let print = Command::Print(element.value);
    reveal_with_fuel(Pen::after_all, 4);
    reveal_with_fuel(printed, 4);
    if previous.foreground != element.foreground {
        if previous.background != element.background {
            assert(commands =~= seq![foreground, background, print]);
            assert(commands.drop_last() =~= seq![foreground, background]);
            assert(commands.drop_last().drop_last() =~= seq![foreground]);
            assert(commands.drop_last().drop_last().drop_last() =~= Seq::<Command>::empty());
        } else {
            assert(commands =~= seq![foreground, print]);
            assert(commands.drop_last() =~= seq![foreground]);
            assert(commands.drop_last().drop_last() =~= Seq::<Command>::empty());
        }
    } else {
        if previous.background != element.background {
            assert(commands =~= seq![background, print]);
            assert(commands.drop_last() =~= seq![background]);
            assert(commands.drop_last().drop_last() =~= Seq::<Command>::empty());
        } else {
            assert(commands =~= seq![print]);
            assert(commands.drop_last() =~= Seq::<Command>::empty());
        }
    }
    assert(printed(commands, pen) =~= seq![Glyph::of(element)]);
}

/// Starting from the clean state, a sweep prints every cell, row by row, in
/// the cell's own colours, although it sets a colour only where the colour
/// changes.
pub proof fn lemma_sweep_prints_cells_in_their_colors(
    cells: Seq<VisualElement>,
    default_element: VisualElement,
)
    ensures
        printed(sweep(cells, default_element), Pen::of(default_element)) == glyphs(cells),
        Pen::of(default_element).after_all(sweep(cells, default_element)) == Pen::of(
            if cells.len() == 0 {
                default_element
            } else {
                cells.last()
            },
        ),
    decreases cells.len(),
{
    let start = Pen::of(default_element);
    if cells.len() == 0 {
        assert(glyphs(cells) =~= Seq::<Glyph>::empty());
    } else {
        let init = cells.drop_last();
        let previous = before_last(cells, default_element);
        let rest = sweep(init, default_element);
        let last = cell_commands(previous, cells.last());
        lemma_sweep_prints_cells_in_their_colors(init, default_element);
        assert(previous == if init.len() == 0 {
            default_element
        } else {
            init.last()
        });
        lemma_cell_prints_in_its_colors(previous, cells.last());
        lemma_pen_after_concat(start, rest, last);
        lemma_printed_concat(start, rest, last);
        assert(glyphs(init) + seq![Glyph::of(cells.last())] =~= glyphs(cells));
    }
}

/// A frame shows the canvas as it is: whatever colours the terminal was in
/// before, it prints every cell once, row by row, each in the colours that
/// the cell asks for, and leaves the pen at the default element's colours.
pub proof fn lemma_frame_shows_canvas(pen: Pen, canvas: CanvasView)
    ensures
        printed(frame(canvas), pen) == glyphs(canvas.cells),
        pen.after_all(frame(canvas)) == Pen::of(canvas.default_element),
{
    let default_element = canvas.default_element;
    let state = clean_state(default_element);
    let cells = sweep(canvas.cells, default_element);
    let flush = seq![Command::Flush];
    let clean = Pen::of(default_element);
    lemma_clean_state_sets_pen(pen, default_element);
    lemma_sweep_prints_cells_in_their_colors(canvas.cells, default_element);
    lemma_pen_after_concat(pen, state, cells);
    lemma_printed_concat(pen, state, cells);
    let swept = pen.after_all(state + cells);
    lemma_clean_state_sets_pen(swept, default_element);
    lemma_pen_after_concat(pen, state + cells, state);
    lemma_printed_concat(pen, state + cells, state);
    lemma_pen_after_concat(pen, state + cells + state, flush);
    lemma_printed_concat(pen, state + cells + state, flush);
    assert(clean.after_all(flush) == clean && printed(flush, clean) =~= Seq::<Glyph>::empty())
        by {
        reveal_with_fuel(Pen::after_all, 2);
        reveal_with_fuel(printed, 2);
        assert(flush.drop_last() =~= Seq::<Command>::empty());
    }
    assert(printed(frame(canvas), pen) =~= glyphs(canvas.cells));
}

} // verus!

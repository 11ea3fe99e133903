//! The commands a display surface sends to the terminal driver, and the
//! sequences in which it sends them.

use vstd::prelude::*;

use crate::terminal::{CanvasView, VisualElement};

verus! {

/// One call into the terminal driver.
#[derive(Debug, Clone, Copy, PartialEq, Eq, Structural)]
pub enum Command {
    /// Switch to the alternate screen.
    EnterAlternateScreen,
    /// Switch back to the normal screen.
    LeaveAlternateScreen,
    /// Put the input into raw mode.  Takes effect at once, not at the next
    /// flush.
    EnableRawMode,
    /// Take the input out of raw mode.  Takes effect at once, not at the next
    /// flush.
    DisableRawMode,
    /// Hide the cursor.
    HideCursor,
    /// Show the cursor.
    ShowCursor,
    /// Move the cursor to a column and a row, both counted from zero.
    MoveTo(u16, u16),
    /// Set the foreground colour to a palette index.
    SetForeground(u8),
    /// Set the background colour to a palette index.
    SetBackground(u8),
    /// Reset both colours to the terminal's own.
    ResetColor,
    /// Reset all text attributes.
    ResetAttributes,
    /// Print one character at the cursor.
    Print(char),
    /// Send everything queued so far to the terminal.
    Flush,
}

impl Command {
    /// Whether this command sets the foreground colour.
    pub open spec fn sets_foreground(self) -> bool {
        self is SetForeground
    }

    /// Whether this command sets the background colour.
    pub open spec fn sets_background(self) -> bool {
        self is SetBackground
    }

    /// Whether this command prints a character.
    pub open spec fn prints(self) -> bool {
        self is Print
    }
}

/// The commands that bring the terminal to the state every sweep starts
/// from: the default colours, the cursor at the origin.
pub open spec fn clean_state(default_element: VisualElement) -> Seq<Command> {
    seq![
        Command::SetForeground(default_element.foreground.spec_code()),
        Command::SetBackground(default_element.background.spec_code()),
        Command::MoveTo(0, 0),
    ]
}

/// The commands that take the terminal over: alternate screen, attributes
/// reset, cursor hidden, clean state, raw mode, and one flush at the end.
pub open spec fn opening(default_element: VisualElement) -> Seq<Command> {
    seq![
        Command::EnterAlternateScreen,
        Command::ResetColor,
        Command::ResetAttributes,
        Command::HideCursor,
    ] + clean_state(default_element) + seq![Command::EnableRawMode, Command::Flush]
}

/// The commands that give the terminal back: raw mode off first, then the
/// cursor shown, attributes and colours reset, the alternate screen left,
/// and one flush at the end.
pub open spec fn closing() -> Seq<Command> {
    seq![
        Command::DisableRawMode,
        Command::ShowCursor,
        Command::ResetAttributes,
        Command::ResetColor,
        Command::LeaveAlternateScreen,
        Command::Flush,
    ]
}

/// The commands for one cell, given the cell swept just before it: a colour
/// is set only where it differs from that of the cell before, the character
/// is always printed.
pub open spec fn cell_commands(previous: VisualElement, element: VisualElement) -> Seq<Command> {
    let foreground = if previous.foreground != element.foreground {
        seq![Command::SetForeground(element.foreground.spec_code())]
    } else {
        Seq::empty()
    };
    let background = if previous.background != element.background {
        seq![Command::SetBackground(element.background.spec_code())]
    } else {
        Seq::empty()
    };
    foreground + background + seq![Command::Print(element.value)]
}

/// The cell swept just before the last of `cells`; for the first cell, the
/// default element stands in.
pub open spec fn before_last(cells: Seq<VisualElement>, default_element: VisualElement)
    -> VisualElement {
    if cells.len() <= 1 {
        default_element
    } else {
        cells[cells.len() - 2]
    }
}

/// The commands for a row-major pass over `cells`, starting from the clean
/// state.
pub open spec fn sweep(cells: Seq<VisualElement>, default_element: VisualElement) -> Seq<
    Command,
>
    decreases cells.len(),
{
    if cells.len() == 0 {
        Seq::empty()
    } else {
        sweep(cells.drop_last(), default_element) + cell_commands(
            before_last(cells, default_element),
            cells.last(),
        )
    }
}

/// The commands that repaint the whole canvas: clean state, the sweep, clean
/// state again, and one flush.
pub open spec fn frame(canvas: CanvasView) -> Seq<Command> {
    clean_state(canvas.default_element) + sweep(canvas.cells, canvas.default_element)
        + clean_state(canvas.default_element) + seq![Command::Flush]
}

/// How many of `commands` are of the kind that `wanted` picks.
pub open spec fn count(commands: Seq<Command>, wanted: spec_fn(Command) -> bool) -> nat
    decreases commands.len(),
{
    if commands.len() == 0 {
        0
    } else {
        count(commands.drop_last(), wanted) + if wanted(commands.last()) {
            1nat
        } else {
            0nat
        }
    }
}

/// How often the foreground colour changes along a sweep of `cells` that
/// starts from the default element's colours.
pub open spec fn foreground_changes(cells: Seq<VisualElement>, default_element: VisualElement)
    -> nat
    decreases cells.len(),
{
    if cells.len() == 0 {
        0
    } else {
        foreground_changes(cells.drop_last(), default_element) + if before_last(
            cells,
            default_element,
        ).foreground != cells.last().foreground {
            1nat
        } else {
            0nat
        }
    }
}

/// How often the background colour changes along a sweep of `cells` that
/// starts from the default element's colours.
pub open spec fn background_changes(cells: Seq<VisualElement>, default_element: VisualElement)
    -> nat
    decreases cells.len(),
{
    if cells.len() == 0 {
        0
    } else {
        background_changes(cells.drop_last(), default_element) + if before_last(
            cells,
            default_element,
        ).background != cells.last().background {
            1nat
        } else {
            0nat
        }
    }
}

/// Counting over two sequences joined is counting over each and adding up.
pub proof fn lemma_count_concat(
    first: Seq<Command>,
    second: Seq<Command>,
    wanted: spec_fn(Command) -> bool,
)
    ensures
        count(first + second, wanted) == count(first, wanted) + count(second, wanted),
    decreases second.len(),
{
    if second.len() == 0 {
        assert(first + second =~= first);
    } else {
        assert((first + second).drop_last() =~= first + second.drop_last());
        lemma_count_concat(first, second.drop_last(), wanted);
    }
}

/// The commands for one cell hold one print, and one colour command for each
/// colour in which the cell differs from the one before it.
pub proof fn lemma_cell_counts(previous: VisualElement, element: VisualElement)
    ensures
        count(cell_commands(previous, element), |c: Command| c.prints()) == 1,
        count(cell_commands(previous, element), |c: Command| c.sets_foreground()) == (if previous.foreground
            != element.foreground {
            1nat
        } else {
            0nat
        }),
        count(cell_commands(previous, element), |c: Command| c.sets_background()) == (if previous.background
            != element.background {
            1nat
        } else {
            0nat
        }),
{
    let commands = cell_commands(previous, element);
    reveal_with_fuel(count, 4);
    if previous.foreground != element.foreground {
        if previous.background != element.background {
            assert(commands =~= seq![
                Command::SetForeground(element.foreground.spec_code()),
                Command::SetBackground(element.background.spec_code()),
                Command::Print(element.value),
            ]);
            assert(commands.drop_last() =~= seq![
                Command::SetForeground(element.foreground.spec_code()),
                Command::SetBackground(element.background.spec_code()),
            ]);
            assert(commands.drop_last().drop_last() =~= seq![
                Command::SetForeground(element.foreground.spec_code()),
            ]);
        } else {
            assert(commands =~= seq![
                Command::SetForeground(element.foreground.spec_code()),
                Command::Print(element.value),
            ]);
            assert(commands.drop_last() =~= seq![
                Command::SetForeground(element.foreground.spec_code()),
            ]);
        }
    } else {
        if previous.background != element.background {
            assert(commands =~= seq![
                Command::SetBackground(element.background.spec_code()),
                Command::Print(element.value),
            ]);
            assert(commands.drop_last() =~= seq![
                Command::SetBackground(element.background.spec_code()),
            ]);
        } else {
            assert(commands =~= seq![Command::Print(element.value)]);
        }
    }
}

/// A sweep prints every cell once, and sets a colour exactly as often as
/// that colour changes from one cell to the next: the number of colour
/// commands is the number of transitions, not the number of cells.
pub proof fn lemma_sweep_sets_colors_on_change_only(
    cells: Seq<VisualElement>,
    default_element: VisualElement,
)
    ensures
        count(sweep(cells, default_element), |c: Command| c.prints()) == cells.len(),
        count(sweep(cells, default_element), |c: Command| c.sets_foreground())
            == foreground_changes(cells, default_element),
        count(sweep(cells, default_element), |c: Command| c.sets_background())
            == background_changes(cells, default_element),
    decreases cells.len(),
{
    if cells.len() > 0 {
        let rest = sweep(cells.drop_last(), default_element);
        let last = cell_commands(before_last(cells, default_element), cells.last());
        lemma_sweep_sets_colors_on_change_only(cells.drop_last(), default_element);
        lemma_cell_counts(before_last(cells, default_element), cells.last());
        lemma_count_concat(rest, last, |c: Command| c.prints());
        lemma_count_concat(rest, last, |c: Command| c.sets_foreground());
        lemma_count_concat(rest, last, |c: Command| c.sets_background());
    }
}

/// Where all cells share one foreground and one background, the colours
/// change at most once along the sweep: at the first cell, and only if it
/// differs from the default element.
pub proof fn lemma_uniform_cells_change_once(
    cells: Seq<VisualElement>,
    default_element: VisualElement,
)
    requires
        forall|i: int, j: int|
            0 <= i < cells.len() && 0 <= j < cells.len() ==> cells[i].foreground
                == cells[j].foreground && cells[i].background == cells[j].background,
    ensures
        foreground_changes(cells, default_element) == (if cells.len() > 0
            && cells[0].foreground != default_element.foreground {
            1nat
        } else {
            0nat
        }),
        background_changes(cells, default_element) == (if cells.len() > 0
            && cells[0].background != default_element.background {
            1nat
        } else {
            0nat
        }),
    decreases cells.len(),
{
    if cells.len() > 0 {
        lemma_uniform_cells_change_once(cells.drop_last(), default_element);
    }
}

/// For a canvas whose cells share one foreground and one background, the
/// sweep sets each colour at most once, however many cells there are.
pub proof fn lemma_uniform_sweep_sets_each_color_at_most_once(
    cells: Seq<VisualElement>,
    default_element: VisualElement,
)
    requires
        forall|i: int, j: int|
            0 <= i < cells.len() && 0 <= j < cells.len() ==> cells[i].foreground
                == cells[j].foreground && cells[i].background == cells[j].background,
    ensures
        count(sweep(cells, default_element), |c: Command| c.sets_foreground()) <= 1,
        count(sweep(cells, default_element), |c: Command| c.sets_background()) <= 1,
{
    lemma_sweep_sets_colors_on_change_only(cells, default_element);
    lemma_uniform_cells_change_once(cells, default_element);
}

/// A whole frame sets each colour twice for the clean state, before and
/// after the sweep, and otherwise only where the colour changes between
/// cells; it prints every cell once and flushes once, at its end.
pub proof fn lemma_frame_counts(canvas: CanvasView)
    ensures
        count(frame(canvas), |c: Command| c.prints()) == canvas.cells.len(),
        count(frame(canvas), |c: Command| c.sets_foreground()) == 2 + foreground_changes(
            canvas.cells,
            canvas.default_element,
        ),
        count(frame(canvas), |c: Command| c.sets_background()) == 2 + background_changes(
            canvas.cells,
            canvas.default_element,
        ),
        count(frame(canvas), |c: Command| c is Flush) == 1,
        frame(canvas).last() == Command::Flush,
{
    let state = clean_state(canvas.default_element);
    let cells = sweep(canvas.cells, canvas.default_element);
    let flush = seq![Command::Flush];
    lemma_sweep_sets_colors_on_change_only(canvas.cells, canvas.default_element);
    lemma_sweep_never_flushes(canvas.cells, canvas.default_element);
    assert(count(state, |c: Command| c.prints()) == 0 && count(
        state,
        |c: Command| c.sets_foreground(),
    ) == 1 && count(state, |c: Command| c.sets_background()) == 1 && count(
        state,
        |c: Command| c is Flush,
    ) == 0) by {
        reveal_with_fuel(count, 4);
        assert(state.drop_last() =~= seq![state[0], state[1]]);
        assert(state.drop_last().drop_last() =~= seq![state[0]]);
    }
    assert(count(flush, |c: Command| c.prints()) == 0 && count(
        flush,
        |c: Command| c.sets_foreground(),
    ) == 0 && count(flush, |c: Command| c.sets_background()) == 0 && count(
        flush,
        |c: Command| c is Flush,
    ) == 1) by {
        reveal_with_fuel(count, 2);
    }
    lemma_count_concat(state, cells, |c: Command| c.prints());
    lemma_count_concat(state + cells, state, |c: Command| c.prints());
    lemma_count_concat(state + cells + state, flush, |c: Command| c.prints());
    lemma_count_concat(state, cells, |c: Command| c.sets_foreground());
    lemma_count_concat(state + cells, state, |c: Command| c.sets_foreground());
    lemma_count_concat(state + cells + state, flush, |c: Command| c.sets_foreground());
    lemma_count_concat(state, cells, |c: Command| c.sets_background());
    lemma_count_concat(state + cells, state, |c: Command| c.sets_background());
    lemma_count_concat(state + cells + state, flush, |c: Command| c.sets_background());
    lemma_count_concat(state, cells, |c: Command| c is Flush);
    lemma_count_concat(state + cells, state, |c: Command| c is Flush);
    lemma_count_concat(state + cells + state, flush, |c: Command| c is Flush);
}

/// A sweep queues commands only; it never flushes.
pub proof fn lemma_sweep_never_flushes(cells: Seq<VisualElement>, default_element: VisualElement)
    ensures
        count(sweep(cells, default_element), |c: Command| c is Flush) == 0,
    decreases cells.len(),
{
    if cells.len() > 0 {
        let rest = sweep(cells.drop_last(), default_element);
        let last = cell_commands(before_last(cells, default_element), cells.last());
        lemma_sweep_never_flushes(cells.drop_last(), default_element);
        lemma_count_concat(rest, last, |c: Command| c is Flush);
        assert(count(last, |c: Command| c is Flush) == 0) by {
            reveal_with_fuel(count, 4);
            assert(last.len() <= 3);
            if last.len() >= 2 {
                assert(last.drop_last().len() == last.len() - 1);
                if last.len() == 3 {
                    assert(last.drop_last().drop_last().len() == 1);
                }
            }
        }
    }
}

} // verus!

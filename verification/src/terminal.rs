//! Cells, the canvas that holds them, and the display surface.

use vstd::prelude::*;

use crate::command::{before_last, cell_commands, clean_state, closing, frame, opening, sweep, Command};
use crate::spatial::Vec2;

verus! {

/// A colour of the 256-colour terminal palette.
#[derive(Debug, Clone, Copy, PartialEq, Eq, Structural)]
pub enum Color {
    Black,
    White,
    Grey,
    DarkGrey,
    LightGrey,
    Red,
    Green,
    Blue,
    Cyan,
    Yellow,
    Magenta,
    /// Any palette index, passed through unchanged.
    Xterm(u8),
}

impl Color {
    /// The palette index that stands for this colour.
    pub open spec fn spec_code(&self) -> u8 {
        match *self {
            Color::Black => 16,
            Color::White => 231,
            Color::Grey => 244,
            Color::DarkGrey => 238,
            Color::LightGrey => 250,
            Color::Red => 196,
            Color::Green => 46,
            Color::Blue => 21,
            Color::Cyan => 51,
            Color::Yellow => 226,
            Color::Magenta => 201,
            Color::Xterm(code) => code,
        }
    }

    /// The palette index that stands for this colour.
    #[verifier::when_used_as_spec(spec_code)]
    pub fn code(&self) -> (code: u8)
        ensures
            code == self.spec_code(),
    {
        match *self {
            Color::Black => 16,
            Color::White => 231,
            Color::Grey => 244,
            Color::DarkGrey => 238,
            Color::LightGrey => 250,
            Color::Red => 196,
            Color::Green => 46,
            Color::Blue => 21,
            Color::Cyan => 51,
            Color::Yellow => 226,
            Color::Magenta => 201,
            Color::Xterm(code) => code,
        }
    }
}

/// How the character of a cell is meant to look.  Every cell carries a
/// style, but none reaches the terminal: the display surface sends no
/// command for it.
#[derive(Debug, Clone, Copy, PartialEq, Eq, Structural)]
pub enum Style {
    Plain,
    Bold,
}

/// What one cell of the grid shows.
#[derive(Debug, Clone, Copy, PartialEq, Eq, Structural)]
pub struct VisualElement {
    pub style: Style,
    pub background: Color,
    pub foreground: Color,
    pub value: char,
}

impl VisualElement {
    /// The blank cell: a plain white space on black.
    pub open spec fn blank() -> VisualElement {
        VisualElement {
            style: Style::Plain,
            background: Color::Black,
            foreground: Color::White,
            value: ' ',
        }
    }

    /// The blank cell: a plain white space on black.
    pub fn new() -> (element: VisualElement)
        ensures
            element == Self::blank(),
    {
        VisualElement {
            style: Style::Plain,
            background: Color::Black,
            foreground: Color::White,
            value: ' ',
        }
    }
}

/// A canvas as a mathematical value: its cells row by row, its extent and
/// the cell that `clear` paints.
pub struct CanvasView {
    pub cells: Seq<VisualElement>,
    pub dimension: Vec2,
    pub default_element: VisualElement,
}

impl CanvasView {
    /// The grid has exactly one cell per position of its extent.
    pub open spec fn wf(self) -> bool {
        self.cells.len() == self.dimension.x * self.dimension.y
    }

    /// The canvas of the given extent whose cells all show `default_element`.
    pub open spec fn blank(dimension: Vec2, default_element: VisualElement) -> CanvasView {
        CanvasView {
            cells: Seq::new((dimension.x * dimension.y) as nat, |i: int| default_element),
            dimension,
            default_element,
        }
    }

    /// Whether `pos` names a cell of the grid.
    pub open spec fn contains(self, pos: Vec2) -> bool {
        0 <= pos.x < self.dimension.x && 0 <= pos.y < self.dimension.y
    }

    /// Where the cell at `pos` lies in `cells`.
    pub open spec fn index_of(self, pos: Vec2) -> int {
        pos.y * self.dimension.x + pos.x
    }

    /// The cell at `pos`, absent outside the grid.
    pub open spec fn elem(self, pos: Vec2) -> Option<VisualElement> {
        if self.contains(pos) {
            Some(self.cells[self.index_of(pos)])
        } else {
            None
        }
    }

    /// This canvas with `element` written at `pos`; unchanged if `pos` lies
    /// outside the grid.
    pub open spec fn put(self, pos: Vec2, element: VisualElement) -> CanvasView {
        if self.contains(pos) {
            CanvasView { cells: self.cells.update(self.index_of(pos), element), ..self }
        } else {
            self
        }
    }

    /// This canvas with every cell overwritten by `element`.
    pub open spec fn fill(self, element: VisualElement) -> CanvasView {
        CanvasView { cells: Seq::new(self.cells.len(), |i: int| element), ..self }
    }

    /// This canvas wiped: the blank canvas of the same extent and default
    /// element.
    pub open spec fn clear(self) -> CanvasView {
        Self::blank(self.dimension, self.default_element)
    }
}

/// Inside a `width` by `height` grid, the row-major offset of a position is
/// an offset into the `width * height` cells.
pub proof fn lemma_offset_in_grid(x: int, y: int, width: int, height: int)
    requires
        0 <= x < width,
        0 <= y < height,
    ensures
        0 <= y * width + x < width * height,
{
    assert(0 <= y * width && y * width + width <= height * width) by (nonlinear_arith)
        requires
            0 <= y < height,
            0 <= width,
    ;
    assert(height * width == width * height) by (nonlinear_arith);
}

proof fn lemma_product_fits_i64(a: int, b: int)
    requires
        -0x8000_0000 <= a < 0x8000_0000,
        -0x8000_0000 <= b < 0x8000_0000,
    ensures
        -0x4000_0000_0000_0000 <= a * b <= 0x4000_0000_0000_0000,
{
    assert(-0x4000_0000_0000_0000 <= a * b <= 0x4000_0000_0000_0000) by (nonlinear_arith)
        requires
            -0x8000_0000 <= a < 0x8000_0000,
            -0x8000_0000 <= b < 0x8000_0000,
    ;
}

/// Two positions of a grid that share a row-major offset are the same
/// position.
pub proof fn lemma_offset_is_injective(a: Vec2, b: Vec2, width: int)
    requires
        0 <= a.x < width,
        0 <= b.x < width,
        a.y * width + a.x == b.y * width + b.x,
    ensures
        a == b,
{
    assert(a.y == b.y) by (nonlinear_arith)
        requires
            0 <= a.x < width,
            0 <= b.x < width,
            a.y * width + a.x == b.y * width + b.x,
    ;
}

/// What is written to a cell is what is then read from it, and writing
/// keeps the canvas well formed.  Outside the grid there is nothing to read
/// and nothing is written, whatever the extent of the canvas, zero included.
pub proof fn lemma_put_then_elem(canvas: CanvasView, pos: Vec2, element: VisualElement)
    requires
        canvas.wf(),
    ensures
        canvas.put(pos, element).wf(),
        canvas.contains(pos) ==> canvas.put(pos, element).elem(pos) == Some(element),
        !canvas.contains(pos) ==> canvas.elem(pos) is None && canvas.put(pos, element).elem(pos)
            is None && canvas.put(pos, element) == canvas,
{
    if canvas.contains(pos) {
        lemma_offset_in_grid(
            pos.x as int,
            pos.y as int,
            canvas.dimension.x as int,
            canvas.dimension.y as int,
        );
    }
}

/// Writing to one cell leaves every other cell as it was.
pub proof fn lemma_put_keeps_other_cells(
    canvas: CanvasView,
    pos: Vec2,
    element: VisualElement,
    other: Vec2,
)
    requires
        canvas.wf(),
        other != pos,
    ensures
        canvas.put(pos, element).elem(other) == canvas.elem(other),
{
    if canvas.contains(pos) && canvas.contains(other) {
        let width = canvas.dimension.x as int;
        lemma_offset_in_grid(pos.x as int, pos.y as int, width, canvas.dimension.y as int);
        lemma_offset_in_grid(other.x as int, other.y as int, width, canvas.dimension.y as int);
        if canvas.index_of(pos) == canvas.index_of(other) {
            lemma_offset_is_injective(pos, other, width);
        }
    }
}

/// After a fill every cell of the grid reads as the element it was filled
/// with.
pub proof fn lemma_fill_then_elem(canvas: CanvasView, element: VisualElement, pos: Vec2)
    requires
        canvas.wf(),
    ensures
        canvas.fill(element).wf(),
        canvas.fill(element).elem(pos) == (if canvas.contains(pos) {
            Some(element)
        } else {
            None
        }),
{
    if canvas.contains(pos) {
        lemma_offset_in_grid(
            pos.x as int,
            pos.y as int,
            canvas.dimension.x as int,
            canvas.dimension.y as int,
        );
    }
}

/// To clear a canvas is to fill it with its default element.
pub proof fn lemma_clear_is_fill_with_default(canvas: CanvasView)
    requires
        canvas.wf(),
    ensures
        canvas.clear() == canvas.fill(canvas.default_element),
{
    assert(canvas.clear().cells =~= canvas.fill(canvas.default_element).cells);
}

/// Changing the default element repaints nothing: every cell reads as before.
pub proof fn lemma_default_element_is_not_painted(
    canvas: CanvasView,
    element: VisualElement,
    pos: Vec2,
)
    ensures
        (CanvasView { default_element: element, ..canvas }).elem(pos) == canvas.elem(pos),
{
}

/// A grid of cells, stored row by row.
pub struct Canvas {
    data: Vec<VisualElement>,
    dimension: Vec2,
    default_element: VisualElement,
}

impl View for Canvas {
    type V = CanvasView;

    closed spec fn view(&self) -> CanvasView {
        CanvasView {
            cells: self.data@,
            dimension: self.dimension,
            default_element: self.default_element,
        }
    }
}

impl Canvas {
    #[verifier::type_invariant]
    spec fn inv(self) -> bool {
        self.data@.len() == self.dimension.x * self.dimension.y
    }

    /// The extents a canvas can have: the cell count is not negative and
    /// fits the machine's index type.
    pub open spec fn fits(dimension: Vec2) -> bool {
        0 <= dimension.x * dimension.y <= usize::MAX
    }

    /// A canvas of the given extent with every cell set to `default_element`.
    pub fn new(dimension: Vec2, default_element: &VisualElement) -> (canvas: Canvas)
        requires
            Self::fits(dimension),
        ensures
            canvas@ == CanvasView::blank(dimension, *default_element),
            canvas@.wf(),
    {
        proof {
            lemma_product_fits_i64(dimension.x as int, dimension.y as int);
        }
        let area: i64 = dimension.x as i64 * dimension.y as i64;
        let mut data: Vec<VisualElement> = Vec::new();
        data.resize(area as usize, *default_element);
        assert(data@ =~= Seq::new((dimension.x * dimension.y) as nat, |i: int| *default_element));
        Canvas { data, dimension, default_element: *default_element }
    }

    /// The cell that `clear` paints.
    pub fn default_element(&self) -> (element: &VisualElement)
        ensures
            *element == self@.default_element,
    {
        &self.default_element
    }

    /// Changes the cell that `clear` paints; the cells stay as they are.
    pub fn set_default_element(&mut self, element: &VisualElement)
        ensures
            final(self)@ == (CanvasView { default_element: *element, ..old(self)@ }),
            final(self)@.wf(),
    {
        proof {
            use_type_invariant(&*self);
        }
        self.default_element = *element;
    }

    /// The extent of the grid.
    pub fn dimension(&self) -> (dimension: Vec2)
        ensures
            dimension == self@.dimension,
            self@.wf(),
    {
        proof {
            use_type_invariant(self);
        }
        self.dimension
    }

    /// Whether `pos` names a cell of the grid.
    pub fn contains(&self, pos: Vec2) -> (inside: bool)
        ensures
            inside == self@.contains(pos),
    {
        0 <= pos.x && 0 <= pos.y && pos.x < self.dimension.x && pos.y < self.dimension.y
    }

    fn offset(&self, pos: Vec2) -> (offset: usize)
        requires
            self@.contains(pos),
        ensures
            offset == self@.index_of(pos),
            offset < self@.cells.len(),
    {
        proof {
            use_type_invariant(self);
            lemma_offset_in_grid(
                pos.x as int,
                pos.y as int,
                self.dimension.x as int,
                self.dimension.y as int,
            );
            lemma_product_fits_i64(pos.y as int, self.dimension.x as int);
        }
        let cells: usize = self.data.len();
        let row: i64 = pos.y as i64 * self.dimension.x as i64;
        assert(row + pos.x < cells);
        (row + pos.x as i64) as usize
    }

    /// The cell at `pos`, absent outside the grid.
    pub fn elem(&self, pos: Vec2) -> (cell: Option<&VisualElement>)
        ensures
            match cell {
                Some(element) => self@.elem(pos) == Some(*element),
                None => self@.elem(pos) is None,
            },
            self@.wf(),
    {
        proof {
            use_type_invariant(self);
        }
        if self.contains(pos) {
            let offset: usize = self.offset(pos);
            Some(&self.data[offset])
        } else {
            None
        }
    }

    /// The cell at `pos` for writing, absent outside the grid.  What is
    /// written through the reference is what the canvas then holds at `pos`;
    /// every other cell, the extent and the default element stay.
    pub fn elem_mut(&mut self, pos: Vec2) -> (cell: Option<&mut VisualElement>)
        ensures
            match cell {
                Some(element) => old(self)@.elem(pos) == Some(*element)
                    && final(self)@ == old(self)@.put(pos, *final(element)),
                None => old(self)@.elem(pos) is None && final(self)@ == old(self)@,
            },
            final(self)@.wf(),
    {
        proof {
            use_type_invariant(&*self);
        }
        if self.contains(pos) {
            let offset: usize = self.offset(pos);
            Some(&mut self.data[offset])
        } else {
            None
        }
    }

    /// Overwrites every cell with the default element.
    pub fn clear(&mut self)
        ensures
            final(self)@ == old(self)@.clear(),
            final(self)@.wf(),
    {
        proof {
            use_type_invariant(&*self);
        }
        let element = self.default_element;
        self.fill(&element);
        assert(self@.cells =~= old(self)@.clear().cells);
    }

    /// Overwrites every cell with `elem`.
    pub fn fill(&mut self, elem: &VisualElement)
        ensures
            final(self)@ == old(self)@.fill(*elem),
            final(self)@.wf(),
    {
        proof {
            use_type_invariant(&*self);
        }
        let count: usize = self.data.len();
        let mut i: usize = 0;
        while i < count
            invariant
                i <= count,
                self.inv(),
                count == self.data@.len(),
                self.data@.len() == old(self).data@.len(),
                self.dimension == old(self).dimension,
                self.default_element == old(self).default_element,
                forall|j: int| 0 <= j < i ==> self.data@[j] == *elem,
            decreases count - i,
        {
            self.data[i] = *elem;
            i += 1;
        }
        assert(self.data@ =~= Seq::new(old(self).data@.len(), |j: int| *elem));
    }

    /// The cells, row by row.
    pub fn data(&self) -> (data: &Vec<VisualElement>)
        ensures
            data@ == self@.cells,
            self@.wf(),
    {
        proof {
            use_type_invariant(self);
        }
        &self.data
    }
}

/// A display surface as a mathematical value: its canvas, and the commands
/// it has issued that the driver has not taken yet.
pub struct WindowView {
    pub canvas: CanvasView,
    pub pending: Seq<Command>,
}

impl WindowView {
    /// The surface for a display of `display.0` columns and `display.1`
    /// rows before anything was drawn or issued.
    pub open spec fn initial(display: (u16, u16)) -> WindowView {
        WindowView {
            canvas: CanvasView::blank(
                Vec2 { x: display.0 as i32, y: display.1 as i32 },
                VisualElement::blank(),
            ),
            pending: Seq::empty(),
        }
    }

    /// This surface after issuing `commands`.
    pub open spec fn issue(self, commands: Seq<Command>) -> WindowView {
        WindowView { pending: self.pending + commands, ..self }
    }

    /// This surface with its canvas wiped for a display of the given size:
    /// rebuilt where the size changed, its cells overwritten where it did
    /// not.  Either way the canvas is blank, has the display's extent and
    /// keeps its default element.
    pub open spec fn clear(self, display: (u16, u16)) -> WindowView {
        WindowView {
            canvas: CanvasView::blank(
                Vec2 { x: display.0 as i32, y: display.1 as i32 },
                self.canvas.default_element,
            ),
            ..self
        }
    }
}

/// After a clear the canvas has the extent of the display, whatever extent
/// it had before, keeps its default element, and shows that element in
/// every cell: what was drawn is gone.  The commands still pending stay.
pub proof fn lemma_clear_fits_display(window: WindowView, display: (u16, u16), pos: Vec2)
    ensures
        window.clear(display).canvas.wf(),
        window.clear(display).canvas.dimension == (Vec2 {
            x: display.0 as i32,
            y: display.1 as i32,
        }),
        window.clear(display).canvas.default_element == window.canvas.default_element,
        window.clear(display).canvas.elem(pos) == (if window.clear(display).canvas.contains(pos) {
            Some(window.canvas.default_element)
        } else {
            None
        }),
        window.clear(display).pending == window.pending,
{
    lemma_display_fits(display);
    let cleared = window.clear(display).canvas;
    if cleared.contains(pos) {
        lemma_offset_in_grid(
            pos.x as int,
            pos.y as int,
            cleared.dimension.x as int,
            cleared.dimension.y as int,
        );
    }
}

/// The display surface: a canvas the size of the display, and the commands
/// that bring the terminal in line with it.
pub struct Window {
    canvas: Canvas,
    target: Vec<Command>,
}

impl View for Window {
    type V = WindowView;

    closed spec fn view(&self) -> WindowView {
        WindowView { canvas: self.canvas@, pending: self.target@ }
    }
}

impl Window {
    /// A surface for a display of `display.0` columns and `display.1` rows,
    /// with a blank canvas and nothing issued.
    pub fn new(display: (u16, u16)) -> (window: Window)
        ensures
            window@ == WindowView::initial(display),
    {
        let dimension = Vec2::xy(display.0 as i32, display.1 as i32);
        proof {
            lemma_display_fits(display);
        }
        Window { canvas: Canvas::new(dimension, &VisualElement::new()), target: Vec::new() }
    }

    /// The canvas.
    pub fn canvas(&self) -> (canvas: &Canvas)
        ensures
            canvas@ == self@.canvas,
    {
        &self.canvas
    }

    /// The canvas, for drawing on.  The surface then holds whatever canvas
    /// the caller leaves behind the reference.
    pub fn canvas_mut(&mut self) -> (canvas: &mut Canvas)
        ensures
            canvas@ == old(self)@.canvas,
            final(self)@ == (WindowView { canvas: final(canvas)@, ..old(self)@ }),
    {
        &mut self.canvas
    }

    /// The extent of the canvas.
    pub fn size(&self) -> (size: Vec2)
        ensures
            size == self@.canvas.dimension,
    {
        self.canvas.dimension()
    }

    /// The commands issued and not yet taken, oldest first.
    pub fn commands(&self) -> (commands: &Vec<Command>)
        ensures
            commands@ == self@.pending,
    {
        &self.target
    }

    /// Hands the issued commands to the caller, oldest first, and leaves
    /// none pending.
    pub fn take_commands(&mut self) -> (commands: Vec<Command>)
        ensures
            commands@ == old(self)@.pending,
            final(self)@ == (WindowView { pending: Seq::empty(), ..old(self)@ }),
    {
        let mut commands: Vec<Command> = Vec::new();
        std::mem::swap(&mut commands, &mut self.target);
        commands
    }

    /// Takes the terminal over.
    pub fn open(&mut self)
        ensures
            final(self)@ == old(self)@.issue(opening(old(self)@.canvas.default_element)),
    {
        self.target.push(Command::EnterAlternateScreen);
        self.target.push(Command::ResetColor);
        self.target.push(Command::ResetAttributes);
        self.target.push(Command::HideCursor);
        self.clean_state();
        self.raw_mode(true);
        self.target.push(Command::Flush);
        assert(self.target@ =~= old(self).target@ + opening(self.canvas@.default_element));
    }

    /// Switches raw input mode on or off.
    pub fn raw_mode(&mut self, enable: bool)
        ensures
            final(self)@ == old(self)@.issue(
                seq![if enable { Command::EnableRawMode } else { Command::DisableRawMode }],
            ),
    {
        if enable {
            self.target.push(Command::EnableRawMode);
        } else {
            self.target.push(Command::DisableRawMode);
        }
        assert(self.target@ =~= old(self).target@ + seq![
            if enable { Command::EnableRawMode } else { Command::DisableRawMode },
        ]);
    }

    /// Gives the terminal back.  May be called again after it has been
    /// called: it issues the same commands each time.
    pub fn close(&mut self)
        ensures
            final(self)@ == old(self)@.issue(closing()),
    {
        self.raw_mode(false);
        self.target.push(Command::ShowCursor);
        self.target.push(Command::ResetAttributes);
        self.target.push(Command::ResetColor);
        self.target.push(Command::LeaveAlternateScreen);
        self.target.push(Command::Flush);
        assert(self.target@ =~= old(self).target@ + closing());
    }

    /// Wipes the canvas for a display of `display.0` columns and `display.1`
    /// rows.  Where the canvas has another extent it is rebuilt at the
    /// display's, with the same default element and its cells discarded;
    /// where it has the same, every cell is overwritten with the default
    /// element.
    pub fn clear(&mut self, display: (u16, u16))
        ensures
            final(self)@ == old(self)@.clear(display),
    {
        let size = Vec2::xy(display.0 as i32, display.1 as i32);
        if self.canvas.dimension() != size {
            proof {
                lemma_display_fits(display);
            }
            self.canvas = Canvas::new(size, self.canvas.default_element());
        } else {
            self.canvas.clear();
        }
    }

    /// Repaints the whole canvas: every cell is printed, a colour is set
    /// only where it changes from one cell to the next, and the output is
    /// flushed once at the end.
    pub fn draw(&mut self)
        ensures
            final(self)@ == old(self)@.issue(frame(old(self)@.canvas)),
    {
        self.clean_state();
        let ghost default_element = self.canvas@.default_element;
        let ghost start = self.target@;
        let mut last_foreground = self.canvas.default_element().foreground;
        let mut last_background = self.canvas.default_element().background;
        let count: usize = self.canvas.data().len();
        let mut i: usize = 0;
        while i < count
            invariant
                i <= count,
                count == self.canvas@.cells.len(),
                self.canvas@ == old(self).canvas@,
                default_element == self.canvas@.default_element,
                self.target@ == start + sweep(self.canvas@.cells.take(i as int), default_element),
                last_foreground == (if i == 0 {
                    default_element
                } else {
                    self.canvas@.cells[i - 1]
                }).foreground,
                last_background == (if i == 0 {
                    default_element
                } else {
                    self.canvas@.cells[i - 1]
                }).background,
            decreases count - i,
        {
            let element = self.canvas.data()[i];
            let ghost before = self.target@;
            if last_foreground != element.foreground {
                self.target.push(Command::SetForeground(element.foreground.code()));
                last_foreground = element.foreground;
            }
            if last_background != element.background {
                self.target.push(Command::SetBackground(element.background.code()));
                last_background = element.background;
            }
            self.target.push(Command::Print(element.value));
            proof {
                let cells = self.canvas@.cells;
                let swept = cells.take(i + 1);
                assert(swept.drop_last() =~= cells.take(i as int));
                assert(swept.last() == element);
                assert(self.target@ =~= before + cell_commands(
                    before_last(swept, default_element),
                    element,
                ));
            }
            i += 1;
        }
        assert(self.canvas@.cells.take(count as int) =~= self.canvas@.cells);
        self.clean_state();
        self.target.push(Command::Flush);
        assert(self.target@ =~= old(self).target@ + frame(self.canvas@));
    }

    fn clean_state(&mut self)
        ensures
            final(self)@ == old(self)@.issue(clean_state(old(self)@.canvas.default_element)),
    {
        let foreground: u8 = self.canvas.default_element().foreground.code();
        let background: u8 = self.canvas.default_element().background.code();
        self.target.push(Command::SetForeground(foreground));
        self.target.push(Command::SetBackground(background));
        self.target.push(Command::MoveTo(0, 0));
        assert(self.target@ =~= old(self).target@ + clean_state(self.canvas@.default_element));
    }
}

/// Every display size a terminal can report is an extent a canvas can have.
pub proof fn lemma_display_fits(display: (u16, u16))
    ensures
        Canvas::fits(Vec2 { x: display.0 as i32, y: display.1 as i32 }),
{
    let x = display.0 as int;
    let y = display.1 as int;
    assert(0 <= x * y <= 0xffff * 0xffff) by (nonlinear_arith)
        requires
            0 <= x <= 0xffff,
            0 <= y <= 0xffff,
    ;
}

} // verus!

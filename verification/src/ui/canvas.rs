//! What is drawn, as plain values: styled text, windows and tables, and where they go.
use crate::model::Duplicate;
use crate::text::{self, lines_of};
use ratatui::layout::{self, Constraint, Layout};
use vstd::prelude::*;

verus! {

/// A color of the terminal.
#[derive(Debug, Clone, Copy, PartialEq, Eq, Structural)]
pub enum Color {
    Black,
    Red,
    Green,
    Yellow,
    Blue,
    Magenta,
    Cyan,
    Gray,
    DarkGray,
    LightRed,
    LightGreen,
    LightYellow,
    LightBlue,
    LightMagenta,
    LightCyan,
    White,
}

/// Colors and weight of a text.
#[derive(Debug, Clone, Copy, PartialEq, Eq, Structural)]
pub struct Style {
    pub fg: Option<Color>,
    pub bg: Option<Color>,
    pub bold: bool,
    pub reversed: bool,
}

impl Style {
    /// A text as it comes.
    pub open spec fn plain() -> Style {
        Style { fg: None, bg: None, bold: false, reversed: false }
    }

    /// Returns the style of a text as it comes.
    pub fn new() -> (r: Style)
        ensures
            r == Style::plain(),
    {
        Style { fg: None, bg: None, bold: false, reversed: false }
    }

    /// In another color.
    pub open spec fn colored(self, color: Color) -> Style {
        Style { fg: Some(color), ..self }
    }

    /// Returns the style in another color.
    pub fn fg(self, color: Color) -> (r: Style)
        ensures
            r == self.colored(color),
    {
        Style { fg: Some(color), bg: self.bg, bold: self.bold, reversed: self.reversed }
    }

    /// On another background.
    pub open spec fn on(self, color: Color) -> Style {
        Style { bg: Some(color), ..self }
    }

    /// Returns the style on another background.
    pub fn bg(self, color: Color) -> (r: Style)
        ensures
            r == self.on(color),
    {
        Style { fg: self.fg, bg: Some(color), bold: self.bold, reversed: self.reversed }
    }

    /// In bold.
    pub open spec fn strong(self) -> Style {
        Style { bold: true, ..self }
    }

    /// Returns the style in bold.
    pub fn bold(self) -> (r: Style)
        ensures
            r == self.strong(),
    {
        Style { fg: self.fg, bg: self.bg, bold: true, reversed: self.reversed }
    }

    /// With the color and the background swapped.
    pub open spec fn inverted(self) -> Style {
        Style { reversed: true, ..self }
    }

    /// Returns the style with the color and the background swapped.
    pub fn invert(self) -> (r: Style)
        ensures
            r == self.inverted(),
    {
        Style { fg: self.fg, bg: self.bg, bold: self.bold, reversed: true }
    }
}

/// An area of the screen.
#[derive(Debug, Clone, Copy, PartialEq, Eq, Structural)]
pub struct Rect {
    pub x: u16,
    pub y: u16,
    pub width: u16,
    pub height: u16,
}

impl Rect {
    /// Returns an area, cut off where the coordinates end.
    pub fn new(x: u16, y: u16, width: u16, height: u16) -> (r: Rect)
        ensures
            r.x == x,
            r.y == y,
            r.width == (if width > u16::MAX - x {
                u16::MAX - x
            } else {
                width as int
            }),
            r.height == (if height > u16::MAX - y {
                u16::MAX - y
            } else {
                height as int
            }),
    {
        let max_width: u16 = u16::MAX - x;
        let max_height: u16 = u16::MAX - y;
        Rect {
            x,
            y,
            width: if width > max_width {
                max_width
            } else {
                width
            },
            height: if height > max_height {
                max_height
            } else {
                height
            },
        }
    }

    /// Whether an area lies within another.
    pub open spec fn within(self, outer: Rect) -> bool {
        &&& outer.x <= self.x
        &&& self.x + self.width <= outer.x + outer.width
        &&& outer.y <= self.y
        &&& self.y + self.height <= outer.y + outer.height
    }
}

/// How long lines are broken.
#[derive(Debug, Clone, Copy, PartialEq, Eq, Structural)]
pub enum WrapMode {
    /// Not at all.
    Off,
    /// With the white space at the start of a line kept.
    Keep,
    /// With the white space at the start of a line left out.
    Trim,
}

/// The width of a column.
#[derive(Debug, Clone, Copy, PartialEq, Eq, Structural)]
pub enum Width {
    Length(u16),
    Min(u16),
}

/// A piece of text in one style.
#[derive(Debug)]
pub struct Span {
    pub content: String,
    pub style: Style,
}

/// What a [`Span`] holds.
#[verifier::ext_equal]
pub struct SpanView {
    pub content: Seq<char>,
    pub style: Style,
}

impl DeepView for Span {
    type V = SpanView;

    open spec fn deep_view(&self) -> SpanView {
        SpanView {
            content: self.content@,
            style: self.style,
        }
    }
}

impl Clone for Span {
    fn clone(&self) -> (r: Self)
        ensures
            r.deep_view() == self.deep_view(),
    {
        Span {
            content: self.content.clone(),
            style: self.style,
        }
    }
}

impl Duplicate for Span {
    fn duplicate(&self) -> (r: Self) {
        self.clone()
    }
}

/// A line of text.
#[derive(Debug)]
pub struct Line {
    pub spans: Vec<Span>,
}

/// What a [`Line`] holds.
#[verifier::ext_equal]
pub struct LineView {
    pub spans: Seq<SpanView>,
}

impl DeepView for Line {
    type V = LineView;

    open spec fn deep_view(&self) -> LineView {
        LineView {
            spans: self.spans.deep_view(),
        }
    }
}

impl Clone for Line {
    fn clone(&self) -> (r: Self)
        ensures
            r.deep_view() == self.deep_view(),
    {
        Line {
            spans: self.spans.duplicate(),
        }
    }
}

impl Duplicate for Line {
    fn duplicate(&self) -> (r: Self) {
        self.clone()
    }
}

/// What a cell of a table shows.
#[derive(Debug)]
pub enum CellContent {
    Text(String),
    Styled(Line),
}

/// What a [`CellContent`] holds.
#[verifier::ext_equal]
pub enum CellContentView {
    Text(Seq<char>),
    Styled(LineView),
}

impl DeepView for CellContent {
    type V = CellContentView;

    open spec fn deep_view(&self) -> CellContentView {
        match self {
            CellContent::Text(a) => CellContentView::Text(a@),
            CellContent::Styled(a) => CellContentView::Styled(a.deep_view()),
        }
    }
}

impl Clone for CellContent {
    fn clone(&self) -> (r: Self)
        ensures
            r.deep_view() == self.deep_view(),
    {
        match self {
            CellContent::Text(a) => CellContent::Text(a.clone()),
            CellContent::Styled(a) => CellContent::Styled(a.duplicate()),
        }
    }
}

impl Duplicate for CellContent {
    fn duplicate(&self) -> (r: Self) {
        self.clone()
    }
}

/// A cell of a table.
#[derive(Debug)]
pub struct Cell {
    pub content: CellContent,
    pub style: Style,
}

/// What a [`Cell`] holds.
#[verifier::ext_equal]
pub struct CellView {
    pub content: CellContentView,
    pub style: Style,
}

impl DeepView for Cell {
    type V = CellView;

    open spec fn deep_view(&self) -> CellView {
        CellView {
            content: self.content.deep_view(),
            style: self.style,
        }
    }
}

impl Clone for Cell {
    fn clone(&self) -> (r: Self)
        ensures
            r.deep_view() == self.deep_view(),
    {
        Cell {
            content: self.content.duplicate(),
            style: self.style,
        }
    }
}

impl Duplicate for Cell {
    fn duplicate(&self) -> (r: Self) {
        self.clone()
    }
}

/// A row of a table, with the space that follows it.
#[derive(Debug)]
pub struct TableRow {
    pub cells: Vec<Cell>,
    pub style: Style,
    pub bottom_margin: u16,
}

/// What a [`TableRow`] holds.
#[verifier::ext_equal]
pub struct TableRowView {
    pub cells: Seq<CellView>,
    pub style: Style,
    pub bottom_margin: u16,
}

impl DeepView for TableRow {
    type V = TableRowView;

    open spec fn deep_view(&self) -> TableRowView {
        TableRowView {
            cells: self.cells.deep_view(),
            style: self.style,
            bottom_margin: self.bottom_margin,
        }
    }
}

impl Clone for TableRow {
    fn clone(&self) -> (r: Self)
        ensures
            r.deep_view() == self.deep_view(),
    {
        TableRow {
            cells: self.cells.duplicate(),
            style: self.style,
            bottom_margin: self.bottom_margin,
        }
    }
}

impl Duplicate for TableRow {
    fn duplicate(&self) -> (r: Self) {
        self.clone()
    }
}

/// A window with lines of text; `clear` tells that it covers what is below it.
#[derive(Debug)]
pub struct Panel {
    pub area: Rect,
    pub clear: bool,
    pub title: String,
    pub wrap: WrapMode,
    pub lines: Vec<Line>,
}

/// What a [`Panel`] holds.
#[verifier::ext_equal]
pub struct PanelView {
    pub area: Rect,
    pub clear: bool,
    pub title: Seq<char>,
    pub wrap: WrapMode,
    pub lines: Seq<LineView>,
}

impl DeepView for Panel {
    type V = PanelView;

    open spec fn deep_view(&self) -> PanelView {
        PanelView {
            area: self.area,
            clear: self.clear,
            title: self.title@,
            wrap: self.wrap,
            lines: self.lines.deep_view(),
        }
    }
}

/// A window with a table; `clear` tells that it covers what is below it.
#[derive(Debug)]
pub struct Grid {
    pub area: Rect,
    pub clear: bool,
    pub title: String,
    pub header: TableRow,
    pub rows: Vec<TableRow>,
    pub widths: Vec<Width>,
    pub highlight: Style,
}

/// What a [`Grid`] holds.
#[verifier::ext_equal]
pub struct GridView {
    pub area: Rect,
    pub clear: bool,
    pub title: Seq<char>,
    pub header: TableRowView,
    pub rows: Seq<TableRowView>,
    pub widths: Seq<Width>,
    pub highlight: Style,
}

impl DeepView for Grid {
    type V = GridView;

    open spec fn deep_view(&self) -> GridView {
        GridView {
            area: self.area,
            clear: self.clear,
            title: self.title@,
            header: self.header.deep_view(),
            rows: self.rows.deep_view(),
            widths: self.widths@,
            highlight: self.highlight,
        }
    }
}

/// A window.
#[derive(Debug)]
pub enum Widget {
    Panel(Panel),
    Grid(Grid),
}

/// What a [`Widget`] holds.
#[verifier::ext_equal]
pub enum WidgetView {
    Panel(PanelView),
    Grid(GridView),
}

impl DeepView for Widget {
    type V = WidgetView;

    open spec fn deep_view(&self) -> WidgetView {
        match self {
            Widget::Panel(a) => WidgetView::Panel(a.deep_view()),
            Widget::Grid(a) => WidgetView::Grid(a.deep_view()),
        }
    }
}

/// A piece of text in a style.
pub open spec fn styled(content: Seq<char>, style: Style) -> SpanView {
    SpanView { content, style }
}

/// A piece of text as it comes.
pub open spec fn raw(content: Seq<char>) -> SpanView {
    SpanView { content, style: Style::plain() }
}

/// A line from a text: its lines, one after the other.
pub open spec fn text_line(content: Seq<char>) -> LineView {
    LineView {
        spans: Seq::new(text::lines(content).len(), |i: int| raw(text::lines(content)[i])),
    }
}

/// A line of one piece of text in a style.
pub open spec fn styled_line(content: Seq<char>, style: Style) -> LineView {
    LineView { spans: seq![styled(content, style)] }
}

/// A line of some pieces of text.
pub open spec fn line_of(spans: Seq<SpanView>) -> LineView {
    LineView { spans }
}

impl Span {
    /// Returns a piece of text in a style.
    pub fn styled(content: &str, style: Style) -> (r: Span)
        ensures
            r.deep_view() == styled(content@, style),
    {
        Span { content: content.to_owned(), style }
    }

    /// Returns a piece of text as it comes.
    pub fn raw(content: &str) -> (r: Span)
        ensures
            r.deep_view() == raw(content@),
    {
        Span { content: content.to_owned(), style: Style::new() }
    }
}

impl Line {
    /// Returns a line from a text: its lines, one after the other.
    pub fn raw(content: &str) -> (r: Line)
        ensures
            r.deep_view() == text_line(content@),
    {
        let parts = lines_of(content);
        let mut spans: Vec<Span> = Vec::new();
        for i in 0..parts.len()
            invariant
                spans.len() == i,
                forall|j: int|
                    0 <= j < i ==> (#[trigger] spans@[j]).deep_view() == raw(parts@[j]@),
        {
            spans.push(Span::raw(parts[i].as_str()));
        }
        assert(parts.deep_view() == text::lines(content@));
        assert forall|j: int| 0 <= j < spans.len() implies #[trigger] spans.deep_view()[j]
            == text_line(content@).spans[j] by {
            assert(spans@[j].deep_view() == raw(parts@[j]@));
            assert(parts.deep_view()[j] == parts@[j]@);
        }
        assert(spans.deep_view() =~= text_line(content@).spans);
        Line { spans }
    }

    /// Returns a line of one piece of text in a style.
    pub fn styled(content: &str, style: Style) -> (r: Line)
        ensures
            r.deep_view() == styled_line(content@, style),
    {
        let spans = vec![Span::styled(content, style)];
        assert(spans.deep_view() =~= seq![styled(content@, style)]);
        Line { spans }
    }

    /// Returns a line of some pieces of text.
    pub fn from_spans(spans: Vec<Span>) -> (r: Line)
        ensures
            r.deep_view() == line_of(spans.deep_view()),
    {
        Line { spans }
    }
}

/// Appends a line.
pub fn push_line(lines: &mut Vec<Line>, line: Line)
    ensures
        final(lines).deep_view() == old(lines).deep_view().push(line.deep_view()),
{
    let ghost before = lines.deep_view();
    lines.push(line);
    assert(lines.deep_view() =~= before.push(line.deep_view()));
}

/// What follows the first `n` items.
pub open spec fn dropped<A>(items: Seq<A>, n: int) -> Seq<A> {
    if n >= items.len() {
        seq![]
    } else {
        items.skip(n)
    }
}

/// Returns what follows the first `n` lines.
pub fn drop_lines(lines: Vec<Line>, n: usize) -> (r: Vec<Line>)
    ensures
        r.deep_view() == dropped(lines.deep_view(), n as int),
{
    let ghost all = lines.deep_view();
    let mut lines = lines;
    if n >= lines.len() {
        let r: Vec<Line> = Vec::new();
        assert(r.deep_view() =~= seq![]);
        r
    } else {
        let r = lines.split_off(n);
        assert(r.deep_view() =~= all.skip(n as int));
        r
    }
}

/// The lines of some texts.
pub open spec fn text_lines(texts: Seq<Seq<char>>) -> Seq<LineView> {
    Seq::new(texts.len(), |i: int| text_line(texts[i]))
}

/// Appends the lines of some texts.
pub fn push_texts(lines: &mut Vec<Line>, texts: &Vec<String>)
    ensures
        final(lines).deep_view() == old(lines).deep_view() + text_lines(texts.deep_view()),
{
    let ghost before = lines.deep_view();
    let ghost more = text_lines(texts.deep_view());
    assert(before + more.take(0) =~= before);
    for i in 0..texts.len()
        invariant
            more == text_lines(texts.deep_view()),
            lines.deep_view() == before + more.take(i as int),
    {
        push_line(lines, Line::raw(texts[i].as_str()));
        assert(more.take(i + 1) =~= more.take(i as int).push(more[i as int]));
        assert(lines.deep_view() =~= before + more.take(i + 1));
    }
    assert(more.take(texts.len() as int) =~= more);
}

/// A row of plain cells.
pub open spec fn text_cells(texts: Seq<Seq<char>>) -> Seq<CellView> {
    Seq::new(texts.len(), |i: int| text_cell(texts[i], Style::plain()))
}

/// A cell with a text.
pub open spec fn text_cell(content: Seq<char>, style: Style) -> CellView {
    CellView { content: CellContentView::Text(content), style }
}

impl Cell {
    /// Returns a cell with a text.
    pub fn text(content: &str, style: Style) -> (r: Cell)
        ensures
            r.deep_view() == text_cell(content@, style),
    {
        Cell { content: CellContent::Text(content.to_owned()), style }
    }

    /// Returns a cell with a line.
    pub fn line(line: Line) -> (r: Cell)
        ensures
            r.deep_view() == (CellView {
                content: CellContentView::Styled(line.deep_view()),
                style: Style::plain(),
            }),
    {
        Cell { content: CellContent::Styled(line), style: Style::new() }
    }
}

/// The direction in which an area is divided.
#[derive(Debug, Clone, Copy, PartialEq, Eq, Structural)]
pub enum Direction {
    Horizontal,
    Vertical,
}

/// The share of an area that a part gets.
#[derive(Debug, Clone, Copy, PartialEq, Eq, Structural)]
pub enum Share {
    Length(u16),
    Min(u16),
    Percentage(u16),
}

impl Rect {
    /// Whether an area reaches across another one, seen in a direction.
    pub open spec fn spans(self, direction: Direction, outer: Rect) -> bool {
        match direction {
            Direction::Horizontal => self.y == outer.y && self.height == outer.height,
            Direction::Vertical => self.x == outer.x && self.width == outer.width,
        }
    }
}

/// Whether an area may be divided into some parts. The solver that divides walks hash maps
/// whose order differs from process to process, so nothing is said of two divisions of the
/// same area being the same.
pub uninterp spec fn may_divide(
    direction: Direction,
    area: Rect,
    shares: Seq<Share>,
    parts: Seq<Rect>,
) -> bool;

/// Calls `ratatui::layout::Layout::split`. The claim: there is a part for each share, the
/// parts lie within the area, and across the direction they reach from edge to edge. What
/// the shares amount to is left to the solver.
#[verifier::external_body]
fn split_area(direction: Direction, area: Rect, shares: &Vec<Share>) -> (r: Vec<Rect>)
    ensures
        may_divide(direction, area, shares@, r@),
        r.len() == shares.len(),
        forall|i: int| 0 <= i < r.len() ==> (#[trigger] r@[i]).within(area),
        forall|i: int| 0 <= i < r.len() ==> (#[trigger] r@[i]).spans(direction, area),
{
    let direction = match direction {
        Direction::Horizontal => layout::Direction::Horizontal,
        Direction::Vertical => layout::Direction::Vertical,
    };
    let constraints = shares.iter().map(|share| match share {
        Share::Length(n) => Constraint::Length(*n),
        Share::Min(n) => Constraint::Min(*n),
        Share::Percentage(n) => Constraint::Percentage(*n),
    });
    let area = layout::Rect { x: area.x, y: area.y, width: area.width, height: area.height };
    let parts = Layout::default().direction(direction).constraints(constraints).split(area);
    parts.iter().map(|a| Rect { x: a.x, y: a.y, width: a.width, height: a.height }).collect()
}

/// Divides an area among some shares.
pub fn divide(direction: Direction, area: Rect, shares: &Vec<Share>) -> (r: Vec<Rect>)
    ensures
        may_divide(direction, area, shares@, r@),
        r.len() == shares.len(),
        forall|i: int| 0 <= i < r.len() ==> (#[trigger] r@[i]).within(area),
        forall|i: int| 0 <= i < r.len() ==> (#[trigger] r@[i]).spans(direction, area),
{
    split_area(direction, area, shares)
}

} // verus!

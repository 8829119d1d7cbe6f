//! What is drawn on the screen, as plain values: styles, texts, widgets, and where each
//! widget stands.

use vstd::prelude::*;
use vstd::string::*;

verus! {

/// A colour of the terminal.
#[derive(Debug, Clone, Copy, PartialEq, Eq, Structural)]
pub enum Color {
    Black,
    Red,
    Green,
    Yellow,
    Blue,
    Magenta,
    Cyan,
    Gray,
    DarkGray,
    White,
}

/// A rectangle of character cells.
#[derive(Debug, Clone, Copy, PartialEq, Eq, Structural)]
pub struct Area {
    pub x: u16,
    pub y: u16,
    pub width: u16,
    pub height: u16,
}

/// The direction along which an area is divided.
#[derive(Debug, Clone, Copy, PartialEq, Eq, Structural)]
pub enum Direction {
    Horizontal,
    Vertical,
}

impl Direction {
    /// Where an area begins along the direction.
    pub open spec fn start(self, area: Area) -> int {
        match self {
            Direction::Horizontal => area.x as int,
            Direction::Vertical => area.y as int,
        }
    }

    /// How long an area is along the direction.
    pub open spec fn length(self, area: Area) -> int {
        match self {
            Direction::Horizontal => area.width as int,
            Direction::Vertical => area.height as int,
        }
    }
}

/// How much of a divided area a part gets.
#[derive(Debug, Clone, Copy, PartialEq, Eq, Structural)]
pub enum Constraint {
    Length(u16),
    Min(u16),
    Percentage(u16),
}

/// How a text looks; what is not set is as the terminal has it.
#[derive(Debug, Clone, Copy, PartialEq, Eq, Structural)]
pub struct Style {
    pub fg: Option<Color>,
    pub bg: Option<Color>,
    pub bold: bool,
}

/// The style in which nothing is set.
pub open spec fn unstyled() -> Style {
    Style { fg: None, bg: None, bold: false }
}

/// The style that sets a colour.
pub open spec fn colored(c: Color) -> Style {
    Style { fg: Some(c), bg: None, bold: false }
}

/// The style that sets a colour, in bold.
pub open spec fn bold(c: Color) -> Style {
    Style { fg: Some(c), bg: None, bold: true }
}

/// The style that sets a colour on another, in bold.
pub open spec fn bold_on(c: Color, bg: Color) -> Style {
    Style { fg: Some(c), bg: Some(bg), bold: true }
}

impl Style {
    /// The style in which nothing is set.
    pub fn none() -> (s: Style)
        ensures
            s == unstyled(),
    {
        Style { fg: None, bg: None, bold: false }
    }

    /// The style that sets a colour.
    pub fn color(c: Color) -> (s: Style)
        ensures
            s == colored(c),
    {
        Style { fg: Some(c), bg: None, bold: false }
    }

    /// The style that sets a colour, in bold.
    pub fn strong(c: Color) -> (s: Style)
        ensures
            s == bold(c),
    {
        Style { fg: Some(c), bg: None, bold: true }
    }

    /// The style that sets a colour on another, in bold.
    pub fn strong_on(c: Color, bg: Color) -> (s: Style)
        ensures
            s == bold_on(c, bg),
    {
        Style { fg: Some(c), bg: Some(bg), bold: true }
    }
}

/// A piece of text in one style.
#[derive(Debug, PartialEq, Eq)]
pub struct Span {
    pub text: String,
    pub style: Style,
}

/// What a piece of text says, and its style.
#[verifier::ext_equal]
pub struct SpanView {
    pub text: Seq<char>,
    pub style: Style,
}

impl View for Span {
    type V = SpanView;

    open spec fn view(&self) -> SpanView {
        SpanView { text: self.text@, style: self.style }
    }
}

/// What some pieces of text say.
pub open spec fn span_views(v: Seq<Span>) -> Seq<SpanView> {
    v.map_values(|s: Span| s@)
}

/// A text and its style.
pub open spec fn styled(text: Seq<char>, style: Style) -> SpanView {
    SpanView { text, style }
}

impl Span {
    /// A text and its style.
    pub fn styled(text: String, style: Style) -> (s: Span)
        ensures
            s@ == styled(text@, style),
    {
        Span { text, style }
    }

    /// A text without a style of its own.
    pub fn raw(text: &str) -> (s: Span)
        ensures
            s@ == styled(text@, unstyled()),
    {
        Span { text: text.to_owned(), style: Style::none() }
    }
}

/// A line of text: one text in one style, or some pieces.
#[derive(Debug, PartialEq, Eq)]
pub enum Line {
    Plain(Span),
    Spans(Vec<Span>),
}

/// What a line says.
#[verifier::ext_equal]
pub enum LineView {
    Plain(SpanView),
    Spans(Seq<SpanView>),
}

impl View for Line {
    type V = LineView;

    open spec fn view(&self) -> LineView {
        match self {
            Line::Plain(s) => LineView::Plain(s@),
            Line::Spans(v) => LineView::Spans(span_views(v@)),
        }
    }
}

/// What some lines say.
pub open spec fn line_views(v: Seq<Line>) -> Seq<LineView> {
    v.map_values(|l: Line| l@)
}

/// A line without a style of its own.
pub open spec fn raw_line(text: Seq<char>) -> LineView {
    LineView::Plain(styled(text, unstyled()))
}

/// A line in one style.
pub open spec fn styled_line(text: Seq<char>, style: Style) -> LineView {
    LineView::Plain(styled(text, style))
}

impl Line {
    /// A line without a style of its own.
    pub fn raw(text: &str) -> (l: Line)
        ensures
            l@ == raw_line(text@),
    {
        Line::Plain(Span::raw(text))
    }

    /// A line in one style.
    pub fn styled(text: &str, style: Style) -> (l: Line)
        ensures
            l@ == styled_line(text@, style),
    {
        Line::Plain(Span::styled(text.to_owned(), style))
    }
}

/// A frame around a widget, with a title.
#[derive(Debug, PartialEq, Eq)]
pub struct Block {
    pub title: Span,
    pub border: Style,
}

/// What the title of a frame says, and the styles.
#[verifier::ext_equal]
pub struct BlockView {
    pub title: SpanView,
    pub border: Style,
}

impl View for Block {
    type V = BlockView;

    open spec fn view(&self) -> BlockView {
        BlockView { title: self.title@, border: self.border }
    }
}

/// A frame with a title, and the style of its border.
pub open spec fn framed(title: Seq<char>, border: Style) -> BlockView {
    BlockView { title: styled(title, unstyled()), border }
}

impl Block {
    /// A frame with a title, and the style of its border.
    pub fn framed(title: &str, border: Style) -> (b: Block)
        ensures
            b@ == framed(title@, border),
    {
        Block { title: Span::raw(title), border }
    }
}

/// The text of a paragraph: one text with its line breaks, or lines.
#[derive(Debug, PartialEq, Eq)]
pub enum Text {
    Plain(String),
    Lines(Vec<Line>),
}

/// What the text of a paragraph says.
#[verifier::ext_equal]
pub enum TextView {
    Plain(Seq<char>),
    Lines(Seq<LineView>),
}

impl View for Text {
    type V = TextView;

    open spec fn view(&self) -> TextView {
        match self {
            Text::Plain(s) => TextView::Plain(s@),
            Text::Lines(v) => TextView::Lines(line_views(v@)),
        }
    }
}

/// Which of the two lists a widget shows: each has a selection of its own.
#[derive(Debug, Clone, Copy, PartialEq, Eq, Structural)]
pub enum Listing {
    Downloads,
    Results,
}

/// Something to be drawn. A paragraph wraps its lines where `wrap` says so, with or
/// without the white space that a line begins with.
#[derive(Debug, PartialEq, Eq)]
pub enum Widget {
    Clear,
    Tabs { titles: Vec<String>, selected: usize, block: Block, highlight: Style, divider: String },
    Paragraph { text: Text, frame: Option<Block>, style: Style, wrap: Option<bool> },
    List { rows: Vec<Vec<Span>>, of: Listing, block: Block, highlight: Style, symbol: String },
}

/// What a widget shows.
#[verifier::ext_equal]
pub enum WidgetView {
    Clear,
    Tabs {
        titles: Seq<Seq<char>>,
        selected: usize,
        block: BlockView,
        highlight: Style,
        divider: Seq<char>,
    },
    Paragraph { text: TextView, frame: Option<BlockView>, style: Style, wrap: Option<bool> },
    List {
        rows: Seq<Seq<SpanView>>,
        of: Listing,
        block: BlockView,
        highlight: Style,
        symbol: Seq<char>,
    },
}

/// What some rows say.
pub open spec fn row_views(v: Seq<Vec<Span>>) -> Seq<Seq<SpanView>> {
    v.map_values(|r: Vec<Span>| span_views(r@))
}

impl View for Widget {
    type V = WidgetView;

    open spec fn view(&self) -> WidgetView {
        match self {
            Widget::Clear => WidgetView::Clear,
            Widget::Tabs { titles, selected, block, highlight, divider } => WidgetView::Tabs {
                titles: crate::text::texts(titles@),
                selected: *selected,
                block: block@,
                highlight: *highlight,
                divider: divider@,
            },
            Widget::Paragraph { text, frame, style, wrap } => WidgetView::Paragraph {
                text: text@,
                frame: match frame {
                    Some(b) => Some(b@),
                    None => None,
                },
                style: *style,
                wrap: *wrap,
            },
            Widget::List { rows, of, block, highlight, symbol } => WidgetView::List {
                rows: row_views(rows@),
                of: *of,
                block: block@,
                highlight: *highlight,
                symbol: symbol@,
            },
        }
    }
}

/// A widget and where it stands. What is drawn later covers what was drawn before.
#[derive(Debug, PartialEq, Eq)]
pub struct Placed {
    pub widget: Widget,
    pub area: Area,
}

/// What a widget shows, and where.
#[verifier::ext_equal]
pub struct PlacedView {
    pub widget: WidgetView,
    pub area: Area,
}

impl View for Placed {
    type V = PlacedView;

    open spec fn view(&self) -> PlacedView {
        PlacedView { widget: self.widget@, area: self.area }
    }
}

/// What some widgets show, and where.
pub open spec fn placed_views(v: Seq<Placed>) -> Seq<PlacedView> {
    v.map_values(|p: Placed| p@)
}

}

//! What a page hands to the painter: styled spans, and the body of a page as
//! either a list of rows or a paragraph of text lines.

use vstd::prelude::*;

verus! {

/// Foreground colours that the browser uses.
#[derive(Clone, Copy, Debug, PartialEq, Eq)]
pub enum Color {
    Red,
    Green,
    Blue,
    White,
    DarkGray,
}

/// How a span is painted. The default style leaves everything to the
/// terminal.
#[derive(Clone, Copy, Debug, PartialEq, Eq)]
pub struct Style {
    /// Foreground colour, if one is set.
    pub fg: Option<Color>,
    /// Bold face.
    pub bold: bool,
    /// Foreground and background exchanged.
    pub reversed: bool,
}

impl Style {
    /// The style that sets nothing.
    pub open spec fn plain() -> Style {
        Style { fg: None, bold: false, reversed: false }
    }

    /// A bold style with the given foreground colour.
    pub open spec fn bold_in(color: Color) -> Style {
        Style { fg: Some(color), bold: true, reversed: false }
    }

    /// A style with the given foreground colour and nothing else.
    pub open spec fn colored(color: Color) -> Style {
        Style { fg: Some(color), bold: false, reversed: false }
    }

    /// The style of the highlighted row of a list.
    pub open spec fn highlight() -> Style {
        Style { fg: None, bold: false, reversed: true }
    }
}

/// A piece of text with one style.
#[derive(Clone, Debug, PartialEq, Eq)]
pub struct Span {
    pub content: String,
    pub style: Style,
}

/// A span as a value: its characters and its style.
pub ghost struct SpanView {
    pub content: Seq<char>,
    pub style: Style,
}

impl View for Span {
    type V = SpanView;

    open spec fn view(&self) -> SpanView {
        SpanView { content: self.content@, style: self.style }
    }
}

/// The spans of `spans` as values, in order.
pub open spec fn span_views(spans: Seq<Span>) -> Seq<SpanView> {
    Seq::new(spans.len(), |i: int| spans[i]@)
}

/// The strings of `lines` as character sequences, in order.
pub open spec fn line_views(lines: Seq<String>) -> Seq<Seq<char>> {
    Seq::new(lines.len(), |i: int| lines[i]@)
}

/// The body of a page, ready to be painted inside the page's frame.
#[derive(Clone, Debug, PartialEq, Eq)]
pub enum Rendering {
    /// A list: one row for each span, in order.
    List(Vec<Span>),
    /// A paragraph: one row for each line of text, in order.
    Paragraph(Vec<String>),
}

/// The body of a page as a value.
pub ghost enum RenderingView {
    List(Seq<SpanView>),
    Paragraph(Seq<Seq<char>>),
}

impl View for Rendering {
    type V = RenderingView;

    open spec fn view(&self) -> RenderingView {
        match self {
            Rendering::List(rows) => RenderingView::List(span_views(rows@)),
            Rendering::Paragraph(lines) => RenderingView::Paragraph(line_views(lines@)),
        }
    }
}

/// A page inside its frame: the breadcrumb that titles the frame, and the
/// page's body.
#[derive(Clone, Debug, PartialEq, Eq)]
pub struct Panel {
    pub title: Vec<Span>,
    pub body: Rendering,
}

/// A framed page as a value.
pub ghost struct PanelView {
    pub title: Seq<SpanView>,
    pub body: RenderingView,
}

impl View for Panel {
    type V = PanelView;

    open spec fn view(&self) -> PanelView {
        PanelView { title: span_views(self.title@), body: self.body@ }
    }
}

} // verus!

//! The whole screen: the active page in its frame above a footer of two
//! boxes, one for the mode and one for the keys.

use crate::app::{App, AppView};
use crate::text::{span_views, Color, Panel, PanelView, Span, SpanView, Style};
use ratatui::layout::{Constraint, Direction, Layout, Rect};
use vstd::prelude::*;

verus! {

/// A rectangle of terminal cells: its top left corner and its size.
#[derive(Clone, Copy, Debug, PartialEq, Eq)]
pub struct Area {
    pub x: u16,
    pub y: u16,
    pub width: u16,
    pub height: u16,
}

/// The direction in which an area is cut into parts.
#[derive(Clone, Copy, Debug, PartialEq, Eq)]
pub enum Axis {
    /// The parts lie side by side, each as high as the area.
    Horizontal,
    /// The parts lie one below the other, each as wide as the area.
    Vertical,
}

/// What a part asks for along the axis.
#[derive(Clone, Copy, Debug, PartialEq, Eq)]
pub enum Extent {
    /// At least this many cells.
    Min(u16),
    /// This many cells.
    Length(u16),
    /// This percentage of the area.
    Percentage(u16),
}

/// `part` is as wide as `area` and starts in the same column, if the cut is
/// vertical; as high as `area` and in the same row, if it is horizontal.
pub open spec fn spans(axis: Axis, area: Area, part: Area) -> bool {
    match axis {
        Axis::Vertical => part.x == area.x && part.width == area.width,
        Axis::Horizontal => part.y == area.y && part.height == area.height,
    }
}

/// `part` lies inside `area`: it starts no earlier and ends no later, in
/// columns and in rows.
pub open spec fn inside(area: Area, part: Area) -> bool {
    &&& area.x <= part.x
    &&& part.x + part.width <= area.x + area.width
    &&& area.y <= part.y
    &&& part.y + part.height <= area.y + area.height
}

/// Cuts `area` along `axis` with ratatui's `Layout::split`, on a layout
/// without margin or spacing. How long each part is along the axis is the
/// choice of ratatui's constraint solver. Whatever it chooses, there is one
/// part for each extent, in order; across the axis each part is the area's;
/// and along the axis each part lies inside the area, because the solver is
/// required to keep every boundary between the area's two ends, which are
/// whole cells, and a boundary is then rounded to the nearest cell.
#[verifier::external_body]
fn split(axis: Axis, extents: &Vec<Extent>, area: Area) -> (parts: Vec<Area>)
    ensures
        parts@.len() == extents@.len(),
        forall|i: int| 0 <= i < parts@.len() ==> spans(axis, area, #[trigger] parts@[i]),
        forall|i: int| 0 <= i < parts@.len() ==> inside(area, #[trigger] parts@[i]),
{
    let direction = match axis {
        Axis::Horizontal => Direction::Horizontal,
        Axis::Vertical => Direction::Vertical,
    };
    let constraints = extents.iter().map(|extent| match extent {
        Extent::Min(cells) => Constraint::Min(*cells),
        Extent::Length(cells) => Constraint::Length(*cells),
        Extent::Percentage(percent) => Constraint::Percentage(*percent),
    });
    let rect = Rect { x: area.x, y: area.y, width: area.width, height: area.height };
    let parts = Layout::default().direction(direction).constraints(constraints).split(rect);
    parts.iter().map(|p| Area { x: p.x, y: p.y, width: p.width, height: p.height }).collect()
}

/// Rows of the terminal that the footer takes.
pub const FOOTER_ROWS: u16 = 3;

/// Rows that the border of the page's frame takes: one above the page and
/// one below.
pub const BORDER_ROWS: u16 = 2;

/// Rows of the terminal that are not the page's: the footer and the border
/// of the page's frame.
pub const RESERVED_ROWS: u16 = FOOTER_ROWS + BORDER_ROWS;

/// What is painted on the terminal, and where.
#[derive(Clone, Debug, PartialEq, Eq)]
pub struct Screen {
    /// The active page in its frame.
    pub panel: Panel,
    /// Where the page's frame goes: above the footer.
    pub panel_area: Area,
    /// The left half of the footer: the mode the browser is in.
    pub mode_footer: Vec<Span>,
    /// Where the mode goes.
    pub mode_area: Area,
    /// The right half of the footer: the keys that the mode offers.
    pub keys_footer: Vec<Span>,
    /// Where the keys go.
    pub keys_area: Area,
}

/// A screen as a value.
pub ghost struct ScreenView {
    pub panel: PanelView,
    pub panel_area: Area,
    pub mode_footer: Seq<SpanView>,
    pub mode_area: Area,
    pub keys_footer: Seq<SpanView>,
    pub keys_area: Area,
}

impl View for Screen {
    type V = ScreenView;

    open spec fn view(&self) -> ScreenView {
        ScreenView {
            panel: self.panel@,
            panel_area: self.panel_area,
            mode_footer: span_views(self.mode_footer@),
            mode_area: self.mode_area,
            keys_footer: span_views(self.keys_footer@),
            keys_area: self.keys_area,
        }
    }
}

/// The mode footer: the mode in green, a white bar, and what the user is
/// doing in dark gray.
pub open spec fn mode_footer() -> Seq<SpanView> {
    seq![
        SpanView { content: "Normal Mode"@, style: Style::colored(Color::Green) },
        SpanView { content: " | "@, style: Style::colored(Color::White) },
        SpanView { content: "Not doing anything"@, style: Style::colored(Color::DarkGray) },
    ]
}

/// The keys footer: the key that leaves the browser, in red.
pub open spec fn keys_footer() -> Seq<SpanView> {
    seq![SpanView { content: "(^x) to exit"@, style: Style::colored(Color::Red) }]
}

/// The screen that shows `app` with its three boxes at the given places.
pub open spec fn screen_of(
    app: AppView,
    panel_area: Area,
    mode_area: Area,
    keys_area: Area,
) -> ScreenView {
    ScreenView {
        panel: app.panel(),
        panel_area,
        mode_footer: mode_footer(),
        mode_area,
        keys_footer: keys_footer(),
        keys_area,
    }
}

/// What holds of the three places on a terminal that covers `terminal`,
/// whatever the sizes: all three lie inside the terminal, the page's frame
/// is as wide as the terminal, and the mode and the keys lie in the same
/// rows.
pub open spec fn laid_out(
    terminal: Area,
    panel_area: Area,
    mode_area: Area,
    keys_area: Area,
) -> bool {
    &&& inside(terminal, panel_area)
    &&& inside(terminal, mode_area)
    &&& inside(terminal, keys_area)
    &&& spans(Axis::Vertical, terminal, panel_area)
    &&& mode_area.y == keys_area.y
    &&& mode_area.height == keys_area.height
}

/// The screen for `app` with its three boxes at the given places.
pub fn compose(
    app: &App,
    terminal_height: u16,
    panel_area: Area,
    mode_area: Area,
    keys_area: Area,
) -> (screen: Screen)
    ensures
        screen@ == screen_of(app@, panel_area, mode_area, keys_area),
{
    let panel = app.draw(terminal_height, RESERVED_ROWS);
    let mut mode: Vec<Span> = Vec::new();
    mode.push(
        Span {
            content: "Normal Mode".to_owned(),
            style: Style { fg: Some(Color::Green), bold: false, reversed: false },
        },
    );
    mode.push(
        Span {
            content: " | ".to_owned(),
            style: Style { fg: Some(Color::White), bold: false, reversed: false },
        },
    );
    mode.push(
        Span {
            content: "Not doing anything".to_owned(),
            style: Style { fg: Some(Color::DarkGray), bold: false, reversed: false },
        },
    );
    let mut keys: Vec<Span> = Vec::new();
    keys.push(
        Span {
            content: "(^x) to exit".to_owned(),
            style: Style { fg: Some(Color::Red), bold: false, reversed: false },
        },
    );
    assert(span_views(mode@) =~= mode_footer());
    assert(span_views(keys@) =~= keys_footer());
    Screen { panel, panel_area, mode_footer: mode, mode_area, keys_footer: keys, keys_area }
}

/// Lays out and composes the screen for `app` on a terminal that covers
/// `terminal`: the page takes what the footer leaves, at least one row; the
/// footer takes `FOOTER_ROWS` rows, and the mode and the keys take half of
/// it each. The sizes are the layout solver's; the content is `app`'s.
pub fn ui(app: &App, terminal: Area) -> (screen: Screen)
    ensures
        screen@ == screen_of(app@, screen.panel_area, screen.mode_area, screen.keys_area),
        laid_out(terminal, screen.panel_area, screen.mode_area, screen.keys_area),
{
    let mut rows: Vec<Extent> = Vec::new();
    rows.push(Extent::Min(1));
    rows.push(Extent::Length(FOOTER_ROWS));
    let chunks = split(Axis::Vertical, &rows, terminal);
    let mut halves: Vec<Extent> = Vec::new();
    halves.push(Extent::Percentage(50));
    halves.push(Extent::Percentage(50));
    let footer_chunks = split(Axis::Horizontal, &halves, chunks[1]);
    assert(spans(Axis::Horizontal, chunks@[1], footer_chunks@[0]));
    assert(spans(Axis::Horizontal, chunks@[1], footer_chunks@[1]));
    assert(inside(terminal, chunks@[0]) && inside(terminal, chunks@[1]));
    assert(inside(chunks@[1], footer_chunks@[0]) && inside(chunks@[1], footer_chunks@[1]));
    compose(app, terminal.height, chunks[0], footer_chunks[0], footer_chunks[1])
}

} // verus!

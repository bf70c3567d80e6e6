//! What a screen is made of: areas, lines of styled text, panels and pictures.
use crate::geometry::{Borders, Padding, Rect};
use crate::text::{opt_view, push_item, views};
use vstd::prelude::*;

verus! {

/// The colours of the program.
#[derive(Clone, Copy, Debug, PartialEq, Eq, Structural)]
pub enum Tone {
    Ink,
    Muted,
    Signal,
    /// The canvas.
    Base,
    /// The cards, which are a little darker than the canvas.
    Surface,
    Border,
}

impl Tone {
    /// Its red, green and blue.
    pub open spec fn color(self) -> (u8, u8, u8) {
        match self {
            Tone::Ink => (248, 247, 242),
            Tone::Muted => (156, 153, 147),
            Tone::Signal => (255, 72, 104),
            Tone::Base => (26, 25, 23),
            Tone::Surface => (15, 15, 14),
            Tone::Border => (84, 82, 77),
        }
    }

    /// Its red, green and blue.
    pub fn rgb(self) -> (r: (u8, u8, u8))
        ensures
            r == self.color(),
    {
        match self {
            Tone::Ink => (248, 247, 242),
            Tone::Muted => (156, 153, 147),
            Tone::Signal => (255, 72, 104),
            Tone::Base => (26, 25, 23),
            Tone::Surface => (15, 15, 14),
            Tone::Border => (84, 82, 77),
        }
    }
}

/// How text is written.
#[derive(Clone, Copy, Debug, PartialEq, Eq, Structural)]
pub struct Style {
    pub tone: Option<Tone>,
    pub bold: bool,
}

/// As the terminal writes text by itself.
pub open spec fn as_is() -> Style {
    Style { tone: None, bold: false }
}

/// As the terminal writes text by itself.
pub fn plain() -> (r: Style)
    ensures
        r == as_is(),
{
    Style { tone: None, bold: false }
}

/// In one colour.
pub open spec fn in_tone(tone: Tone) -> Style {
    Style { tone: Some(tone), bold: false }
}

/// In one colour, bold.
pub open spec fn in_bold(tone: Tone) -> Style {
    Style { tone: Some(tone), bold: true }
}

/// In one colour.
pub fn toned(tone: Tone) -> (r: Style)
    ensures
        r == in_tone(tone),
{
    Style { tone: Some(tone), bold: false }
}

/// In one colour, bold.
pub fn bold(tone: Tone) -> (r: Style)
    ensures
        r == in_bold(tone),
{
    Style { tone: Some(tone), bold: true }
}

/// A piece of a line.
pub struct Span {
    pub text: String,
    pub style: Style,
}

/// The model of a `Span`.
#[verifier::ext_equal]
pub struct SpanModel {
    pub text: Seq<char>,
    pub style: Style,
}

impl View for Span {
    type V = SpanModel;

    open spec fn view(&self) -> SpanModel {
        SpanModel { text: self.text@, style: self.style }
    }
}

/// A line of text.
pub struct TextLine {
    pub spans: Vec<Span>,
    pub style: Style,
}

/// The model of a `TextLine`.
#[verifier::ext_equal]
pub struct LineModel {
    pub spans: Seq<SpanModel>,
    pub style: Style,
}

impl View for TextLine {
    type V = LineModel;

    open spec fn view(&self) -> LineModel {
        LineModel { spans: views(self.spans@), style: self.style }
    }
}

/// A frame round some content.
pub struct Panel {
    pub borders: Borders,
    pub border: Tone,
    pub fill: Option<Tone>,
    pub title: Option<String>,
    pub padding: Padding,
}

/// The model of a `Panel`.
#[verifier::ext_equal]
pub struct PanelModel {
    pub borders: Borders,
    pub border: Tone,
    pub fill: Option<Tone>,
    pub title: Option<Seq<char>>,
    pub padding: Padding,
}

impl View for Panel {
    type V = PanelModel;

    open spec fn view(&self) -> PanelModel {
        PanelModel {
            borders: self.borders,
            border: self.border,
            fill: self.fill,
            title: opt_view(self.title),
            padding: self.padding,
        }
    }
}

/// A step of drawing a screen. Later steps cover earlier ones.
pub enum Op {
    /// Empties the area.
    Clear { area: Rect },
    /// Gives the area a background.
    Fill { area: Rect, tone: Tone },
    Panel { area: Rect, panel: Panel },
    /// Writes a text.
    Copy { area: Rect, text: String, style: Style },
    /// Writes lines, which are wrapped to the area's width if `wrap` says so.
    Lines { area: Rect, lines: Vec<TextLine>, wrap: bool },
    /// Shows the picture of the channel at `index`.
    Artwork { area: Rect, index: usize },
    /// Shows the visualizer.
    Visualizer { area: Rect, style: Style },
}

/// The model of an `Op`.
#[verifier::ext_equal]
pub enum OpModel {
    Clear { area: Rect },
    Fill { area: Rect, tone: Tone },
    Panel { area: Rect, panel: PanelModel },
    Copy { area: Rect, text: Seq<char>, style: Style },
    Lines { area: Rect, lines: Seq<LineModel>, wrap: bool },
    Artwork { area: Rect, index: int },
    Visualizer { area: Rect, style: Style },
}

impl View for Op {
    type V = OpModel;

    open spec fn view(&self) -> OpModel {
        match *self {
            Op::Clear { area } => OpModel::Clear { area },
            Op::Fill { area, tone } => OpModel::Fill { area, tone },
            Op::Panel { area, panel } => OpModel::Panel { area, panel: panel@ },
            Op::Copy { area, text, style } => OpModel::Copy { area, text: text@, style },
            Op::Lines { area, lines, wrap } => OpModel::Lines { area, lines: views(lines@), wrap },
            Op::Artwork { area, index } => OpModel::Artwork { area, index: index as int },
            Op::Visualizer { area, style } => OpModel::Visualizer { area, style },
        }
    }
}

/// A piece of a line.
pub open spec fn span_of(text: Seq<char>, style: Style) -> SpanModel {
    SpanModel { text, style }
}

/// A line in one style.
pub open spec fn line_of(text: Seq<char>, style: Style) -> LineModel {
    LineModel { spans: seq![span_of(text, as_is())], style }
}

/// A line of pieces.
pub open spec fn spans_of(spans: Seq<SpanModel>) -> LineModel {
    LineModel { spans, style: as_is() }
}

/// A piece of a line.
pub fn span(text: String, style: Style) -> (r: Span)
    ensures
        r@ == span_of(text@, style),
{
    Span { text, style }
}

/// A line in one style.
pub fn line(text: String, style: Style) -> (r: TextLine)
    ensures
        r@ == line_of(text@, style),
{
    let mut spans: Vec<Span> = Vec::new();
    push_item(&mut spans, span(text, plain()));
    assert(views(spans@) =~= seq![span_of(text@, as_is())]);
    TextLine { spans, style }
}

/// A line of pieces.
pub fn line_of_spans(spans: Vec<Span>) -> (r: TextLine)
    ensures
        r@ == spans_of(views(spans@)),
{
    TextLine { spans, style: plain() }
}

/// An empty list of pieces, lines or steps.
pub fn empty_list<T: View>() -> (r: Vec<T>)
    ensures
        views(r@) == Seq::<T::V>::empty(),
        r@.len() == 0,
{
    let r: Vec<T> = Vec::new();
    assert(views(r@) =~= Seq::<T::V>::empty());
    r
}

/// The colours are those of the program: light on dark, and one signal colour.
pub proof fn law_the_colours(tone: Tone, r: (u8, u8, u8))
    requires
        call_ensures(Tone::rgb, (tone,), r),
    ensures
        match tone {
            Tone::Ink => r == (248u8, 247u8, 242u8),
            Tone::Muted => r == (156u8, 153u8, 147u8),
            Tone::Signal => r == (255u8, 72u8, 104u8),
            Tone::Base => r == (26u8, 25u8, 23u8),
            Tone::Surface => r == (15u8, 15u8, 14u8),
            Tone::Border => r == (84u8, 82u8, 77u8),
        },
{
}

} // verus!

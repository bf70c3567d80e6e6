//! The footer, the notices, the visualizer and the schedule. Every drawing function lists the
//! steps that draw its part of a screen.
use crate::app::{App, AppModel};
use crate::catalog::{Channel, ChannelModel};
use crate::geometry::{
    centered, centered_rect, content_area, content_of, is_split, least, minus, split, Axis,
    Borders, Extent, Padding, Rect,
};
use crate::scene::{
    empty_list, in_tone, line_of_spans, span, span_of, spans_of, toned, LineModel, Op, OpModel,
    Panel, PanelModel, Span, Style, TextLine, Tone,
};
use crate::text::{push_item, views};
use crate::wording::{footer, footer_copy, two};
use vstd::prelude::*;
use vstd::string::*;

verus! {

/// No empty cells but some on the left.
pub open spec fn left_only(cells: u16) -> Padding {
    Padding { left: cells, right: 0, top: 0, bottom: 0 }
}

/// The empty cells within a modal and the wide card.
pub open spec fn roomy() -> Padding {
    Padding { left: 2, right: 2, top: 1, bottom: 1 }
}

/// A panel with a line on its left.
pub open spec fn rail(border: Tone, fill: Option<Tone>, padding: Padding) -> PanelModel {
    PanelModel { borders: Borders::Left, border, fill, title: None, padding }
}

/// A panel with lines all round.
pub open spec fn modal_panel(border: Tone, title: Option<Seq<char>>) -> PanelModel {
    PanelModel {
        borders: Borders::All,
        border,
        fill: Some(Tone::Surface),
        title,
        padding: roomy(),
    }
}

/// The row above the footer.
pub open spec fn row_above(footer_area: Rect) -> Rect {
    Rect { y: minus(footer_area.y as int, 1) as u16, height: 1, ..footer_area }
}

/// A panel with a line on its left.
pub(crate) fn new_rail(border: Tone, fill: Option<Tone>, padding: Padding) -> (r: Panel)
    ensures
        r@ == rail(border, fill, padding),
{
    Panel { borders: Borders::Left, border, fill, title: None, padding }
}

/// A panel with lines all round.
pub(crate) fn new_modal_panel(border: Tone, title: Option<String>) -> (r: Panel)
    ensures
        r@ == modal_panel(border, crate::text::opt_view(title)),
{
    Panel {
        borders: Borders::All,
        border,
        fill: Some(Tone::Surface),
        title,
        padding: Padding { left: 2, right: 2, top: 1, bottom: 1 },
    }
}

/// The row above the footer.
fn above(footer_area: Rect) -> (r: Rect)
    ensures
        r == row_above(footer_area),
{
    Rect {
        x: footer_area.x,
        y: footer_area.y.saturating_sub(1),
        width: footer_area.width,
        height: 1,
    }
}

/// The keys that can be used.
pub open spec fn footer_ops(m: AppModel, area: Rect, compact: bool) -> Seq<OpModel> {
    seq![
        OpModel::Copy { area, text: footer(compact, m.playing), style: in_tone(Tone::Muted) },
    ]
}

/// What the listener has to be told, if anything.
pub open spec fn error_ops(m: AppModel, footer_area: Rect) -> Seq<OpModel> {
    match m.notice() {
        Some(notice) => seq![
            OpModel::Copy {
                area: row_above(footer_area),
                text: notice,
                style: in_tone(Tone::Signal),
            },
        ],
        None => Seq::empty(),
    }
}

/// Where a terminal without pictures is pointed to one with them. A notice has precedence.
pub open spec fn hint_ops(m: AppModel, footer_area: Rect) -> Seq<OpModel> {
    if m.supports_artwork || m.error is Some || m.connection_lost {
        Seq::empty()
    } else {
        seq![
            OpModel::Lines {
                area: row_above(footer_area),
                lines: seq![
                    spans_of(
                        seq![
                            span_of("◌ "@, in_tone(Tone::Signal)),
                            span_of(
                                "Artwork hidden — open NTS in Ghostty, iTerm2, or Kitty to see cover art."@,
                                in_tone(Tone::Muted),
                            ),
                        ],
                    ),
                ],
                wrap: false,
            },
        ]
    }
}

/// Draws the keys that can be used.
pub fn render_footer(ops: &mut Vec<Op>, app: &App, area: Rect, compact: bool)
    ensures
        views(final(ops)@) == views(old(ops)@) + footer_ops(app@, area, compact),
{
    push_item(
        ops,
        Op::Copy { area, text: footer_copy(compact, app.playing), style: toned(Tone::Muted) },
    );
    assert(views(ops@) =~= views(old(ops)@) + footer_ops(app@, area, compact));
}

/// Draws what the listener has to be told.
pub fn render_error(ops: &mut Vec<Op>, app: &App, footer_area: Rect)
    ensures
        views(final(ops)@) == views(old(ops)@) + error_ops(app@, footer_area),
{
    if let Some(notice) = app.notice() {
        push_item(
            ops,
            Op::Copy { area: above(footer_area), text: notice, style: toned(Tone::Signal) },
        );
    }
    assert(views(ops@) =~= views(old(ops)@) + error_ops(app@, footer_area));
}

/// One line of pieces, as a list of lines.
pub(crate) fn single_line(spans: Vec<Span>) -> (r: Vec<TextLine>)
    ensures
        views(r@) == seq![spans_of(views(spans@))],
{
    let mut lines = empty_list::<TextLine>();
    push_item(&mut lines, line_of_spans(spans));
    assert(views(lines@) =~= seq![spans_of(views(spans@))]);
    lines
}

/// Draws where to find a terminal with pictures.
pub fn render_terminal_hint(ops: &mut Vec<Op>, app: &App, footer_area: Rect)
    ensures
        views(final(ops)@) == views(old(ops)@) + hint_ops(app@, footer_area),
{
    if app.supports_artwork || app.error.is_some() || app.connection_lost {
        assert(views(ops@) =~= views(old(ops)@) + hint_ops(app@, footer_area));
        return;
    }
    let mut spans = empty_list::<Span>();
    push_item(&mut spans, span("◌ ".to_owned(), toned(Tone::Signal)));
    push_item(
        &mut spans,
        span(
            "Artwork hidden — open NTS in Ghostty, iTerm2, or Kitty to see cover art.".to_owned(),
            toned(Tone::Muted),
        ),
    );
    let lines = single_line(spans);
    push_item(ops, Op::Lines { area: above(footer_area), lines, wrap: false });
    assert(views(spans@) =~= hint_ops(app@, footer_area)[0]->lines[0].spans);
    assert(views(ops@) =~= views(old(ops)@) + hint_ops(app@, footer_area));
}

/// The size of a modal: `width` by `height`, or nearly the whole area where the screen is compact.
pub open spec fn modal_area(area: Rect, compact: bool, width: u16, height: u16, rows: u16) -> Rect {
    if compact {
        centered(
            area,
            minus(area.width as int, 4) as u16,
            minus(area.height as int, rows as int) as u16,
        )
    } else {
        centered(area, width, height)
    }
}

/// The place of a modal.
pub(crate) fn place_modal(area: Rect, compact: bool, width: u16, height: u16, rows: u16) -> (r: Rect)
    requires
        area.fits(),
    ensures
        r == modal_area(area, compact, width, height, rows),
{
    if compact {
        centered_rect(area, area.width.saturating_sub(4), area.height.saturating_sub(rows))
    } else {
        centered_rect(area, width, height)
    }
}

/// The visualizer, which has the screen for itself.
pub open spec fn visualizer_ops(area: Rect, compact: bool) -> Seq<OpModel> {
    let modal = modal_area(area, compact, 96, 22, 4);
    seq![
        OpModel::Clear { area: modal },
        OpModel::Panel { area: modal, panel: modal_panel(Tone::Border, None) },
        OpModel::Visualizer {
            area: content_of(modal, Borders::All, roomy()),
            style: in_tone(Tone::Signal),
        },
    ]
}

/// Draws the visualizer.
pub fn draw_visualizer_modal(ops: &mut Vec<Op>, area: Rect, compact: bool)
    requires
        area.fits(),
    ensures
        views(final(ops)@) == views(old(ops)@) + visualizer_ops(area, compact),
{
    let modal = place_modal(area, compact, 96, 22, 4);
    push_item(ops, Op::Clear { area: modal });
    let panel = new_modal_panel(Tone::Border, None);
    let inner = content_area(modal, panel.borders, panel.padding);
    push_item(ops, Op::Panel { area: modal, panel });
    push_item(ops, Op::Visualizer { area: inner, style: toned(Tone::Signal) });
    assert(views(ops@) =~= views(old(ops)@) + visualizer_ops(area, compact));
}

/// How many lines of a schedule are shown.
pub open spec fn schedule_limit(compact: bool) -> int {
    if compact {
        4
    } else {
        6
    }
}

/// A line of the schedule. The first one is marked: it is on air.
pub open spec fn schedule_line(channel: ChannelModel, index: int) -> LineModel {
    let tone = if index == 0 {
        Tone::Ink
    } else {
        Tone::Muted
    };
    spans_of(
        seq![
            span_of(
                if index == 0 {
                    "→  "@
                } else {
                    "   "@
                },
                in_tone(Tone::Signal),
            ),
            span_of(channel.schedule[index].starts_at + "  "@, in_tone(tone)),
            span_of(
                channel.schedule[index].title,
                Style { tone: Some(tone), bold: index == 0 },
            ),
        ],
    )
}

/// A channel's schedule.
pub open spec fn schedule_ops(channel: ChannelModel, area: Rect, compact: bool) -> Seq<OpModel> {
    let count = least(channel.schedule.len() as int, schedule_limit(compact));
    if count == 0 {
        seq![
            OpModel::Copy {
                area,
                text: "Loading the local schedule…"@,
                style: in_tone(Tone::Muted),
            },
        ]
    } else {
        seq![
            OpModel::Panel { area, panel: rail(Tone::Signal, None, left_only(2)) },
            OpModel::Lines {
                area: content_of(area, Borders::Left, left_only(2)),
                lines: Seq::new(count as nat, |i: int| schedule_line(channel, i)),
                wrap: true,
            },
        ]
    }
}

/// A line of the schedule.
fn schedule_text(channel: &Channel, index: usize) -> (r: TextLine)
    requires
        index < channel.schedule.len(),
    ensures
        r@ == schedule_line(channel@, index as int),
{
    let entry = &channel.schedule[index];
    let tone = if index == 0 {
        Tone::Ink
    } else {
        Tone::Muted
    };
    let marker = if index == 0 {
        "→  "
    } else {
        "   "
    };
    let mut spans = empty_list::<Span>();
    push_item(&mut spans, span(marker.to_owned(), toned(Tone::Signal)));
    push_item(&mut spans, span(two(entry.starts_at.as_str(), "  "), toned(tone)));
    push_item(
        &mut spans,
        span(entry.title.clone(), Style { tone: Some(tone), bold: index == 0 }),
    );
    assert(views(spans@) =~= schedule_line(channel@, index as int).spans);
    line_of_spans(spans)
}

/// Draws a channel's schedule.
pub fn render_schedule(ops: &mut Vec<Op>, channel: &Channel, area: Rect, compact: bool)
    ensures
        views(final(ops)@) == views(old(ops)@) + schedule_ops(channel@, area, compact),
{
    let limit: usize = if compact {
        4
    } else {
        6
    };
    let count = if channel.schedule.len() < limit {
        channel.schedule.len()
    } else {
        limit
    };
    if count == 0 {
        push_item(
            ops,
            Op::Copy {
                area,
                text: "Loading the local schedule…".to_owned(),
                style: toned(Tone::Muted),
            },
        );
        assert(views(ops@) =~= views(old(ops)@) + schedule_ops(channel@, area, compact));
        return;
    }
    let mut lines = empty_list::<TextLine>();
    for i in 0..count
        invariant
            count <= channel.schedule@.len(),
            views(lines@) =~= Seq::new(i as nat, |i: int| schedule_line(channel@, i)),
    {
        push_item(&mut lines, schedule_text(channel, i));
    }
    let panel = new_rail(
        Tone::Signal,
        None,
        Padding { left: 2, right: 0, top: 0, bottom: 0 },
    );
    let inner = content_area(area, panel.borders, panel.padding);
    push_item(ops, Op::Panel { area, panel });
    push_item(ops, Op::Lines { area: inner, lines, wrap: true });
    assert(views(ops@) =~= views(old(ops)@) + schedule_ops(channel@, area, compact));
}

/// The rows of the schedule's modal.
pub open spec fn schedule_extents() -> Seq<Extent> {
    seq![Extent::Length(1), Extent::Min(6), Extent::Length(1)]
}

/// The schedule's modal, whose rows are `sections`.
pub open spec fn schedule_modal_ops(
    m: AppModel,
    area: Rect,
    compact: bool,
    sections: Seq<Rect>,
) -> Seq<OpModel> {
    let modal = modal_area(area, compact, 86, 18, 6);
    let title = " SCHEDULE  /  "@ + m.station().name + " "@;
    seq![
        OpModel::Clear { area: modal },
        OpModel::Panel { area: modal, panel: modal_panel(Tone::Ink, Some(title)) },
        OpModel::Lines {
            area: sections[0],
            lines: seq![
                spans_of(
                    seq![
                        span_of("LOCAL TIME"@, in_tone(Tone::Muted)),
                        span_of("  ·  NEXT SIX HOURS"@, in_tone(Tone::Muted)),
                    ],
                ),
            ],
            wrap: false,
        },
    ] + schedule_ops(m.station(), sections[1], compact) + seq![
        OpModel::Copy {
            area: sections[2],
            text: if compact {
                "s / esc close  •  space play / stop"@
            } else {
                "s / esc close    •    space play / stop"@
            },
            style: in_tone(Tone::Muted),
        },
    ] + error_ops(m, sections[2])
}

/// Where the schedule's modal has its content.
pub open spec fn schedule_content(area: Rect, compact: bool) -> Rect {
    content_of(modal_area(area, compact, 86, 18, 6), Borders::All, roomy())
}

/// Whether `ops` draw the schedule's modal.
pub open spec fn draws_schedule(m: AppModel, area: Rect, compact: bool, ops: Seq<OpModel>) -> bool {
    exists|sections: Seq<Rect>|
        #![trigger schedule_modal_ops(m, area, compact, sections)]
        is_split(
            schedule_content(area, compact),
            Axis::Vertical,
            0,
            schedule_extents(),
            sections,
        ) && ops == schedule_modal_ops(m, area, compact, sections)
}

/// Draws the schedule's modal, whose rows are `sections`.
pub fn schedule_modal(
    ops: &mut Vec<Op>,
    app: &App,
    area: Rect,
    compact: bool,
    sections: &Vec<Rect>,
)
    requires
        area.fits(),
        app.selected < app.channels.len(),
        sections@.len() == 3,
    ensures
        views(final(ops)@) == views(old(ops)@) + schedule_modal_ops(
            app@,
            area,
            compact,
            sections@,
        ),
{
    let modal = place_modal(area, compact, 86, 18, 6);
    push_item(ops, Op::Clear { area: modal });
    let channel = &app.channels[app.selected];
    let mut title = two(" SCHEDULE  /  ", channel.name);
    title.append(" ");
    push_item(ops, Op::Panel { area: modal, panel: new_modal_panel(Tone::Ink, Some(title)) });
    let mut spans = empty_list::<Span>();
    push_item(&mut spans, span("LOCAL TIME".to_owned(), toned(Tone::Muted)));
    push_item(&mut spans, span("  ·  NEXT SIX HOURS".to_owned(), toned(Tone::Muted)));
    assert(views(spans@) =~= seq![
        span_of("LOCAL TIME"@, in_tone(Tone::Muted)),
        span_of("  ·  NEXT SIX HOURS"@, in_tone(Tone::Muted)),
    ]);
    let lines = single_line(spans);
    push_item(ops, Op::Lines { area: sections[0], lines, wrap: false });
    render_schedule(ops, channel, sections[1], compact);
    let keys = if compact {
        "s / esc close  •  space play / stop"
    } else {
        "s / esc close    •    space play / stop"
    };
    push_item(
        ops,
        Op::Copy { area: sections[2], text: keys.to_owned(), style: toned(Tone::Muted) },
    );
    render_error(ops, app, sections[2]);
    assert(views(ops@) =~= views(old(ops)@) + schedule_modal_ops(app@, area, compact, sections@));
}

/// Draws the schedule's modal.
pub fn draw_schedule_modal(ops: &mut Vec<Op>, app: &App, area: Rect, compact: bool)
    requires
        area.fits(),
        app.selected < app.channels.len(),
    ensures
        exists|part: Seq<OpModel>|
            #[trigger] draws_schedule(app@, area, compact, part) && views(final(ops)@) == views(
                old(ops)@,
            ) + part,
{
    let modal = place_modal(area, compact, 86, 18, 6);
    let inner = content_area(modal, Borders::All, Padding { left: 2, right: 2, top: 1, bottom: 1 });
    let extents = vec![Extent::Length(1), Extent::Min(6), Extent::Length(1)];
    assert(extents@ =~= schedule_extents());
    let sections = split(inner, Axis::Vertical, 0, &extents);
    schedule_modal(ops, app, area, compact, &sections);
    assert(draws_schedule(
        app@,
        area,
        compact,
        schedule_modal_ops(app@, area, compact, sections@),
    ));
}

} // verus!

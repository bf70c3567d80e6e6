//! The cards of the stations: the large one of what plays, and the small ones beside it.
use crate::app::{App, AppModel};
use crate::catalog::{Channel, ChannelModel};
use crate::draw::{left_only, new_rail, rail, roomy};
use crate::geometry::{
    content_area, content_of, fixed_cells, is_lone_min, is_split, least, max_u16, min_u16, minus,
    most, split, vcentered, vertically_centered, visible_channels, window, Axis, Borders, Extent,
    Padding, Rect,
};
use crate::scene::{
    bold, empty_list, in_bold, in_tone, line, line_of, toned, Op, OpModel, TextLine, Tone,
};
use crate::text::{concat, push_item, views};
use crate::wording::two;
use vstd::prelude::*;

verus! {

/// The columns of a picture in a compact card.
pub const ART_WIDTH: u16 = 18;

/// The columns between the picture and the text of a compact card.
pub const GUTTER: u16 = 2;

/// The fewest columns that the text of a compact card needs beside a picture.
pub const TEXT_MIN: u16 = 20;

/// How many small cards there are.
pub const RAIL_SLOTS: usize = 3;

/// `value`, but not below `low` nor above `high`.
pub open spec fn clamped(value: int, low: int, high: int) -> int {
    least(most(value, low), high)
}

/// What a station plays.
pub open spec fn now_ops(channel: ChannelModel, area: Rect, show_next: bool) -> Seq<OpModel> {
    seq![OpModel::Lines { area, lines: channel.now_lines(show_next), wrap: true }]
}

/// Draws what a station plays.
pub fn render_now_text(ops: &mut Vec<Op>, channel: &Channel, area: Rect, show_next: bool)
    ensures
        views(final(ops)@) == views(old(ops)@) + now_ops(channel@, area, show_next),
{
    push_item(ops, Op::Lines { area, lines: channel.now_text(show_next), wrap: true });
    assert(views(ops@) =~= views(old(ops)@) + now_ops(channel@, area, show_next));
}

/// The picture in a card, or a blank where pictures are held back.
pub open spec fn art_ops(index: int, area: Rect, paint: bool) -> Seq<OpModel> {
    seq![
        if paint {
            OpModel::Artwork { area, index }
        } else {
            OpModel::Fill { area, tone: Tone::Surface }
        },
    ]
}

/// Draws the picture in a card.
fn render_card_art(ops: &mut Vec<Op>, index: usize, area: Rect, paint: bool)
    ensures
        views(final(ops)@) == views(old(ops)@) + art_ops(index as int, area, paint),
{
    if paint {
        push_item(ops, Op::Artwork { area, index });
    } else {
        push_item(ops, Op::Fill { area, tone: Tone::Surface });
    }
    assert(views(ops@) =~= views(old(ops)@) + art_ops(index as int, area, paint));
}

/// How a card is laid out: whether it has a picture, in how many columns, and in how many the
/// text.
#[derive(Clone, Copy, Debug, PartialEq, Eq, Structural)]
pub struct CardPlan {
    pub show_art: bool,
    pub art_width: u16,
    pub text_width: u16,
}

/// The plan of a compact card: the picture is left out where the text would get too narrow. The
/// border and the padding take three columns.
pub open spec fn compact_plan(artwork: bool, card: Rect) -> CardPlan {
    let inner = minus(card.width as int, 3);
    let show_art = artwork && inner >= ART_WIDTH + GUTTER + TEXT_MIN;
    CardPlan {
        show_art,
        art_width: ART_WIDTH,
        text_width: (if show_art {
            inner - (ART_WIDTH + GUTTER)
        } else {
            inner
        }) as u16,
    }
}

/// The plan of a wide card: the picture grows with the card.
pub open spec fn wide_plan(artwork: bool, card: Rect) -> CardPlan {
    let inner = content_of(card, Borders::Left, roomy()).width as int;
    let art_width = clamped(minus(inner, 24), 20, 56);
    let show_art = artwork && inner >= art_width + 23;
    CardPlan {
        show_art,
        art_width: art_width as u16,
        text_width: (if show_art {
            inner - (art_width + 3)
        } else {
            inner
        }) as u16,
    }
}

/// The plan of a compact card.
pub fn plan_compact_card(artwork: bool, card: Rect) -> (r: CardPlan)
    ensures
        r == compact_plan(artwork, card),
{
    let inner = card.width.saturating_sub(3);
    let show_art = artwork && inner >= ART_WIDTH + GUTTER + TEXT_MIN;
    CardPlan {
        show_art,
        art_width: ART_WIDTH,
        text_width: if show_art {
            inner.saturating_sub(ART_WIDTH + GUTTER)
        } else {
            inner
        },
    }
}

/// The plan of a wide card.
pub fn plan_wide_card(artwork: bool, card: Rect) -> (r: CardPlan)
    ensures
        r == wide_plan(artwork, card),
{
    let inner = content_area(
        card,
        Borders::Left,
        Padding { left: 2, right: 2, top: 1, bottom: 1 },
    ).width;
    let art_width = min_u16(max_u16(inner.saturating_sub(24), 20), 56);
    let show_art = artwork && inner >= art_width + 23;
    CardPlan {
        show_art,
        art_width,
        text_width: if show_art {
            inner.saturating_sub(art_width + 3)
        } else {
            inner
        },
    }
}

/// The rows that a card's content takes: those of its text, or of its picture if they are more.
pub open spec fn content_rows(
    channel: ChannelModel,
    plan: CardPlan,
    art_rows: u16,
    show_next: bool,
) -> int {
    most(
        channel.copy_rows(plan.text_width, show_next),
        if plan.show_art {
            art_rows as int
        } else {
            0
        },
    )
}

/// The rows that a card's content takes.
fn count_content_rows(channel: &Channel, plan: CardPlan, art_rows: u16, show_next: bool) -> (r: u16)
    ensures
        r == content_rows(channel@, plan, art_rows, show_next),
{
    let text_rows = channel.copy_rows(plan.text_width, show_next);
    if plan.show_art {
        max_u16(text_rows, art_rows)
    } else {
        text_rows
    }
}

/// The compact card's place: as high as its content, at most as high as `card`.
pub open spec fn compact_area(channel: ChannelModel, card: Rect, art_rows: u16) -> Rect {
    let rows = content_rows(channel, compact_plan(channel.artwork, card), art_rows, false);
    Rect { height: clamped(rows, 1, card.height as int) as u16, ..card }
}

/// The columns of a compact card with a picture.
pub open spec fn compact_columns() -> Seq<Extent> {
    seq![Extent::Length(ART_WIDTH), Extent::Length(GUTTER), Extent::Min(TEXT_MIN)]
}

/// The frame of the compact card.
pub open spec fn compact_frame(area: Rect) -> Seq<OpModel> {
    seq![OpModel::Panel { area, panel: rail(Tone::Signal, None, left_only(2)) }]
}

/// Within the frame of a card with a picture: the picture, and the text in the middle of its
/// column.
pub open spec fn pictured_ops(
    channel: ChannelModel,
    index: int,
    paint: bool,
    show_next: bool,
    columns: Seq<Rect>,
) -> Seq<OpModel> {
    let rows = channel.copy_rows(columns[2].width, show_next) as u16;
    art_ops(index, columns[0], paint) + now_ops(
        channel,
        vertically_centered(columns[2], rows),
        show_next,
    )
}

/// Whether `ops` draw the content of a card with a picture.
pub open spec fn draws_pictured(
    channel: ChannelModel,
    index: int,
    inner: Rect,
    extents: Seq<Extent>,
    paint: bool,
    show_next: bool,
    ops: Seq<OpModel>,
) -> bool {
    exists|columns: Seq<Rect>|
        #![trigger pictured_ops(channel, index, paint, show_next, columns)]
        is_split(inner, Axis::Horizontal, 0, extents, columns) && ops == pictured_ops(
            channel,
            index,
            paint,
            show_next,
            columns,
        )
}

/// Draws the content of a card with a picture whose columns are `columns`.
pub fn pictured_content(
    ops: &mut Vec<Op>,
    channel: &Channel,
    index: usize,
    paint: bool,
    show_next: bool,
    columns: &Vec<Rect>,
)
    requires
        columns@.len() == 3,
        columns@[2].y + columns@[2].height <= u16::MAX,
    ensures
        views(final(ops)@) == views(old(ops)@) + pictured_ops(
            channel@,
            index as int,
            paint,
            show_next,
            columns@,
        ),
{
    render_card_art(ops, index, columns[0], paint);
    let rows = channel.copy_rows(columns[2].width, show_next);
    render_now_text(ops, channel, vcentered(columns[2], rows), show_next);
    assert(views(ops@) =~= views(old(ops)@) + pictured_ops(
        channel@,
        index as int,
        paint,
        show_next,
        columns@,
    ));
}

/// Draws the content of a card with a picture.
fn render_pictured(
    ops: &mut Vec<Op>,
    channel: &Channel,
    index: usize,
    inner: Rect,
    extents: &Vec<Extent>,
    paint: bool,
    show_next: bool,
)
    requires
        extents@.len() == 3,
        inner.y + inner.height <= u16::MAX,
    ensures
        exists|part: Seq<OpModel>|
            #[trigger] draws_pictured(
                channel@,
                index as int,
                inner,
                extents@,
                paint,
                show_next,
                part,
            ) && views(final(ops)@) == views(old(ops)@) + part,
{
    let columns = split(inner, Axis::Horizontal, 0, extents);
    assert(columns@[2].y == inner.y);
    pictured_content(ops, channel, index, paint, show_next, &columns);
    assert(draws_pictured(
        channel@,
        index as int,
        inner,
        extents@,
        paint,
        show_next,
        pictured_ops(channel@, index as int, paint, show_next, columns@),
    ));
}

/// Whether `ops` draw the compact card of the station at `index`.
pub open spec fn draws_compact_card(
    channel: ChannelModel,
    index: int,
    card: Rect,
    paint: bool,
    art_rows: u16,
    ops: Seq<OpModel>,
) -> bool {
    let area = compact_area(channel, card, art_rows);
    let inner = content_of(area, Borders::Left, left_only(2));
    if compact_plan(channel.artwork, card).show_art {
        exists|part: Seq<OpModel>|
            #[trigger] draws_pictured(
                channel,
                index,
                inner,
                compact_columns(),
                paint,
                false,
                part,
            ) && ops == compact_frame(area) + part
    } else {
        ops == compact_frame(area) + now_ops(channel, inner, false)
    }
}

/// Draws the compact card of the selected station.
pub fn draw_compact(ops: &mut Vec<Op>, app: &App, card: Rect, paint: bool, art_rows: u16)
    requires
        app.selected < app.channels.len(),
        card.y + card.height <= u16::MAX,
    ensures
        exists|part: Seq<OpModel>|
            #[trigger] draws_compact_card(
                app@.station(),
                app@.selected,
                card,
                paint,
                art_rows,
                part,
            ) && views(final(ops)@) == views(old(ops)@) + part,
{
    let ghost start = views(ops@);
    let channel = &app.channels[app.selected];
    let plan = plan_compact_card(channel.artwork, card);
    let rows = count_content_rows(channel, plan, art_rows, false);
    let area = Rect {
        x: card.x,
        y: card.y,
        width: card.width,
        height: min_u16(max_u16(rows, 1), card.height),
    };
    let panel = new_rail(
        Tone::Signal,
        None,
        Padding { left: 2, right: 0, top: 0, bottom: 0 },
    );
    let inner = content_area(area, panel.borders, panel.padding);
    push_item(ops, Op::Panel { area, panel });
    let ghost frame = compact_frame(area);
    assert(views(ops@) =~= start + frame);
    assert(area == compact_area(channel@, card, art_rows));
    if plan.show_art {
        let extents = vec![
            Extent::Length(ART_WIDTH),
            Extent::Length(GUTTER),
            Extent::Min(TEXT_MIN),
        ];
        assert(extents@ =~= compact_columns());
        render_pictured(ops, channel, app.selected, inner, &extents, paint, false);
        proof {
            let part = choose|part: Seq<OpModel>|
                #[trigger] draws_pictured(
                    channel@,
                    app.selected as int,
                    inner,
                    extents@,
                    paint,
                    false,
                    part,
                ) && views(ops@) == start + frame + part;
            assert(draws_compact_card(
                app@.station(),
                app@.selected,
                card,
                paint,
                art_rows,
                frame + part,
            ));
            assert(views(ops@) =~= start + (frame + part));
        }
    } else {
        render_now_text(ops, channel, inner, false);
        proof {
            let part = frame + now_ops(channel@, inner, false);
            assert(draws_compact_card(
                app@.station(),
                app@.selected,
                card,
                paint,
                art_rows,
                part,
            ));
            assert(views(ops@) =~= start + part);
        }
    }
}

/// The wide card's place: as high as its content and its padding, at most as high as `card`.
pub open spec fn wide_area(channel: ChannelModel, card: Rect, art_rows: u16) -> Rect {
    let rows = content_rows(channel, wide_plan(channel.artwork, card), art_rows, true);
    Rect { height: clamped(rows + 2, 3, card.height as int) as u16, ..card }
}

/// The columns of a wide card with a picture.
pub open spec fn wide_columns(art_width: u16) -> Seq<Extent> {
    seq![Extent::Length(art_width), Extent::Length(3), Extent::Min(20)]
}

/// The frame of the wide card.
pub open spec fn wide_frame(area: Rect, playing: bool) -> Seq<OpModel> {
    let border = if playing {
        Tone::Signal
    } else {
        Tone::Border
    };
    seq![OpModel::Panel { area, panel: rail(border, Some(Tone::Surface), roomy()) }]
}

/// Whether `ops` draw the wide card of the station at `index`.
pub open spec fn draws_wide_card(
    channel: ChannelModel,
    index: int,
    card: Rect,
    playing: bool,
    paint: bool,
    art_rows: u16,
    ops: Seq<OpModel>,
) -> bool {
    let area = wide_area(channel, card, art_rows);
    let inner = content_of(area, Borders::Left, roomy());
    let plan = wide_plan(channel.artwork, card);
    if plan.show_art {
        exists|part: Seq<OpModel>|
            #[trigger] draws_pictured(
                channel,
                index,
                inner,
                wide_columns(plan.art_width),
                paint,
                true,
                part,
            ) && ops == wide_frame(area, playing) + part
    } else {
        ops == wide_frame(area, playing) + now_ops(channel, inner, true)
    }
}

/// Draws the wide card of the station at `index`.
pub fn render_now_playing_card(
    ops: &mut Vec<Op>,
    channel: &Channel,
    index: usize,
    card: Rect,
    playing: bool,
    paint: bool,
    art_rows: u16,
)
    requires
        card.y + card.height <= u16::MAX,
    ensures
        exists|part: Seq<OpModel>|
            #[trigger] draws_wide_card(
                channel@,
                index as int,
                card,
                playing,
                paint,
                art_rows,
                part,
            ) && views(final(ops)@) == views(old(ops)@) + part,
{
    let ghost start = views(ops@);
    let plan = plan_wide_card(channel.artwork, card);
    let rows = count_content_rows(channel, plan, art_rows, true);
    let area = Rect {
        x: card.x,
        y: card.y,
        width: card.width,
        height: min_u16(max_u16(rows.saturating_add(2), 3), card.height),
    };
    assert(area == wide_area(channel@, card, art_rows));
    let border = if playing {
        Tone::Signal
    } else {
        Tone::Border
    };
    let panel = new_rail(
        border,
        Some(Tone::Surface),
        Padding { left: 2, right: 2, top: 1, bottom: 1 },
    );
    let inner = content_area(area, panel.borders, panel.padding);
    push_item(ops, Op::Panel { area, panel });
    let ghost frame = wide_frame(area, playing);
    assert(views(ops@) =~= start + frame);
    if plan.show_art {
        let extents = vec![Extent::Length(plan.art_width), Extent::Length(3), Extent::Min(20)];
        assert(extents@ =~= wide_columns(plan.art_width));
        render_pictured(ops, channel, index, inner, &extents, paint, true);
        proof {
            let part = choose|part: Seq<OpModel>|
                #[trigger] draws_pictured(
                    channel@,
                    index as int,
                    inner,
                    extents@,
                    paint,
                    true,
                    part,
                ) && views(ops@) == start + frame + part;
            assert(draws_wide_card(
                channel@,
                index as int,
                card,
                playing,
                paint,
                art_rows,
                frame + part,
            ));
            assert(views(ops@) =~= start + (frame + part));
        }
    } else {
        render_now_text(ops, channel, inner, true);
        proof {
            let part = frame + now_ops(channel@, inner, true);
            assert(draws_wide_card(
                channel@,
                index as int,
                card,
                playing,
                paint,
                art_rows,
                part,
            ));
            assert(views(ops@) =~= start + part);
        }
    }
}

/// A small card.
pub open spec fn switcher_ops(
    channel: ChannelModel,
    area: Rect,
    selected: bool,
    playing: bool,
    buffering: bool,
) -> Seq<OpModel> {
    let padding = Padding { left: 1, right: 1, top: 0, bottom: 0 };
    let panel = if selected {
        rail(Tone::Signal, Some(Tone::Surface), padding)
    } else {
        rail(Tone::Border, Some(Tone::Base), padding)
    };
    let label = if selected {
        "→"@
    } else {
        " "@
    };
    seq![
        OpModel::Panel { area, panel },
        OpModel::Lines {
            area: content_of(area, Borders::Left, padding),
            lines: seq![
                line_of(label + " "@ + channel.name, in_bold(Tone::Ink)),
                line_of(
                    channel.activity(selected, playing, buffering),
                    in_tone(
                        if selected {
                            Tone::Signal
                        } else {
                            Tone::Muted
                        },
                    ),
                ),
                line_of(channel.show, in_bold(Tone::Ink)),
            ],
            wrap: true,
        },
    ]
}

/// Draws a small card.
pub fn render_channel_switcher(
    ops: &mut Vec<Op>,
    channel: &Channel,
    area: Rect,
    selected: bool,
    playing: bool,
    buffering: bool,
)
    ensures
        views(final(ops)@) == views(old(ops)@) + switcher_ops(
            channel@,
            area,
            selected,
            playing,
            buffering,
        ),
{
    let padding = Padding { left: 1, right: 1, top: 0, bottom: 0 };
    let panel = if selected {
        new_rail(Tone::Signal, Some(Tone::Surface), padding)
    } else {
        new_rail(Tone::Border, Some(Tone::Base), padding)
    };
    let inner = content_area(area, Borders::Left, padding);
    push_item(ops, Op::Panel { area, panel });
    let mut name = two(
        if selected {
            "→"
        } else {
            " "
        },
        " ",
    );
    name = two(name.as_str(), channel.name);
    let tone = if selected {
        Tone::Signal
    } else {
        Tone::Muted
    };
    let mut lines = empty_list::<TextLine>();
    push_item(&mut lines, line(name, bold(Tone::Ink)));
    push_item(&mut lines, line(channel.activity(selected, playing, buffering), toned(tone)));
    push_item(&mut lines, line(channel.show.clone(), bold(Tone::Ink)));
    let ghost texts = views(lines@);
    push_item(ops, Op::Lines { area: inner, lines, wrap: true });
    proof {
        let expected = switcher_ops(channel@, area, selected, playing, buffering);
        assert(texts =~= expected[1]->lines);
        assert(views(ops@) =~= views(old(ops)@) + expected);
    }
}

/// The rows of the small cards, with gaps.
pub open spec fn switcher_extents() -> Seq<Extent> {
    seq![
        Extent::Length(6),
        Extent::Length(1),
        Extent::Length(6),
        Extent::Length(1),
        Extent::Length(6),
        Extent::Min(0),
    ]
}

/// The small card in the place `slot`.
pub open spec fn slot_ops(m: AppModel, places: Seq<Rect>, slot: int) -> Seq<OpModel> {
    let index = window(m.selected, m.channels.len() as int, RAIL_SLOTS as int)[slot] as int;
    switcher_ops(
        m.channels[index],
        places[slot * 2],
        index == m.selected,
        m.playing,
        m.buffering,
    )
}

/// The small cards: the stations round the selected one.
pub open spec fn rail_ops(m: AppModel, places: Seq<Rect>) -> Seq<OpModel> {
    concat(
        Seq::new(
            window(m.selected, m.channels.len() as int, RAIL_SLOTS as int).len(),
            |slot: int| slot_ops(m, places, slot),
        ),
    )
}

/// Draws the small cards in their places.
pub fn station_rail(ops: &mut Vec<Op>, app: &App, places: &Vec<Rect>)
    requires
        app.selected < app.channels.len(),
        places@.len() == 6,
    ensures
        views(final(ops)@) == views(old(ops)@) + rail_ops(app@, places@),
{
    let shown = visible_channels(app.selected, app.channels.len(), RAIL_SLOTS);
    let ghost start = views(ops@);
    let ghost parts = Seq::new(shown@.len(), |slot: int| slot_ops(app@, places@, slot));
    assert(parts.take(0) =~= Seq::empty());
    assert(start + concat(parts.take(0)) =~= start);
    proof {
        crate::geometry::law_window_holds_the_selection(
            app.selected as int,
            app.channels@.len() as int,
            RAIL_SLOTS as int,
        );
    }
    for slot in 0..shown.len()
        invariant
            app.selected < app.channels@.len(),
            places@.len() == 6,
            shown@ == window(app@.selected, app@.channels.len() as int, RAIL_SLOTS as int),
            shown@.len() <= 3,
            forall|i: int| 0 <= i < shown@.len() ==> (#[trigger] shown@[i]) < app.channels@.len(),
            parts == Seq::new(shown@.len(), |slot: int| slot_ops(app@, places@, slot)),
            views(ops@) == start + concat(parts.take(slot as int)),
    {
        let index = shown[slot];
        render_channel_switcher(
            ops,
            &app.channels[index],
            places[slot * 2],
            index == app.selected,
            app.playing,
            app.buffering,
        );
        proof {
            assert(parts.take(slot + 1).drop_last() =~= parts.take(slot as int));
            assert(views(ops@) =~= start + concat(parts.take(slot + 1)));
        }
    }
    assert(parts.take(parts.len() as int) =~= parts);
}

/// Whether `ops` draw the wide card in `columns[0]` and the small ones in `columns[2]`.
pub open spec fn draws_wide_channels(
    m: AppModel,
    columns: Seq<Rect>,
    paint: bool,
    art_rows: u16,
    ops: Seq<OpModel>,
) -> bool {
    exists|card: Seq<OpModel>, places: Seq<Rect>|
        {
            &&& #[trigger] draws_wide_card(
                m.station(),
                m.selected,
                columns[0],
                m.playing,
                paint,
                art_rows,
                card,
            )
            &&& is_split(columns[2], Axis::Vertical, 0, switcher_extents(), places)
            &&& ops == card + #[trigger] rail_ops(m, places)
        }
}

/// Draws the wide card and the small ones.
pub fn draw_wide_channels(
    ops: &mut Vec<Op>,
    app: &App,
    columns: &Vec<Rect>,
    paint: bool,
    art_rows: u16,
)
    requires
        app.selected < app.channels.len(),
        columns@.len() == 3,
        columns@[0].y + columns@[0].height <= u16::MAX,
    ensures
        exists|part: Seq<OpModel>|
            #[trigger] draws_wide_channels(app@, columns@, paint, art_rows, part) && views(
                final(ops)@,
            ) == views(old(ops)@) + part,
{
    let ghost start = views(ops@);
    render_now_playing_card(
        ops,
        &app.channels[app.selected],
        app.selected,
        columns[0],
        app.playing,
        paint,
        art_rows,
    );
    let ghost card = choose|part: Seq<OpModel>|
        #[trigger] draws_wide_card(
            app@.station(),
            app@.selected,
            columns@[0],
            app.playing,
            paint,
            art_rows,
            part,
        ) && views(ops@) == start + part;
    let extents = vec![
        Extent::Length(6),
        Extent::Length(1),
        Extent::Length(6),
        Extent::Length(1),
        Extent::Length(6),
        Extent::Min(0),
    ];
    assert(extents@ =~= switcher_extents());
    let places = split(columns[2], Axis::Vertical, 0, &extents);
    station_rail(ops, app, &places);
    proof {
        let whole = card + rail_ops(app@, places@);
        assert(draws_wide_channels(app@, columns@, paint, art_rows, whole));
        assert(views(ops@) =~= start + whole);
    }
}

/// Where a picture goes that takes `fitted` rows when it is scaled into `area`: in the middle of
/// its rows. While nobody knows how many rows it takes, it is not shown.
pub fn picture_place(area: Rect, fitted: Option<u16>) -> (r: Option<Rect>)
    requires
        area.y + area.height <= u16::MAX,
    ensures
        r == (match fitted {
            Some(rows) => Some(vertically_centered(area, rows)),
            None => None,
        }),
{
    match fitted {
        Some(rows) => Some(vcentered(area, rows)),
        None => None,
    }
}

/// A card that shows a picture leaves its text no fewer columns than the text needs, and the
/// picture and the text fit in the card beside each other.
pub proof fn law_a_picture_leaves_room_for_the_text(artwork: bool, card: Rect)
    ensures
        compact_plan(artwork, card).show_art ==> {
            &&& compact_plan(artwork, card).text_width >= TEXT_MIN
            &&& compact_plan(artwork, card).art_width + GUTTER + compact_plan(
                artwork,
                card,
            ).text_width + 3 == card.width
        },
        wide_plan(artwork, card).show_art ==> {
            &&& wide_plan(artwork, card).text_width >= 20
            &&& 20 <= wide_plan(artwork, card).art_width <= 56
            &&& wide_plan(artwork, card).art_width + 3 + wide_plan(artwork, card).text_width
                == content_of(card, Borders::Left, roomy()).width
        },
        !artwork ==> !compact_plan(artwork, card).show_art && !wide_plan(artwork, card).show_art,
{
}

/// A card is as high as its text needs where there is that room, each line of it wrapped, so a long
/// title or description is not cut short; and it is never higher than its place.
pub proof fn law_cards_grow_with_their_text(channel: ChannelModel, card: Rect, art_rows: u16)
    ensures
        compact_area(channel, card, art_rows).inside(card),
        ({
            let rows = channel.copy_rows(
                compact_plan(channel.artwork, card).text_width,
                false,
            );
            let text = content_of(
                compact_area(channel, card, art_rows),
                Borders::Left,
                left_only(2),
            );
            rows <= card.height ==> text.height >= rows
        }),
        wide_area(channel, card, art_rows).inside(card),
        ({
            let rows = channel.copy_rows(wide_plan(channel.artwork, card).text_width, true);
            let text = content_of(wide_area(channel, card, art_rows), Borders::Left, roomy());
            rows + 2 <= card.height ==> text.height >= rows
        }),
        !channel.artwork ==> {
            &&& compact_plan(channel.artwork, card).text_width == content_of(
                compact_area(channel, card, art_rows),
                Borders::Left,
                left_only(2),
            ).width
            &&& wide_plan(channel.artwork, card).text_width == content_of(
                wide_area(channel, card, art_rows),
                Borders::Left,
                roomy(),
            ).width
        },
{
}

/// Beside a picture the text gets the columns that were planned for it, and all the rows that it
/// needs there where the card has room for them.
pub proof fn law_a_picture_does_not_crowd_the_text(
    channel: ChannelModel,
    card: Rect,
    art_rows: u16,
    columns: Seq<Rect>,
)
    requires
        card.fits(),
    ensures
        ({
            let plan = compact_plan(channel.artwork, card);
            let rows = channel.copy_rows(plan.text_width, false);
            let inner = content_of(
                compact_area(channel, card, art_rows),
                Borders::Left,
                left_only(2),
            );
            plan.show_art && is_split(inner, Axis::Horizontal, 0, compact_columns(), columns) ==> {
                &&& columns[2].width == plan.text_width
                &&& rows <= card.height ==> vertically_centered(
                    columns[2],
                    channel.copy_rows(columns[2].width, false) as u16,
                ).height == rows
            }
        }),
        ({
            let plan = wide_plan(channel.artwork, card);
            let rows = channel.copy_rows(plan.text_width, true);
            let inner = content_of(wide_area(channel, card, art_rows), Borders::Left, roomy());
            plan.show_art && is_split(
                inner,
                Axis::Horizontal,
                0,
                wide_columns(plan.art_width),
                columns,
            ) ==> {
                &&& columns[2].width == plan.text_width
                &&& rows + 2 <= card.height ==> vertically_centered(
                    columns[2],
                    channel.copy_rows(columns[2].width, true) as u16,
                ).height == rows
            }
        }),
{
    law_cards_grow_with_their_text(channel, card, art_rows);
    let plan = wide_plan(channel.artwork, card);
    lemma_lone_min_of_three(ART_WIDTH, GUTTER, TEXT_MIN);
    lemma_lone_min_of_three(plan.art_width, 3, 20);
}

/// Two fixed lengths and a least size.
proof fn lemma_lone_min_of_three(a: u16, b: u16, c: u16)
    requires
        c <= i16::MAX,
    ensures
        is_lone_min(seq![Extent::Length(a), Extent::Length(b), Extent::Min(c)], 2),
        fixed_cells(seq![Extent::Length(a), Extent::Length(b), Extent::Min(c)]) == a + b,
{
    reveal_with_fuel(fixed_cells, 4);
    let extents = seq![Extent::Length(a), Extent::Length(b), Extent::Min(c)];
    assert(extents.drop_last() =~= seq![Extent::Length(a), Extent::Length(b)]);
    assert(extents.drop_last().drop_last() =~= seq![Extent::Length(a)]);
    assert(extents.drop_last().drop_last().drop_last() =~= Seq::empty());
}

} // verus!

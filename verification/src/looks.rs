//! What the screens show: every text that the listener looks for is written on them.
use crate::app::{App, AppModel, Screen};
use crate::cards::{
    compact_area, compact_columns, compact_frame, compact_plan, draws_compact_card, draws_pictured,
    draws_wide_card, now_ops, pictured_ops, rail_ops, render_channel_switcher,
    render_now_playing_card, slot_ops, wide_area, wide_columns, wide_frame, wide_plan, RAIL_SLOTS,
};
use crate::catalog::{Channel, ChannelKind, ChannelModel};
use crate::draw::{
    draws_schedule, error_ops, footer_ops, left_only, roomy, schedule_modal_ops, schedule_ops,
};
use crate::explore::{
    draws_explore, draws_mixtapes, draws_tile, draws_tile_at, draws_tiles,
    explore_foot, explore_head, list_chunk, list_line, list_lines, list_ops, render_explore_tile,
    tile_ops,
};
use crate::geometry::{content_of, is_split, window, Axis, Borders, Extent, Rect};
use crate::listening::tuned;
use crate::scene::{LineModel, Op, OpModel, SpanModel, Style, Tone};
use crate::screen::{
    bottom_ops, draw, draws_cards, draws_overlay, draws_screen, head_ops, Stage, StageModel,
};
use crate::text::{concat, views};
use vstd::prelude::*;

verus! {

/// The text of a line: its pieces, one after the other.
pub open spec fn text_of(line: LineModel) -> Seq<char> {
    concat(line.spans.map_values(|span: SpanModel| span.text))
}

/// Whether a step writes `text`, as a whole text, as a line or as a panel's title.
pub open spec fn step_writes(op: OpModel, text: Seq<char>) -> bool {
    match op {
        OpModel::Copy { text: written, .. } => written == text,
        OpModel::Lines { lines, .. } => has_line(lines, text),
        OpModel::Panel { panel, .. } => panel.title == Some(text),
        _ => false,
    }
}

/// Whether one of the lines is `text`.
pub open spec fn has_line(lines: Seq<LineModel>, text: Seq<char>) -> bool {
    exists|j: int| 0 <= j < lines.len() && text_of(#[trigger] lines[j]) == text
}

/// Whether `text` is written in the course of `ops`.
pub open spec fn writes(ops: Seq<OpModel>, text: Seq<char>) -> bool {
    exists|i: int| 0 <= i < ops.len() && step_writes(#[trigger] ops[i], text)
}

/// Whether `text` is written on a screen.
pub open spec fn is_on(ops: Vec<Op>, text: Seq<char>) -> bool {
    writes(views(ops@), text)
}

/// What is written is written whatever is drawn before and after it.
proof fn lemma_around(before: Seq<OpModel>, ops: Seq<OpModel>, after: Seq<OpModel>, text: Seq<char>)
    requires
        writes(ops, text),
    ensures
        writes(before + ops + after, text),
{
    let i = choose|i: int| 0 <= i < ops.len() && step_writes(#[trigger] ops[i], text);
    assert((before + ops + after)[before.len() + i] == ops[i]);
}

/// A step writes what it writes.
proof fn lemma_step(ops: Seq<OpModel>, i: int, text: Seq<char>)
    requires
        0 <= i < ops.len(),
        step_writes(ops[i], text),
    ensures
        writes(ops, text),
{
}

/// One part of a list of parts writes what it writes.
proof fn lemma_part(parts: Seq<Seq<OpModel>>, i: int, text: Seq<char>)
    requires
        0 <= i < parts.len(),
        writes(parts[i], text),
    ensures
        writes(concat(parts), text),
    decreases parts.len(),
{
    let rest = parts.drop_last();
    let none = Seq::<OpModel>::empty();
    if i < rest.len() {
        lemma_part(rest, i, text);
        lemma_around(none, concat(rest), parts.last(), text);
        assert(none + concat(rest) + parts.last() =~= concat(parts));
    } else {
        lemma_around(concat(rest), parts.last(), none, text);
        assert(concat(rest) + parts.last() + none =~= concat(parts));
    }
}

/// The text of a line in one style.
proof fn lemma_line_text(text: Seq<char>, style: Style)
    ensures
        text_of(crate::scene::line_of(text, style)) == text,
{
    let line = crate::scene::line_of(text, style);
    let pieces = line.spans.map_values(|span: SpanModel| span.text);
    assert(pieces =~= seq![text]);
    reveal_with_fuel(concat, 2);
    assert(pieces.drop_last() =~= Seq::empty());
    assert(concat(pieces) =~= text);
}

/// The text of a line of three pieces.
proof fn lemma_three_pieces(a: SpanModel, b: SpanModel, c: SpanModel)
    ensures
        text_of(crate::scene::spans_of(seq![a, b, c])) == a.text + b.text + c.text,
{
    let line = crate::scene::spans_of(seq![a, b, c]);
    let pieces = line.spans.map_values(|span: SpanModel| span.text);
    assert(pieces =~= seq![a.text, b.text, c.text]);
    assert(pieces.drop_last() =~= seq![a.text, b.text]);
    assert(pieces.drop_last().drop_last() =~= seq![a.text]);
    assert(pieces.drop_last().drop_last().drop_last() =~= Seq::empty());
    reveal_with_fuel(concat, 4);
    assert(concat(pieces) =~= a.text + b.text + c.text);
}

/// Whether the card of `channel` is written: what is over its show, the show, what is said of it
/// and, with `show_next`, what a live channel plays next and when.
pub open spec fn writes_card(ops: Seq<OpModel>, channel: ChannelModel, show_next: bool) -> bool {
    &&& channel.kind == ChannelKind::Live ==> writes(ops, "NOW ON NTS "@ + channel.number)
    &&& channel.kind == ChannelKind::Mixtape ==> writes(ops, "INFINITE MIXTAPE"@)
    &&& writes(ops, channel.show)
    &&& writes(ops, channel.description)
    &&& show_next && channel.kind == ChannelKind::Live ==> writes(
        ops,
        "NEXT  "@ + channel.next_starts_at + "  ·  "@ + channel.next_show,
    )
}

/// A card is written whatever is drawn before and after it.
proof fn lemma_card_around(
    before: Seq<OpModel>,
    ops: Seq<OpModel>,
    after: Seq<OpModel>,
    channel: ChannelModel,
    show_next: bool,
)
    requires
        writes_card(ops, channel, show_next),
    ensures
        writes_card(before + ops + after, channel, show_next),
{
    if channel.kind == ChannelKind::Live {
        lemma_around(before, ops, after, "NOW ON NTS "@ + channel.number);
        if show_next {
            lemma_around(
                before,
                ops,
                after,
                "NEXT  "@ + channel.next_starts_at + "  ·  "@ + channel.next_show,
            );
        }
    } else {
        lemma_around(before, ops, after, "INFINITE MIXTAPE"@);
    }
    lemma_around(before, ops, after, channel.show);
    lemma_around(before, ops, after, channel.description);
}

/// The text of a card.
proof fn lemma_now_text(channel: ChannelModel, area: Rect, show_next: bool)
    ensures
        writes_card(now_ops(channel, area, show_next), channel, show_next),
{
    let ops = now_ops(channel, area, show_next);
    let lines = channel.now_lines(show_next);
    assert(ops[0]->lines == lines);
    let heading = channel.heading();
    lemma_line_text(heading, crate::scene::in_bold(Tone::Signal));
    lemma_line_text(channel.show, crate::scene::in_bold(Tone::Ink));
    lemma_line_text(channel.description, crate::scene::in_tone(Tone::Muted));
    lemma_line_text(channel.next_line(), crate::scene::in_tone(Tone::Muted));
    assert(text_of(lines[0]) == heading);
    assert(text_of(lines[1]) == channel.show);
    assert(text_of(lines[2]) == channel.description);
    lemma_step(ops, 0, heading);
    lemma_step(ops, 0, channel.show);
    lemma_step(ops, 0, channel.description);
    if show_next && channel.kind == ChannelKind::Live {
        assert(text_of(lines[4]) == channel.next_line());
        lemma_step(ops, 0, channel.next_line());
    }
}

/// The text of a card with a picture.
proof fn lemma_pictured(
    channel: ChannelModel,
    index: int,
    inner: Rect,
    extents: Seq<Extent>,
    paint: bool,
    show_next: bool,
    ops: Seq<OpModel>,
)
    requires
        draws_pictured(channel, index, inner, extents, paint, show_next, ops),
    ensures
        writes_card(ops, channel, show_next),
{
    let columns = choose|columns: Seq<Rect>|
        #![trigger pictured_ops(channel, index, paint, show_next, columns)]
        is_split(inner, Axis::Horizontal, 0, extents, columns) && ops == pictured_ops(
            channel,
            index,
            paint,
            show_next,
            columns,
        );
    let rows = channel.copy_rows(columns[2].width, show_next) as u16;
    let area = crate::geometry::vertically_centered(columns[2], rows);
    let art = crate::cards::art_ops(index, columns[0], paint);
    lemma_now_text(channel, area, show_next);
    lemma_card_around(art, now_ops(channel, area, show_next), Seq::empty(), channel, show_next);
    assert(art + now_ops(channel, area, show_next) + Seq::<OpModel>::empty() =~= ops);
}

/// The text of the compact card.
proof fn lemma_compact(
    channel: ChannelModel,
    index: int,
    card: Rect,
    paint: bool,
    art_rows: u16,
    ops: Seq<OpModel>,
)
    requires
        draws_compact_card(channel, index, card, paint, art_rows, ops),
    ensures
        writes_card(ops, channel, false),
{
    let area = compact_area(channel, card, art_rows);
    let inner = content_of(area, Borders::Left, left_only(2));
    let frame = compact_frame(area);
    let none = Seq::<OpModel>::empty();
    if compact_plan(channel.artwork, card).show_art {
        let part = choose|part: Seq<OpModel>|
            #[trigger] draws_pictured(
                channel,
                index,
                inner,
                compact_columns(),
                paint,
                false,
                part,
            ) && ops == frame + part;
        lemma_pictured(channel, index, inner, compact_columns(), paint, false, part);
        lemma_card_around(frame, part, none, channel, false);
        assert(frame + part + none =~= ops);
    } else {
        lemma_now_text(channel, inner, false);
        lemma_card_around(frame, now_ops(channel, inner, false), none, channel, false);
        assert(frame + now_ops(channel, inner, false) + none =~= ops);
    }
}

/// The text of the wide card.
proof fn lemma_wide(
    channel: ChannelModel,
    index: int,
    card: Rect,
    playing: bool,
    paint: bool,
    art_rows: u16,
    ops: Seq<OpModel>,
)
    requires
        draws_wide_card(channel, index, card, playing, paint, art_rows, ops),
    ensures
        writes_card(ops, channel, true),
{
    let area = wide_area(channel, card, art_rows);
    let inner = content_of(area, Borders::Left, roomy());
    let plan = wide_plan(channel.artwork, card);
    let frame = wide_frame(area, playing);
    let none = Seq::<OpModel>::empty();
    if plan.show_art {
        let part = choose|part: Seq<OpModel>|
            #[trigger] draws_pictured(
                channel,
                index,
                inner,
                wide_columns(plan.art_width),
                paint,
                true,
                part,
            ) && ops == frame + part;
        lemma_pictured(channel, index, inner, wide_columns(plan.art_width), paint, true, part);
        lemma_card_around(frame, part, none, channel, true);
        assert(frame + part + none =~= ops);
    } else {
        lemma_now_text(channel, inner, true);
        lemma_card_around(frame, now_ops(channel, inner, true), none, channel, true);
        assert(frame + now_ops(channel, inner, true) + none =~= ops);
    }
}

/// Whether the small card of `channel` is written: its name, marked where it is selected, what it
/// does, and its show.
pub open spec fn writes_small(
    ops: Seq<OpModel>,
    channel: ChannelModel,
    selected: bool,
    playing: bool,
    buffering: bool,
) -> bool {
    &&& writes(
        ops,
        (if selected {
            "→"@
        } else {
            " "@
        }) + " "@ + channel.name,
    )
    &&& writes(ops, channel.show)
    &&& writes(
        ops,
        if selected && playing {
            if buffering {
                "◌ BUFFERING"@
            } else if channel.kind == ChannelKind::Live {
                "● ON AIR"@
            } else {
                "● PLAYING"@
            }
        } else if channel.kind == ChannelKind::Live {
            "LIVE NOW"@
        } else {
            "INFINITE MIXTAPE"@
        },
    )
}

/// A small card is written whatever is drawn before and after it.
proof fn lemma_small_around(
    before: Seq<OpModel>,
    ops: Seq<OpModel>,
    after: Seq<OpModel>,
    channel: ChannelModel,
    selected: bool,
    playing: bool,
    buffering: bool,
)
    requires
        writes_small(ops, channel, selected, playing, buffering),
    ensures
        writes_small(before + ops + after, channel, selected, playing, buffering),
{
    lemma_around(
        before,
        ops,
        after,
        (if selected {
            "→"@
        } else {
            " "@
        }) + " "@ + channel.name,
    );
    lemma_around(before, ops, after, channel.show);
    lemma_around(before, ops, after, channel.activity(selected, playing, buffering));
}

/// The text of a small card.
proof fn lemma_small(
    channel: ChannelModel,
    area: Rect,
    selected: bool,
    playing: bool,
    buffering: bool,
)
    ensures
        writes_small(
            crate::cards::switcher_ops(channel, area, selected, playing, buffering),
            channel,
            selected,
            playing,
            buffering,
        ),
{
    let ops = crate::cards::switcher_ops(channel, area, selected, playing, buffering);
    let lines = ops[1]->lines;
    let name = (if selected {
        "→"@
    } else {
        " "@
    }) + " "@ + channel.name;
    let activity = channel.activity(selected, playing, buffering);
    lemma_line_text(name, lines[0].style);
    lemma_line_text(activity, lines[1].style);
    lemma_line_text(channel.show, lines[2].style);
    assert(text_of(lines[0]) == name);
    assert(text_of(lines[1]) == activity);
    assert(text_of(lines[2]) == channel.show);
    lemma_step(ops, 1, name);
    lemma_step(ops, 1, activity);
    lemma_step(ops, 1, channel.show);
}

/// The texts of the small cards.
proof fn lemma_rail(m: AppModel, places: Seq<Rect>, slot: int)
    requires
        0 <= slot < window(m.selected, m.channels.len() as int, RAIL_SLOTS as int).len(),
    ensures
        ({
            let index = window(m.selected, m.channels.len() as int, RAIL_SLOTS as int)[slot] as int;
            writes_small(
                rail_ops(m, places),
                m.channels[index],
                index == m.selected,
                m.playing,
                m.buffering,
            )
        }),
{
    let shown = window(m.selected, m.channels.len() as int, RAIL_SLOTS as int);
    let index = shown[slot] as int;
    let channel = m.channels[index];
    let selected = index == m.selected;
    let parts = Seq::new(shown.len(), |slot: int| slot_ops(m, places, slot));
    lemma_small(channel, places[slot * 2], selected, m.playing, m.buffering);
    assert(parts[slot] == slot_ops(m, places, slot));
    lemma_part(
        parts,
        slot,
        (if selected {
            "→"@
        } else {
            " "@
        }) + " "@ + channel.name,
    );
    lemma_part(parts, slot, channel.show);
    lemma_part(parts, slot, channel.activity(selected, m.playing, m.buffering));
}

/// The line of a schedule at `index`: the first one is marked; then the time, then the title.
pub open spec fn schedule_row(channel: ChannelModel, index: int) -> Seq<char> {
    (if index == 0 {
        "→  "@
    } else {
        "   "@
    }) + (channel.schedule[index].starts_at + "  "@) + channel.schedule[index].title
}

/// Whether one of the steps writes the schedule of `channel` and nothing else: as many of its shows
/// as `limit` allows, in their order, each with its time and its title.
pub open spec fn writes_schedule(ops: Seq<OpModel>, channel: ChannelModel, limit: int) -> bool {
    exists|k: int|
        0 <= k < ops.len() && #[trigger] ops[k] is Lines && is_schedule_text(
            ops[k]->lines,
            channel,
            limit,
        )
}

/// Whether `lines` are the schedule of `channel`, cut to `limit` lines.
pub open spec fn is_schedule_text(lines: Seq<LineModel>, channel: ChannelModel, limit: int) -> bool {
    &&& lines.len() <= limit
    &&& lines.len() <= channel.schedule.len()
    &&& lines.len() == limit || lines.len() == channel.schedule.len()
    &&& forall|i: int|
        0 <= i < lines.len() ==> text_of(#[trigger] lines[i]) == schedule_row(channel, i)
}

/// The text of the schedule.
proof fn lemma_schedule_text(channel: ChannelModel, area: Rect, compact: bool)
    requires
        channel.schedule.len() > 0,
    ensures
        writes_schedule(
            schedule_ops(channel, area, compact),
            channel,
            if compact {
                4
            } else {
                6
            },
        ),
{
    let ops = schedule_ops(channel, area, compact);
    let lines = ops[1]->lines;
    assert forall|i: int| 0 <= i < lines.len() implies text_of(#[trigger] lines[i])
        == schedule_row(channel, i) by {
        let line = crate::draw::schedule_line(channel, i);
        assert(lines[i] == line);
        lemma_three_pieces(line.spans[0], line.spans[1], line.spans[2]);
        assert(line.spans =~= seq![line.spans[0], line.spans[1], line.spans[2]]);
    }
    assert(ops[1] is Lines);
}

/// The schedule's overlay names its station and writes its schedule.
proof fn lemma_schedule_overlay(m: AppModel, area: Rect, compact: bool, ops: Seq<OpModel>)
    requires
        draws_schedule(m, area, compact, ops),
    ensures
        writes(ops, " SCHEDULE  /  "@ + m.station().name + " "@),
        m.station().schedule.len() > 0 ==> writes_schedule(
            ops,
            m.station(),
            if compact {
                4
            } else {
                6
            },
        ),
{
    let sections = choose|sections: Seq<Rect>|
        #![trigger schedule_modal_ops(m, area, compact, sections)]
        is_split(
            crate::draw::schedule_content(area, compact),
            Axis::Vertical,
            0,
            crate::draw::schedule_extents(),
            sections,
        ) && ops == schedule_modal_ops(m, area, compact, sections);
    let title = " SCHEDULE  /  "@ + m.station().name + " "@;
    assert(step_writes(ops[1], title));
    lemma_step(ops, 1, title);
    if m.station().schedule.len() > 0 {
        let body = schedule_ops(m.station(), sections[1], compact);
        lemma_schedule_text(m.station(), sections[1], compact);
        assert(ops[4] == body[1]);
        let limit: int = if compact {
            4
        } else {
            6
        };
        let k = choose|k: int|
            0 <= k < body.len() && #[trigger] body[k] is Lines && is_schedule_text(
                body[k]->lines,
                m.station(),
                limit,
            );
        assert(k == 1);
    }
}

/// A mixtape in the Explore overlay: its name, marked where the mark stands on it.
pub open spec fn mixtape_row(m: AppModel, i: int) -> Seq<char> {
    (if i == m.explore_selected {
        "→ "@
    } else {
        "  "@
    }) + m.channels[i + 2].name
}

/// The text of a tile.
proof fn lemma_tile(m: AppModel, columns: Seq<Rect>, rows: Seq<Rect>, i: int, ops: Seq<OpModel>)
    requires
        draws_tile_at(m, columns, rows, i, ops),
    ensures
        writes(ops, mixtape_row(m, i)),
        writes(ops, m.channels[i + 2].description),
{
    let channel = m.channels[i + 2];
    let area = crate::explore::tile_area(columns, rows, i);
    let selected = i == m.explore_selected;
    let places = choose|places: Seq<Rect>|
        #![trigger tile_ops(channel, i + 2, area, selected, places)]
        is_split(
            content_of(area, Borders::Left, left_only(1)),
            Axis::Horizontal,
            0,
            crate::explore::tile_extents(),
            places,
        ) && ops == tile_ops(channel, i + 2, area, selected, places);
    let last = ops.len() - 1;
    let lines = ops[last]->lines;
    lemma_line_text(mixtape_row(m, i), lines[0].style);
    lemma_line_text(channel.description, lines[1].style);
    assert(text_of(lines[0]) == mixtape_row(m, i));
    assert(text_of(lines[1]) == channel.description);
    lemma_step(ops, last, mixtape_row(m, i));
    lemma_step(ops, last, channel.description);
}

/// The text of a mixtape in the list.
proof fn lemma_list_row(m: AppModel, i: int)
    ensures
        text_of(list_line(m, i)) == mixtape_row(m, i),
{
    reveal_strlit("→");
    reveal_strlit(" ");
    reveal_strlit("→ ");
    reveal_strlit("  ");
    let text = (if i == m.explore_selected {
        "→"@
    } else {
        " "@
    }) + " "@ + m.channels[i + 2].name;
    lemma_line_text(text, list_line(m, i).style);
    assert(text =~= mixtape_row(m, i));
}

/// The list writes every mixtape.
proof fn lemma_list(m: AppModel, groups: Seq<Rect>, i: int)
    requires
        1 <= groups.len() <= 2,
        0 <= i < m.mixtapes(),
    ensures
        writes(list_ops(m, groups), mixtape_row(m, i)),
{
    let columns = groups.len() as int;
    let chunk = list_chunk(m, columns);
    let total = m.mixtapes();
    if columns == 1 {
        vstd::arithmetic::div_mod::lemma_fundamental_div_mod_converse(total, 1, total, 0);
    } else {
        assert(list_chunk(m, 2) == (total + 1) / 2);
    }
    let g: int = if i < chunk {
        0
    } else {
        1
    };
    assert(g * chunk == (if g == 0 {
        0
    } else {
        chunk
    })) by (nonlinear_arith)
        requires
            g == 0 || g == 1,
    ;
    let lines = list_lines(m, columns, g);
    let k = i - g * chunk;
    assert(lines[k] == list_line(m, i));
    lemma_list_row(m, i);
    assert(list_ops(m, groups)[g]->lines == lines);
    lemma_step(list_ops(m, groups), g, mixtape_row(m, i));
}

/// The Explore overlay writes every mixtape.
proof fn lemma_explore(m: AppModel, area: Rect, compact: bool, ops: Seq<OpModel>, i: int)
    requires
        draws_explore(m, area, compact, ops),
        0 <= i < m.mixtapes(),
    ensures
        writes(ops, mixtape_row(m, i)),
{
    let (sections, body) = choose|sections: Seq<Rect>, body: Seq<OpModel>|
        {
            &&& is_split(
                crate::explore::explore_content(area, compact),
                Axis::Vertical,
                0,
                crate::explore::explore_extents(),
                sections,
            )
            &&& #[trigger] draws_mixtapes(m, compact, sections[1], body)
            &&& ops == explore_head(area, compact, sections) + body + explore_foot(sections)
        };
    if crate::explore::as_tiles(compact, sections[1]) {
        let (columns, rows, parts) = choose|
            columns: Seq<Rect>,
            rows: Seq<Rect>,
            parts: Seq<Seq<OpModel>>,
        |
            {
                &&& is_split(
                    sections[1],
                    Axis::Horizontal,
                    0,
                    crate::explore::grid_columns(),
                    columns,
                )
                &&& is_split(sections[1], Axis::Vertical, 0, crate::explore::grid_rows(), rows)
                &&& #[trigger] draws_tiles(m, columns, rows, parts)
                &&& parts.len() == m.mixtapes()
                &&& body == concat(parts)
            };
        assert(draws_tile_at(m, columns, rows, i, parts[i]));
        lemma_tile(m, columns, rows, i, parts[i]);
        lemma_part(parts, i, mixtape_row(m, i));
    } else {
        let groups = choose|groups: Seq<Rect>|
            #![trigger list_ops(m, groups)]
            is_split(
                sections[1],
                Axis::Horizontal,
                0,
                crate::explore::list_extents(sections[1]),
                groups,
            ) && body == list_ops(m, groups);
        assert(groups.len() == crate::explore::list_extents(sections[1]).len());
        lemma_list(m, groups, i);
    }
    lemma_around(
        explore_head(area, compact, sections),
        body,
        explore_foot(sections),
        mixtape_row(m, i),
    );
}

/// The parts of a screen without the visualizer.
proof fn lemma_parts(m: AppModel, stage: StageModel, art_rows: u16, ops: Seq<OpModel>) -> (parts: (
    Seq<OpModel>,
    Seq<OpModel>,
))
    requires
        m.visualizer is None,
        draws_screen(m, stage, art_rows, ops),
    ensures
        draws_cards(m, stage, art_rows, parts.0),
        draws_overlay(m, stage.area, stage.compact, parts.1),
        ops == head_ops(m, stage) + parts.0 + bottom_ops(m, stage.rows.last(), stage.compact)
            + parts.1,
{
    choose|cards: Seq<OpModel>, overlay: Seq<OpModel>|
        {
            &&& #[trigger] draws_cards(m, stage, art_rows, cards)
            &&& #[trigger] draws_overlay(m, stage.area, stage.compact, overlay)
            &&& ops == head_ops(m, stage) + cards + bottom_ops(
                m,
                stage.rows.last(),
                stage.compact,
            ) + overlay
        }
}

/// The screen shows what the selected station plays: what is on, what is said of it, and on the wide
/// screen what a live channel plays next and when.
pub proof fn law_the_screen_shows_what_is_on(app: App, stage: Stage, art_rows: u16, r: Vec<Op>)
    requires
        call_ensures(draw, (&app, &stage, art_rows), r),
        app.visualizer is None,
        app.selected < app.channels@.len(),
    ensures
        is_on(r, tuned(app).show@),
        is_on(r, tuned(app).description@),
        tuned(app).kind == ChannelKind::Live ==> is_on(r, "NOW ON NTS "@ + tuned(app).number@),
        tuned(app).kind == ChannelKind::Mixtape ==> is_on(r, "INFINITE MIXTAPE"@),
        tuned(app).kind == ChannelKind::Live && !stage.compact ==> is_on(
            r,
            "NEXT  "@ + tuned(app).next_starts_at@ + "  ·  "@ + tuned(app).next_show@,
        ),
{
    let m = app@;
    let ops = views(r@);
    let (cards, overlay) = lemma_parts(m, stage@, art_rows, ops);
    let head = head_ops(m, stage@);
    let bottom = bottom_ops(m, stage@.rows.last(), stage.compact);
    let paint = m.screen == Screen::Listen;
    assert(m.station() == tuned(app)@);
    if stage.compact {
        lemma_compact(m.station(), m.selected, stage@.rows[1], paint, art_rows, cards);
    } else {
        let (card, places) = choose|card: Seq<OpModel>, places: Seq<Rect>|
            {
                &&& #[trigger] draws_wide_card(
                    m.station(),
                    m.selected,
                    stage@.columns[0],
                    m.playing,
                    paint,
                    art_rows,
                    card,
                )
                &&& is_split(
                    stage@.columns[2],
                    Axis::Vertical,
                    0,
                    crate::cards::switcher_extents(),
                    places,
                )
                &&& cards == card + #[trigger] rail_ops(m, places)
            };
        lemma_wide(
            m.station(),
            m.selected,
            stage@.columns[0],
            m.playing,
            paint,
            art_rows,
            card,
        );
        lemma_card_around(Seq::empty(), card, rail_ops(m, places), m.station(), true);
        assert(Seq::<OpModel>::empty() + card + rail_ops(m, places) =~= cards);
    }
    lemma_card_around(head, cards, bottom + overlay, m.station(), !stage.compact);
    assert(head + cards + (bottom + overlay) =~= ops);
}

/// The neighbours of the selected station are shown with it.
proof fn lemma_slot(selected: int, total: int, station: int) -> (slot: int)
    requires
        0 <= selected < total <= usize::MAX,
        0 <= station < total,
        total <= 3 || station == selected || (0 < selected < total - 1 && (station == selected - 1
            || station == selected + 1)),
    ensures
        0 <= slot < window(selected, total, RAIL_SLOTS as int).len(),
        window(selected, total, RAIL_SLOTS as int)[slot] == station,
{
    crate::geometry::law_window_holds_the_selection(selected, total, RAIL_SLOTS as int);
    station - window(selected, total, RAIL_SLOTS as int)[0]
}

/// The small card in a place of the wide screen.
proof fn lemma_stations(
    m: AppModel,
    stage: StageModel,
    art_rows: u16,
    ops: Seq<OpModel>,
    slot: int,
)
    requires
        m.visualizer is None,
        !stage.compact,
        draws_screen(m, stage, art_rows, ops),
        0 <= slot < window(m.selected, m.channels.len() as int, RAIL_SLOTS as int).len(),
    ensures
        ({
            let station = window(m.selected, m.channels.len() as int, RAIL_SLOTS as int)[slot];
            writes_small(
                ops,
                m.channels[station as int],
                station == m.selected,
                m.playing,
                m.buffering,
            )
        }),
{
    let (cards, overlay) = lemma_parts(m, stage, art_rows, ops);
    let head = head_ops(m, stage);
    let bottom = bottom_ops(m, stage.rows.last(), stage.compact);
    let paint = m.screen == Screen::Listen;
    let (card, places) = choose|card: Seq<OpModel>, places: Seq<Rect>|
        {
            &&& #[trigger] draws_wide_card(
                m.station(),
                m.selected,
                stage.columns[0],
                m.playing,
                paint,
                art_rows,
                card,
            )
            &&& is_split(
                stage.columns[2],
                Axis::Vertical,
                0,
                crate::cards::switcher_extents(),
                places,
            )
            &&& cards == card + #[trigger] rail_ops(m, places)
        };
    let station = window(m.selected, m.channels.len() as int, RAIL_SLOTS as int)[slot];
    lemma_rail(m, places, slot);
    lemma_small_around(
        head + card,
        rail_ops(m, places),
        bottom + overlay,
        m.channels[station as int],
        station == m.selected,
        m.playing,
        m.buffering,
    );
    assert(head + card + rail_ops(m, places) + (bottom + overlay) =~= ops);
}

/// The wide screen shows the stations round the selected one, and marks that one alone: at most
/// three, the selected one among them, each with its name, what it does and its show.
pub proof fn law_the_wide_screen_shows_the_stations(
    app: App,
    stage: Stage,
    art_rows: u16,
    r: Vec<Op>,
    station: int,
)
    requires
        call_ensures(draw, (&app, &stage, art_rows), r),
        app.visualizer is None,
        !stage.compact,
        app.selected < app.channels@.len(),
        0 <= station < app.channels@.len(),
        app.channels@.len() <= 3 || station == app.selected || (0 < app.selected
            < app.channels@.len() - 1 && (station == app.selected - 1 || station == app.selected
            + 1)),
    ensures
        ({
            let channel = app.channels@[station];
            let chosen = station == app.selected;
            &&& is_on(
                r,
                (if chosen {
                    "→"@
                } else {
                    " "@
                }) + " "@ + channel.name@,
            )
            &&& is_on(r, channel.show@)
            &&& is_on(
                r,
                if chosen && app.playing {
                    if app.buffering {
                        "◌ BUFFERING"@
                    } else if channel.kind == ChannelKind::Live {
                        "● ON AIR"@
                    } else {
                        "● PLAYING"@
                    }
                } else if channel.kind == ChannelKind::Live {
                    "LIVE NOW"@
                } else {
                    "INFINITE MIXTAPE"@
                },
            )
        }),
{
    assert(app.channels.len() == app.channels@.len());
    let slot = lemma_slot(app@.selected, app@.channels.len() as int, station);
    lemma_stations(app@, stage@, art_rows, views(r@), slot);
    assert(app@.channels[station] == app.channels@[station]@);
}

/// While the schedule is open the screen shows the schedule of the selected station: its shows from
/// the first one on, in their order, each with its time and its title, as many as have room.
pub proof fn law_the_schedule_is_shown(app: App, stage: Stage, art_rows: u16, r: Vec<Op>)
    requires
        call_ensures(draw, (&app, &stage, art_rows), r),
        app.visualizer is None,
        app.screen == Screen::Schedule,
        app.selected < app.channels@.len(),
    ensures
        is_on(r, " SCHEDULE  /  "@ + tuned(app).name@ + " "@),
        tuned(app).schedule@.len() > 0 ==> writes_schedule(
            views(r@),
            tuned(app)@,
            if stage.compact {
                4
            } else {
                6
            },
        ),
        forall|i: int|
            0 <= i < tuned(app).schedule@.len() ==> #[trigger] schedule_row(tuned(app)@, i) == (if i
                == 0 {
                "→  "@
            } else {
                "   "@
            }) + (tuned(app).schedule@[i].starts_at@ + "  "@) + tuned(app).schedule@[i].title@,
{
    let m = app@;
    let ops = views(r@);
    let (cards, overlay) = lemma_parts(m, stage@, art_rows, ops);
    let rest = head_ops(m, stage@) + cards + bottom_ops(m, stage@.rows.last(), stage.compact);
    assert(m.station() == tuned(app)@);
    lemma_schedule_overlay(m, stage.area, stage.compact, overlay);
    lemma_around(rest, overlay, Seq::empty(), " SCHEDULE  /  "@ + m.station().name + " "@);
    assert(rest + overlay + Seq::<OpModel>::empty() =~= ops);
    if tuned(app).schedule@.len() > 0 {
        let limit: int = if stage.compact {
            4
        } else {
            6
        };
        let k = choose|k: int|
            0 <= k < overlay.len() && #[trigger] overlay[k] is Lines && is_schedule_text(
                overlay[k]->lines,
                m.station(),
                limit,
            );
        assert(ops[rest.len() + k] == overlay[k]);
    }
}

/// While the Explore overlay is open the screen shows every mixtape, and marks the one that the mark
/// stands on and no other.
pub proof fn law_explore_is_shown(app: App, stage: Stage, art_rows: u16, r: Vec<Op>, i: int)
    requires
        call_ensures(draw, (&app, &stage, art_rows), r),
        app.visualizer is None,
        app.screen == Screen::Explore,
        app.selected < app.channels@.len(),
        0 <= i < app.channels@.len() - 2,
    ensures
        is_on(
            r,
            (if i == app.explore_selected {
                "→ "@
            } else {
                "  "@
            }) + app.channels@[i + 2].name@,
        ),
{
    let m = app@;
    let ops = views(r@);
    let (cards, overlay) = lemma_parts(m, stage@, art_rows, ops);
    let rest = head_ops(m, stage@) + cards + bottom_ops(m, stage@.rows.last(), stage.compact);
    lemma_explore(m, stage.area, stage.compact, overlay, i);
    lemma_around(rest, overlay, Seq::empty(), mixtape_row(m, i));
    assert(rest + overlay + Seq::<OpModel>::empty() =~= ops);
    assert(m.channels[i + 2] == app.channels@[i + 2]@);
}

/// The screen tells the listener what went wrong, or that the network fails, and which keys there
/// are; the wide one has the player's status too.
pub proof fn law_notices_and_keys_are_shown(app: App, stage: Stage, art_rows: u16, r: Vec<Op>)
    requires
        call_ensures(draw, (&app, &stage, art_rows), r),
        app.visualizer is None,
        app.selected < app.channels@.len(),
    ensures
        app.error matches Some(error) ==> is_on(r, error@),
        app.error is None && app.connection_lost ==> is_on(r, "◌ Couldn't reach NTS — retrying…"@),
        is_on(r, crate::wording::footer(stage.compact, app.playing)),
        !stage.compact ==> is_on(r, app@.status()),
{
    let m = app@;
    let ops = views(r@);
    let (cards, overlay) = lemma_parts(m, stage@, art_rows, ops);
    let head = head_ops(m, stage@);
    let last = stage@.rows.last();
    let bottom = bottom_ops(m, last, stage.compact);
    let keys = crate::wording::footer(stage.compact, app.playing);
    assert(bottom[0] == footer_ops(m, last, stage.compact)[0]);
    lemma_step(bottom, 0, keys);
    lemma_around(head + cards, bottom, overlay, keys);
    if m.notice() is Some {
        let notice = m.notice()->0;
        assert(bottom[1] == error_ops(m, last)[0]);
        lemma_step(bottom, 1, notice);
        lemma_around(head + cards, bottom, overlay, notice);
    }
    if !stage.compact {
        assert(head[2] == crate::screen::wide_header_ops(m, stage@.rows[0], stage@.rows[1])[1]);
        lemma_step(head, 2, m.status());
        lemma_around(Seq::empty(), head, cards + bottom + overlay, m.status());
        assert(Seq::<OpModel>::empty() + head + (cards + bottom + overlay) =~= ops);
    }
}

/// While the visualizer is open it has the screen for itself: it is drawn last, and nothing is
/// written.
pub proof fn law_the_visualizer_is_alone(app: App, stage: Stage, art_rows: u16, r: Vec<Op>)
    requires
        call_ensures(draw, (&app, &stage, art_rows), r),
        app.visualizer is Some,
    ensures
        r@.len() > 0 && r@.last() is Visualizer,
        forall|i: int|
            0 <= i < r@.len() ==> (#[trigger] r@[i]) !is Copy && r@[i] !is Lines && r@[i] !is Artwork,
{
    let ops = views(r@);
    assert(ops == crate::screen::exclusive_ops(stage.area, stage.compact));
    assert(ops.len() == r@.len());
    assert(ops.len() == 6);
    assert forall|i: int| 0 <= i < r@.len() implies (#[trigger] r@[i]) !is Copy && r@[i] !is Lines
        && r@[i] !is Artwork by {
        assert(ops[i] == r@[i]@);
    }
    assert(ops[5] == r@[5]@);
}

/// The text of a line of two pieces.
proof fn lemma_two_pieces(a: SpanModel, b: SpanModel)
    ensures
        text_of(crate::scene::spans_of(seq![a, b])) == a.text + b.text,
{
    let line = crate::scene::spans_of(seq![a, b]);
    let pieces = line.spans.map_values(|span: SpanModel| span.text);
    assert(pieces =~= seq![a.text, b.text]);
    assert(pieces.drop_last() =~= seq![a.text]);
    assert(pieces.drop_last().drop_last() =~= Seq::empty());
    reveal_with_fuel(concat, 3);
    assert(concat(pieces) =~= a.text + b.text);
}

/// A terminal that shows no pictures is told where they are shown, unless there is something more
/// urgent to tell.
pub proof fn law_a_text_terminal_is_told_of_pictures(
    app: App,
    stage: Stage,
    art_rows: u16,
    r: Vec<Op>,
)
    requires
        call_ensures(draw, (&app, &stage, art_rows), r),
        app.visualizer is None,
        !app.supports_artwork,
        app.error is None,
        !app.connection_lost,
    ensures
        is_on(
            r,
            "◌ "@ + "Artwork hidden — open NTS in Ghostty, iTerm2, or Kitty to see cover art."@,
        ),
{
    let m = app@;
    let ops = views(r@);
    let (cards, overlay) = lemma_parts(m, stage@, art_rows, ops);
    let head = head_ops(m, stage@);
    let last = stage@.rows.last();
    let bottom = bottom_ops(m, last, stage.compact);
    let hint = crate::draw::hint_ops(m, last);
    let text = "◌ "@ + "Artwork hidden — open NTS in Ghostty, iTerm2, or Kitty to see cover art."@;
    assert(bottom[1] == hint[0]);
    let line = hint[0]->lines[0];
    lemma_two_pieces(line.spans[0], line.spans[1]);
    assert(line.spans =~= seq![line.spans[0], line.spans[1]]);
    assert(text_of(hint[0]->lines[0]) == text);
    lemma_step(bottom, 1, text);
    lemma_around(head + cards, bottom, overlay, text);
}

/// A schedule that has not been read yet is said to be loading.
pub proof fn law_an_unread_schedule_is_loading(app: App, stage: Stage, art_rows: u16, r: Vec<Op>)
    requires
        call_ensures(draw, (&app, &stage, art_rows), r),
        app.visualizer is None,
        app.screen == Screen::Schedule,
        app.selected < app.channels@.len(),
        tuned(app).schedule@.len() == 0,
    ensures
        is_on(r, "Loading the local schedule…"@),
{
    let m = app@;
    let ops = views(r@);
    let (cards, overlay) = lemma_parts(m, stage@, art_rows, ops);
    let rest = head_ops(m, stage@) + cards + bottom_ops(m, stage@.rows.last(), stage.compact);
    assert(m.station() == tuned(app)@);
    assert(m.station().schedule.len() == 0);
    let sections = choose|sections: Seq<Rect>|
        #![trigger schedule_modal_ops(m, stage.area, stage.compact, sections)]
        overlay == schedule_modal_ops(m, stage.area, stage.compact, sections);
    let body = schedule_ops(m.station(), sections[1], stage.compact);
    assert(overlay[3] == body[0]);
    lemma_step(overlay, 3, "Loading the local schedule…"@);
    lemma_around(rest, overlay, Seq::empty(), "Loading the local schedule…"@);
    assert(rest + overlay + Seq::<OpModel>::empty() =~= ops);
}

/// The first panel of what a drawing function adds.
pub open spec fn frame_tone(before: Seq<Op>, after: Seq<Op>) -> Option<Tone> {
    match after[before.len() as int] {
        Op::Panel { panel, .. } => Some(panel.border),
        _ => None,
    }
}

/// The selected station's small card stands out by its signal colour, and the others do not.
pub proof fn law_the_selected_card_stands_out(
    ops: &mut Vec<Op>,
    channel: Channel,
    area: Rect,
    selected: bool,
    playing: bool,
    buffering: bool,
)
    requires
        call_ensures(
            render_channel_switcher,
            (ops, &channel, area, selected, playing, buffering),
            (),
        ),
    ensures
        frame_tone(old(ops)@, final(ops)@) == Some(Tone::Signal) <==> selected,
        frame_tone(old(ops)@, final(ops)@) == Some(Tone::Border) <==> !selected,
{
    let n = old(ops)@.len() as int;
    let part = crate::cards::switcher_ops(channel@, area, selected, playing, buffering);
    assert(views(final(ops)@)[n] == part[0]);
    assert(views(final(ops)@).len() == final(ops)@.len());
    assert(views(final(ops)@)[n] == final(ops)@[n]@);
}

/// The marked mixtape's tile stands out in the same way.
pub proof fn law_the_marked_tile_stands_out(
    ops: &mut Vec<Op>,
    channel: Channel,
    index: usize,
    area: Rect,
    selected: bool,
)
    requires
        call_ensures(render_explore_tile, (ops, &channel, index, area, selected), ()),
    ensures
        frame_tone(old(ops)@, final(ops)@) == Some(Tone::Signal) <==> selected,
        frame_tone(old(ops)@, final(ops)@) == Some(Tone::Border) <==> !selected,
{
    let part = choose|part: Seq<OpModel>|
        #[trigger] draws_tile(channel@, index as int, area, selected, part) && views(
            final(ops)@,
        ) == views(old(ops)@) + part;
    let n = old(ops)@.len() as int;
    assert(part.len() > 0);
    assert(views(final(ops)@)[n] == part[0]);
    assert(views(final(ops)@).len() == final(ops)@.len());
    assert(views(final(ops)@)[n] == final(ops)@[n]@);
}

/// The large card stands out while its station plays.
pub proof fn law_a_playing_card_stands_out(
    ops: &mut Vec<Op>,
    channel: Channel,
    index: usize,
    card: Rect,
    playing: bool,
    paint: bool,
    art_rows: u16,
)
    requires
        call_ensures(
            render_now_playing_card,
            (ops, &channel, index, card, playing, paint, art_rows),
            (),
        ),
    ensures
        frame_tone(old(ops)@, final(ops)@) == Some(Tone::Signal) <==> playing,
        frame_tone(old(ops)@, final(ops)@) == Some(Tone::Border) <==> !playing,
{
    let part = choose|part: Seq<OpModel>|
        #[trigger] draws_wide_card(
            channel@,
            index as int,
            card,
            playing,
            paint,
            art_rows,
            part,
        ) && views(final(ops)@) == views(old(ops)@) + part;
    let n = old(ops)@.len() as int;
    let area = wide_area(channel@, card, art_rows);
    assert(part.len() > 0 && part[0] == wide_frame(area, playing)[0]);
    assert(views(final(ops)@)[n] == part[0]);
    assert(views(final(ops)@).len() == final(ops)@.len());
    assert(views(final(ops)@)[n] == final(ops)@[n]@);
}

} // verus!

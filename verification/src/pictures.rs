//! Where pictures are shown. A terminal paints them over everything else, whatever was drawn
//! later, so a screen must not ask for one that something is to cover.
use crate::app::{App, AppModel, Screen};
use crate::cards::{
    compact_area, compact_columns, compact_frame, compact_plan, draws_compact_card,
    draws_pictured, draws_wide_card, now_ops, pictured_ops, rail_ops, slot_ops, switcher_extents,
    wide_area, wide_columns, wide_frame, wide_plan, RAIL_SLOTS,
};
use crate::catalog::ChannelModel;
use crate::draw::{draws_schedule, left_only, roomy, schedule_modal_ops};
use crate::explore::{
    as_tiles, draws_explore, draws_grid, draws_mixtapes, draws_tile_at, draws_tiles, explore_foot,
    explore_head, tile_area, tile_ops,
};
use crate::geometry::{content_of, is_split, window, Axis, Borders, Extent, Rect};
use crate::scene::{Op, OpModel};
use crate::screen::{
    begin_draw, bottom_ops, draw, draws_cards, draws_overlay, draws_screen, head_ops, Stage,
    StageModel,
};
use crate::text::{concat, views};
use vstd::prelude::*;

verus! {

/// Whether `ops` show no picture.
pub open spec fn pictureless(ops: Seq<OpModel>) -> bool {
    forall|i: int| 0 <= i < ops.len() ==> (#[trigger] ops[i]) !is Artwork
}

/// Steps without pictures, one list after the other, show none.
proof fn lemma_concat_is_pictureless(parts: Seq<Seq<OpModel>>)
    requires
        forall|i: int| 0 <= i < parts.len() ==> pictureless(#[trigger] parts[i]),
    ensures
        pictureless(concat(parts)),
    decreases parts.len(),
{
    if parts.len() > 0 {
        assert forall|i: int| 0 <= i < parts.drop_last().len() implies pictureless(
            #[trigger] parts.drop_last()[i],
        ) by {
            assert(parts.drop_last()[i] == parts[i]);
        }
        lemma_concat_is_pictureless(parts.drop_last());
        assert(pictureless(parts.last()));
    }
}

/// A card whose picture is held back shows none.
proof fn lemma_held_back(
    channel: ChannelModel,
    index: int,
    inner: Rect,
    extents: Seq<Extent>,
    show_next: bool,
    ops: Seq<OpModel>,
)
    requires
        draws_pictured(channel, index, inner, extents, false, show_next, ops),
    ensures
        pictureless(ops),
{
    let columns = choose|columns: Seq<Rect>|
        #![trigger pictured_ops(channel, index, false, show_next, columns)]
        is_split(inner, Axis::Horizontal, 0, extents, columns) && ops == pictured_ops(
            channel,
            index,
            false,
            show_next,
            columns,
        );
    assert(pictureless(pictured_ops(channel, index, false, show_next, columns)));
}

/// A compact card shows no picture where pictures are held back or the station has none.
proof fn lemma_compact_card(
    channel: ChannelModel,
    index: int,
    card: Rect,
    paint: bool,
    art_rows: u16,
    ops: Seq<OpModel>,
)
    requires
        draws_compact_card(channel, index, card, paint, art_rows, ops),
        !paint || !channel.artwork,
    ensures
        pictureless(ops),
{
    let area = compact_area(channel, card, art_rows);
    let inner = content_of(area, Borders::Left, left_only(2));
    if compact_plan(channel.artwork, card).show_art {
        let part = choose|part: Seq<OpModel>|
            #[trigger] draws_pictured(
                channel,
                index,
                inner,
                compact_columns(),
                paint,
                false,
                part,
            ) && ops == compact_frame(area) + part;
        lemma_held_back(channel, index, inner, compact_columns(), false, part);
    } else {
        assert(pictureless(compact_frame(area) + now_ops(channel, inner, false)));
    }
}

/// A wide card shows no picture where pictures are held back or the station has none.
proof fn lemma_wide_card(
    channel: ChannelModel,
    index: int,
    card: Rect,
    playing: bool,
    paint: bool,
    art_rows: u16,
    ops: Seq<OpModel>,
)
    requires
        draws_wide_card(channel, index, card, playing, paint, art_rows, ops),
        !paint || !channel.artwork,
    ensures
        pictureless(ops),
{
    let area = wide_area(channel, card, art_rows);
    let inner = content_of(area, Borders::Left, roomy());
    let plan = wide_plan(channel.artwork, card);
    if plan.show_art {
        let part = choose|part: Seq<OpModel>|
            #[trigger] draws_pictured(
                channel,
                index,
                inner,
                wide_columns(plan.art_width),
                paint,
                true,
                part,
            ) && ops == wide_frame(area, playing) + part;
        lemma_held_back(channel, index, inner, wide_columns(plan.art_width), true, part);
    } else {
        assert(pictureless(wide_frame(area, playing) + now_ops(channel, inner, true)));
    }
}

/// The small cards show no pictures.
proof fn lemma_rail(m: AppModel, places: Seq<Rect>)
    ensures
        pictureless(rail_ops(m, places)),
{
    let parts = Seq::new(
        window(m.selected, m.channels.len() as int, RAIL_SLOTS as int).len(),
        |slot: int| slot_ops(m, places, slot),
    );
    assert forall|i: int| 0 <= i < parts.len() implies pictureless(#[trigger] parts[i]) by {
        assert(parts[i] == slot_ops(m, places, i));
    }
    lemma_concat_is_pictureless(parts);
}

/// The cards show no picture under an overlay, nor where the station has none.
pub proof fn law_the_cards_hold_pictures_back(
    m: AppModel,
    stage: StageModel,
    art_rows: u16,
    ops: Seq<OpModel>,
)
    requires
        draws_cards(m, stage, art_rows, ops),
        m.screen != Screen::Listen || !m.station().artwork,
    ensures
        pictureless(ops),
{
    let paint = m.screen == Screen::Listen;
    if stage.compact {
        lemma_compact_card(m.station(), m.selected, stage.rows[1], paint, art_rows, ops);
    } else {
        let (card, places) = choose|card: Seq<OpModel>, places: Seq<Rect>|
            {
                &&& #[trigger] draws_wide_card(
                    m.station(),
                    m.selected,
                    stage.columns[0],
                    m.playing,
                    paint,
                    art_rows,
                    card,
                )
                &&& is_split(stage.columns[2], Axis::Vertical, 0, switcher_extents(), places)
                &&& ops == card + #[trigger] rail_ops(m, places)
            };
        lemma_wide_card(
            m.station(),
            m.selected,
            stage.columns[0],
            m.playing,
            paint,
            art_rows,
            card,
        );
        lemma_rail(m, places);
    }
}

/// The schedule shows no pictures.
proof fn lemma_schedule(m: AppModel, area: Rect, compact: bool, ops: Seq<OpModel>)
    requires
        draws_schedule(m, area, compact, ops),
    ensures
        pictureless(ops),
{
    let sections = choose|sections: Seq<Rect>|
        #![trigger schedule_modal_ops(m, area, compact, sections)]
        ops == schedule_modal_ops(m, area, compact, sections);
    assert(pictureless(schedule_modal_ops(m, area, compact, sections)));
}

/// The Explore overlay shows no pictures where no station has one.
proof fn lemma_explore(m: AppModel, area: Rect, compact: bool, ops: Seq<OpModel>)
    requires
        draws_explore(m, area, compact, ops),
        forall|i: int| 0 <= i < m.channels.len() ==> !(#[trigger] m.channels[i]).artwork,
    ensures
        pictureless(ops),
{
    let (sections, body) = choose|sections: Seq<Rect>, body: Seq<OpModel>|
        {
            &&& #[trigger] draws_mixtapes(m, compact, sections[1], body)
            &&& ops == explore_head(area, compact, sections) + body + explore_foot(sections)
        };
    if as_tiles(compact, sections[1]) {
        lemma_grid(m, sections[1], body);
    }
    assert(pictureless(body));
    assert(pictureless(explore_head(area, compact, sections)));
    assert(pictureless(explore_foot(sections)));
}

/// The tiles show no pictures where no station has one.
proof fn lemma_grid(m: AppModel, area: Rect, ops: Seq<OpModel>)
    requires
        draws_grid(m, area, ops),
        forall|i: int| 0 <= i < m.channels.len() ==> !(#[trigger] m.channels[i]).artwork,
    ensures
        pictureless(ops),
{
    let (columns, rows, parts) = choose|
        columns: Seq<Rect>,
        rows: Seq<Rect>,
        parts: Seq<Seq<OpModel>>,
    |
        {
            &&& #[trigger] draws_tiles(m, columns, rows, parts)
            &&& parts.len() == m.mixtapes()
            &&& ops == concat(parts)
        };
    assert forall|i: int| 0 <= i < parts.len() implies pictureless(#[trigger] parts[i]) by {
        assert(draws_tile_at(m, columns, rows, i, parts[i]));
        let channel = m.channels[i + 2];
        let area = tile_area(columns, rows, i);
        let marked = i == m.explore_selected;
        let inner = choose|inner: Seq<Rect>|
            #![trigger tile_ops(channel, i + 2, area, marked, inner)]
            parts[i] == tile_ops(channel, i + 2, area, marked, inner);
        assert(!channel.artwork);
        assert(pictureless(tile_ops(channel, i + 2, area, marked, inner)));
    }
    lemma_concat_is_pictureless(parts);
}

/// No picture can paint through the visualizer or the schedule: while one of them is open, the
/// screen shows none.
pub proof fn law_no_picture_under_an_overlay(
    m: AppModel,
    stage: StageModel,
    art_rows: u16,
    ops: Seq<OpModel>,
)
    requires
        draws_screen(m, stage, art_rows, ops),
        m.visualizer is Some || m.screen == Screen::Schedule,
    ensures
        pictureless(ops),
{
    if m.visualizer is None {
        let (cards, overlay) = choose|cards: Seq<OpModel>, overlay: Seq<OpModel>|
            {
                &&& #[trigger] draws_cards(m, stage, art_rows, cards)
                &&& #[trigger] draws_overlay(m, stage.area, stage.compact, overlay)
                &&& ops == head_ops(m, stage) + cards + bottom_ops(
                    m,
                    stage.rows.last(),
                    stage.compact,
                ) + overlay
            };
        law_the_cards_hold_pictures_back(m, stage, art_rows, cards);
        lemma_schedule(m, stage.area, stage.compact, overlay);
        assert(pictureless(head_ops(m, stage)));
        assert(pictureless(bottom_ops(m, stage.rows.last(), stage.compact)));
    }
}

/// Where no station has a picture the screen shows none. So a terminal without pictures has text
/// alone on its screen.
pub proof fn law_text_terminals_show_text(
    m: AppModel,
    stage: StageModel,
    art_rows: u16,
    ops: Seq<OpModel>,
)
    requires
        m.wf(),
        m.pictures_are_wanted(),
        !m.supports_artwork,
        draws_screen(m, stage, art_rows, ops),
    ensures
        pictureless(ops),
{
    if m.visualizer is None {
        let (cards, overlay) = choose|cards: Seq<OpModel>, overlay: Seq<OpModel>|
            {
                &&& #[trigger] draws_cards(m, stage, art_rows, cards)
                &&& #[trigger] draws_overlay(m, stage.area, stage.compact, overlay)
                &&& ops == head_ops(m, stage) + cards + bottom_ops(
                    m,
                    stage.rows.last(),
                    stage.compact,
                ) + overlay
            };
        law_the_cards_hold_pictures_back(m, stage, art_rows, cards);
        match m.screen {
            Screen::Schedule => lemma_schedule(m, stage.area, stage.compact, overlay),
            Screen::Explore => lemma_explore(m, stage.area, stage.compact, overlay),
            Screen::Listen => {},
        }
        assert(pictureless(head_ops(m, stage)));
        assert(pictureless(bottom_ops(m, stage.rows.last(), stage.compact)));
    }
}

/// Whether the station at `index` has a picture, and one that belongs on the screen: beside the
/// stations that of the selected one, in the Explore overlay those of the mixtapes.
pub open spec fn belongs(m: AppModel, index: int) -> bool {
    &&& 0 <= index < m.channels.len()
    &&& m.channels[index].artwork
    &&& match m.screen {
        Screen::Listen => index == m.selected,
        Screen::Explore => index >= 2,
        Screen::Schedule => false,
    }
}

/// Whether every picture that `ops` show belongs on the screen.
pub open spec fn all_belong(m: AppModel, ops: Seq<OpModel>) -> bool {
    forall|i: int|
        0 <= i < ops.len() ==> ((#[trigger] ops[i]) matches OpModel::Artwork { index, .. }
            ==> belongs(m, index))
}

/// Steps whose pictures belong on the screen, one list after the other.
proof fn lemma_concat_belongs(m: AppModel, parts: Seq<Seq<OpModel>>)
    requires
        forall|i: int| 0 <= i < parts.len() ==> all_belong(m, #[trigger] parts[i]),
    ensures
        all_belong(m, concat(parts)),
    decreases parts.len(),
{
    if parts.len() > 0 {
        let rest = parts.drop_last();
        assert forall|i: int| 0 <= i < rest.len() implies all_belong(m, #[trigger] rest[i]) by {
            assert(rest[i] == parts[i]);
        }
        lemma_concat_belongs(m, rest);
        assert(all_belong(m, parts.last()));
    }
}

/// The pictures of the tiles.
proof fn lemma_grid_belongs(m: AppModel, area: Rect, ops: Seq<OpModel>)
    requires
        draws_grid(m, area, ops),
        m.screen == Screen::Explore,
    ensures
        all_belong(m, ops),
{
    let (columns, rows, parts) = choose|
        columns: Seq<Rect>,
        rows: Seq<Rect>,
        parts: Seq<Seq<OpModel>>,
    |
        {
            &&& #[trigger] draws_tiles(m, columns, rows, parts)
            &&& parts.len() == m.mixtapes()
            &&& ops == concat(parts)
        };
    assert forall|i: int| 0 <= i < parts.len() implies all_belong(m, #[trigger] parts[i]) by {
        assert(draws_tile_at(m, columns, rows, i, parts[i]));
        let channel = m.channels[i + 2];
        let area = tile_area(columns, rows, i);
        let marked = i == m.explore_selected;
        let inner = choose|inner: Seq<Rect>|
            #![trigger tile_ops(channel, i + 2, area, marked, inner)]
            parts[i] == tile_ops(channel, i + 2, area, marked, inner);
        assert(all_belong(m, tile_ops(channel, i + 2, area, marked, inner)));
    }
    lemma_concat_belongs(m, parts);
}

/// The picture in a card.
proof fn lemma_pictured_belongs(
    m: AppModel,
    inner: Rect,
    extents: Seq<Extent>,
    show_next: bool,
    ops: Seq<OpModel>,
)
    requires
        draws_pictured(m.station(), m.selected, inner, extents, true, show_next, ops),
        belongs(m, m.selected),
    ensures
        all_belong(m, ops),
        ops[0] matches OpModel::Artwork { index, .. } && index == m.selected,
        ops.len() == 2,
{
    let columns = choose|columns: Seq<Rect>|
        #![trigger pictured_ops(m.station(), m.selected, true, show_next, columns)]
        ops == pictured_ops(m.station(), m.selected, true, show_next, columns);
    assert(ops.len() == 2);
}

/// The pictures of the cards, where none is held back.
proof fn lemma_cards_belong(m: AppModel, stage: StageModel, art_rows: u16, ops: Seq<OpModel>)
    requires
        draws_cards(m, stage, art_rows, ops),
        m.screen == Screen::Listen,
        0 <= m.selected < m.channels.len(),
    ensures
        all_belong(m, ops),
        (if stage.compact {
            compact_plan(m.station().artwork, stage.rows[1]).show_art
        } else {
            wide_plan(m.station().artwork, stage.columns[0]).show_art
        }) ==> exists|i: int|
            0 <= i < ops.len() && is_picture_of(#[trigger] ops[i], m.selected),
{
    let channel = m.station();
    if !channel.artwork {
        law_the_cards_hold_pictures_back(m, stage, art_rows, ops);
    } else if stage.compact {
        let card = stage.rows[1];
        let area = compact_area(channel, card, art_rows);
        let inner = content_of(area, Borders::Left, left_only(2));
        if compact_plan(channel.artwork, card).show_art {
            let part = choose|part: Seq<OpModel>|
                #[trigger] draws_pictured(
                    channel,
                    m.selected,
                    inner,
                    compact_columns(),
                    true,
                    false,
                    part,
                ) && ops == compact_frame(area) + part;
            lemma_pictured_belongs(m, inner, compact_columns(), false, part);
            assert(ops[1] == part[0]);
        }
    } else {
        let (card, places) = choose|card: Seq<OpModel>, places: Seq<Rect>|
            {
                &&& #[trigger] draws_wide_card(
                    channel,
                    m.selected,
                    stage.columns[0],
                    m.playing,
                    true,
                    art_rows,
                    card,
                )
                &&& is_split(stage.columns[2], Axis::Vertical, 0, switcher_extents(), places)
                &&& ops == card + #[trigger] rail_ops(m, places)
            };
        lemma_rail(m, places);
        let area = wide_area(channel, stage.columns[0], art_rows);
        let inner = content_of(area, Borders::Left, roomy());
        let plan = wide_plan(channel.artwork, stage.columns[0]);
        if plan.show_art {
            let part = choose|part: Seq<OpModel>|
                #[trigger] draws_pictured(
                    channel,
                    m.selected,
                    inner,
                    wide_columns(plan.art_width),
                    true,
                    true,
                    part,
                ) && card == wide_frame(area, m.playing) + part;
            lemma_pictured_belongs(m, inner, wide_columns(plan.art_width), true, part);
            assert(card[1] == part[0]);
            assert(ops[1] == card[1]);
        }
    }
}

/// Every picture on the screen is one that its station has, and one that belongs there: beside the
/// stations that of the selected one alone, in the Explore overlay those of the mixtapes, and none
/// with the schedule or the visualizer. Where the layout has room for the selected station's
/// picture, it is shown.
pub proof fn law_a_picture_is_shown_with_its_station(
    app: App,
    area: Rect,
    stage: Stage,
    art_rows: u16,
    r: Vec<Op>,
)
    requires
        call_ensures(begin_draw, (&app, area), stage),
        call_ensures(draw, (&app, &stage, art_rows), r),
        app.selected < app.channels@.len(),
    ensures
        forall|i: int|
            0 <= i < r@.len() ==> ((#[trigger] r@[i]) matches Op::Artwork { index, .. } ==> {
                &&& app.visualizer is None
                &&& index < app.channels@.len()
                &&& app.channels@[index as int].artwork
                &&& match app.screen {
                    Screen::Listen => index == app.selected,
                    Screen::Explore => index >= 2,
                    Screen::Schedule => false,
                }
            }),
        stage.query is Some && app.screen == Screen::Listen ==> exists|i: int|
            0 <= i < r@.len() && ((#[trigger] r@[i]) matches Op::Artwork { index, .. } && index
                == app.selected),
{
    let m = app@;
    let ops = views(r@);
    assert(m.channels.len() == app.channels@.len());
    assert forall|i: int| 0 <= i < m.channels.len() implies #[trigger] m.channels[i]
        == app.channels@[i]@ by {}
    if m.visualizer is Some {
        law_no_picture_under_an_overlay(m, stage@, art_rows, ops);
    } else {
        lemma_screen_belongs(m, stage@, art_rows, ops);
    }
    assert forall|i: int| 0 <= i < r@.len() implies ((
    #[trigger] r@[i]) matches Op::Artwork { index, .. } ==> m.visualizer is None && belongs(
        m,
        index as int,
    )) by {
        assert(ops[i] == r@[i]@);
    }
    if stage.query is Some && m.screen == Screen::Listen {
        let i = choose|i: int| 0 <= i < ops.len() && is_picture_of(#[trigger] ops[i], m.selected);
        assert(ops[i] == r@[i]@);
        assert(r@[i] is Artwork);
    }
}

/// Whether the step shows the picture of the station at `index`.
pub open spec fn is_picture_of(op: OpModel, index: int) -> bool {
    op matches OpModel::Artwork { index: shown, .. } && shown == index
}

/// The pictures of a screen without the visualizer.
proof fn lemma_screen_belongs(m: AppModel, stage: StageModel, art_rows: u16, ops: Seq<OpModel>)
    requires
        m.visualizer is None,
        draws_screen(m, stage, art_rows, ops),
        0 <= m.selected < m.channels.len(),
    ensures
        all_belong(m, ops),
        m.screen == Screen::Listen && (if stage.compact {
            compact_plan(m.station().artwork, stage.rows[1]).show_art
        } else {
            wide_plan(m.station().artwork, stage.columns[0]).show_art
        }) ==> exists|i: int|
            0 <= i < ops.len() && is_picture_of(#[trigger] ops[i], m.selected),
{
    let (cards, overlay) = choose|cards: Seq<OpModel>, overlay: Seq<OpModel>|
        {
            &&& #[trigger] draws_cards(m, stage, art_rows, cards)
            &&& #[trigger] draws_overlay(m, stage.area, stage.compact, overlay)
            &&& ops == head_ops(m, stage) + cards + bottom_ops(
                m,
                stage.rows.last(),
                stage.compact,
            ) + overlay
        };
    let head = head_ops(m, stage);
    let bottom = bottom_ops(m, stage.rows.last(), stage.compact);
    assert(pictureless(head));
    assert(pictureless(bottom));
    match m.screen {
        Screen::Schedule => {
            law_the_cards_hold_pictures_back(m, stage, art_rows, cards);
            lemma_schedule(m, stage.area, stage.compact, overlay);
        },
        Screen::Explore => {
            law_the_cards_hold_pictures_back(m, stage, art_rows, cards);
            lemma_explore_belongs(m, stage.area, stage.compact, overlay);
        },
        Screen::Listen => {
            lemma_cards_belong(m, stage, art_rows, cards);
        },
    }
    lemma_four_belong(m, head, cards, bottom, overlay);
    if m.screen == Screen::Listen && (if stage.compact {
        compact_plan(m.station().artwork, stage.rows[1]).show_art
    } else {
        wide_plan(m.station().artwork, stage.columns[0]).show_art
    }) {
        let i = choose|i: int| 0 <= i < cards.len() && is_picture_of(#[trigger] cards[i], m.selected);
        assert(ops[head.len() + i] == cards[i]);
    }
}

/// Four lists of steps, one after the other.
proof fn lemma_four_belong(
    m: AppModel,
    a: Seq<OpModel>,
    b: Seq<OpModel>,
    c: Seq<OpModel>,
    d: Seq<OpModel>,
)
    requires
        pictureless(a),
        all_belong(m, b) || pictureless(b),
        pictureless(c),
        all_belong(m, d) || pictureless(d),
    ensures
        all_belong(m, a + b + c + d),
{
    let ops = a + b + c + d;
    assert forall|i: int| 0 <= i < ops.len() implies ((
    #[trigger] ops[i]) matches OpModel::Artwork { index, .. } ==> belongs(m, index)) by {
        if i < a.len() {
            assert(ops[i] == a[i]);
        } else if i < a.len() + b.len() {
            assert(ops[i] == b[i - a.len()]);
        } else if i < a.len() + b.len() + c.len() {
            assert(ops[i] == c[i - a.len() - b.len()]);
        } else {
            assert(ops[i] == d[i - a.len() - b.len() - c.len()]);
        }
    }
}

/// The pictures of the Explore overlay.
proof fn lemma_explore_belongs(m: AppModel, area: Rect, compact: bool, ops: Seq<OpModel>)
    requires
        draws_explore(m, area, compact, ops),
        m.screen == Screen::Explore,
    ensures
        all_belong(m, ops),
{
    let (sections, body) = choose|sections: Seq<Rect>, body: Seq<OpModel>|
        {
            &&& #[trigger] draws_mixtapes(m, compact, sections[1], body)
            &&& ops == explore_head(area, compact, sections) + body + explore_foot(sections)
        };
    if as_tiles(compact, sections[1]) {
        lemma_grid_belongs(m, sections[1], body);
    }
    assert(all_belong(m, body));
    assert(pictureless(explore_head(area, compact, sections)));
    assert(pictureless(explore_foot(sections)));
}

/// A screen narrower than 110 columns or lower than 30 rows is a compact one. The picture that is
/// asked about is that of the selected station, where it has one.
pub proof fn law_a_small_screen_is_compact(app: App, area: Rect, r: Stage)
    requires
        call_ensures(begin_draw, (&app, area), r),
        app.visualizer is None ==> app.selected < app.channels@.len(),
    ensures
        r.area == area,
        r.compact <==> area.width < 110 || area.height < 30,
        r.query matches Some(query) ==> {
            &&& app.visualizer is None
            &&& query.index == app.selected
            &&& app.channels@[app.selected as int].artwork
        },
        app.visualizer is None && r.compact && app.channels@[app.selected as int].artwork ==> (
        r.query is Some <==> r.rows@[1].width >= 43),
{
    if app.visualizer is None {
        assert(app@.station() == app.channels@[app.selected as int]@);
    }
}

} // verus!

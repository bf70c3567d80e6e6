//! The Explore overlay: the mixtapes as tiles or as a list.
use crate::app::{App, AppModel};
use crate::catalog::{Channel, ChannelModel};
use crate::draw::{
    left_only, modal_area, modal_panel, new_modal_panel, new_rail, place_modal, rail, roomy,
};
use crate::geometry::{
    content_area, content_of, fixed_cells, is_lone_min, is_split, least, minus, split, Axis,
    Borders, Extent, Padding, Rect,
};
use crate::scene::{
    empty_list, in_bold, in_tone, line, line_of, toned, LineModel, Op, OpModel, Style, TextLine,
    Tone,
};
use crate::text::{concat, push_item, views};
use crate::wording::two;
use vstd::prelude::*;
use vstd::string::*;

verus! {

/// The least width of the area in which the mixtapes are shown as tiles.
pub const GRID_WIDTH: u16 = 72;

/// The least height of that area.
pub const GRID_HEIGHT: u16 = 20;

/// The least width at which the list has two columns.
pub const TWO_COLUMNS: u16 = 64;

/// The most mixtapes that the tiles have places for.
pub const GRID_PLACES: usize = 8;

/// The columns of a tile: the picture, a gap and the text.
pub open spec fn tile_extents() -> Seq<Extent> {
    seq![Extent::Length(16), Extent::Length(1), Extent::Min(12)]
}

/// A tile whose columns are `columns`.
pub open spec fn tile_ops(
    channel: ChannelModel,
    index: int,
    area: Rect,
    selected: bool,
    columns: Seq<Rect>,
) -> Seq<OpModel> {
    let border = if selected {
        Tone::Signal
    } else {
        Tone::Border
    };
    let picture = if channel.artwork {
        seq![OpModel::Artwork { area: columns[0], index }]
    } else {
        Seq::empty()
    };
    let name = (if selected {
        "→ "@
    } else {
        "  "@
    }) + channel.name;
    let tone = if selected {
        Tone::Ink
    } else {
        Tone::Muted
    };
    seq![OpModel::Panel { area, panel: rail(border, None, left_only(1)) }] + picture + seq![
        OpModel::Lines {
            area: columns[2],
            lines: seq![
                line_of(name, in_bold(tone)),
                line_of(channel.description, in_tone(Tone::Muted)),
            ],
            wrap: true,
        },
    ]
}

/// Whether `ops` draw a mixtape's tile.
pub open spec fn draws_tile(
    channel: ChannelModel,
    index: int,
    area: Rect,
    selected: bool,
    ops: Seq<OpModel>,
) -> bool {
    exists|columns: Seq<Rect>|
        #![trigger tile_ops(channel, index, area, selected, columns)]
        is_split(
            content_of(area, Borders::Left, left_only(1)),
            Axis::Horizontal,
            0,
            tile_extents(),
            columns,
        ) && ops == tile_ops(channel, index, area, selected, columns)
}

/// Draws a tile whose columns are `columns`.
pub fn explore_tile(
    ops: &mut Vec<Op>,
    channel: &Channel,
    index: usize,
    area: Rect,
    selected: bool,
    columns: &Vec<Rect>,
)
    requires
        columns@.len() == 3,
    ensures
        views(final(ops)@) == views(old(ops)@) + tile_ops(
            channel@,
            index as int,
            area,
            selected,
            columns@,
        ),
{
    let border = if selected {
        Tone::Signal
    } else {
        Tone::Border
    };
    let panel = new_rail(border, None, Padding { left: 1, right: 0, top: 0, bottom: 0 });
    push_item(ops, Op::Panel { area, panel });
    if channel.artwork {
        push_item(ops, Op::Artwork { area: columns[0], index });
    }
    let marker = if selected {
        "→ "
    } else {
        "  "
    };
    let tone = if selected {
        Tone::Ink
    } else {
        Tone::Muted
    };
    let mut lines = empty_list::<TextLine>();
    push_item(
        &mut lines,
        line(two(marker, channel.name), Style { tone: Some(tone), bold: true }),
    );
    push_item(&mut lines, line(channel.description.clone(), toned(Tone::Muted)));
    let ghost texts = views(lines@);
    push_item(ops, Op::Lines { area: columns[2], lines, wrap: true });
    proof {
        let expected = tile_ops(channel@, index as int, area, selected, columns@);
        assert(texts =~= expected.last()->lines);
        assert(views(ops@) =~= views(old(ops)@) + expected);
    }
}

/// Draws a mixtape's tile.
pub fn render_explore_tile(
    ops: &mut Vec<Op>,
    channel: &Channel,
    index: usize,
    area: Rect,
    selected: bool,
)
    ensures
        exists|part: Seq<OpModel>|
            #[trigger] draws_tile(channel@, index as int, area, selected, part) && views(
                final(ops)@,
            ) == views(old(ops)@) + part,
{
    let inner = content_area(
        area,
        Borders::Left,
        Padding { left: 1, right: 0, top: 0, bottom: 0 },
    );
    let extents = vec![Extent::Length(16), Extent::Length(1), Extent::Min(12)];
    assert(extents@ =~= tile_extents());
    let columns = split(inner, Axis::Horizontal, 0, &extents);
    explore_tile(ops, channel, index, area, selected, &columns);
    assert(draws_tile(
        channel@,
        index as int,
        area,
        selected,
        tile_ops(channel@, index as int, area, selected, columns@),
    ));
}

/// The columns of the tiles.
pub open spec fn grid_columns() -> Seq<Extent> {
    seq![Extent::Percentage(50), Extent::Percentage(50)]
}

/// The rows of the tiles.
pub open spec fn grid_rows() -> Seq<Extent> {
    seq![Extent::Length(5), Extent::Length(5), Extent::Length(5), Extent::Length(5)]
}

/// The place of the tile at `i`: two in each row.
pub open spec fn tile_area(columns: Seq<Rect>, rows: Seq<Rect>, i: int) -> Rect {
    Rect {
        x: columns[i % 2].x,
        width: minus(columns[i % 2].width as int, 1) as u16,
        ..rows[i / 2]
    }
}

/// Whether `ops` draw the tile at `i`.
pub open spec fn draws_tile_at(
    m: AppModel,
    columns: Seq<Rect>,
    rows: Seq<Rect>,
    i: int,
    ops: Seq<OpModel>,
) -> bool {
    draws_tile(
        m.channels[i + 2],
        i + 2,
        tile_area(columns, rows, i),
        i == m.explore_selected,
        ops,
    )
}

/// Whether `parts` draw the tiles, one after the other.
pub open spec fn draws_tiles(
    m: AppModel,
    columns: Seq<Rect>,
    rows: Seq<Rect>,
    parts: Seq<Seq<OpModel>>,
) -> bool {
    forall|i: int|
        #![trigger parts[i]]
        0 <= i < parts.len() ==> draws_tile_at(m, columns, rows, i, parts[i])
}

/// Whether `ops` draw the mixtapes as tiles in `area`.
pub open spec fn draws_grid(m: AppModel, area: Rect, ops: Seq<OpModel>) -> bool {
    exists|columns: Seq<Rect>, rows: Seq<Rect>, parts: Seq<Seq<OpModel>>|
        {
            &&& is_split(area, Axis::Horizontal, 0, grid_columns(), columns)
            &&& is_split(area, Axis::Vertical, 0, grid_rows(), rows)
            &&& #[trigger] draws_tiles(m, columns, rows, parts)
            &&& parts.len() == m.mixtapes()
            &&& ops == concat(parts)
        }
}

/// Draws the mixtapes as tiles.
pub fn render_explore_grid(ops: &mut Vec<Op>, app: &App, area: Rect)
    requires
        2 <= app.channels.len() <= GRID_PLACES + 2,
    ensures
        exists|part: Seq<OpModel>|
            #[trigger] draws_grid(app@, area, part) && views(final(ops)@) == views(old(ops)@)
                + part,
{
    let halves = vec![Extent::Percentage(50), Extent::Percentage(50)];
    assert(halves@ =~= grid_columns());
    let columns = split(area, Axis::Horizontal, 0, &halves);
    let fives = vec![Extent::Length(5), Extent::Length(5), Extent::Length(5), Extent::Length(5)];
    assert(fives@ =~= grid_rows());
    let rows = split(area, Axis::Vertical, 0, &fives);
    let ghost mut parts: Seq<Seq<OpModel>> = Seq::empty();
    let ghost start = views(ops@);
    assert(start + concat(parts) =~= start);
    for i in 0..app.channels.len() - 2
        invariant
            2 <= app.channels@.len() <= GRID_PLACES + 2,
            columns@.len() == 2,
            rows@.len() == 4,
            parts.len() == i,
            draws_tiles(app@, columns@, rows@, parts),
            views(ops@) == start + concat(parts),
    {
        let column = columns[i % 2];
        let row = rows[i / 2];
        let tile = Rect {
            x: column.x,
            y: row.y,
            width: column.width.saturating_sub(1),
            height: row.height,
        };
        let ghost before = views(ops@);
        render_explore_tile(
            ops,
            &app.channels[i + 2],
            i + 2,
            tile,
            i == app.explore_selected,
        );
        proof {
            assert(tile == tile_area(columns@, rows@, i as int));
            let marked = i == app.explore_selected;
            let part = choose|part: Seq<OpModel>|
                #[trigger] draws_tile(app@.channels[i + 2], i + 2, tile, marked, part) && views(
                    ops@,
                ) == before + part;
            assert(draws_tile_at(app@, columns@, rows@, i as int, part));
            let next = parts.push(part);
            assert(next.drop_last() =~= parts);
            assert(start + concat(next) =~= before + part);
            parts = next;
        }
    }
    assert(draws_grid(app@, area, concat(parts)));
}

/// The columns of the list.
pub open spec fn list_extents(area: Rect) -> Seq<Extent> {
    if area.width >= TWO_COLUMNS {
        seq![Extent::Ratio(1, 2), Extent::Ratio(1, 2)]
    } else {
        seq![Extent::Ratio(1, 1)]
    }
}

/// How many mixtapes each column of the list has: as many as fill the columns evenly.
pub open spec fn list_chunk(m: AppModel, columns: int) -> int {
    (m.mixtapes() + columns - 1) / columns
}

/// A mixtape in the list.
pub open spec fn list_line(m: AppModel, i: int) -> LineModel {
    let marked = i == m.explore_selected;
    line_of(
        (if marked {
            "→"@
        } else {
            " "@
        }) + " "@ + m.channels[i + 2].name,
        Style {
            tone: Some(
                if marked {
                    Tone::Ink
                } else {
                    Tone::Muted
                },
            ),
            bold: marked,
        },
    )
}

/// The lines of a column of the list.
pub open spec fn list_lines(m: AppModel, columns: int, column: int) -> Seq<LineModel> {
    let chunk = list_chunk(m, columns);
    let start = column * chunk;
    let end = least(m.mixtapes(), start + chunk);
    Seq::new(minus(end, start) as nat, |k: int| list_line(m, start + k))
}

/// The list, whose columns are `groups`.
pub open spec fn list_ops(m: AppModel, groups: Seq<Rect>) -> Seq<OpModel> {
    Seq::new(
        groups.len(),
        |g: int|
            OpModel::Lines {
                area: groups[g],
                lines: list_lines(m, groups.len() as int, g),
                wrap: false,
            },
    )
}

/// Whether `ops` draw the mixtapes as a list in `area`.
pub open spec fn draws_list(m: AppModel, area: Rect, ops: Seq<OpModel>) -> bool {
    exists|groups: Seq<Rect>|
        #![trigger list_ops(m, groups)]
        is_split(area, Axis::Horizontal, 0, list_extents(area), groups) && ops == list_ops(
            m,
            groups,
        )
}

/// A mixtape in the list.
fn list_text(app: &App, i: usize) -> (r: TextLine)
    requires
        i + 2 < app.channels.len(),
    ensures
        r@ == list_line(app@, i as int),
{
    let marked = i == app.explore_selected;
    let mut text = two(
        if marked {
            "→"
        } else {
            " "
        },
        " ",
    );
    text.append(app.channels[i + 2].name);
    line(
        text,
        Style {
            tone: Some(
                if marked {
                    Tone::Ink
                } else {
                    Tone::Muted
                },
            ),
            bold: marked,
        },
    )
}

/// The columns of the list: how many mixtapes there are decides how they fill them.
pub fn explore_list(ops: &mut Vec<Op>, app: &App, groups: &Vec<Rect>)
    requires
        2 <= app.channels.len(),
        1 <= groups@.len() <= 2,
    ensures
        views(final(ops)@) == views(old(ops)@) + list_ops(app@, groups@),
{
    let total = app.channels.len() - 2;
    let columns = groups.len();
    let chunk: usize = if columns == 2 {
        total / 2 + total % 2
    } else {
        total
    };
    let ghost start_ops = views(ops@);
    proof {
        assert(app@.mixtapes() == total);
        if columns == 2 {
            assert(list_chunk(app@, 2) == (total + 1) / 2);
        } else {
            assert(list_chunk(app@, 1) == total);
        }
    }
    for g in 0..columns
        invariant
            total == app.channels@.len() - 2,
            columns == groups@.len(),
            1 <= columns <= 2,
            chunk == list_chunk(app@, columns as int),
            chunk <= total,
            views(ops@) =~= start_ops + list_ops(app@, groups@).take(g as int),
    {
        let start: usize = if g == 0 {
            0
        } else {
            chunk
        };
        let end: usize = if total - start < chunk {
            total
        } else {
            start + chunk
        };
        let mut lines = empty_list::<TextLine>();
        for i in start..end
            invariant
                total == app.channels@.len() - 2,
                start <= end <= total,
                views(lines@) =~= Seq::new(
                    (i - start) as nat,
                    |k: int| list_line(app@, start + k),
                ),
        {
            push_item(&mut lines, list_text(app, i));
        }
        proof {
            assert(g * chunk == start) by (nonlinear_arith)
                requires
                    (g == 0 && start == 0) || (g == 1 && start == chunk),
            ;
            assert(views(lines@) =~= list_lines(app@, columns as int, g as int));
        }
        push_item(ops, Op::Lines { area: groups[g], lines, wrap: false });
        assert(list_ops(app@, groups@).take(g + 1) =~= list_ops(app@, groups@).take(g as int).push(
            list_ops(app@, groups@)[g as int],
        ));
    }
    assert(list_ops(app@, groups@).take(columns as int) =~= list_ops(app@, groups@));
}

/// Draws the mixtapes as a list.
pub fn render_explore_list(ops: &mut Vec<Op>, app: &App, area: Rect)
    requires
        2 <= app.channels.len(),
    ensures
        exists|part: Seq<OpModel>|
            #[trigger] draws_list(app@, area, part) && views(final(ops)@) == views(old(ops)@)
                + part,
{
    let extents = if area.width >= TWO_COLUMNS {
        vec![Extent::Ratio(1, 2), Extent::Ratio(1, 2)]
    } else {
        vec![Extent::Ratio(1, 1)]
    };
    assert(extents@ =~= list_extents(area));
    let groups = split(area, Axis::Horizontal, 0, &extents);
    explore_list(ops, app, &groups);
    assert(draws_list(app@, area, list_ops(app@, groups@)));
}

/// The rows of the overlay.
pub open spec fn explore_extents() -> Seq<Extent> {
    seq![Extent::Length(1), Extent::Min(0), Extent::Length(1)]
}

/// Where the overlay has its content.
pub open spec fn explore_content(area: Rect, compact: bool) -> Rect {
    content_of(modal_area(area, compact, 100, 28, 4), Borders::All, roomy())
}

/// Whether the mixtapes are shown as tiles.
pub open spec fn as_tiles(compact: bool, body: Rect) -> bool {
    !compact && body.width >= GRID_WIDTH && body.height >= GRID_HEIGHT
}

/// Whether the overlay has a place for each of `stations`: there are tiles for so many only, and
/// tiles are shown where they have room between the heading and the keys.
pub open spec fn has_places(area: Rect, compact: bool, stations: int) -> bool {
    let content = explore_content(area, compact);
    &&& 2 <= stations
    &&& !compact && content.width >= GRID_WIDTH && content.height >= GRID_HEIGHT + 2 ==> stations
        <= GRID_PLACES + 2
}

/// Whether the overlay has a place for each of `stations`.
pub fn has_explore_places(area: Rect, compact: bool, stations: usize) -> (r: bool)
    requires
        area.fits(),
    ensures
        r == has_places(area, compact, stations as int),
{
    let modal = place_modal(area, compact, 100, 28, 4);
    let content = content_area(
        modal,
        Borders::All,
        Padding { left: 2, right: 2, top: 1, bottom: 1 },
    );
    let tiles = !compact && content.width >= GRID_WIDTH && content.height >= GRID_HEIGHT + 2;
    2 <= stations && (!tiles || stations <= GRID_PLACES + 2)
}

/// The overlay's frame and heading, above the mixtapes.
pub open spec fn explore_head(area: Rect, compact: bool, sections: Seq<Rect>) -> Seq<OpModel> {
    let modal = modal_area(area, compact, 100, 28, 4);
    seq![
        OpModel::Clear { area: modal },
        OpModel::Panel {
            area: modal,
            panel: modal_panel(Tone::Ink, Some(" EXPLORE  /  8 GENRE STATIONS "@)),
        },
        OpModel::Copy {
            area: sections[0],
            text: "Eight endless NTS worlds. Browse without disturbing what is playing."@,
            style: in_tone(Tone::Muted),
        },
    ]
}

/// The overlay's keys, below the mixtapes.
pub open spec fn explore_foot(sections: Seq<Rect>) -> Seq<OpModel> {
    seq![
        OpModel::Copy {
            area: sections[2],
            text: "↑↓ / j k browse   •   space / enter listen   •   e / esc close"@,
            style: in_tone(Tone::Muted),
        },
    ]
}

/// Whether `ops` draw the mixtapes, as tiles or as a list.
pub open spec fn draws_mixtapes(m: AppModel, compact: bool, body: Rect, ops: Seq<OpModel>) -> bool {
    if as_tiles(compact, body) {
        draws_grid(m, body, ops)
    } else {
        draws_list(m, body, ops)
    }
}

/// Whether `ops` draw the Explore overlay.
pub open spec fn draws_explore(m: AppModel, area: Rect, compact: bool, ops: Seq<OpModel>) -> bool {
    exists|sections: Seq<Rect>, body: Seq<OpModel>|
        {
            &&& is_split(
                explore_content(area, compact),
                Axis::Vertical,
                0,
                explore_extents(),
                sections,
            )
            &&& #[trigger] draws_mixtapes(m, compact, sections[1], body)
            &&& ops == explore_head(area, compact, sections) + body + explore_foot(sections)
        }
}

/// The mixtapes get the rows that the heading and the keys leave.
proof fn lemma_body_height(area: Rect, compact: bool, sections: Seq<Rect>)
    requires
        area.fits(),
        is_split(explore_content(area, compact), Axis::Vertical, 0, explore_extents(), sections),
    ensures
        explore_content(area, compact).height >= 2 ==> sections[1].height == explore_content(
            area,
            compact,
        ).height - 2,
{
    let content = explore_content(area, compact);
    let extents = explore_extents();
    reveal_with_fuel(fixed_cells, 4);
    assert(extents.drop_last() =~= seq![Extent::Length(1), Extent::Min(0)]);
    assert(extents.drop_last().drop_last() =~= seq![Extent::Length(1)]);
    assert(extents.drop_last().drop_last().drop_last() =~= Seq::empty());
    assert(is_lone_min(extents, 1));
    assert(content.height >= 2 ==> content.y + content.height <= u16::MAX);
}

/// Draws the Explore overlay.
pub fn draw_explore_modal(ops: &mut Vec<Op>, app: &App, area: Rect, compact: bool)
    requires
        area.fits(),
        has_places(area, compact, app.channels.len() as int),
    ensures
        exists|part: Seq<OpModel>|
            #[trigger] draws_explore(app@, area, compact, part) && views(final(ops)@) == views(
                old(ops)@,
            ) + part,
{
    let ghost start = views(ops@);
    let modal = place_modal(area, compact, 100, 28, 4);
    let inner = content_area(modal, Borders::All, Padding { left: 2, right: 2, top: 1, bottom: 1 });
    let extents = vec![Extent::Length(1), Extent::Min(0), Extent::Length(1)];
    assert(extents@ =~= explore_extents());
    let sections = split(inner, Axis::Vertical, 0, &extents);
    proof {
        lemma_body_height(area, compact, sections@);
    }
    push_item(ops, Op::Clear { area: modal });
    push_item(
        ops,
        Op::Panel {
            area: modal,
            panel: new_modal_panel(Tone::Ink, Some(" EXPLORE  /  8 GENRE STATIONS ".to_owned())),
        },
    );
    push_item(
        ops,
        Op::Copy {
            area: sections[0],
            text: "Eight endless NTS worlds. Browse without disturbing what is playing.".to_owned(),
            style: toned(Tone::Muted),
        },
    );
    let ghost head = explore_head(area, compact, sections@);
    assert(views(ops@) =~= start + head);
    let body = sections[1];
    let ghost mut middle: Seq<OpModel> = Seq::empty();
    if !compact && body.width >= GRID_WIDTH && body.height >= GRID_HEIGHT {
        render_explore_grid(ops, app, body);
        proof {
            middle =
            choose|part: Seq<OpModel>|
                #[trigger] draws_grid(app@, body, part) && views(ops@) == start + head + part;
        }
    } else {
        render_explore_list(ops, app, body);
        proof {
            middle =
            choose|part: Seq<OpModel>|
                #[trigger] draws_list(app@, body, part) && views(ops@) == start + head + part;
        }
    }
    push_item(
        ops,
        Op::Copy {
            area: sections[2],
            text: "↑↓ / j k browse   •   space / enter listen   •   e / esc close".to_owned(),
            style: toned(Tone::Muted),
        },
    );
    proof {
        assert(draws_mixtapes(app@, compact, sections@[1], middle));
        let whole = head + middle + explore_foot(sections@);
        assert(draws_explore(app@, area, compact, whole));
        assert(views(ops@) =~= start + whole);
    }
}

} // verus!

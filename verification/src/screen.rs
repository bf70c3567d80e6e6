//! The whole screen: what lies where, and the overlays on top of it.
use crate::app::{App, AppModel, Screen};
use crate::cards::{
    compact_plan, draw_compact, draw_wide_channels, draws_compact_card, draws_wide_channels,
    plan_compact_card, plan_wide_card, wide_plan,
};
use crate::catalog::ChannelKind;
use crate::draw::{
    draw_schedule_modal, draw_visualizer_modal, draws_schedule, error_ops, footer_ops, hint_ops,
    render_error, render_footer, render_terminal_hint, single_line, visualizer_ops,
};
use crate::explore::{draw_explore_modal, draws_explore, has_places};
use crate::geometry::{
    fixed_cells, is_lone_min, is_split, least, split, Axis, Extent, Rect,
};
use crate::scene::{
    as_is, bold, empty_list, in_bold, in_tone, plain, span, span_of, spans_of, toned, Op, OpModel,
    Span, Tone,
};
use crate::text::{push_item, views};
use vstd::prelude::*;

verus! {

/// The screen of a terminal that is too small for the wide one.
pub open spec fn is_compact(area: Rect) -> bool {
    area.width < 110 || area.height < 30
}

/// The rows of the compact screen: the header, the card, the footer.
pub open spec fn compact_rows() -> Seq<Extent> {
    seq![Extent::Length(1), Extent::Min(8), Extent::Length(1)]
}

/// The rows of the wide screen: the title, the status, the cards, the footer.
pub open spec fn wide_rows() -> Seq<Extent> {
    seq![Extent::Length(1), Extent::Length(1), Extent::Min(10), Extent::Length(1)]
}

/// The columns of the wide screen: the wide card, a gap, the small cards.
pub open spec fn card_columns() -> Seq<Extent> {
    seq![Extent::Percentage(64), Extent::Length(2), Extent::Min(34)]
}

/// A question about a picture: how many rows it takes, scaled into so many columns and rows.
#[derive(Clone, Copy, Debug, PartialEq, Eq, Structural)]
pub struct ArtQuery {
    pub index: usize,
    pub width: u16,
    pub height: u16,
}

/// A screen that is laid out and not drawn yet.
pub struct Stage {
    pub area: Rect,
    pub compact: bool,
    /// The rows of the screen; none while the visualizer is open.
    pub rows: Vec<Rect>,
    /// The columns of the wide screen.
    pub columns: Vec<Rect>,
    /// What has to be known of the station's picture before the screen can be drawn.
    pub query: Option<ArtQuery>,
}

/// The model of a `Stage`.
#[verifier::ext_equal]
pub struct StageModel {
    pub area: Rect,
    pub compact: bool,
    pub rows: Seq<Rect>,
    pub columns: Seq<Rect>,
    pub query: Option<ArtQuery>,
}

impl View for Stage {
    type V = StageModel;

    open spec fn view(&self) -> StageModel {
        StageModel {
            area: self.area,
            compact: self.compact,
            rows: self.rows@,
            columns: self.columns@,
            query: self.query,
        }
    }
}

impl StageModel {
    /// Whether there is a place for each part of the screen.
    pub open spec fn complete(self, m: AppModel) -> bool {
        &&& self.area.fits()
        &&& m.visualizer is None ==> if self.compact {
            &&& self.rows.len() == 3
            &&& self.rows[1].y + self.rows[1].height <= u16::MAX
        } else {
            &&& self.rows.len() == 4
            &&& self.columns.len() == 3
            &&& self.columns[0].y + self.columns[0].height <= u16::MAX
        }
    }
}

impl AppModel {
    /// What has to be known of the station's picture before a compact card can be drawn.
    pub open spec fn compact_query(self, card: Rect) -> Option<ArtQuery> {
        let plan = compact_plan(self.station().artwork, card);
        if plan.show_art {
            Some(
                ArtQuery {
                    index: self.selected as usize,
                    width: plan.art_width,
                    height: card.height,
                },
            )
        } else {
            None
        }
    }

    /// What has to be known of the station's picture before a wide card can be drawn.
    pub open spec fn wide_query(self, card: Rect) -> Option<ArtQuery> {
        let plan = wide_plan(self.station().artwork, card);
        if plan.show_art {
            Some(
                ArtQuery {
                    index: self.selected as usize,
                    width: plan.art_width,
                    height: card.height,
                },
            )
        } else {
            None
        }
    }

    /// Whether `stage` is the layout of the screen on `area`.
    pub open spec fn staged(self, area: Rect, stage: StageModel) -> bool {
        &&& stage.area == area
        &&& stage.compact == is_compact(area)
        &&& if self.visualizer is Some {
            &&& stage.rows.len() == 0
            &&& stage.columns.len() == 0
            &&& stage.query is None
        } else if is_compact(area) {
            &&& is_split(area, Axis::Vertical, 2, compact_rows(), stage.rows)
            &&& stage.columns.len() == 0
            &&& stage.query == self.compact_query(stage.rows[1])
        } else {
            &&& is_split(area, Axis::Vertical, 2, wide_rows(), stage.rows)
            &&& is_split(stage.rows[2], Axis::Horizontal, 0, card_columns(), stage.columns)
            &&& stage.query == self.wide_query(stage.columns[0])
        }
    }
}

/// Lays the screen out on `area`.
pub fn begin_draw(app: &App, area: Rect) -> (r: Stage)
    requires
        area.fits(),
        app.visualizer is None ==> app.selected < app.channels.len(),
    ensures
        app@.staged(area, r@),
        r@.complete(app@),
{
    let compact = area.width < 110 || area.height < 30;
    if app.visualizer.is_some() {
        return Stage { area, compact, rows: Vec::new(), columns: Vec::new(), query: None };
    }
    let artwork = app.channels[app.selected].artwork;
    if compact {
        let extents = vec![Extent::Length(1), Extent::Min(8), Extent::Length(1)];
        assert(extents@ =~= compact_rows());
        let rows = split(area, Axis::Vertical, 2, &extents);
        let plan = plan_compact_card(artwork, rows[1]);
        let query = if plan.show_art {
            Some(ArtQuery { index: app.selected, width: plan.art_width, height: rows[1].height })
        } else {
            None
        };
        Stage { area, compact, rows, columns: Vec::new(), query }
    } else {
        let extents = vec![Extent::Length(1), Extent::Length(1), Extent::Min(10), Extent::Length(1)];
        assert(extents@ =~= wide_rows());
        let rows = split(area, Axis::Vertical, 2, &extents);
        let sides = vec![Extent::Percentage(64), Extent::Length(2), Extent::Min(34)];
        assert(sides@ =~= card_columns());
        let columns = split(rows[2], Axis::Horizontal, 0, &sides);
        let plan = plan_wide_card(artwork, columns[0]);
        let query = if plan.show_art {
            Some(ArtQuery { index: app.selected, width: plan.art_width, height: columns[0].height })
        } else {
            None
        };
        Stage { area, compact, rows, columns, query }
    }
}

/// The canvas.
pub open spec fn canvas(area: Rect) -> Seq<OpModel> {
    seq![OpModel::Fill { area, tone: Tone::Base }]
}

/// The header of the compact screen.
pub open spec fn compact_header_ops(m: AppModel, area: Rect) -> Seq<OpModel> {
    let kind = if m.station().kind == ChannelKind::Mixtape {
        "  ·  EXPLORE"@
    } else {
        "  ·  RADIO"@
    };
    let status_tone = if m.playing {
        Tone::Signal
    } else {
        Tone::Muted
    };
    seq![
        OpModel::Lines {
            area,
            lines: seq![
                spans_of(
                    seq![
                        span_of("NTS"@, in_bold(Tone::Ink)),
                        span_of("   "@, as_is()),
                        span_of(m.status(), in_tone(status_tone)),
                        span_of("   "@, as_is()),
                        span_of("→ "@, in_tone(Tone::Ink)),
                        span_of(m.station().name, in_bold(Tone::Ink)),
                        span_of(kind, in_tone(Tone::Muted)),
                    ],
                ),
            ],
            wrap: false,
        },
    ]
}

/// Draws the header of the compact screen.
pub fn draw_compact_header(ops: &mut Vec<Op>, app: &App, area: Rect)
    requires
        app.selected < app.channels.len(),
    ensures
        views(final(ops)@) == views(old(ops)@) + compact_header_ops(app@, area),
{
    let selected = &app.channels[app.selected];
    let status_tone = if app.playing {
        Tone::Signal
    } else {
        Tone::Muted
    };
    let kind = if selected.kind == ChannelKind::Mixtape {
        "  ·  EXPLORE"
    } else {
        "  ·  RADIO"
    };
    let mut spans = empty_list::<Span>();
    push_item(&mut spans, span("NTS".to_owned(), bold(Tone::Ink)));
    push_item(&mut spans, span("   ".to_owned(), plain()));
    push_item(&mut spans, span(app.status_copy(), toned(status_tone)));
    push_item(&mut spans, span("   ".to_owned(), plain()));
    push_item(&mut spans, span("→ ".to_owned(), toned(Tone::Ink)));
    push_item(&mut spans, span(selected.name.to_owned(), bold(Tone::Ink)));
    push_item(&mut spans, span(kind.to_owned(), toned(Tone::Muted)));
    let ghost pieces = views(spans@);
    let lines = single_line(spans);
    push_item(ops, Op::Lines { area, lines, wrap: false });
    proof {
        let expected = compact_header_ops(app@, area);
        assert(pieces =~= expected[0]->lines[0].spans);
        assert(views(ops@) =~= views(old(ops)@) + expected);
    }
}

/// The title and the status of the wide screen.
pub open spec fn wide_header_ops(m: AppModel, title: Rect, status: Rect) -> Seq<OpModel> {
    seq![
        OpModel::Lines {
            area: title,
            lines: seq![
                spans_of(
                    seq![
                        span_of("NTS"@, in_bold(Tone::Ink)),
                        span_of("  —  DON'T ASSUME"@, in_tone(Tone::Muted)),
                    ],
                ),
            ],
            wrap: false,
        },
        OpModel::Copy { area: status, text: m.status(), style: in_tone(Tone::Muted) },
    ]
}

/// Draws the title and the status of the wide screen.
pub fn draw_wide_header(ops: &mut Vec<Op>, app: &App, title: Rect, status: Rect)
    requires
        app.playing ==> app.selected < app.channels.len(),
    ensures
        views(final(ops)@) == views(old(ops)@) + wide_header_ops(app@, title, status),
{
    let mut spans = empty_list::<Span>();
    push_item(&mut spans, span("NTS".to_owned(), bold(Tone::Ink)));
    push_item(&mut spans, span("  —  DON'T ASSUME".to_owned(), toned(Tone::Muted)));
    let ghost pieces = views(spans@);
    let lines = single_line(spans);
    push_item(ops, Op::Lines { area: title, lines, wrap: false });
    push_item(ops, Op::Copy { area: status, text: app.status_copy(), style: toned(Tone::Muted) });
    proof {
        let expected = wide_header_ops(app@, title, status);
        assert(pieces =~= expected[0]->lines[0].spans);
        assert(views(ops@) =~= views(old(ops)@) + expected);
    }
}

/// The footer, and what stands above it.
pub open spec fn bottom_ops(m: AppModel, area: Rect, compact: bool) -> Seq<OpModel> {
    footer_ops(m, area, compact) + error_ops(m, area) + hint_ops(m, area)
}

/// Draws the footer, and what stands above it.
fn draw_bottom(ops: &mut Vec<Op>, app: &App, area: Rect, compact: bool)
    ensures
        views(final(ops)@) == views(old(ops)@) + bottom_ops(app@, area, compact),
{
    render_footer(ops, app, area, compact);
    render_error(ops, app, area);
    render_terminal_hint(ops, app, area);
    assert(views(ops@) =~= views(old(ops)@) + bottom_ops(app@, area, compact));
}

/// Whether `ops` draw the overlay that is open.
pub open spec fn draws_overlay(m: AppModel, area: Rect, compact: bool, ops: Seq<OpModel>) -> bool {
    match m.screen {
        Screen::Schedule => draws_schedule(m, area, compact, ops),
        Screen::Explore => draws_explore(m, area, compact, ops),
        Screen::Listen => ops == Seq::<OpModel>::empty(),
    }
}

/// Draws the overlay that is open.
fn draw_overlay(ops: &mut Vec<Op>, app: &App, area: Rect, compact: bool)
    requires
        area.fits(),
        app.selected < app.channels.len(),
        app.screen == Screen::Explore ==> has_places(area, compact, app.channels.len() as int),
    ensures
        exists|part: Seq<OpModel>|
            #[trigger] draws_overlay(app@, area, compact, part) && views(final(ops)@) == views(
                old(ops)@,
            ) + part,
{
    let ghost start = views(ops@);
    match app.screen {
        Screen::Schedule => {
            draw_schedule_modal(ops, app, area, compact);
            proof {
                let part = choose|part: Seq<OpModel>|
                    #[trigger] draws_schedule(app@, area, compact, part) && views(ops@) == start
                        + part;
                assert(draws_overlay(app@, area, compact, part));
            }
        },
        Screen::Explore => {
            draw_explore_modal(ops, app, area, compact);
            proof {
                let part = choose|part: Seq<OpModel>|
                    #[trigger] draws_explore(app@, area, compact, part) && views(ops@) == start
                        + part;
                assert(draws_overlay(app@, area, compact, part));
            }
        },
        Screen::Listen => {
            proof {
                assert(draws_overlay(app@, area, compact, Seq::empty()));
                assert(views(ops@) =~= start + Seq::<OpModel>::empty());
            }
        },
    }
}

/// Whether `ops` draw the card of what plays, and on the wide screen the small cards with it.
/// Pictures are held back under an overlay.
pub open spec fn draws_cards(
    m: AppModel,
    stage: StageModel,
    art_rows: u16,
    ops: Seq<OpModel>,
) -> bool {
    let paint = m.screen == Screen::Listen;
    if stage.compact {
        draws_compact_card(m.station(), m.selected, stage.rows[1], paint, art_rows, ops)
    } else {
        draws_wide_channels(m, stage.columns, paint, art_rows, ops)
    }
}

/// What stands above the cards.
pub open spec fn head_ops(m: AppModel, stage: StageModel) -> Seq<OpModel> {
    canvas(stage.area) + if stage.compact {
        compact_header_ops(m, stage.rows[0])
    } else {
        wide_header_ops(m, stage.rows[0], stage.rows[1])
    }
}

/// The screen while the visualizer is open: nothing but it.
pub open spec fn exclusive_ops(area: Rect, compact: bool) -> Seq<OpModel> {
    canvas(area) + seq![
        OpModel::Clear { area },
        OpModel::Fill { area, tone: Tone::Surface },
    ] + visualizer_ops(area, compact)
}

/// Whether `ops` draw the screen that is laid out as `stage`.
pub open spec fn draws_screen(
    m: AppModel,
    stage: StageModel,
    art_rows: u16,
    ops: Seq<OpModel>,
) -> bool {
    if m.visualizer is Some {
        ops == exclusive_ops(stage.area, stage.compact)
    } else {
        exists|cards: Seq<OpModel>, overlay: Seq<OpModel>|
            {
                &&& #[trigger] draws_cards(m, stage, art_rows, cards)
                &&& #[trigger] draws_overlay(m, stage.area, stage.compact, overlay)
                &&& ops == head_ops(m, stage) + cards + bottom_ops(
                    m,
                    stage.rows.last(),
                    stage.compact,
                ) + overlay
            }
    }
}

/// Draws what stands above the cards, and the cards.
fn draw_top(ops: &mut Vec<Op>, app: &App, stage: &Stage, art_rows: u16)
    requires
        app.visualizer is None,
        app.selected < app.channels.len(),
        stage@.complete(app@),
    ensures
        exists|cards: Seq<OpModel>|
            #[trigger] draws_cards(app@, stage@, art_rows, cards) && views(final(ops)@) == views(
                old(ops)@,
            ) + (head_ops(app@, stage@) + cards),
{
    let ghost start = views(ops@);
    let paint = app.screen == Screen::Listen;
    push_item(ops, Op::Fill { area: stage.area, tone: Tone::Base });
    if stage.compact {
        draw_compact_header(ops, app, stage.rows[0]);
        assert(views(ops@) =~= start + head_ops(app@, stage@));
        draw_compact(ops, app, stage.rows[1], paint, art_rows);
        proof {
            let cards = choose|part: Seq<OpModel>|
                #[trigger] draws_compact_card(
                    app@.station(),
                    app@.selected,
                    stage@.rows[1],
                    paint,
                    art_rows,
                    part,
                ) && views(ops@) == start + head_ops(app@, stage@) + part;
            assert(draws_cards(app@, stage@, art_rows, cards));
            assert(views(ops@) =~= start + (head_ops(app@, stage@) + cards));
        }
    } else {
        draw_wide_header(ops, app, stage.rows[0], stage.rows[1]);
        assert(views(ops@) =~= start + head_ops(app@, stage@));
        draw_wide_channels(ops, app, &stage.columns, paint, art_rows);
        proof {
            let cards = choose|part: Seq<OpModel>|
                #[trigger] draws_wide_channels(app@, stage@.columns, paint, art_rows, part)
                    && views(ops@) == start + head_ops(app@, stage@) + part;
            assert(draws_cards(app@, stage@, art_rows, cards));
            assert(views(ops@) =~= start + (head_ops(app@, stage@) + cards));
        }
    }
}

/// Draws the screen that is laid out as `stage`. `art_rows` is the answer to the stage's question,
/// or 0 where it has none or there is no answer.
pub fn draw(app: &App, stage: &Stage, art_rows: u16) -> (r: Vec<Op>)
    requires
        stage@.complete(app@),
        app.visualizer is None ==> {
            &&& app.selected < app.channels.len()
            &&& app.screen == Screen::Explore ==> has_places(
                stage.area,
                stage.compact,
                app.channels.len() as int,
            )
        },
    ensures
        draws_screen(app@, stage@, art_rows, views(r@)),
{
    let mut ops = empty_list::<Op>();
    if app.visualizer.is_some() {
        push_item(&mut ops, Op::Fill { area: stage.area, tone: Tone::Base });
        push_item(&mut ops, Op::Clear { area: stage.area });
        push_item(&mut ops, Op::Fill { area: stage.area, tone: Tone::Surface });
        draw_visualizer_modal(&mut ops, stage.area, stage.compact);
        assert(views(ops@) =~= exclusive_ops(stage.area, stage.compact));
        return ops;
    }
    draw_top(&mut ops, app, stage, art_rows);
    let ghost cards = choose|cards: Seq<OpModel>|
        #[trigger] draws_cards(app@, stage@, art_rows, cards) && views(ops@) == Seq::<
            OpModel,
        >::empty() + (head_ops(app@, stage@) + cards);
    let ghost top = head_ops(app@, stage@) + cards;
    assert(views(ops@) =~= top);
    let last = stage.rows.len() - 1;
    draw_bottom(&mut ops, app, stage.rows[last], stage.compact);
    let ghost bottom = bottom_ops(app@, stage@.rows.last(), stage.compact);
    draw_overlay(&mut ops, app, stage.area, stage.compact);
    proof {
        let overlay = choose|part: Seq<OpModel>|
            #[trigger] draws_overlay(app@, stage.area, stage.compact, part) && views(ops@) == top
                + bottom + part;
        assert(draws_screen(app@, stage@, art_rows, views(ops@)));
    }
    ops
}

/// The rows of the screens are fixed lengths and a least size.
proof fn lemma_screen_rows()
    ensures
        is_lone_min(compact_rows(), 1),
        fixed_cells(compact_rows()) == 2,
        is_lone_min(wide_rows(), 2),
        fixed_cells(wide_rows()) == 3,
{
    reveal_with_fuel(fixed_cells, 5);
    let compact = compact_rows();
    assert(compact.drop_last() =~= seq![Extent::Length(1), Extent::Min(8)]);
    assert(compact.drop_last().drop_last() =~= seq![Extent::Length(1)]);
    assert(compact.drop_last().drop_last().drop_last() =~= Seq::empty());
    let wide = wide_rows();
    assert(wide.drop_last() =~= seq![Extent::Length(1), Extent::Length(1), Extent::Min(10)]);
    assert(wide.drop_last().drop_last() =~= seq![Extent::Length(1), Extent::Length(1)]);
    assert(wide.drop_last().drop_last().drop_last() =~= seq![Extent::Length(1)]);
    assert(wide.drop_last().drop_last().drop_last().drop_last() =~= Seq::empty());
}

/// A screen of five rows or more has a row for the card of what plays, and the wide screen has ten
/// and more for the cards. A screen of fewer than four columns has no room within its margins.
pub proof fn law_ordinary_screens_have_room(m: AppModel, area: Rect, stage: StageModel)
    requires
        m.staged(area, stage),
        m.visualizer is None,
        area.fits(),
        area.height >= 5,
        area.width >= 4,
    ensures
        stage.compact ==> stage.rows[1].height >= least(8, area.height - 4),
        !stage.compact ==> stage.columns[0].height >= 10,
{
    lemma_screen_rows();
}

/// Where there is room for them, the parts of the screen follow each other within its margins: the
/// header, the card or the cards, which take the rows that are left, and the footer.
pub proof fn law_the_screen_is_laid_out_from_top_to_bottom(
    m: AppModel,
    area: Rect,
    stage: StageModel,
)
    requires
        m.staged(area, stage),
        m.visualizer is None,
        area.fits(),
        area.height >= 14,
        area.width >= 4,
    ensures
        stage.compact ==> {
            &&& stage.rows[0] == (Rect {
                x: (area.x + 2) as u16,
                y: (area.y + 2) as u16,
                width: (area.width - 4) as u16,
                height: 1,
            })
            &&& stage.rows[1] == (Rect {
                y: (area.y + 3) as u16,
                height: (area.height - 6) as u16,
                ..stage.rows[0]
            })
            &&& stage.rows[2] == (Rect {
                y: (area.y + area.height - 3) as u16,
                ..stage.rows[0]
            })
        },
        !stage.compact ==> {
            &&& stage.rows[0] == (Rect {
                x: (area.x + 2) as u16,
                y: (area.y + 2) as u16,
                width: (area.width - 4) as u16,
                height: 1,
            })
            &&& stage.rows[1] == (Rect { y: (area.y + 3) as u16, ..stage.rows[0] })
            &&& stage.rows[2] == (Rect {
                y: (area.y + 4) as u16,
                height: (area.height - 7) as u16,
                ..stage.rows[0]
            })
            &&& stage.rows[3] == (Rect {
                y: (area.y + area.height - 3) as u16,
                ..stage.rows[0]
            })
        },
{
    lemma_screen_rows();
    if stage.compact {
        assert(is_lone_min(compact_rows(), 1));
        assert(stage.rows[1].height == area.height - 6);
        assert(stage.rows[0].height == 1 && stage.rows[2].height == 1);
    } else {
        assert(is_lone_min(wide_rows(), 2));
        assert(stage.rows[2].height == area.height - 7);
        assert(stage.rows[0].height == 1 && stage.rows[1].height == 1 && stage.rows[3].height == 1);
    }
}

} // verus!

//! The texts on the screen and in the terminal's title.
use crate::app::{App, AppModel};
use crate::catalog::{Channel, ChannelKind, ChannelModel};
use crate::geometry::{least, lines_in, lines_of, most};
use crate::scene::{
    bold, empty_list, in_bold, in_tone, line, line_of, toned, LineModel, TextLine, Tone,
};
use crate::session::SPINNER_LENGTH;
use crate::text::{on_one_line, one_line, push_item, title_copy, title_text, views};
use vstd::prelude::*;
use vstd::string::*;

verus! {

/// The pictures of the spinner.
pub open spec fn spinner() -> Seq<Seq<char>> {
    seq!["⠋"@, "⠙"@, "⠹"@, "⠸"@, "⠼"@, "⠴"@, "⠦"@, "⠧"@, "⠇"@, "⠏"@]
}

/// A picture of the spinner.
pub fn spinner_picture(frame: usize) -> (r: &'static str)
    requires
        frame < SPINNER_LENGTH,
    ensures
        r@ == spinner()[frame as int],
{
    let pictures: [&'static str; 10] = ["⠋", "⠙", "⠹", "⠸", "⠼", "⠴", "⠦", "⠧", "⠇", "⠏"];
    pictures[frame]
}

impl ChannelModel {
    /// The station's short name.
    pub open spec fn short_name(self) -> Seq<char> {
        if self.kind == ChannelKind::Live {
            "NTS "@ + self.number
        } else {
            "NTS Mix"@
        }
    }

    /// The heading over what the station plays.
    pub open spec fn heading(self) -> Seq<char> {
        if self.kind == ChannelKind::Live {
            "NOW ON NTS "@ + self.number
        } else {
            "INFINITE MIXTAPE"@
        }
    }

    /// The line about the next show.
    pub open spec fn next_line(self) -> Seq<char> {
        "NEXT  "@ + self.next_starts_at + "  ·  "@ + self.next_show
    }

    /// What the station does, as its card in the list of stations tells it.
    pub open spec fn activity(self, selected: bool, playing: bool, buffering: bool) -> Seq<char> {
        if selected && playing && buffering {
            "◌ BUFFERING"@
        } else if selected && playing && self.kind == ChannelKind::Live {
            "● ON AIR"@
        } else if selected && playing {
            "● PLAYING"@
        } else if self.kind == ChannelKind::Live {
            "LIVE NOW"@
        } else {
            "INFINITE MIXTAPE"@
        }
    }

    /// What the station plays; with `show_next`, also what a live one plays next.
    pub open spec fn now_lines(self, show_next: bool) -> Seq<LineModel> {
        let now = seq![
            line_of(self.heading(), in_bold(Tone::Signal)),
            line_of(self.show, in_bold(Tone::Ink)),
            line_of(self.description, in_tone(Tone::Muted)),
        ];
        if show_next && self.kind == ChannelKind::Live {
            now + seq![
                LineModel { spans: Seq::empty(), style: crate::scene::as_is() },
                line_of(self.next_line(), in_tone(Tone::Muted)),
            ]
        } else {
            now
        }
    }

    /// How many rows `now_lines` takes in `width` columns where none of its lines but the
    /// description is wrapped: one for the heading, one for the show, those of the description, and
    /// two for the next show.
    pub open spec fn now_rows(self, width: u16, show_next: bool) -> int {
        let next: int = if show_next && self.kind == ChannelKind::Live {
            2
        } else {
            0
        };
        rows_of(lines_of(self.description, width), next)
    }

    /// How many rows `now_lines` takes in `width` columns, each of its lines wrapped. A line end
    /// within a text does not show: the text stays one line.
    pub open spec fn copy_rows(self, width: u16, show_next: bool) -> int {
        copy_rows_of(
            lines_of(on_one_line(self.heading()), width),
            lines_of(on_one_line(self.show), width),
            lines_of(on_one_line(self.description), width),
            if show_next && self.kind == ChannelKind::Live {
                Some(lines_of(on_one_line(self.next_line()), width))
            } else {
                None
            },
        )
    }
}

/// The rows of a line that is wrapped to `lines` lines: an empty one takes a row too.
pub open spec fn line_rows(lines: usize) -> int {
    most(1, lines as int)
}

/// The rows of a card's text whose lines are wrapped to so many lines each. `next` is the line
/// about the next show, which has a blank one before it.
pub open spec fn copy_rows_of(
    heading: usize,
    show: usize,
    description: usize,
    next: Option<usize>,
) -> int {
    let now = line_rows(heading) + line_rows(show) + line_rows(description);
    least(
        match next {
            Some(lines) => now + 1 + line_rows(lines),
            None => now,
        },
        u16::MAX as int,
    )
}

/// The rows of a card whose description takes `lines` lines and that has `next` more.
pub open spec fn rows_of(lines: usize, next: int) -> int {
    least(2 + least(lines as int, u16::MAX as int) + next, u16::MAX as int)
}

impl AppModel {
    /// The terminal's title.
    pub open spec fn terminal_title(self, frame: int) -> Seq<char> {
        let prefix = if self.playing {
            spinner()[frame]
        } else {
            "⠂"@
        };
        prefix + " "@ + self.station().short_name() + " — "@ + title_text(self.station().show)
    }

    /// What the player does.
    pub open spec fn status(self) -> Seq<char> {
        if !self.playing {
            "● READY · PRESS SPACE TO LISTEN"@
        } else if self.buffering {
            "◌ BUFFERING · "@ + self.station().name
        } else if self.station().kind == ChannelKind::Live {
            "● ON AIR · "@ + self.station().name
        } else {
            "● PLAYING · "@ + self.station().name
        }
    }

    /// What the listener has to be told: the last error, or else that the network fails.
    pub open spec fn notice(self) -> Option<Seq<char>> {
        match self.error {
            Some(error) => Some(error),
            None => if self.connection_lost {
                Some("◌ Couldn't reach NTS — retrying…"@)
            } else {
                None
            },
        }
    }
}

/// The keys that can be used.
pub open spec fn footer(compact: bool, playing: bool) -> Seq<char> {
    if compact {
        if playing {
            "↑↓ browse  •  e explore  •  s schedule  •  v visualizer  •  space stop"@
        } else {
            "↑↓ browse  •  e explore  •  s schedule  •  v visualizer  •  space listen"@
        }
    } else if playing {
        "↑↓ / j k change station    •    1 2 radio    •    e explore    •    s schedule    •    v visualizer    •    space stop    •    q quit"@
    } else {
        "↑↓ / j k select    •    1 2 radio    •    e explore    •    s schedule    •    v visualizer    •    space listen    •    q quit"@
    }
}

/// The keys that can be used.
pub fn footer_copy(compact: bool, playing: bool) -> (r: String)
    ensures
        r@ == footer(compact, playing),
{
    if compact {
        if playing {
            "↑↓ browse  •  e explore  •  s schedule  •  v visualizer  •  space stop".to_owned()
        } else {
            "↑↓ browse  •  e explore  •  s schedule  •  v visualizer  •  space listen".to_owned()
        }
    } else if playing {
        "↑↓ / j k change station    •    1 2 radio    •    e explore    •    s schedule    •    v visualizer    •    space stop    •    q quit".to_owned()
    } else {
        "↑↓ / j k select    •    1 2 radio    •    e explore    •    s schedule    •    v visualizer    •    space listen    •    q quit".to_owned()
    }
}

/// `a` and then `b`.
pub fn two(a: &str, b: &str) -> (r: String)
    ensures
        r@ == a@ + b@,
{
    a.to_owned().concat(b)
}

impl Channel {
    /// What the station does, as its card in the list of stations tells it.
    pub fn activity(&self, selected: bool, playing: bool, buffering: bool) -> (r: String)
        ensures
            r@ == self@.activity(selected, playing, buffering),
    {
        if selected && playing && buffering {
            "◌ BUFFERING".to_owned()
        } else if selected && playing && self.kind == ChannelKind::Live {
            "● ON AIR".to_owned()
        } else if selected && playing {
            "● PLAYING".to_owned()
        } else if self.kind == ChannelKind::Live {
            "LIVE NOW".to_owned()
        } else {
            "INFINITE MIXTAPE".to_owned()
        }
    }

    /// The heading over what the station plays.
    fn heading(&self) -> (r: String)
        ensures
            r@ == self@.heading(),
    {
        if self.kind == ChannelKind::Live {
            two("NOW ON NTS ", self.number)
        } else {
            "INFINITE MIXTAPE".to_owned()
        }
    }

    /// The line about the next show.
    fn next_line(&self) -> (r: String)
        ensures
            r@ == self@.next_line(),
    {
        let mut next = two("NEXT  ", self.next_starts_at.as_str());
        next.append("  ·  ");
        next.append(self.next_show.as_str());
        next
    }

    /// What the station plays; with `show_next`, also what a live one plays next.
    pub fn now_text(&self, show_next: bool) -> (r: Vec<TextLine>)
        ensures
            views(r@) == self@.now_lines(show_next),
    {
        let mut r = empty_list::<TextLine>();
        push_item(&mut r, line(self.heading(), bold(Tone::Signal)));
        push_item(&mut r, line(self.show.clone(), bold(Tone::Ink)));
        push_item(&mut r, line(self.description.clone(), toned(Tone::Muted)));
        if show_next && self.kind == ChannelKind::Live {
            push_item(
                &mut r,
                TextLine { spans: empty_list(), style: crate::scene::plain() },
            );
            push_item(&mut r, line(self.next_line(), toned(Tone::Muted)));
        }
        assert(views(r@) =~= self@.now_lines(show_next));
        r
    }

    /// How many rows that text takes in `width` columns, each of its lines wrapped.
    pub fn copy_rows(&self, width: u16, show_next: bool) -> (r: u16)
        ensures
            r == self@.copy_rows(width, show_next),
    {
        let next = if show_next && self.kind == ChannelKind::Live {
            Some(lines_in(one_line(self.next_line().as_str()).as_str(), width))
        } else {
            None
        };
        copy_height(
            lines_in(one_line(self.heading().as_str()).as_str(), width),
            lines_in(one_line(self.show.as_str()).as_str(), width),
            lines_in(one_line(self.description.as_str()).as_str(), width),
            next,
        )
    }

    /// How many rows that text takes in `width` columns where none of its lines but the description
    /// is wrapped.
    pub fn now_text_height(&self, width: u16, show_next: bool) -> (r: u16)
        ensures
            r == self@.now_rows(width, show_next),
    {
        let next_lines = if show_next && self.kind == ChannelKind::Live {
            2
        } else {
            0
        };
        card_rows(lines_in(self.description.as_str(), width), next_lines)
    }
}

/// The rows of a line that is wrapped to `lines` lines, as far as they can be counted.
fn counted_rows(lines: usize) -> (r: u16)
    ensures
        r == least(line_rows(lines), u16::MAX as int),
{
    if lines == 0 {
        1
    } else if lines < 65535 {
        lines as u16
    } else {
        65535
    }
}

/// The rows of a card's text whose lines are wrapped to so many lines each.
pub fn copy_height(heading: usize, show: usize, description: usize, next: Option<usize>) -> (r: u16)
    ensures
        r == copy_rows_of(heading, show, description, next),
{
    let now = counted_rows(heading).saturating_add(counted_rows(show)).saturating_add(
        counted_rows(description),
    );
    match next {
        Some(lines) => now.saturating_add(1).saturating_add(counted_rows(lines)),
        None => now,
    }
}

/// The rows of a card whose description takes `lines` lines and that has `next` more.
pub fn card_rows(lines: usize, next: u16) -> (r: u16)
    ensures
        r == rows_of(lines, next as int),
{
    let description: u16 = if lines < 65535 {
        lines as u16
    } else {
        65535
    };
    2u16.saturating_add(description).saturating_add(next)
}

impl App {
    /// The terminal's title, with the spinner's picture at `frame` while something plays.
    pub fn terminal_title(&self, frame: usize) -> (r: String)
        requires
            self.selected < self.channels.len(),
            self.playing ==> frame < SPINNER_LENGTH,
        ensures
            r@ == self@.terminal_title(frame as int),
    {
        let channel = &self.channels[self.selected];
        let prefix = if self.playing {
            spinner_picture(frame)
        } else {
            "⠂"
        };
        let station = if channel.kind == ChannelKind::Live {
            two("NTS ", channel.number)
        } else {
            "NTS Mix".to_owned()
        };
        let mut r = two(prefix, " ");
        r.append(station.as_str());
        r.append(" — ");
        r.append(title_copy(channel.show.as_str()).as_str());
        r
    }

    /// What the player does.
    pub fn status_copy(&self) -> (r: String)
        requires
            self.playing ==> self.selected < self.channels.len(),
        ensures
            r@ == self@.status(),
    {
        if !self.playing {
            return "● READY · PRESS SPACE TO LISTEN".to_owned();
        }
        let station = &self.channels[self.selected];
        if self.buffering {
            two("◌ BUFFERING · ", station.name)
        } else if station.kind == ChannelKind::Live {
            two("● ON AIR · ", station.name)
        } else {
            two("● PLAYING · ", station.name)
        }
    }

    /// What the listener has to be told.
    pub fn notice(&self) -> (r: Option<String>)
        ensures
            crate::text::opt_view(r) == self@.notice(),
    {
        match &self.error {
            Some(error) => Some(error.clone()),
            None => if self.connection_lost {
                Some("◌ Couldn't reach NTS — retrying…".to_owned())
            } else {
                None
            },
        }
    }
}


/// Whether `word` stands in `text` from its character `i` on.
pub open spec fn mentions_at(text: Seq<char>, word: Seq<char>, i: int) -> bool {
    0 <= i && i + word.len() <= text.len() && text.subrange(i, i + word.len()) =~= word
}

/// Whether `word` occurs in `text`.
pub open spec fn mentions(text: Seq<char>, word: Seq<char>) -> bool {
    exists|i: int| mentions_at(text, word, i)
}

/// The compact footer while something plays.
proof fn lemma_compact_playing()
    ensures
        mentions(footer(true, true), "space stop"@),
        mentions(footer(true, true), "e explore"@),
        mentions(footer(true, true), "s schedule"@),
        mentions(footer(true, true), "v visualizer"@),
{
    reveal_strlit(
        "↑↓ browse  •  e explore  •  s schedule  •  v visualizer  •  space stop",
    );
    reveal_strlit("space stop");
    reveal_strlit("e explore");
    reveal_strlit("s schedule");
    reveal_strlit("v visualizer");
    let text = footer(true, true);
    assert(mentions_at(text, "space stop"@, 60));
    assert(mentions_at(text, "e explore"@, 14));
    assert(mentions_at(text, "s schedule"@, 28));
    assert(mentions_at(text, "v visualizer"@, 43));
}

/// The compact footer while nothing plays.
proof fn lemma_compact_silent()
    ensures
        mentions(footer(true, false), "space listen"@),
        mentions(footer(true, false), "e explore"@),
        mentions(footer(true, false), "s schedule"@),
        mentions(footer(true, false), "v visualizer"@),
{
    reveal_strlit(
        "↑↓ browse  •  e explore  •  s schedule  •  v visualizer  •  space listen",
    );
    reveal_strlit("space listen");
    reveal_strlit("e explore");
    reveal_strlit("s schedule");
    reveal_strlit("v visualizer");
    let text = footer(true, false);
    assert(mentions_at(text, "space listen"@, 60));
    assert(mentions_at(text, "e explore"@, 14));
    assert(mentions_at(text, "s schedule"@, 28));
    assert(mentions_at(text, "v visualizer"@, 43));
}

/// The wide footer while something plays.
proof fn lemma_wide_playing()
    ensures
        mentions(footer(false, true), "space stop"@),
        mentions(footer(false, true), "e explore"@),
        mentions(footer(false, true), "s schedule"@),
        mentions(footer(false, true), "v visualizer"@),
        mentions(footer(false, true), "q quit"@),
        mentions(footer(false, true), "1 2 radio"@),
{
    reveal_strlit(
        "↑↓ / j k change station    •    1 2 radio    •    e explore    •    s schedule    •    v visualizer    •    space stop    •    q quit",
    );
    reveal_strlit("space stop");
    reveal_strlit("e explore");
    reveal_strlit("s schedule");
    reveal_strlit("v visualizer");
    reveal_strlit("q quit");
    reveal_strlit("1 2 radio");
    let text = footer(false, true);
    assert(mentions_at(text, "space stop"@, 108));
    assert(mentions_at(text, "e explore"@, 50));
    assert(mentions_at(text, "s schedule"@, 68));
    assert(mentions_at(text, "v visualizer"@, 87));
    assert(mentions_at(text, "q quit"@, 127));
    assert(mentions_at(text, "1 2 radio"@, 32));
}

/// The wide footer while nothing plays.
proof fn lemma_wide_silent()
    ensures
        mentions(footer(false, false), "space listen"@),
        mentions(footer(false, false), "e explore"@),
        mentions(footer(false, false), "s schedule"@),
        mentions(footer(false, false), "v visualizer"@),
        mentions(footer(false, false), "q quit"@),
        mentions(footer(false, false), "1 2 radio"@),
{
    reveal_strlit(
        "↑↓ / j k select    •    1 2 radio    •    e explore    •    s schedule    •    v visualizer    •    space listen    •    q quit",
    );
    reveal_strlit("space listen");
    reveal_strlit("e explore");
    reveal_strlit("s schedule");
    reveal_strlit("v visualizer");
    reveal_strlit("q quit");
    reveal_strlit("1 2 radio");
    let text = footer(false, false);
    assert(mentions_at(text, "space listen"@, 100));
    assert(mentions_at(text, "e explore"@, 42));
    assert(mentions_at(text, "s schedule"@, 60));
    assert(mentions_at(text, "v visualizer"@, 79));
    assert(mentions_at(text, "q quit"@, 121));
    assert(mentions_at(text, "1 2 radio"@, 24));
}

/// The footer offers to stop while something plays, and to listen while nothing does.
pub proof fn law_the_footer_offers_what_can_be_done(compact: bool, playing: bool, r: String)
    requires
        call_ensures(footer_copy, (compact, playing), r),
    ensures
        playing ==> mentions(r@, "space stop"@),
        !playing ==> mentions(r@, "space listen"@),
        mentions(r@, "e explore"@),
        mentions(r@, "s schedule"@),
        mentions(r@, "v visualizer"@),
        !compact ==> mentions(r@, "q quit"@) && mentions(r@, "1 2 radio"@),
{
    lemma_compact_playing();
    lemma_compact_silent();
    lemma_wide_playing();
    lemma_wide_silent();
}

/// Each picture of the spinner is one character, and no two are alike.
pub proof fn law_the_spinner_has_ten_pictures(
    a: usize,
    b: usize,
    first: &'static str,
    second: &'static str,
)
    requires
        call_ensures(spinner_picture, (a,), first),
        call_ensures(spinner_picture, (b,), second),
        a < 10,
        b < 10,
    ensures
        first@.len() == 1,
        first@ == second@ <==> a == b,
{
    reveal_strlit("⠋");
    reveal_strlit("⠙");
    reveal_strlit("⠹");
    reveal_strlit("⠸");
    reveal_strlit("⠼");
    reveal_strlit("⠴");
    reveal_strlit("⠦");
    reveal_strlit("⠧");
    reveal_strlit("⠇");
    reveal_strlit("⠏");
    assert(first@.len() == 1);
    assert(first@[0] == second@[0] ==> a == b);
}

/// What a station's card in the list tells of it: what it does where it is selected and plays, and
/// else what it is.
pub proof fn law_a_card_tells_what_its_station_does(
    channel: Channel,
    selected: bool,
    playing: bool,
    buffering: bool,
    r: String,
)
    requires
        call_ensures(Channel::activity, (&channel, selected, playing, buffering), r),
    ensures
        !selected || !playing ==> r@ == (if channel.kind == ChannelKind::Live {
            "LIVE NOW"@
        } else {
            "INFINITE MIXTAPE"@
        }),
        selected && playing && buffering ==> r@ == "◌ BUFFERING"@,
        selected && playing && !buffering ==> r@ == (if channel.kind == ChannelKind::Live {
            "● ON AIR"@
        } else {
            "● PLAYING"@
        }),
{
}

/// The rows of a card are those of its lines: at least one for each, one blank one before what comes
/// next, and all of the description's; and a line end within a text makes no row.
pub proof fn law_a_card_has_a_row_for_each_line(
    channel: Channel,
    width: u16,
    show_next: bool,
    r: u16,
)
    requires
        call_ensures(Channel::copy_rows, (&channel, width, show_next), r),
    ensures
        ({
            let live = channel.kind == ChannelKind::Live;
            let heading = if live {
                "NOW ON NTS "@ + channel.number@
            } else {
                "INFINITE MIXTAPE"@
            };
            let next = "NEXT  "@ + channel.next_starts_at@ + "  ·  "@ + channel.next_show@;
            let now = rows_for(heading, width) + rows_for(channel.show@, width) + rows_for(
                channel.description@,
                width,
            );
            let all = if live && show_next {
                now + 1 + rows_for(next, width)
            } else {
                now
            };
            r == (if all > 65535 {
                65535
            } else {
                all
            })
        }),
{
}

/// Where only the description is wrapped, a card has one row for the heading, one for the show, the
/// description's rows, and two more for what a live channel plays next.
pub proof fn law_a_plain_card_has_its_rows(channel: Channel, width: u16, show_next: bool, r: u16)
    requires
        call_ensures(Channel::now_text_height, (&channel, width, show_next), r),
    ensures
        ({
            let lines = lines_of(channel.description@, width);
            let all = 2 + lines + (if show_next && channel.kind == ChannelKind::Live {
                2int
            } else {
                0
            });
            r == (if all > 65535 {
                65535
            } else {
                all
            })
        }),
{
}

/// The rows of a text that stays one line: those that it is wrapped to, and one where it is empty.
pub open spec fn rows_for(text: Seq<char>, width: u16) -> int {
    let lines = lines_of(text.filter(|c: char| c != '\n'), width);
    if lines == 0 {
        1
    } else {
        lines as int
    }
}

} // verus!

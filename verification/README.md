# nts

NTS Radio in the terminal: two live channels, eight Infinite Mixtapes, live show details and
schedules in local time, and artwork in terminals that can show pictures.

The library under `src/` is verified with Verus. It holds the state of the program and everything
that it decides; `app/` is the program round it, which talks to the terminal, the network and the
player process.

| Module | What it holds |
| --- | --- |
| `catalog` | the stations |
| `app` | the state, and what the listener's actions do to it |
| `updates`, `refresh` | what news from the network change, and when to ask for more |
| `feed`, `clock`, `artwork` | what the feeds say, what time it is, which pictures to load |
| `player`, `now_playing` | the external player and the system's media controls |
| `session` | keys, timers and requests of the event loop |
| `geometry`, `scene`, `wording` | rectangles, drawing steps and texts |
| `draw`, `explore`, `cards`, `screen` | the parts of the screen, and the whole of it |
| `visualizer` | the braille field |
| `laws`, `pictures`, `requests` | what holds of the program as a whole |

A screen is a list of drawing steps that the program paints. Work on the player is asked for in
the state (`App::pending`): the program does it and reports the outcome before anything else
happens. Where a screen needs to know how large a picture turns out, it is drawn in two stages:
`begin_draw` asks, `draw` takes the answer.

## Notes

Artwork appears in terminals with Kitty, iTerm2, or Sixel image support. It is omitted in
text-only terminals.

`nts` is independent and unofficial. NTS is a trademark of NTS and this project is not affiliated
with or endorsed by NTS.

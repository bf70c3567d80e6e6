//! The external player: what it is told, what it answers, and what can go wrong with it.
use crate::text::{decimal, decimal_text, joined, push_item, views};
use serde_json::Value;
use vstd::prelude::*;
use vstd::string::*;

verus! {

/// How long, in milliseconds, a connection to the player's socket is tried.
pub const CONNECT_LIMIT: u128 = 350;

/// The pause, in milliseconds, between two such tries.
pub const CONNECT_PAUSE: u64 = 15;

/// How long, in milliseconds, an answer of the player is awaited.
pub const REPLY_LIMIT: u64 = 140;

/// Why the player could not do as it was asked.
pub enum PlayerError {
    /// There is no player program.
    Missing,
    /// The program could not be started.
    Start,
    /// The system's clock could not name a socket.
    Clock(String),
    /// There is no process to ask.
    Disappeared,
    /// The process could not be examined.
    Status,
    /// The process has ended with this status.
    Exited(String),
    /// No connection to its socket.
    Connect,
    /// The station change could not be sent.
    Send,
    /// The time limit for the answer could not be set.
    Timeout,
    /// The question could not be sent.
    Query,
    /// No answer could be read.
    Read,
    /// The answer is not JSON.
    Decode,
    /// The answer does not say whether the player is idle.
    NoState,
}

impl View for PlayerError {
    type V = Seq<char>;

    /// The message that the user sees.
    open spec fn view(&self) -> Seq<char> {
        match *self {
            PlayerError::Missing => "Install mpv first: brew install mpv"@,
            PlayerError::Start => "start mpv"@,
            PlayerError::Clock(reason) => reason@,
            PlayerError::Disappeared => "player process disappeared"@,
            PlayerError::Status => "check mpv status"@,
            PlayerError::Exited(status) => "mpv exited with "@ + status@,
            PlayerError::Connect => "connect to mpv IPC socket"@,
            PlayerError::Send => "send station change command to mpv"@,
            PlayerError::Timeout => "set mpv IPC read timeout"@,
            PlayerError::Query => "query mpv playback state"@,
            PlayerError::Read => "read mpv playback state"@,
            PlayerError::Decode => "decode mpv playback state"@,
            PlayerError::NoState => "mpv did not return a playback state"@,
        }
    }
}

impl PlayerError {
    /// The message that the user sees.
    pub fn message(&self) -> (r: String)
        ensures
            r@ == self@,
    {
        match self {
            PlayerError::Missing => "Install mpv first: brew install mpv".to_owned(),
            PlayerError::Start => "start mpv".to_owned(),
            PlayerError::Clock(reason) => reason.clone(),
            PlayerError::Disappeared => "player process disappeared".to_owned(),
            PlayerError::Status => "check mpv status".to_owned(),
            PlayerError::Exited(status) => "mpv exited with ".to_owned().concat(status.as_str()),
            PlayerError::Connect => "connect to mpv IPC socket".to_owned(),
            PlayerError::Send => "send station change command to mpv".to_owned(),
            PlayerError::Timeout => "set mpv IPC read timeout".to_owned(),
            PlayerError::Query => "query mpv playback state".to_owned(),
            PlayerError::Read => "read mpv playback state".to_owned(),
            PlayerError::Decode => "decode mpv playback state".to_owned(),
            PlayerError::NoState => "mpv did not return a playback state".to_owned(),
        }
    }
}

/// The file name of a player's socket.
pub open spec fn socket_file(process: nat, moment: nat) -> Seq<char> {
    "nts-mpv-"@ + decimal_text(process) + "-"@ + decimal_text(moment) + ".sock"@
}

/// The file name of the socket of the player that `process` starts at `moment`, which is counted
/// in nanoseconds.
pub fn socket_name(process: u32, moment: u128) -> (r: String)
    ensures
        r@ == socket_file(process as nat, moment as nat),
{
    let mut r = "nts-mpv-".to_owned();
    r.append(decimal(process as u128).as_str());
    r.append("-");
    r.append(decimal(moment).as_str());
    r.append(".sock");
    r
}

/// The words of the command line that makes the player play `stream` and listen on `socket`.
pub open spec fn player_words(socket: Seq<char>, stream: Seq<char>) -> Seq<Seq<char>> {
    seq![
        "--no-video"@,
        "--really-quiet"@,
        "--input-terminal=no"@,
        "--input-media-keys=no"@,
        "--cache-secs=0.2"@,
        "--demuxer-readahead-secs=0.2"@,
        "--cache-pause-wait=0.1"@,
        "--demuxer-lavf-probesize=32768"@,
        "--demuxer-lavf-analyzeduration=0"@,
        "--input-ipc-server="@ + socket,
        stream,
    ]
}

/// The arguments of the player. It leaves the media keys to this program, which stops and
/// reconnects at the live edge; it keeps little of the stream in advance; and it spends little
/// time on finding out the format, so that a change of station is quick.
pub fn player_arguments(socket: &str, stream: &str) -> (r: Vec<String>)
    ensures
        views(r@) == player_words(socket@, stream@),
{
    let mut r: Vec<String> = Vec::new();
    assert(views(r@) =~= Seq::empty());
    push_item(&mut r, "--no-video".to_owned());
    push_item(&mut r, "--really-quiet".to_owned());
    push_item(&mut r, "--input-terminal=no".to_owned());
    push_item(&mut r, "--input-media-keys=no".to_owned());
    push_item(&mut r, "--cache-secs=0.2".to_owned());
    push_item(&mut r, "--demuxer-readahead-secs=0.2".to_owned());
    push_item(&mut r, "--cache-pause-wait=0.1".to_owned());
    push_item(&mut r, "--demuxer-lavf-probesize=32768".to_owned());
    push_item(&mut r, "--demuxer-lavf-analyzeduration=0".to_owned());
    push_item(&mut r, "--input-ipc-server=".to_owned().concat(socket));
    push_item(&mut r, stream.to_owned());
    assert(views(r@) =~= player_words(socket@, stream@));
    r
}

/// What to do after the player's program could not be started.
pub fn start_error(not_found: bool) -> (r: PlayerError)
    ensures
        r == (if not_found {
            PlayerError::Missing
        } else {
            PlayerError::Start
        }),
{
    if not_found {
        PlayerError::Missing
    } else {
        PlayerError::Start
    }
}

/// The pause, in milliseconds, before the next try to connect to the player's socket, `elapsed`
/// milliseconds after the first one; none if there is to be no other try.
pub fn connect_pause(elapsed: u128) -> (r: Option<u64>)
    ensures
        r == (if elapsed < CONNECT_LIMIT {
            Some(CONNECT_PAUSE)
        } else {
            None
        }),
{
    if elapsed < CONNECT_LIMIT {
        Some(CONNECT_PAUSE)
    } else {
        None
    }
}

/// The process to end when this program is told to end: the player's, where there is one.
pub fn process_to_end(player: i32) -> (r: Option<i32>)
    ensures
        r == (if player > 0 {
            Some(player)
        } else {
            None
        }),
{
    if player > 0 {
        Some(player)
    } else {
        None
    }
}

/// The hexadecimal digit of a number below 16.
pub open spec fn hex_digit(n: int) -> char {
    (if n < 10 {
        48 + n
    } else {
        87 + n
    }) as char
}

/// A character as it is written within a JSON string.
pub open spec fn json_char(c: char) -> Seq<char> {
    let code = c as int;
    if c == '"' || c == '\\' {
        seq!['\\', c]
    } else if code == 0x08 {
        seq!['\\', 'b']
    } else if code == 0x09 {
        seq!['\\', 't']
    } else if code == 0x0A {
        seq!['\\', 'n']
    } else if code == 0x0C {
        seq!['\\', 'f']
    } else if code == 0x0D {
        seq!['\\', 'r']
    } else if code < 0x20 {
        seq!['\\', 'u', '0', '0', hex_digit(code / 16), hex_digit(code % 16)]
    } else {
        seq![c]
    }
}

/// The characters of `s`, each as it is written within a JSON string.
pub open spec fn json_chars(s: Seq<char>) -> Seq<char>
    decreases s.len(),
{
    if s.len() == 0 {
        Seq::empty()
    } else {
        json_chars(s.drop_last()) + json_char(s.last())
    }
}

/// `s` as a JSON string.
pub open spec fn json_string(s: Seq<char>) -> Seq<char> {
    seq!['"'] + json_chars(s) + seq!['"']
}

/// The JSON object whose only member is a list of strings.
pub open spec fn json_list(key: Seq<char>, words: Seq<Seq<char>>) -> Seq<char> {
    seq!['{'] + json_string(key) + seq![':', '['] + joined(
        words.map_values(|w: Seq<char>| json_string(w)),
        seq![','],
    ) + seq![']', '}']
}

/// The boolean that is the member `key` of the JSON object that `text` holds, as
/// `serde_json::from_str` reads it: none where the text is not JSON, `Some(None)` where there is
/// no such member or it is no boolean.
pub uninterp spec fn json_flag(text: Seq<char>, key: Seq<char>) -> Option<Option<bool>>;

/// `serde_json::Value`'s `to_string`: compact JSON.
#[verifier::external_body]
fn write_json_list(key: &str, words: &Vec<String>) -> (r: String)
    ensures
        r@ == json_list(key@, views(words@)),
{
    let list = Value::Array(words.iter().map(|word| Value::from(word.as_str())).collect());
    Value::Object(std::iter::once((key.to_owned(), list)).collect()).to_string()
}

/// `serde_json::from_str`, then `Value::get` and `Value::as_bool`: a function of the text and the
/// key.
#[verifier::external_body]
fn read_json_flag(text: &str, key: &str) -> (r: Option<Option<bool>>)
    ensures
        r == json_flag(text@, key@),
{
    let value: Value = serde_json::from_str(text).ok()?;
    Some(value.get(key).and_then(Value::as_bool))
}

/// The line that makes the player change to `stream`.
pub open spec fn load_line(stream: Seq<char>) -> Seq<char> {
    json_list("command"@, seq!["loadfile"@, stream, "replace"@]) + "\n"@
}

/// The line that asks the player whether it is idle.
pub open spec fn idle_line() -> Seq<char> {
    json_list("command"@, seq!["get_property"@, "core-idle"@]) + "\n"@
}

/// The line that makes the player change to `stream`.
pub fn load_command(stream: &str) -> (r: String)
    ensures
        r@ == load_line(stream@),
{
    let mut words: Vec<String> = Vec::new();
    assert(views(words@) =~= Seq::empty());
    push_item(&mut words, "loadfile".to_owned());
    push_item(&mut words, stream.to_owned());
    push_item(&mut words, "replace".to_owned());
    assert(views(words@) =~= seq!["loadfile"@, stream@, "replace"@]);
    let mut r = write_json_list("command", &words);
    r.append("\n");
    r
}

/// The line that asks the player whether it is idle. A player that has not opened its stream yet
/// answers this too.
pub fn idle_command() -> (r: String)
    ensures
        r@ == idle_line(),
{
    let mut words: Vec<String> = Vec::new();
    assert(views(words@) =~= Seq::empty());
    push_item(&mut words, "get_property".to_owned());
    push_item(&mut words, "core-idle".to_owned());
    assert(views(words@) =~= seq!["get_property"@, "core-idle"@]);
    let mut r = write_json_list("command", &words);
    r.append("\n");
    r
}

/// Whether the player is buffering, told by what its answer holds: an answer that is no JSON, or
/// that does not tell, is an error.
pub open spec fn buffering_told(flag: Option<Option<bool>>) -> Result<bool, PlayerError> {
    match flag {
        None => Err(PlayerError::Decode),
        Some(None) => Err(PlayerError::NoState),
        Some(Some(idle)) => Ok(idle),
    }
}

/// Whether the player is buffering, by the flag that was read from its answer.
pub fn buffering_from_flag(flag: Option<Option<bool>>) -> (r: Result<bool, PlayerError>)
    ensures
        r == buffering_told(flag),
{
    match flag {
        None => Err(PlayerError::Decode),
        Some(None) => Err(PlayerError::NoState),
        Some(Some(idle)) => Ok(idle),
    }
}

/// Whether the player is buffering, by the line that it answered.
pub fn buffering_from_reply(reply: &str) -> (r: Result<bool, PlayerError>)
    ensures
        r == buffering_told(json_flag(reply@, "data"@)),
{
    buffering_from_flag(read_json_flag(reply, "data"))
}

/// Whether `s` has no control characters, line ends among them.
pub open spec fn printable(s: Seq<char>) -> bool {
    forall|k: int| 0 <= k < s.len() ==> (#[trigger] s[k]) as int >= 0x20
}

/// A character that is written within a JSON string has no control characters.
proof fn lemma_json_char_is_printable(c: char)
    ensures
        printable(json_char(c)),
{
    let code = c as int;
    assert forall|k: int| 0 <= k < json_char(c).len() implies (#[trigger] json_char(c)[k]) as int
        >= 0x20 by {
        if code < 0x20 {
            assert(0 <= code / 16 < 16 && 0 <= code % 16 < 16);
        }
    }
}

/// A JSON string has no control characters, whatever it stands for.
proof fn lemma_json_string_is_printable(s: Seq<char>)
    ensures
        printable(json_chars(s)),
        printable(json_string(s)),
    decreases s.len(),
{
    if s.len() > 0 {
        lemma_json_string_is_printable(s.drop_last());
        lemma_json_char_is_printable(s.last());
    }
}

/// Nor has a list of texts that have none.
proof fn lemma_joined_is_printable(parts: Seq<Seq<char>>)
    requires
        forall|i: int| 0 <= i < parts.len() ==> printable(#[trigger] parts[i]),
    ensures
        printable(joined(parts, seq![','])),
    decreases parts.len(),
{
    if parts.len() > 1 {
        assert forall|i: int| 0 <= i < parts.drop_last().len() implies printable(
            #[trigger] parts.drop_last()[i],
        ) by {
            assert(parts.drop_last()[i] == parts[i]);
        }
        lemma_joined_is_printable(parts.drop_last());
        assert(printable(parts.last()));
    }
}

/// Nor has a JSON object of one list.
proof fn lemma_json_list_is_printable(key: Seq<char>, words: Seq<Seq<char>>)
    ensures
        printable(json_list(key, words)),
{
    let strings = words.map_values(|w: Seq<char>| json_string(w));
    assert forall|i: int| 0 <= i < strings.len() implies printable(#[trigger] strings[i]) by {
        lemma_json_string_is_printable(words[i]);
    }
    lemma_joined_is_printable(strings);
    lemma_json_string_is_printable(key);
}

/// Each command for the player is exactly one line: it ends with a line end and has no other one,
/// nor any other control character, whatever the stream's address holds.
pub proof fn law_commands_are_single_lines(stream: Seq<char>)
    ensures
        load_line(stream).last() == '\n',
        printable(load_line(stream).drop_last()),
        idle_line().last() == '\n',
        printable(idle_line().drop_last()),
{
    reveal_strlit("\n");
    let load = json_list("command"@, seq!["loadfile"@, stream, "replace"@]);
    let idle = json_list("command"@, seq!["get_property"@, "core-idle"@]);
    lemma_json_list_is_printable("command"@, seq!["loadfile"@, stream, "replace"@]);
    lemma_json_list_is_printable("command"@, seq!["get_property"@, "core-idle"@]);
    assert(load_line(stream).drop_last() =~= load);
    assert(idle_line().drop_last() =~= idle);
}


/// A player is told to play the stream that it is given, and to listen on the socket that it is
/// given.
pub proof fn law_the_player_gets_its_stream_and_its_socket(
    socket: &str,
    stream: &str,
    r: Vec<String>,
)
    requires
        call_ensures(player_arguments, (socket, stream), r),
    ensures
        r@.len() > 0,
        r@.last()@ == stream@,
        exists|i: int| 0 <= i < r@.len() && (#[trigger] r@[i])@ == "--input-ipc-server="@ + socket@,
        exists|i: int| 0 <= i < r@.len() && (#[trigger] r@[i])@ == "--no-video"@,
        exists|i: int| 0 <= i < r@.len() && (#[trigger] r@[i])@ == "--input-media-keys=no"@,
{
    let words = views(r@);
    assert(words == player_words(socket@, stream@));
    assert(words.len() == r@.len());
    assert(r@[10]@ == words[10]);
    assert(r@[9]@ == words[9]);
    assert(r@[0]@ == words[0]);
    assert(r@[3]@ == words[3]);
}

/// A change of station replaces what plays by the stream that it is given, in one line.
pub proof fn law_a_change_names_its_stream(stream: &str, r: String)
    requires
        call_ensures(load_command, (stream,), r),
    ensures
        r@ == json_list("command"@, seq!["loadfile"@, stream@, "replace"@]) + "\n"@,
{
}

/// The question to the player is whether it is idle, in one line.
pub proof fn law_the_question_is_whether_it_is_idle(r: String)
    requires
        call_ensures(idle_command, (), r),
    ensures
        r@ == json_list("command"@, seq!["get_property"@, "core-idle"@]) + "\n"@,
{
}

/// The player buffers exactly if it says that it is idle; an answer that does not tell is an error.
pub proof fn law_an_idle_player_is_buffering(reply: &str, r: Result<bool, PlayerError>)
    requires
        call_ensures(buffering_from_reply, (reply,), r),
    ensures
        r == Ok::<bool, PlayerError>(true) <==> json_flag(reply@, "data"@) == Some(Some(true)),
        r == Ok::<bool, PlayerError>(false) <==> json_flag(reply@, "data"@) == Some(Some(false)),
        r == Err::<bool, PlayerError>(PlayerError::NoState) <==> json_flag(reply@, "data"@) == Some(
            None::<bool>,
        ),
        r == Err::<bool, PlayerError>(PlayerError::Decode) <==> json_flag(reply@, "data"@) is None,
{
}

/// A socket is named by the process and the moment.
pub proof fn law_a_socket_has_its_own_name(process: u32, moment: u128, r: String)
    requires
        call_ensures(socket_name, (process, moment), r),
    ensures
        r@ == "nts-mpv-"@ + decimal_text(process as nat) + "-"@ + decimal_text(moment as nat)
            + ".sock"@,
{
}

/// A connection is tried for 350 milliseconds, every 15.
pub proof fn law_a_connection_is_tried_for_a_while(elapsed: u128, r: Option<u64>)
    requires
        call_ensures(connect_pause, (elapsed,), r),
    ensures
        elapsed < 350 ==> r == Some(15u64),
        elapsed >= 350 ==> r is None,
{
}

/// Only a process that there is can be ended, and only that one is.
pub proof fn law_only_the_player_is_ended(player: i32, r: Option<i32>)
    requires
        call_ensures(process_to_end, (player,), r),
    ensures
        r is Some <==> player > 0,
        r matches Some(process) ==> process == player,
{
}

/// A program that is not there has to be installed; any other failure is one to start it.
pub proof fn law_a_missing_program_is_told(not_found: bool, r: PlayerError)
    requires
        call_ensures(start_error, (not_found,), r),
    ensures
        not_found ==> r == PlayerError::Missing,
        !not_found ==> r == PlayerError::Start,
{
}

/// An error is told in its own words: an exit with its status, a failed clock with its reason.
pub proof fn law_an_error_is_told_in_its_words(error: PlayerError, r: String)
    requires
        call_ensures(PlayerError::message, (&error,), r),
    ensures
        match error {
            PlayerError::Missing => r@ == "Install mpv first: brew install mpv"@,
            PlayerError::Start => r@ == "start mpv"@,
            PlayerError::Clock(reason) => r@ == reason@,
            PlayerError::Disappeared => r@ == "player process disappeared"@,
            PlayerError::Status => r@ == "check mpv status"@,
            PlayerError::Exited(status) => r@ == "mpv exited with "@ + status@,
            PlayerError::Connect => r@ == "connect to mpv IPC socket"@,
            PlayerError::Send => r@ == "send station change command to mpv"@,
            PlayerError::Timeout => r@ == "set mpv IPC read timeout"@,
            PlayerError::Query => r@ == "query mpv playback state"@,
            PlayerError::Read => r@ == "read mpv playback state"@,
            PlayerError::Decode => r@ == "decode mpv playback state"@,
            PlayerError::NoState => r@ == "mpv did not return a playback state"@,
        },
{
}

} // verus!

use nts::player::{
    buffering_from_flag, buffering_from_reply, connect_pause, idle_command, load_command,
    player_arguments, process_to_end, socket_name, start_error, PlayerError,
};
use nts::text::decimal;

#[test]
fn commands_are_single_lines_of_json() {
    assert_eq!(
        load_command("https://example.org/stream?a=b"),
        "{\"command\":[\"loadfile\",\"https://example.org/stream?a=b\",\"replace\"]}\n"
    );
    assert_eq!(
        idle_command(),
        "{\"command\":[\"get_property\",\"core-idle\"]}\n"
    );
    let odd = load_command("a\"b\\c\nd\te\u{1}f\u{8}g\u{c}h\ri\u{1f}∞\u{7f}/");
    assert_eq!(
        odd,
        "{\"command\":[\"loadfile\",\"a\\\"b\\\\c\\nd\\te\\u0001f\\bg\\fh\\ri\\u001f∞\u{7f}/\",\"replace\"]}\n"
    );
    assert_eq!(odd.matches('\n').count(), 1);
}

#[test]
fn replies_tell_whether_the_player_is_idle() {
    assert_eq!(
        buffering_from_reply("{\"data\":true,\"request_id\":0,\"error\":\"success\"}\n").ok(),
        Some(true)
    );
    assert_eq!(buffering_from_reply("{\"data\":false}").ok(), Some(false));
    assert!(matches!(
        buffering_from_reply("{\"error\":\"property unavailable\"}"),
        Err(PlayerError::NoState)
    ));
    assert!(matches!(
        buffering_from_reply("{\"data\":1}"),
        Err(PlayerError::NoState)
    ));
    assert!(matches!(buffering_from_reply("[true]"), Err(PlayerError::NoState)));
    assert!(matches!(buffering_from_reply("no json"), Err(PlayerError::Decode)));
    assert!(matches!(buffering_from_reply(""), Err(PlayerError::Decode)));
    assert!(matches!(buffering_from_flag(None), Err(PlayerError::Decode)));
    assert!(matches!(buffering_from_flag(Some(None)), Err(PlayerError::NoState)));
    assert_eq!(buffering_from_flag(Some(Some(true))).ok(), Some(true));
}

#[test]
fn the_player_is_told_where_to_listen_and_what_to_play() {
    let arguments = player_arguments("/tmp/x.sock", "https://example.org/stream");
    assert_eq!(
        arguments,
        vec![
            "--no-video",
            "--really-quiet",
            "--input-terminal=no",
            "--input-media-keys=no",
            "--cache-secs=0.2",
            "--demuxer-readahead-secs=0.2",
            "--cache-pause-wait=0.1",
            "--demuxer-lavf-probesize=32768",
            "--demuxer-lavf-analyzeduration=0",
            "--input-ipc-server=/tmp/x.sock",
            "https://example.org/stream",
        ]
    );
}

#[test]
fn sockets_are_named_by_process_and_moment() {
    assert_eq!(
        socket_name(42, 1_700_000_000_123_456_789),
        "nts-mpv-42-1700000000123456789.sock"
    );
    assert_eq!(decimal(0), "0");
    assert_eq!(decimal(10), "10");
    assert_eq!(decimal(u128::MAX), u128::MAX.to_string());
}

#[test]
fn the_socket_is_tried_for_a_while() {
    assert_eq!(connect_pause(0), Some(15));
    assert_eq!(connect_pause(349), Some(15));
    assert_eq!(connect_pause(350), None);
}

#[test]
fn only_a_running_player_is_ended() {
    assert_eq!(process_to_end(0), None);
    assert_eq!(process_to_end(-1), None);
    assert_eq!(process_to_end(77), Some(77));
}

#[test]
fn every_error_has_its_message() {
    let messages: Vec<String> = vec![
        start_error(true),
        start_error(false),
        PlayerError::Clock("second time provided was later than self".to_owned()),
        PlayerError::Disappeared,
        PlayerError::Status,
        PlayerError::Exited("signal: 9 (SIGKILL)".to_owned()),
        PlayerError::Connect,
        PlayerError::Send,
        PlayerError::Timeout,
        PlayerError::Query,
        PlayerError::Read,
        PlayerError::Decode,
        PlayerError::NoState,
    ]
    .iter()
    .map(PlayerError::message)
    .collect();
    assert_eq!(
        messages,
        vec![
            "Install mpv first: brew install mpv",
            "start mpv",
            "second time provided was later than self",
            "player process disappeared",
            "check mpv status",
            "mpv exited with signal: 9 (SIGKILL)",
            "connect to mpv IPC socket",
            "send station change command to mpv",
            "set mpv IPC read timeout",
            "query mpv playback state",
            "read mpv playback state",
            "decode mpv playback state",
            "mpv did not return a playback state",
        ]
    );
}

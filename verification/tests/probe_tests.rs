use termbg::prefer_primary;
use termbg::query_bytes;
use termbg::theme_from_rgb;
use termbg::rgb_from_events;
use termbg::scan_color_response;
use termbg::scan_latency_response;
use termbg::Error;
use termbg::QueryPurpose;
use termbg::ReadEvent;
use termbg::Rgb;
use termbg::Terminal;

fn byte_events(bytes: &[u8]) -> Vec<ReadEvent> {
    bytes.iter().map(|b| ReadEvent::Byte(*b)).collect()
}

#[test]
fn tmux_query_wraps_the_plain_query() {
    let tmux = query_bytes(Terminal::Tmux, QueryPurpose::Color);
    let plain = query_bytes(Terminal::XtermCompatible, QueryPurpose::Color);
    assert_eq!(
        tmux,
        vec![
            0x1b, 0x50, b't', b'm', b'u', b'x', b';', 0x1b, 0x1b, 0x5d, b'1', b'1', b';', b'?',
            0x07, 0x1b, 0x5c, 0x03
        ]
    );
    assert_eq!(plain, vec![0x1b, 0x5d, b'1', b'1', b';', b'?', 0x1b, 0x5c]);
    assert_ne!(tmux, plain);
}

#[test]
fn screen_query_and_latency_query_bytes() {
    let screen = query_bytes(Terminal::Screen, QueryPurpose::Color);
    assert_eq!(
        screen,
        vec![0x1b, 0x50, 0x1b, 0x5d, b'1', b'1', b';', b'?', 0x07, 0x1b, 0x5c, 0x03]
    );
    let latency = query_bytes(Terminal::Tmux, QueryPurpose::Latency);
    assert_eq!(latency, vec![0x1b, b'[', b'5', b'n']);
}

#[test]
fn tmux_probe_decodes_a_simulated_reply() {
    // The reply to the tmux-wrapped query, as the reader sees it.
    let events = byte_events(b"\x1b]11;rgb:1111/2222/3333\x07");
    let got = rgb_from_events(&events).unwrap();
    assert_eq!(
        got,
        Rgb {
            r: 0x1111,
            g: 0x2222,
            b: 0x3333
        }
    );
}

#[test]
fn color_scan_keeps_payload_between_colon_and_bel() {
    let events = byte_events(b"\x1b]11;rgb:ab/cd/ef\x07trailing");
    assert_eq!(scan_color_response(&events).unwrap(), b"ab/cd/ef".to_vec());
}

#[test]
fn color_scan_accepts_string_terminator() {
    // ESC ends the payload; the following byte is consumed and discarded.
    let events = byte_events(b"\x1b]11;rgb:12/34/56\x1b\\");
    assert_eq!(scan_color_response(&events).unwrap(), b"12/34/56".to_vec());
}

#[test]
fn color_scan_keeps_later_colons() {
    let events = byte_events(b"header:a:b\x07");
    assert_eq!(scan_color_response(&events).unwrap(), b"a:b".to_vec());
}

#[test]
fn color_scan_times_out_without_terminator() {
    let events = byte_events(b"\x1b]11;rgb:1111/2222/3333");
    assert!(matches!(scan_color_response(&events), Err(Error::Timeout)));
    let mut events = byte_events(b":12");
    events.push(ReadEvent::TimedOut);
    assert!(matches!(scan_color_response(&events), Err(Error::Timeout)));
}

#[test]
fn color_scan_times_out_when_terminator_follows_the_deadline() {
    let mut events = vec![ReadEvent::TimedOut];
    events.extend(byte_events(b":11/22/33\x07"));
    assert!(matches!(scan_color_response(&events), Err(Error::Timeout)));
}

#[test]
fn color_scan_surfaces_stream_failure() {
    let mut events = byte_events(b":12");
    events.push(ReadEvent::Failed);
    assert!(matches!(scan_color_response(&events), Err(Error::Io)));
}

#[test]
fn color_scan_times_out_when_escape_tail_never_arrives() {
    let events = byte_events(b":12\x1b");
    assert!(matches!(scan_color_response(&events), Err(Error::Timeout)));
}

#[test]
fn malformed_simulated_reply_is_a_parse_failure() {
    let events = byte_events(b"\x1b]11;rgb:11/22\x07");
    assert!(matches!(rgb_from_events(&events), Err(Error::Parse(_))));
}

#[test]
fn latency_scan_ends_at_the_n_byte() {
    let events = byte_events(b"\x1b[0n");
    assert!(scan_latency_response(&events).is_ok());
}

#[test]
fn latency_scan_times_out_without_terminator() {
    let events = byte_events(b"\x1b[0");
    assert!(matches!(scan_latency_response(&events), Err(Error::Timeout)));
    let events = vec![ReadEvent::TimedOut];
    assert!(matches!(scan_latency_response(&events), Err(Error::Timeout)));
}

#[test]
fn latency_scan_surfaces_stream_failure() {
    let events = vec![ReadEvent::Failed];
    assert!(matches!(scan_latency_response(&events), Err(Error::Io)));
}

#[test]
fn primary_success_wins_over_fallback() {
    let primary = Ok(Rgb { r: 1, g: 2, b: 3 });
    let fallback = Ok(Rgb { r: 9, g: 9, b: 9 });
    assert_eq!(prefer_primary(primary, fallback).unwrap(), Rgb { r: 1, g: 2, b: 3 });
}

#[test]
fn fallback_fills_in_for_a_failed_primary() {
    let fallback = Ok(Rgb { r: 9, g: 9, b: 9 });
    let got = prefer_primary(Err(Error::Timeout), fallback).unwrap();
    assert_eq!(got, Rgb { r: 9, g: 9, b: 9 });
}

#[test]
fn primary_error_stands_when_both_fail() {
    let got = prefer_primary(Err(Error::Timeout), Err(Error::Unsupported));
    assert!(matches!(got, Err(Error::Timeout)));
}

#[test]
fn theme_outcome_classifies_a_color() {
    assert_eq!(
        theme_from_rgb(Ok(Rgb { r: 0, g: 0, b: 0 })).unwrap(),
        termbg::Theme::Dark
    );
    assert_eq!(
        theme_from_rgb(Ok(Rgb {
            r: 65535,
            g: 65535,
            b: 65535
        }))
        .unwrap(),
        termbg::Theme::Light
    );
}

#[test]
fn theme_outcome_propagates_probe_errors_unchanged() {
    assert!(matches!(theme_from_rgb(Err(Error::Timeout)), Err(Error::Timeout)));
    assert!(matches!(theme_from_rgb(Err(Error::Unsupported)), Err(Error::Unsupported)));
    assert!(matches!(theme_from_rgb(Err(Error::Io)), Err(Error::Io)));
    match theme_from_rgb(Err(Error::Parse(String::from("raw")))) {
        Err(Error::Parse(t)) => assert_eq!(t, "raw"),
        other => panic!("expected the parse failure back, got {:?}", other),
    }
}

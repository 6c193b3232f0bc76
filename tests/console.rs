use bb_launcher::console::{ConsoleBuffer, Source};
use bb_launcher::drain::{decode_line, Drain, DrainEvent};

#[test]
fn new_buffer_is_empty() {
    let b = ConsoleBuffer::new();
    assert_eq!(b.contents(), "");
    assert!(b.lines().is_empty());
}

#[test]
fn single_stream_keeps_order_with_one_separator_each() {
    let mut b = ConsoleBuffer::new();
    let lines = ["first", "", "third line", "first"];
    for l in lines.iter() {
        b.append_line(Source::Stdout, l);
    }
    assert_eq!(b.contents(), "first\n\nthird line\nfirst\n");
    assert_eq!(b.lines(), vec!["first", "", "third line", "first"]);
}

#[test]
fn interleaved_sources_split_back_into_whole_lines() {
    let mut b = ConsoleBuffer::new();
    b.append_line(Source::Stdout, "out 1");
    b.append_line(Source::Stderr, "err 1");
    b.echo_command("status");
    b.append_line(Source::Stdout, "out 2");
    b.append_line(Source::Stderr, "err 2");
    assert_eq!(b.contents(), "out 1\nerr 1\n> status\nout 2\nerr 2\n");
    let lines = b.lines();
    assert_eq!(lines, vec!["out 1", "err 1", "> status", "out 2", "err 2"]);
    let outs: Vec<&String> = lines.iter().filter(|l| l.starts_with("out")).collect();
    assert_eq!(outs, vec!["out 1", "out 2"]);
}

#[test]
fn echo_marks_the_command() {
    let mut b = ConsoleBuffer::new();
    b.echo_command("");
    b.echo_command("kick all");
    assert_eq!(b.contents(), "> \n> kick all\n");
}

#[test]
fn drain_appends_lines_then_stops_at_close() {
    let mut b = ConsoleBuffer::new();
    b.append_line(Source::Stderr, "earlier");
    let mut d = Drain::new(Source::Stdout);
    assert!(d.step(&mut b, DrainEvent::Line(b"Server started".to_vec())));
    assert!(d.step(&mut b, DrainEvent::Line(b"Map loaded: Wine".to_vec())));
    assert!(!d.step(&mut b, DrainEvent::Closed));
    assert!(!d.open);
    assert!(b.contents().ends_with("Server started\nMap loaded: Wine\n"));
    let before = b.contents();
    assert!(!d.step(&mut b, DrainEvent::Line(b"late".to_vec())));
    assert!(!d.step(&mut b, DrainEvent::Unreadable));
    assert_eq!(b.contents(), before);
    assert_eq!(b.contents(), "earlier\nServer started\nMap loaded: Wine\n");
}

#[test]
fn drain_turns_bad_lines_into_empty_ones() {
    let mut b = ConsoleBuffer::new();
    let mut d = Drain::new(Source::Stderr);
    assert!(d.step(&mut b, DrainEvent::Line(vec![b'a', 0xff, b'b'])));
    assert!(d.step(&mut b, DrainEvent::Unreadable));
    assert!(d.step(&mut b, DrainEvent::Line(b"ok".to_vec())));
    assert_eq!(b.contents(), "\n\nok\n");
}

#[test]
fn decode_strips_one_carriage_return() {
    assert_eq!(decode_line(b"ready\r".to_vec()), "ready");
    assert_eq!(decode_line(b"ready\r\r".to_vec()), "ready\r");
    assert_eq!(decode_line(b"\r".to_vec()), "");
    assert_eq!(decode_line(Vec::new()), "");
}

#[test]
fn decode_reads_utf8_text() {
    assert_eq!(decode_line("Karte geladen: Wüste".as_bytes().to_vec()), "Karte geladen: Wüste");
    assert_eq!(decode_line(vec![0xc3]), "");
    assert_eq!(decode_line(vec![0xc3, b'\r']), "");
}

#[test]
fn lines_show_a_line_holding_a_separator_as_two() {
    let mut b = ConsoleBuffer::new();
    b.echo_command("a\nb");
    assert_eq!(b.lines(), vec!["> a", "b"]);
}

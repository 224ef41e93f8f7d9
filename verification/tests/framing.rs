use proxy_gates::connection::{bad_command, handle_connection, on_frame, route, Action};
use proxy_gates::framing::{frame_line, strip_line_end, terminate_line, Frame, LineBuffer};
use proxy_gates::job::Job;
use proxy_gates::message::Command;
use proxy_gates::scheduler::Lane;

fn line_of(frame: Frame) -> String {
    match frame {
        Frame::Line(text) => text,
        other => panic!("expected a line, got {:?}", other),
    }
}

#[test]
fn empty_buffer_is_incomplete() {
    let mut buf = LineBuffer::new();
    assert!(buf.is_empty());
    assert!(matches!(buf.next_frame(), Frame::Incomplete));
}

#[test]
fn read_of_nothing_closes() {
    let mut buf = LineBuffer::new();
    assert!(!buf.feed(b""));
    assert!(buf.feed(b"x"));
    assert!(!buf.is_empty());
}

#[test]
fn partial_line_waits_for_its_end() {
    let mut buf = LineBuffer::new();
    assert!(buf.feed(b"PI"));
    assert!(matches!(buf.next_frame(), Frame::Incomplete));
    assert!(buf.feed(b"NG\nmore"));
    assert_eq!(line_of(buf.next_frame()), "PING");
    assert!(matches!(buf.next_frame(), Frame::Incomplete));
    assert!(buf.feed(b"\n"));
    assert_eq!(line_of(buf.next_frame()), "more");
    assert!(buf.is_empty());
}

#[test]
fn lines_come_out_in_order() {
    let mut buf = LineBuffer::new();
    assert!(buf.feed(b"one\ntwo\nthree\n"));
    assert_eq!(line_of(buf.next_frame()), "one");
    assert_eq!(line_of(buf.next_frame()), "two");
    assert_eq!(line_of(buf.next_frame()), "three");
    assert!(matches!(buf.next_frame(), Frame::Incomplete));
}

#[test]
fn split_line_keeps_the_newline() {
    let mut buf = LineBuffer::new();
    assert!(buf.feed(b"ab\ncd"));
    let line = buf.split_line().unwrap();
    assert_eq!(&line[..], b"ab\n");
    assert!(buf.split_line().is_none());
    assert!(!buf.is_empty());
}

#[test]
fn lines_are_trimmed() {
    let mut buf = LineBuffer::new();
    assert!(buf.feed(b"  PING \r\n"));
    assert_eq!(line_of(buf.next_frame()), "PING");
}

#[test]
fn blank_lines_are_passed_over() {
    let mut buf = LineBuffer::new();
    assert!(buf.feed(b"\n  \r\nPING\n"));
    assert!(matches!(buf.next_frame(), Frame::Blank));
    assert!(matches!(buf.next_frame(), Frame::Blank));
    assert_eq!(line_of(buf.next_frame()), "PING");
}

#[test]
fn invalid_utf8_is_reported() {
    assert!(matches!(frame_line(&[0xff, 0xfe, b'\n']), Frame::Invalid));
    assert_eq!(line_of(frame_line("h\u{e9}llo\n".as_bytes())), "h\u{e9}llo");
}

#[test]
fn bad_command_is_rejected_and_the_connection_goes_on() {
    let mut buf = LineBuffer::new();
    assert!(buf.feed(b"not json\nPING\n"));
    assert!(matches!(handle_connection(&mut buf), Action::Reject));
    assert_eq!(bad_command(), "BAD COMMAND\n");
    assert!(matches!(handle_connection(&mut buf), Action::Dispatch(Job::Ping, Lane::Norm)));
    assert!(matches!(handle_connection(&mut buf), Action::Read));
}

#[test]
fn ping_round_trip_is_dispatched_on_the_norm_queue() {
    let mut buf = LineBuffer::new();
    assert!(buf.feed(b"{\"id\":1,\"method\":\"PING\"}\n"));
    assert!(matches!(handle_connection(&mut buf), Action::Dispatch(Job::Ping, Lane::Norm)));
}

#[test]
fn mining_methods_are_dispatched_on_the_high_queue() {
    let mut buf = LineBuffer::new();
    assert!(buf.feed(b"{\"id\":1,\"method\":\"mining.subscribe\",\"params\":[\"cgminer/4.10.0\"]}\n"));
    assert!(buf.feed(b"{\"id\":2,\"method\":\"mining.authorize\",\"params\":[\"acc.worker1\",\"x\"]}\n"));
    assert!(buf.feed(b"{\"id\":3,\"method\":\"mining.submit\",\"params\":[\"a\",\"b\",\"c\",\"d\",\"e\"]}\n"));
    assert!(matches!(
        handle_connection(&mut buf),
        Action::Dispatch(Job::MiningSubscribe(_), Lane::High)
    ));
    assert!(matches!(
        handle_connection(&mut buf),
        Action::Dispatch(Job::MiningAuthorize(_), Lane::High)
    ));
    assert!(matches!(
        handle_connection(&mut buf),
        Action::Dispatch(Job::MiningSubmit(_), Lane::High)
    ));
}

#[test]
fn blank_and_invalid_frames_have_their_actions() {
    assert!(matches!(on_frame(Frame::Blank), Action::Skip));
    assert!(matches!(on_frame(Frame::Invalid), Action::Abort));
    assert!(matches!(on_frame(Frame::Incomplete), Action::Read));
    assert!(matches!(route(Command::Unknown), Action::Reject));
    assert!(matches!(route(Command::Ping), Action::Dispatch(Job::Ping, Lane::Norm)));
}

#[test]
fn strip_takes_one_newline_off() {
    assert_eq!(strip_line_end(b"abc\n".to_vec()), b"abc".to_vec());
    assert_eq!(strip_line_end(b"abc".to_vec()), b"abc".to_vec());
    assert_eq!(strip_line_end(b"\n".to_vec()), Vec::<u8>::new());
    assert_eq!(strip_line_end(Vec::new()), Vec::<u8>::new());
}

#[test]
fn terminate_adds_a_missing_newline() {
    assert_eq!(terminate_line(b"abc".to_vec()), b"abc\n".to_vec());
    assert_eq!(terminate_line(b"abc\n".to_vec()), b"abc\n".to_vec());
    assert_eq!(terminate_line(Vec::new()), b"\n".to_vec());
}

#[test]
fn relay_preserves_line_boundaries() {
    for line in [&b"{\"id\":1,\"result\":true}\n"[..], &b"\n"[..], &b"mining.notify\n"[..]] {
        assert_eq!(terminate_line(strip_line_end(line.to_vec())), line.to_vec());
    }
    assert_eq!(terminate_line(strip_line_end(b"open".to_vec())), b"open\n".to_vec());
}

#[test]
fn pool_lines_come_out_without_their_newline() {
    let mut buf = LineBuffer::new();
    assert!(buf.feed(b"{\"id\":1}\n\nmining.not"));
    assert_eq!(buf.next_pool_line(), Some(b"{\"id\":1}".to_vec()));
    assert_eq!(buf.next_pool_line(), Some(Vec::new()));
    assert_eq!(buf.next_pool_line(), None);
    assert!(buf.feed(b"ify\n"));
    assert_eq!(buf.next_pool_line(), Some(b"mining.notify".to_vec()));
    assert!(buf.is_empty());
}

#[test]
fn relay_of_a_stream_keeps_every_byte() {
    let stream = b"one\n\n two \r\nthree";
    let mut buf = LineBuffer::new();
    let mut out: Vec<u8> = Vec::new();
    for chunk in stream.chunks(4) {
        assert!(buf.feed(chunk));
        while let Some(line) = buf.next_pool_line() {
            out.extend_from_slice(&terminate_line(line));
        }
    }
    let rest = buf.take_rest();
    assert_eq!(rest, b"three".to_vec());
    assert!(buf.is_empty());
    out.extend_from_slice(&terminate_line(rest));
    assert_eq!(out, b"one\n\n two \r\nthree\n".to_vec());
}

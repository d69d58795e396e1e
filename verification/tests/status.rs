use slimevr_lib::status::{
    classify, decode_chunk, ChildEvent, ServerStatusEvent, StatusKind, SERVER_STATUS_TOPIC,
};

#[test]
fn topic_is_server_status() {
    assert_eq!(SERVER_STATUS_TOPIC, "server-status");
}

#[test]
fn kinds_have_their_tags() {
    assert_eq!(StatusKind::Stdout.tag(), "stdout");
    assert_eq!(StatusKind::Stderr.tag(), "stderr");
    assert_eq!(StatusKind::Error.tag(), "error");
    assert_eq!(StatusKind::Terminated.tag(), "terminated");
    assert_eq!(StatusKind::Other.tag(), "other");
}

#[test]
fn valid_chunk_is_decoded() {
    assert_eq!(decode_chunk(b"hello\n".to_vec()), "hello\n");
    assert_eq!(decode_chunk("h\u{e9}llo \u{1f980}".as_bytes().to_vec()), "h\u{e9}llo \u{1f980}");
}

#[test]
fn empty_chunk_is_empty_text() {
    assert_eq!(decode_chunk(Vec::new()), "");
}

#[test]
fn invalid_chunk_is_blanked() {
    assert_eq!(decode_chunk(vec![0xff, 0xfe]), "");
    assert_eq!(decode_chunk(vec![b'o', b'k', 0x80]), "");
    assert_eq!(decode_chunk(vec![0xc3]), "");
    assert_eq!(decode_chunk(vec![0xed, 0xa0, 0x80]), "");
}

#[test]
fn stdout_chunk_is_tagged_stdout() {
    let status = classify(ChildEvent::Stdout(b"tracker connected".to_vec()));
    assert_eq!(
        status,
        ServerStatusEvent { kind: StatusKind::Stdout, payload: "tracker connected".to_string() }
    );
}

#[test]
fn stderr_chunk_is_tagged_stderr() {
    let status = classify(ChildEvent::Stderr(b"warning".to_vec()));
    assert_eq!(status.kind, StatusKind::Stderr);
    assert_eq!(status.payload, "warning");
}

#[test]
fn invalid_utf8_on_stderr_gives_empty_payload() {
    let status = classify(ChildEvent::Stderr(vec![0xff, 0xfe]));
    assert_eq!(status, ServerStatusEvent { kind: StatusKind::Stderr, payload: String::new() });
    let next = classify(ChildEvent::Stderr(b"still here".to_vec()));
    assert_eq!(next.payload, "still here");
}

#[test]
fn invalid_utf8_on_stdout_gives_empty_payload() {
    let status = classify(ChildEvent::Stdout(vec![b'a', 0xff]));
    assert_eq!(status.kind, StatusKind::Stdout);
    assert_eq!(status.payload, "");
}

#[test]
fn stream_error_keeps_its_text() {
    let status = classify(ChildEvent::Error("broken pipe".to_string()));
    assert_eq!(status.kind, StatusKind::Error);
    assert_eq!(status.payload, "broken pipe");
}

#[test]
fn termination_keeps_its_text() {
    let text = "TerminatedPayload { code: Some(0), signal: None }";
    let status = classify(ChildEvent::Terminated(text.to_string()));
    assert_eq!(status.kind, StatusKind::Terminated);
    assert_eq!(status.payload, text);
}

#[test]
fn other_event_has_empty_payload() {
    let status = classify(ChildEvent::Other);
    assert_eq!(status.kind, StatusKind::Other);
    assert_eq!(status.payload, "");
}

use sse_relay::session::{OutwardEvent, Session, SessionState};

fn status_text(ev: &OutwardEvent) -> &str {
    match ev {
        OutwardEvent::Status(s) => s,
        _ => panic!("expected a status event"),
    }
}

fn token_text(ev: &OutwardEvent) -> &str {
    match ev {
        OutwardEvent::Token(s) => s,
        _ => panic!("expected a token event"),
    }
}

fn complete_text(ev: &OutwardEvent) -> &str {
    match ev {
        OutwardEvent::Complete(s) => s,
        _ => panic!("expected the completion event"),
    }
}

fn delta_line(text: &str) -> Vec<u8> {
    format!(
        "data: {{\"type\":\"content_block_delta\",\"delta\":{{\"type\":\"text_delta\",\"text\":\"{}\"}}}}\n",
        text
    )
    .into_bytes()
}

#[test]
fn first_token_corrected_exactly_once() {
    let mut session = Session::new("make an app".to_string());
    let mut line = delta_line("ello");
    line.extend_from_slice(&delta_line(" world"));
    let events = session.feed_chunk(&line);
    assert_eq!(events.len(), 2);
    assert_eq!(token_text(&events[0]), "<ello");
    assert_eq!(token_text(&events[1]), " world");
    assert_eq!(session.state, SessionState::Streaming);
}

#[test]
fn token_run_corrects_only_the_first() {
    let mut session = Session::new("p".to_string());
    let mut input = delta_line("a");
    input.extend_from_slice(&delta_line("b"));
    input.extend_from_slice(&delta_line("c"));
    let events = session.feed_chunk(&input);
    assert_eq!(events.len(), 3);
    assert_eq!(token_text(&events[0]), "<a");
    assert_eq!(token_text(&events[1]), "b");
    assert_eq!(token_text(&events[2]), "c");
    assert!(!session.first_token);
}

#[test]
fn message_start_emits_status() {
    let mut session = Session::new("p".to_string());
    let events = session.feed_chunk(b"data: {\"type\":\"message_start\"}\n");
    assert_eq!(events.len(), 1);
    assert_eq!(status_text(&events[0]), "Starting message generation...");
    assert_eq!(session.state, SessionState::Started);
}

#[test]
fn message_stop_finishes_the_session() {
    let mut session = Session::new("p".to_string());
    let events = session.feed_chunk(b"data: {\"type\":\"message_stop\"}\n");
    assert_eq!(events.len(), 1);
    assert_eq!(complete_text(&events[0]), "Generation complete!");
    assert_eq!(session.state, SessionState::Finished);
    assert!(session.is_done());
}

#[test]
fn done_sentinel_short_circuits_buffered_lines() {
    let mut session = Session::new("p".to_string());
    let mut input = b"data: [DONE]\n".to_vec();
    input.extend_from_slice(&delta_line("never"));
    input.extend_from_slice(b"data: {\"type\":\"message_start\"}\n");
    let events = session.feed_chunk(&input);
    assert_eq!(events.len(), 1);
    assert_eq!(complete_text(&events[0]), "Generation complete!");
    assert_eq!(session.state, SessionState::Finished);
}

#[test]
fn malformed_payload_is_inert() {
    let mut session = Session::new("p".to_string());
    let events = session.feed_chunk(b"data: {not valid}\n");
    assert!(events.is_empty());
    assert_eq!(session.state, SessionState::Idle);
    assert!(session.first_token);
}

#[test]
fn unknown_event_type_is_inert() {
    let mut session = Session::new("p".to_string());
    let events = session.feed_chunk(b"data: {\"type\":\"ping\"}\n");
    assert!(events.is_empty());
    assert_eq!(session.state, SessionState::Idle);
    assert!(session.first_token);
}

#[test]
fn blank_and_unprefixed_lines_are_ignored() {
    let mut session = Session::new("p".to_string());
    let events = session.feed_chunk(b"\nevent: noise\n: comment\n   \n");
    assert!(events.is_empty());
    assert_eq!(session.state, SessionState::Idle);
}

#[test]
fn no_frame_is_dispatched_after_termination() {
    let mut session = Session::new("p".to_string());
    session.feed_chunk(b"data: {\"type\":\"message_stop\"}\n");
    let events = session.feed_chunk(&delta_line("late"));
    assert!(events.is_empty());
    assert_eq!(session.state, SessionState::Finished);
}

#[test]
fn invalid_utf8_chunk_is_skipped_whole() {
    let mut session = Session::new("p".to_string());
    let events = session.feed_chunk(&[0xff, 0xfe, b'\n']);
    assert!(events.is_empty());
    assert_eq!(session.state, SessionState::Idle);
    let events = session.feed_chunk(b"data: {\"type\":\"message_start\"}\n");
    assert_eq!(events.len(), 1);
}

#[test]
fn delta_without_text_is_inert() {
    let mut session = Session::new("p".to_string());
    let events =
        session.feed_chunk(b"data: {\"type\":\"content_block_delta\",\"delta\":{\"type\":\"x\"}}\n");
    assert!(events.is_empty());
    assert!(session.first_token);
    assert_eq!(session.state, SessionState::Idle);
}

#[test]
fn payload_split_across_chunks_is_one_frame() {
    let mut session = Session::new("p".to_string());
    let line = delta_line("ab");
    let events_a = session.feed_chunk(&line[..10]);
    assert!(events_a.is_empty());
    let events_b = session.feed_chunk(&line[10..]);
    assert_eq!(events_b.len(), 1);
    assert_eq!(token_text(&events_b[0]), "<ab");
}

#[test]
fn connect_failure_emits_one_error_status_and_aborts() {
    let mut session = Session::new("p".to_string());
    let events = session.on_connect_failure("connection refused");
    assert_eq!(events.len(), 1);
    assert_eq!(status_text(&events[0]), "Error: Request failed - connection refused");
    assert_eq!(session.state, SessionState::Aborted);
    assert!(session.is_done());
    let late = session.feed_chunk(&delta_line("late"));
    assert!(late.is_empty());
}

#[test]
fn error_status_and_read_error_abort() {
    let mut session = Session::new("p".to_string());
    let events = session.on_error_status("529");
    assert_eq!(events.len(), 1);
    assert_eq!(status_text(&events[0]), "Error: API error - 529");
    assert_eq!(session.state, SessionState::Aborted);

    let mut other = Session::new("p".to_string());
    let events = other.on_read_error("reset by peer");
    assert_eq!(events.len(), 1);
    assert_eq!(status_text(&events[0]), "Error: Stream error - reset by peer");
    assert_eq!(other.state, SessionState::Aborted);
}

#[test]
fn upstream_close_without_stop_is_a_generic_end() {
    let mut session = Session::new("p".to_string());
    session.feed_chunk(&delta_line("hi"));
    let events = session.on_upstream_closed();
    assert_eq!(events.len(), 1);
    assert_eq!(status_text(&events[0]), "Stream ended");
    assert_eq!(session.state, SessionState::Finished);
    assert!(session.on_upstream_closed().is_empty());
}

#[test]
fn pre_connect_events_are_the_three_statuses() {
    let events = sse_relay::session::pre_connect_events();
    assert_eq!(events.len(), 3);
    assert_eq!(status_text(&events[0]), "Starting generation...");
    assert_eq!(status_text(&events[1]), "Preparing request to Anthropic API...");
    assert_eq!(status_text(&events[2]), "Sending request to Anthropic API...");
    let connected = sse_relay::session::connected_event();
    assert_eq!(connected.len(), 1);
    assert_eq!(status_text(&connected[0]), "Streaming response from Anthropic API...");
}

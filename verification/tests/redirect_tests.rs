use playlist_sync::redirect::{
    extract_code, find_line_end, CaptureAction, CaptureError, CaptureEvent, CaptureStep,
    RedirectCapture,
};

fn code_of(input: &str) -> Result<String, CaptureError> {
    extract_code(input.as_bytes()).map(|code| code.as_str().to_string())
}

fn go_on(step: CaptureStep) -> RedirectCapture {
    match step {
        CaptureStep::Continue(capture) => capture,
        other => panic!("expected the capture to go on, got {:?}", other),
    }
}

fn captured(step: CaptureStep) -> String {
    match step {
        CaptureStep::Captured(code) => code.as_str().to_string(),
        other => panic!("expected a code, got {:?}", other),
    }
}

fn failed(step: CaptureStep) -> CaptureError {
    match step {
        CaptureStep::Failed(e) => e,
        other => panic!("expected a failure, got {:?}", other),
    }
}

fn reading() -> RedirectCapture {
    let capture = go_on(RedirectCapture::start().advance(CaptureEvent::Bound));
    go_on(capture.advance(CaptureEvent::Accepted))
}

fn received(text: &str) -> CaptureEvent {
    CaptureEvent::Received(text.as_bytes().to_vec())
}

fn entry(text: &str) -> CaptureEvent {
    CaptureEvent::ManualEntry(text.as_bytes().to_vec())
}

#[test]
fn line_end_is_the_first_cr_or_lf() {
    assert_eq!(find_line_end(b"abc\r\ndef"), 3);
    assert_eq!(find_line_end(b"abc\ndef\r"), 3);
    assert_eq!(find_line_end(b"\n"), 0);
    assert_eq!(find_line_end(b"abc"), 3);
    assert_eq!(find_line_end(b""), 0);
}

#[test]
fn code_from_a_request_line() {
    let request = "GET /auth/callback/spotify?code=abc123 HTTP/1.1\r\nHost: localhost\r\n\r\n";
    assert_eq!(code_of(request), Ok("abc123".to_string()));
}

#[test]
fn code_from_a_pasted_address() {
    assert_eq!(
        code_of("http://localhost/auth/callback/spotify?code=abc123"),
        Ok("abc123".to_string())
    );
    assert_eq!(
        code_of("http://localhost/auth/callback/spotify?code=abc123\n"),
        Ok("abc123".to_string())
    );
}

#[test]
fn code_behind_other_parameters() {
    assert_eq!(code_of("http://h/p?state=x&code=abc123&foo=1"), Ok("abc123".to_string()));
}

#[test]
fn code_at_the_start_of_the_line() {
    assert_eq!(code_of("code=abc123"), Ok("abc123".to_string()));
    assert_eq!(code_of("code=abc123&state=1"), Ok("abc123".to_string()));
}

#[test]
fn code_ends_at_ampersand_hash_or_space() {
    assert_eq!(code_of("?code=a&b"), Ok("a".to_string()));
    assert_eq!(code_of("?code=a#b"), Ok("a".to_string()));
    assert_eq!(code_of("?code=a b"), Ok("a".to_string()));
    assert_eq!(code_of("?code=a=b/c?d"), Ok("a=b/c?d".to_string()));
}

#[test]
fn first_code_parameter_wins() {
    assert_eq!(code_of("?code=first&code=second"), Ok("first".to_string()));
}

#[test]
fn empty_code_value_is_still_a_code() {
    assert_eq!(code_of("?code="), Ok(String::new()));
    assert_eq!(code_of("?code=&state=x"), Ok(String::new()));
}

#[test]
fn missing_code_is_malformed() {
    assert_eq!(code_of(""), Err(CaptureError::MalformedRedirect));
    assert_eq!(code_of("GET / HTTP/1.1\r\n"), Err(CaptureError::MalformedRedirect));
    assert_eq!(code_of("http://h/p?error=access_denied"), Err(CaptureError::MalformedRedirect));
    assert_eq!(code_of("?code"), Err(CaptureError::MalformedRedirect));
    assert_eq!(code_of("code"), Err(CaptureError::MalformedRedirect));
}

#[test]
fn a_longer_name_that_ends_in_code_is_no_code() {
    assert_eq!(code_of("?barcode=1"), Err(CaptureError::MalformedRedirect));
    assert_eq!(code_of("?barcode=1&code=2"), Ok("2".to_string()));
    assert_eq!(code_of("xcode=1"), Err(CaptureError::MalformedRedirect));
    assert_eq!(code_of("?CODE=1"), Err(CaptureError::MalformedRedirect));
}

#[test]
fn only_the_first_line_counts() {
    assert_eq!(
        code_of("GET / HTTP/1.1\r\nReferer: http://h/p?code=abc\r\n"),
        Err(CaptureError::MalformedRedirect)
    );
    assert_eq!(code_of("\n?code=abc"), Err(CaptureError::MalformedRedirect));
    assert_eq!(code_of("?code=ab\ncd"), Ok("ab".to_string()));
    assert_eq!(code_of("?code=ab\rcd"), Ok("ab".to_string()));
}

#[test]
fn bytes_above_ascii_are_read_one_character_each() {
    let code = extract_code(&[b'c', b'o', b'd', b'e', b'=', 0xE9, 0xFF, b'z']).unwrap();
    assert_eq!(code.as_str(), "\u{e9}\u{ff}z");
}

#[test]
fn capture_starts_with_the_listener() {
    let capture = RedirectCapture::start();
    assert_eq!(capture.pending(), CaptureAction::Bind);
    assert_eq!(capture.network_failure(), None);
}

#[test]
fn listener_path_yields_the_code_without_manual_entry() {
    let capture = RedirectCapture::start();
    let capture = go_on(capture.advance(CaptureEvent::Bound));
    assert_eq!(capture.pending(), CaptureAction::Accept);
    let capture = go_on(capture.advance(CaptureEvent::Accepted));
    assert_eq!(capture.pending(), CaptureAction::Read);
    let step = capture.advance(received("GET /auth/callback/spotify?code=abc123 HTTP/1.1\r\n"));
    assert_eq!(captured(step), "abc123");
}

#[test]
fn listener_reads_until_the_line_is_whole() {
    let capture = reading();
    let capture = go_on(capture.advance(received("GET /auth/callback/spotify?co")));
    assert_eq!(capture.pending(), CaptureAction::Read);
    assert_eq!(capture.network_failure(), None);
    let capture = go_on(capture.advance(received("de=abc")));
    assert_eq!(capture.pending(), CaptureAction::Read);
    let capture = go_on(capture.advance(received("")));
    assert_eq!(capture.pending(), CaptureAction::Read);
    let step = capture.advance(received("123&state=9 HTTP/1.1\r\nHost: x\r\n"));
    assert_eq!(captured(step), "abc123");
}

#[test]
fn bind_failure_falls_back_to_manual_entry() {
    let capture = go_on(RedirectCapture::start().advance(CaptureEvent::BindFailed));
    assert_eq!(capture.pending(), CaptureAction::PromptManual);
    assert_eq!(capture.network_failure(), Some(CaptureError::BindFailed));
    let step = capture.advance(entry("http://localhost/auth/callback/spotify?code=abc123\n"));
    assert_eq!(captured(step), "abc123");
}

#[test]
fn accept_failure_falls_back_to_manual_entry() {
    let capture = go_on(RedirectCapture::start().advance(CaptureEvent::Bound));
    let capture = go_on(capture.advance(CaptureEvent::AcceptFailed));
    assert_eq!(capture.pending(), CaptureAction::PromptManual);
    assert_eq!(capture.network_failure(), Some(CaptureError::ConnectionError));
}

#[test]
fn read_failure_falls_back_to_manual_entry() {
    let capture = go_on(reading().advance(CaptureEvent::ReadFailed));
    assert_eq!(capture.pending(), CaptureAction::PromptManual);
    assert_eq!(capture.network_failure(), Some(CaptureError::ConnectionError));
}

#[test]
fn early_close_falls_back_to_manual_entry() {
    let capture = go_on(reading().advance(received("GET /auth/callback/spotify?code=abc")));
    let capture = go_on(capture.advance(CaptureEvent::Closed));
    assert_eq!(capture.pending(), CaptureAction::PromptManual);
    assert_eq!(capture.network_failure(), Some(CaptureError::ConnectionClosedEarly));
}

#[test]
fn malformed_payload_falls_back_to_manual_entry() {
    let capture = go_on(reading().advance(received("GET /favicon.ico HTTP/1.1\r\n")));
    assert_eq!(capture.pending(), CaptureAction::PromptManual);
    assert_eq!(capture.network_failure(), Some(CaptureError::MalformedRedirect));
    let step = capture.advance(entry("code=xyz"));
    assert_eq!(captured(step), "xyz");
}

#[test]
fn manual_entry_does_not_see_what_the_listener_received() {
    let capture = go_on(reading().advance(received("GET /p?code=abc")));
    let capture = go_on(capture.advance(CaptureEvent::Closed));
    assert_eq!(failed(capture.advance(entry("nothing here"))), CaptureError::MalformedRedirect);
}

#[test]
fn manual_entry_without_a_code_fails_the_capture() {
    let capture = go_on(RedirectCapture::start().advance(CaptureEvent::BindFailed));
    assert_eq!(failed(capture.advance(entry("\n"))), CaptureError::MalformedRedirect);
}

#[test]
fn abandoned_manual_entry_fails_the_capture() {
    let capture = go_on(RedirectCapture::start().advance(CaptureEvent::BindFailed));
    assert_eq!(failed(capture.advance(CaptureEvent::ManualClosed)), CaptureError::UserAbandoned);
}

#[test]
fn events_that_answer_nothing_are_ignored() {
    let capture = go_on(RedirectCapture::start().advance(CaptureEvent::Accepted));
    assert_eq!(capture.pending(), CaptureAction::Bind);
    let capture = go_on(capture.advance(entry("code=abc")));
    assert_eq!(capture.pending(), CaptureAction::Bind);
    let capture = go_on(capture.advance(CaptureEvent::ManualClosed));
    assert_eq!(capture.pending(), CaptureAction::Bind);
    let capture = go_on(capture.advance(CaptureEvent::Closed));
    assert_eq!(capture.pending(), CaptureAction::Bind);
    assert_eq!(capture.network_failure(), None);
}

#[test]
fn manual_entry_never_returns_to_the_listener() {
    let mut capture = go_on(RedirectCapture::start().advance(CaptureEvent::BindFailed));
    for event in [
        CaptureEvent::Bound,
        CaptureEvent::BindFailed,
        CaptureEvent::Accepted,
        CaptureEvent::AcceptFailed,
        received("?code=abc\n"),
        CaptureEvent::ReadFailed,
        CaptureEvent::Closed,
    ] {
        capture = go_on(capture.advance(event));
        assert_eq!(capture.pending(), CaptureAction::PromptManual);
        assert_eq!(capture.network_failure(), Some(CaptureError::BindFailed));
    }
}

//! Capturing the authorization code from the redirect: reading it out of
//! the bytes of a request line or of a pasted address, and deciding between
//! the local listener and manual entry.

use vstd::prelude::*;

verus! {

/// Why a capture, or one of its two paths, produced no code.
#[derive(Clone, Copy, Debug, PartialEq, Eq, Structural)]
pub enum CaptureError {
    /// The local listener could not be bound.
    BindFailed,
    /// Accepting the connection, or reading from it, failed.
    ConnectionError,
    /// The connection ended before a whole request line had arrived.
    ConnectionClosedEarly,
    /// The text holds no `code=` parameter.
    MalformedRedirect,
    /// Manual entry ended without any input.
    UserAbandoned,
}

/// The short-lived credential that the provider hands out with the
/// redirect, to be exchanged once for tokens.
#[derive(Clone, Debug, PartialEq, Eq)]
pub struct AuthorizationCode {
    text: String,
}

impl View for AuthorizationCode {
    type V = Seq<char>;

    closed spec fn view(&self) -> Seq<char> {
        self.text@
    }
}

impl AuthorizationCode {
    /// The code as text.
    pub fn as_str(&self) -> (text: &str)
        ensures
            text@ == self@,
    {
        self.text.as_str()
    }
}

/// The line feed.
pub const LINE_FEED: u8 = 10;

/// The carriage return.
pub const CARRIAGE_RETURN: u8 = 13;

/// The space.
pub const SPACE: u8 = 32;

/// The `#` that opens a fragment.
pub const HASH: u8 = 35;

/// The `&` between two parameters.
pub const AMPERSAND: u8 = 38;

/// The `=` between a parameter's name and its value.
pub const EQUALS: u8 = 61;

/// The `?` that opens a query.
pub const QUESTION_MARK: u8 = 63;

/// The letter `c`.
pub const LETTER_C: u8 = 99;

/// The letter `d`.
pub const LETTER_D: u8 = 100;

/// The letter `e`.
pub const LETTER_E: u8 = 101;

/// The letter `o`.
pub const LETTER_O: u8 = 111;

/// Whether `b` ends a line: a line feed or a carriage return.
pub open spec fn is_line_end(b: u8) -> bool {
    b == LINE_FEED || b == CARRIAGE_RETURN
}

/// Whether `b` ends a parameter's value: `&`, `#` or a space.
pub open spec fn is_value_end(b: u8) -> bool {
    b == AMPERSAND || b == HASH || b == SPACE
}

/// The index of the first line end in `input` at or after `from`, or the
/// length of `input` if there is none.
pub open spec fn line_end(input: Seq<u8>, from: int) -> int
    decreases input.len() - from,
{
    if from < 0 || from >= input.len() || is_line_end(input[from]) {
        from
    } else {
        line_end(input, from + 1)
    }
}

/// The index of the first byte in `line` at or after `from` that ends a
/// value, or the length of `line` if there is none.
pub open spec fn value_end(line: Seq<u8>, from: int) -> int
    decreases line.len() - from,
{
    if from < 0 || from >= line.len() || is_value_end(line[from]) {
        from
    } else {
        value_end(line, from + 1)
    }
}

/// The first line of `input`, without its line end.
pub open spec fn first_line(input: Seq<u8>) -> Seq<u8> {
    input.take(line_end(input, 0))
}

/// Whether `input` holds a whole line, line end included.
pub open spec fn has_whole_line(input: Seq<u8>) -> bool {
    line_end(input, 0) < input.len()
}

/// Whether a parameter called `code` starts at index `i` of `line`: the
/// bytes `code=` stand there, at the start of the line or directly behind
/// a `?` or a `&`.
pub open spec fn code_param_at(line: Seq<u8>, i: int) -> bool {
    &&& 0 <= i
    &&& i + 5 <= line.len()
    &&& line[i] == LETTER_C
    &&& line[i + 1] == LETTER_O
    &&& line[i + 2] == LETTER_D
    &&& line[i + 3] == LETTER_E
    &&& line[i + 4] == EQUALS
    &&& (i == 0 || line[i - 1] == QUESTION_MARK || line[i - 1] == AMPERSAND)
}

/// Whether the first `code` parameter of `line` starts at index `i`.
pub open spec fn first_code_param_at(line: Seq<u8>, i: int) -> bool {
    code_param_at(line, i) && forall|j: int| 0 <= j < i ==> !code_param_at(line, j)
}

/// The value of the first `code` parameter in the first line of `input`,
/// if that line has such a parameter. The value runs up to the next `&`,
/// `#` or space, or to the end of the line.
pub open spec fn redirect_code(input: Seq<u8>) -> Option<Seq<u8>> {
    let line = first_line(input);
    if exists|i: int| code_param_at(line, i) {
        let i = choose|i: int| first_code_param_at(line, i);
        Some(line.subrange(i + 5, value_end(line, i + 5)))
    } else {
        None
    }
}

/// The text that a sequence of bytes stands for when each byte is read as
/// one character of that number.
pub open spec fn bytes_as_text(bytes: Seq<u8>) -> Seq<char> {
    Seq::new(bytes.len(), |i: int| bytes[i] as char)
}

/// `String::push`, which appends one character to the text.
#[verifier::external_body]
fn push_char(text: &mut String, c: char)
    ensures
        final(text)@ == old(text)@.push(c),
{
    text.push(c);
}

/// Finds where the first line of `input` ends.
pub fn find_line_end(input: &[u8]) -> (end: usize)
    ensures
        end == line_end(input@, 0),
        end <= input@.len(),
{
    let mut i: usize = 0;
    while i < input.len() && input[i] != LINE_FEED && input[i] != CARRIAGE_RETURN
        invariant
            i <= input@.len(),
            line_end(input@, 0) == line_end(input@, i as int),
        decreases input@.len() - i,
    {
        i += 1;
    }
    i
}

/// Whether the bytes `code=` open a parameter at index `i` of the first
/// `end` bytes of `input`.
fn is_code_param(input: &[u8], end: usize, i: usize) -> (found: bool)
    requires
        end <= input@.len(),
    ensures
        found == code_param_at(input@.take(end as int), i as int),
{
    if end < 5 || i > end - 5 {
        return false;
    }
    input[i] == LETTER_C && input[i + 1] == LETTER_O && input[i + 2] == LETTER_D && input[i + 3]
        == LETTER_E && input[i + 4] == EQUALS && (i == 0 || input[i - 1] == QUESTION_MARK
        || input[i - 1] == AMPERSAND)
}

/// Reads the value that starts at index `start` of the first `end` bytes
/// of `input`, as text.
fn read_value(input: &[u8], end: usize, start: usize) -> (text: String)
    requires
        start <= end <= input@.len(),
    ensures
        text@ == bytes_as_text(
            input@.take(end as int).subrange(
                start as int,
                value_end(input@.take(end as int), start as int),
            ),
        ),
{
    let ghost line = input@.take(end as int);
    let mut text = String::new();
    let mut k: usize = start;
    assert(text@ =~= bytes_as_text(line.subrange(start as int, k as int)));
    while k < end && input[k] != AMPERSAND && input[k] != HASH && input[k] != SPACE
        invariant
            start <= k <= end,
            end <= input@.len(),
            line == input@.take(end as int),
            value_end(line, start as int) == value_end(line, k as int),
            text@ == bytes_as_text(line.subrange(start as int, k as int)),
        decreases end - k,
    {
        push_char(&mut text, input[k] as char);
        k += 1;
        assert(text@ =~= bytes_as_text(line.subrange(start as int, k as int)));
    }
    assert(value_end(line, k as int) == k);
    text
}

/// Reads the authorization code out of a redirect: the request line that
/// the browser sent to the listener, or the address that the user pasted.
/// Only the first line counts. The code is the value of its first `code`
/// parameter; without such a parameter the redirect is malformed.
pub fn extract_code(input: &[u8]) -> (r: Result<AuthorizationCode, CaptureError>)
    ensures
        match redirect_code(input@) {
            Some(value) => r matches Ok(code) && code@ == bytes_as_text(value),
            None => r == Err::<AuthorizationCode, CaptureError>(CaptureError::MalformedRedirect),
        },
{
    let end = find_line_end(input);
    let ghost line = first_line(input@);
    let mut i: usize = 0;
    while i < end
        invariant
            end == line_end(input@, 0),
            end <= input@.len(),
            line == first_line(input@),
            i <= end,
            forall|j: int| 0 <= j < i ==> !code_param_at(line, j),
        decreases end - i,
    {
        if is_code_param(input, end, i) {
            assert(first_code_param_at(line, i as int));
            let ghost chosen = choose|k: int| first_code_param_at(line, k);
            assert(chosen == i);
            let text = read_value(input, end, i + 5);
            return Ok(AuthorizationCode { text });
        }
        i += 1;
    }
    assert forall|j: int| !code_param_at(line, j) by {
        if code_param_at(line, j) {
            assert(j < end);
        }
    }
    Err(CaptureError::MalformedRedirect)
}

/// What the caller is asked to do next during a capture.
#[derive(Clone, Copy, Debug, PartialEq, Eq, Structural)]
pub enum CaptureAction {
    /// Bind the local listener.
    Bind,
    /// Accept one connection on the listener.
    Accept,
    /// Read more bytes from the connection.
    Read,
    /// Ask the user to paste the address that the browser was sent to.
    PromptManual,
}

/// What the caller observed when it did what was asked.
#[derive(Clone, Debug, PartialEq, Eq)]
pub enum CaptureEvent {
    /// The listener is bound.
    Bound,
    /// The listener could not be bound.
    BindFailed,
    /// A connection was accepted.
    Accepted,
    /// Accepting a connection failed.
    AcceptFailed,
    /// These bytes arrived on the connection.
    Received(Vec<u8>),
    /// Reading from the connection failed.
    ReadFailed,
    /// The connection ended.
    Closed,
    /// The user entered this line.
    ManualEntry(Vec<u8>),
    /// Manual input ended without a line.
    ManualClosed,
}

/// What a capture in progress amounts to.
pub ghost struct CaptureView {
    /// What the caller was asked to do.
    pub pending: CaptureAction,
    /// The bytes received from the connection so far.
    pub received: Seq<u8>,
    /// Why the listener was given up for manual entry, if it was.
    pub network_failure: Option<CaptureError>,
}

/// What a step of a capture amounts to.
pub ghost enum CaptureOutcome {
    /// The capture goes on in this state.
    Continue(CaptureView),
    /// The code was captured, as these bytes.
    Captured(Seq<u8>),
    /// The capture failed.
    Failed(CaptureError),
}

impl CaptureView {
    /// The state in which a capture starts: the listener is tried first.
    pub open spec fn initial() -> CaptureView {
        CaptureView { pending: CaptureAction::Bind, received: Seq::empty(), network_failure: None }
    }

    /// The state in which manual entry takes over from the listener for
    /// the reason `why`.
    pub open spec fn fallen_back(why: CaptureError) -> CaptureView {
        CaptureView {
            pending: CaptureAction::PromptManual,
            received: Seq::empty(),
            network_failure: Some(why),
        }
    }

    /// Why the listener path fails on `event`, if it does: binding,
    /// accepting or reading failed, the connection ended before a whole
    /// line came, or the line that came holds no code.
    pub open spec fn network_fails(self, event: CaptureEvent) -> Option<CaptureError> {
        match (self.pending, event) {
            (CaptureAction::Bind, CaptureEvent::BindFailed) => Some(CaptureError::BindFailed),
            (CaptureAction::Accept, CaptureEvent::AcceptFailed) => Some(
                CaptureError::ConnectionError,
            ),
            (CaptureAction::Read, CaptureEvent::ReadFailed) => Some(CaptureError::ConnectionError),
            (CaptureAction::Read, CaptureEvent::Closed) => Some(
                CaptureError::ConnectionClosedEarly,
            ),
            (CaptureAction::Read, CaptureEvent::Received(bytes)) => if has_whole_line(
                self.received + bytes@,
            ) && redirect_code(self.received + bytes@) is None {
                Some(CaptureError::MalformedRedirect)
            } else {
                None
            },
            _ => None,
        }
    }

    /// What follows on `event`. The listener path runs first: bind, accept,
    /// then read until a whole line has come, whose code ends the capture.
    /// Any failure on that path hands over to manual entry, once and for
    /// good; the pasted line gives the code or the capture fails. An event
    /// that does not answer the pending action changes nothing.
    pub open spec fn on(self, event: CaptureEvent) -> CaptureOutcome {
        if let Some(why) = self.network_fails(event) {
            CaptureOutcome::Continue(CaptureView::fallen_back(why))
        } else {
            match (self.pending, event) {
                (CaptureAction::Bind, CaptureEvent::Bound) => CaptureOutcome::Continue(
                    CaptureView { pending: CaptureAction::Accept, ..self },
                ),
                (CaptureAction::Accept, CaptureEvent::Accepted) => CaptureOutcome::Continue(
                    CaptureView { pending: CaptureAction::Read, ..self },
                ),
                (CaptureAction::Read, CaptureEvent::Received(bytes)) => {
                    let all = self.received + bytes@;
                    match redirect_code(all) {
                        Some(code) if has_whole_line(all) => CaptureOutcome::Captured(code),
                        _ => CaptureOutcome::Continue(CaptureView { received: all, ..self }),
                    }
                },
                (CaptureAction::PromptManual, CaptureEvent::ManualEntry(line)) => {
                    match redirect_code(line@) {
                        Some(code) => CaptureOutcome::Captured(code),
                        None => CaptureOutcome::Failed(CaptureError::MalformedRedirect),
                    }
                },
                (CaptureAction::PromptManual, CaptureEvent::ManualClosed) => CaptureOutcome::Failed(
                    CaptureError::UserAbandoned,
                ),
                _ => CaptureOutcome::Continue(self),
            }
        }
    }
}

/// A capture in progress. It exists only while the caller has something
/// left to do.
#[derive(Debug)]
pub struct RedirectCapture {
    pending: CaptureAction,
    received: Vec<u8>,
    network_failure: Option<CaptureError>,
}

/// What to do next in a capture.
#[derive(Debug)]
pub enum CaptureStep {
    /// Do what the capture's pending action asks and report the event.
    Continue(RedirectCapture),
    /// The code was captured; nothing more is to be done.
    Captured(AuthorizationCode),
    /// The capture failed; nothing more is to be done.
    Failed(CaptureError),
}

impl View for RedirectCapture {
    type V = CaptureView;

    closed spec fn view(&self) -> CaptureView {
        CaptureView {
            pending: self.pending,
            received: self.received@,
            network_failure: self.network_failure,
        }
    }
}

impl CaptureStep {
    /// Whether this step is `outcome`.
    pub open spec fn is_outcome(self, outcome: CaptureOutcome) -> bool {
        match outcome {
            CaptureOutcome::Continue(next) => self matches CaptureStep::Continue(c) && c@ == next,
            CaptureOutcome::Captured(bytes) => self matches CaptureStep::Captured(code) && code@
                == bytes_as_text(bytes),
            CaptureOutcome::Failed(e) => self matches CaptureStep::Failed(f) && f == e,
        }
    }
}

impl RedirectCapture {
    /// Starts a capture. The local listener is tried first.
    pub fn start() -> (capture: RedirectCapture)
        ensures
            capture@ == CaptureView::initial(),
    {
        RedirectCapture { pending: CaptureAction::Bind, received: Vec::new(), network_failure: None }
    }

    /// What the caller is asked to do now.
    pub fn pending(&self) -> (action: CaptureAction)
        ensures
            action == self@.pending,
    {
        self.pending
    }

    /// Why the listener was given up for manual entry, if it was.
    pub fn network_failure(&self) -> (why: Option<CaptureError>)
        ensures
            why == self@.network_failure,
    {
        self.network_failure
    }

    fn fall_back(why: CaptureError) -> (step: CaptureStep)
        ensures
            step.is_outcome(CaptureOutcome::Continue(CaptureView::fallen_back(why))),
    {
        CaptureStep::Continue(
            RedirectCapture {
                pending: CaptureAction::PromptManual,
                received: Vec::new(),
                network_failure: Some(why),
            },
        )
    }

    /// Takes what the caller observed and decides how the capture goes on.
    pub fn advance(self, event: CaptureEvent) -> (step: CaptureStep)
        ensures
            step.is_outcome(self@.on(event)),
    {
        match (self.pending, event) {
            (CaptureAction::Bind, CaptureEvent::Bound) => CaptureStep::Continue(
                RedirectCapture { pending: CaptureAction::Accept, ..self },
            ),
            (CaptureAction::Bind, CaptureEvent::BindFailed) => Self::fall_back(
                CaptureError::BindFailed,
            ),
            (CaptureAction::Accept, CaptureEvent::Accepted) => CaptureStep::Continue(
                RedirectCapture { pending: CaptureAction::Read, ..self },
            ),
            (CaptureAction::Accept, CaptureEvent::AcceptFailed) => Self::fall_back(
                CaptureError::ConnectionError,
            ),
            (CaptureAction::Read, CaptureEvent::ReadFailed) => Self::fall_back(
                CaptureError::ConnectionError,
            ),
            (CaptureAction::Read, CaptureEvent::Closed) => Self::fall_back(
                CaptureError::ConnectionClosedEarly,
            ),
            (CaptureAction::Read, CaptureEvent::Received(bytes)) => {
                let mut received = self.received;
                let mut fresh = bytes;
                received.append(&mut fresh);
                let end = find_line_end(received.as_slice());
                if end < received.len() {
                    match extract_code(received.as_slice()) {
                        Ok(code) => CaptureStep::Captured(code),
                        Err(_) => Self::fall_back(CaptureError::MalformedRedirect),
                    }
                } else {
                    CaptureStep::Continue(
                        RedirectCapture {
                            pending: CaptureAction::Read,
                            received,
                            network_failure: self.network_failure,
                        },
                    )
                }
            },
            (CaptureAction::PromptManual, CaptureEvent::ManualEntry(line)) => {
                match extract_code(line.as_slice()) {
                    Ok(code) => CaptureStep::Captured(code),
                    Err(e) => CaptureStep::Failed(e),
                }
            },
            (CaptureAction::PromptManual, CaptureEvent::ManualClosed) => CaptureStep::Failed(
                CaptureError::UserAbandoned,
            ),
            _ => CaptureStep::Continue(self),
        }
    }
}

/// While the listener path runs, manual entry takes over if and only if
/// that path fails on the event at hand, and then for the reason of that
/// failure. A code that the listener path yields ends the capture, so that
/// manual entry is never asked for after it; and the listener path alone
/// never fails the capture.
pub proof fn lemma_manual_entry_iff_network_failure(state: CaptureView, event: CaptureEvent)
    requires
        state.pending != CaptureAction::PromptManual,
    ensures
        (state.on(event) matches CaptureOutcome::Continue(next) && next.pending
            == CaptureAction::PromptManual) <==> state.network_fails(event) is Some,
        state.network_fails(event) matches Some(why) ==> state.on(event)
            == CaptureOutcome::Continue(CaptureView::fallen_back(why)),
        state.on(event) is Captured ==> state.network_fails(event) is None,
        !(state.on(event) is Failed),
{
}

/// Once manual entry has taken over, the listener is never tried again:
/// the capture waits for the pasted line, or ends.
pub proof fn lemma_manual_entry_is_final(state: CaptureView, event: CaptureEvent)
    requires
        state.pending == CaptureAction::PromptManual,
    ensures
        state.on(event) matches CaptureOutcome::Continue(next) ==> next == state,
        state.network_fails(event) is None,
{
}

} // verus!

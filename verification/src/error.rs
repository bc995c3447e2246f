//! The failures of the whole flow, each with the stage that it stopped.

use crate::authorize::{request_outcome, InitiationError, InitiationStep};
use crate::batch::{write_outcome, WriteError, WriteOutcome};
use crate::http::{is_success, HttpStatusError, Reply};
use crate::objects::PagingObject;
use crate::paginate::{FetchError, FetchOutcome, FetchView};
use crate::redirect::CaptureError;
use crate::token::{exchange_outcome, ExchangeError, TokenSet};
use vstd::prelude::*;

verus! {

/// The stages of the flow, in the order in which they run.
#[derive(Clone, Copy, Debug, PartialEq, Eq, Structural)]
pub enum Stage {
    /// Asking for authorization and capturing the code.
    Authorization,
    /// Exchanging a code or a refresh token for tokens.
    TokenExchange,
    /// Reading a collection.
    Fetch,
    /// Writing to a collection.
    Write,
}

/// The first failure that stopped the flow.
#[derive(Clone, Copy, Debug, PartialEq, Eq, Structural)]
pub enum FlowError {
    /// The user could not be asked for authorization.
    Initiation(InitiationError),
    /// No authorization code was captured.
    Capture(CaptureError),
    /// No tokens were obtained.
    Exchange(ExchangeError),
    /// A collection could not be read.
    Fetch(FetchError),
    /// A collection could not be written in full. Chunks sent before the
    /// failure stay written.
    Write(WriteError),
}

impl FlowError {
    /// The stage that a failure belongs to.
    pub open spec fn stage_of(self) -> Stage {
        match self {
            FlowError::Initiation(_) => Stage::Authorization,
            FlowError::Capture(_) => Stage::Authorization,
            FlowError::Exchange(_) => Stage::TokenExchange,
            FlowError::Fetch(_) => Stage::Fetch,
            FlowError::Write(_) => Stage::Write,
        }
    }

    /// The status that the service answered with, where the failure is an
    /// answer with a status outside 2xx.
    pub open spec fn status_of(self) -> Option<u16> {
        match self {
            FlowError::Initiation(InitiationError::Status(e)) => Some(e.status),
            FlowError::Exchange(ExchangeError::TokenEndpointRejected(e)) => Some(e.status),
            FlowError::Fetch(FetchError::Status(e)) => Some(e.status),
            FlowError::Write(WriteError::Status(e)) => Some(e.status),
            _ => None,
        }
    }

    /// Tells which stage failed.
    pub fn stage(&self) -> (stage: Stage)
        ensures
            stage == self.stage_of(),
    {
        match self {
            FlowError::Initiation(_) => Stage::Authorization,
            FlowError::Capture(_) => Stage::Authorization,
            FlowError::Exchange(_) => Stage::TokenExchange,
            FlowError::Fetch(_) => Stage::Fetch,
            FlowError::Write(_) => Stage::Write,
        }
    }

    /// Gives the status observed, if the failure is an HTTP status.
    pub fn http_status(&self) -> (status: Option<HttpStatusError>)
        ensures
            match self.status_of() {
                Some(code) => status == Some(HttpStatusError { status: code }),
                None => status is None,
            },
    {
        match self {
            FlowError::Initiation(InitiationError::Status(e)) => Some(*e),
            FlowError::Exchange(ExchangeError::TokenEndpointRejected(e)) => Some(*e),
            FlowError::Fetch(FetchError::Status(e)) => Some(*e),
            FlowError::Write(WriteError::Status(e)) => Some(*e),
            _ => None,
        }
    }
}

/// Whatever endpoint a response came from, a status outside 2xx is reported
/// as a failure that carries the status observed, whatever the body holds
/// and whatever state the exchange, fetch or write is in: it never counts
/// as a success.
pub proof fn lemma_status_outside_2xx_is_reported<T>(
    status: u16,
    requested: String,
    asked: Option<()>,
    tokens: Option<TokenSet>,
    fetch: FetchView<T>,
    page: Option<PagingObject<T>>,
    sent: nat,
    count: nat,
    written: Option<()>,
)
    requires
        !is_success(status),
    ensures
        request_outcome(requested, Reply::Answered { status, body: asked })
            == InitiationStep::Failed(InitiationError::Status(HttpStatusError { status })),
        exchange_outcome(Reply::Answered { status, body: tokens }) == Err::<
            TokenSet,
            ExchangeError,
        >(ExchangeError::TokenEndpointRejected(HttpStatusError { status })),
        fetch.receive(Reply::Answered { status, body: page }) == FetchOutcome::<T>::Failed(
            FetchError::Status(HttpStatusError { status }),
        ),
        write_outcome(sent, count, Reply::Answered { status, body: written })
            == WriteOutcome::Failed(WriteError::Status(HttpStatusError { status })),
{
}

} // verus!

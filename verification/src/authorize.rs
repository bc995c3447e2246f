//! Asking the user for authorization: the authorize address and what to do
//! with it.

use crate::http::{is_success, status_is_success, HttpStatusError, Reply};
use crate::token::{form_view, FormField};
use vstd::prelude::*;
use vstd::utf8::encode_utf8;

verus! {

/// What the provider is asked to authorize.
#[derive(Clone, Debug, PartialEq, Eq)]
pub struct AuthorizationRequest {
    /// The identifier under which the client is registered.
    pub client_id: String,
    /// Where the provider sends the browser with the code.
    pub redirect_uri: String,
    /// The scopes asked for, separated by spaces.
    pub scope: String,
}

/// Why asking for authorization failed.
#[derive(Clone, Copy, Debug, PartialEq, Eq, Structural)]
pub enum InitiationError {
    /// The endpoint, or a parameter's name or value, is longer than
    /// `MAX_PART_BYTES`.
    AddressTooLong,
    /// The authorize endpoint is not an absolute address.
    InvalidEndpoint,
    /// The request to the authorize endpoint got no response.
    Transport,
    /// The authorize endpoint answered with a status outside 2xx.
    Status(HttpStatusError),
}

/// What to do next while asking for authorization.
#[derive(Clone, Debug, PartialEq, Eq)]
pub enum InitiationStep {
    /// Send a GET to this address and report the reply.
    Request(String),
    /// Open this address in the user's browser and report whether it opened.
    OpenBrowser(String),
    /// Show this address to the user, who opens it by hand. Nothing is
    /// reported back: the user has been asked.
    ShowAddress(String),
    /// The user has been asked.
    Done,
    /// Asking failed, and no code is to be waited for.
    Failed(InitiationError),
}

/// The most bytes that the endpoint, and each parameter's name and value,
/// may hold for an address to be built from them.
pub const MAX_PART_BYTES: usize = 65536;

/// The most parameters that an address is built with.
pub const MAX_PARAMS: usize = 16;

/// How many bytes `text` takes as UTF-8.
pub open spec fn byte_len(text: Seq<char>) -> nat {
    encode_utf8(text).len()
}

/// Whether an address can be built from `base` and `params`: there are at
/// most `MAX_PARAMS` parameters, and neither `base` nor any name or value
/// is longer than `MAX_PART_BYTES`.
pub open spec fn fits(base: Seq<char>, params: Seq<FormField>) -> bool {
    &&& byte_len(base) <= MAX_PART_BYTES
    &&& params.len() <= MAX_PARAMS
    &&& forall|i: int|
        0 <= i < params.len() ==> byte_len((#[trigger] params[i]).0) <= MAX_PART_BYTES
            && byte_len(params[i].1) <= MAX_PART_BYTES
}

/// The address that `reqwest::Url` gives when it parses `base` and appends
/// `params` to its query, or `None` where `base` does not parse as an
/// absolute address.
pub uninterp spec fn url_with_params(base: Seq<char>, params: Seq<FormField>) -> Option<Seq<char>>;

/// `reqwest::Url::parse_with_params`, with the address it returns taken as
/// text: it parses `base` as an absolute address and appends each pair of
/// `params` to the query, form-encoded. The address type counts its bytes
/// in 32 bits and does not return once the text outgrows that, so the call
/// is made only where the parts fit: at most 16 pairs of at most 64 KiB a
/// name and a value, each byte of which becomes at most three, behind a
/// base of at most 64 KiB.
#[verifier::external_body]
fn parse_with_params(base: &str, params: &Vec<(String, String)>) -> (address: Option<String>)
    requires
        fits(base@, form_view(params@)),
    ensures
        match address {
            Some(text) => url_with_params(base@, form_view(params@)) == Some(text@),
            None => url_with_params(base@, form_view(params@)) is None,
        },
{
    reqwest::Url::parse_with_params(base, params).ok().map(String::from)
}

/// Whether `text` holds at most `MAX_PART_BYTES` bytes.
fn is_short(text: &str) -> (short: bool)
    ensures
        short == (byte_len(text@) <= MAX_PART_BYTES),
{
    text.as_bytes().len() <= MAX_PART_BYTES
}

/// Whether an address can be built from `base` and `params`.
pub fn fits_address(base: &str, params: &Vec<(String, String)>) -> (ok: bool)
    ensures
        ok == fits(base@, form_view(params@)),
{
    if !is_short(base) || params.len() > MAX_PARAMS {
        return false;
    }
    let ghost fields = form_view(params@);
    let mut i: usize = 0;
    while i < params.len()
        invariant
            i <= params@.len(),
            fields == form_view(params@),
            forall|j: int|
                0 <= j < i ==> byte_len((#[trigger] fields[j]).0) <= MAX_PART_BYTES && byte_len(
                    fields[j].1,
                ) <= MAX_PART_BYTES,
        decreases params@.len() - i,
    {
        if !is_short(params[i].0.as_str()) || !is_short(params[i].1.as_str()) {
            assert(!(byte_len(fields[i as int].0) <= MAX_PART_BYTES && byte_len(fields[i as int].1)
                <= MAX_PART_BYTES));
            return false;
        }
        i += 1;
    }
    true
}

impl AuthorizationRequest {
    /// The query parameters of the authorize address, in order.
    pub open spec fn query(self) -> Seq<FormField> {
        seq![
            ("response_type"@, "code"@),
            ("client_id"@, self.client_id@),
            ("redirect_uri"@, self.redirect_uri@),
            ("scope"@, self.scope@),
        ]
    }

    /// What building the authorize address on `endpoint` gives: an error
    /// where a part is too long or the endpoint is no absolute address, and
    /// otherwise the endpoint with this request's parameters as its query.
    pub open spec fn address(self, endpoint: Seq<char>) -> Result<Seq<char>, InitiationError> {
        if !fits(endpoint, self.query()) {
            Err(InitiationError::AddressTooLong)
        } else {
            match url_with_params(endpoint, self.query()) {
                Some(address) => Ok(address),
                None => Err(InitiationError::InvalidEndpoint),
            }
        }
    }

    /// The query parameters of the authorize address, in order.
    pub fn query_params(&self) -> (params: Vec<(String, String)>)
        ensures
            form_view(params@) == self.query(),
    {
        let mut params: Vec<(String, String)> = Vec::new();
        params.push((String::from_str("response_type"), String::from_str("code")));
        params.push((String::from_str("client_id"), self.client_id.clone()));
        params.push((String::from_str("redirect_uri"), self.redirect_uri.clone()));
        params.push((String::from_str("scope"), self.scope.clone()));
        assert(form_view(params@) =~= self.query());
        params
    }

    /// Builds the address at which the user grants access: `endpoint` with
    /// this request's parameters as its query.
    pub fn authorize_url(&self, endpoint: &str) -> (r: Result<String, InitiationError>)
        ensures
            match self.address(endpoint@) {
                Ok(address) => r matches Ok(built) && built@ == address,
                Err(e) => r == Err::<String, InitiationError>(e),
            },
    {
        let params = self.query_params();
        if !fits_address(endpoint, &params) {
            return Err(InitiationError::AddressTooLong);
        }
        match parse_with_params(endpoint, &params) {
            Some(address) => Ok(address),
            None => Err(InitiationError::InvalidEndpoint),
        }
    }

    /// Starts asking for authorization: the authorize address is to be
    /// requested, unless it cannot be built.
    pub fn begin(&self, endpoint: &str) -> (step: InitiationStep)
        ensures
            match self.address(endpoint@) {
                Ok(address) => step matches InitiationStep::Request(built) && built@ == address,
                Err(e) => step == InitiationStep::Failed(e),
            },
    {
        match self.authorize_url(endpoint) {
            Ok(address) => InitiationStep::Request(address),
            Err(e) => InitiationStep::Failed(e),
        }
    }
}

/// The authorize address is asked for with exactly four parameters, none
/// of which carries the client's secret. Their names are short, so the
/// address can be built exactly when the endpoint, the client identifier,
/// the redirect address and the scope each hold at most `MAX_PART_BYTES`
/// bytes.
pub proof fn lemma_authorize_query(request: AuthorizationRequest, endpoint: Seq<char>)
    ensures
        request.query().len() == 4,
        forall|i: int|
            0 <= i < 4 ==> (#[trigger] request.query()[i]).0 != "client_secret"@,
        fits(endpoint, request.query()) <==> byte_len(endpoint) <= MAX_PART_BYTES && byte_len(
            request.client_id@,
        ) <= MAX_PART_BYTES && byte_len(request.redirect_uri@) <= MAX_PART_BYTES && byte_len(
            request.scope@,
        ) <= MAX_PART_BYTES,
{
    reveal_strlit("response_type");
    reveal_strlit("code");
    reveal_strlit("client_id");
    reveal_strlit("redirect_uri");
    reveal_strlit("scope");
    reveal_strlit("client_secret");
    let query = request.query();
    assert("response_type"@[0] == 'r' && "client_secret"@[0] == 'c');
    assert("client_id"@.len() == 9 && "redirect_uri"@.len() == 12 && "scope"@.len() == 5
        && "client_secret"@.len() == 13);
    vstd::utf8::is_ascii_chars_encode_utf8("response_type"@);
    vstd::utf8::is_ascii_chars_encode_utf8("code"@);
    vstd::utf8::is_ascii_chars_encode_utf8("client_id"@);
    vstd::utf8::is_ascii_chars_encode_utf8("redirect_uri"@);
    vstd::utf8::is_ascii_chars_encode_utf8("scope"@);
    assert(query[0] == ("response_type"@, "code"@));
    assert(query[1] == ("client_id"@, request.client_id@));
    assert(query[2] == ("redirect_uri"@, request.redirect_uri@));
    assert(query[3] == ("scope"@, request.scope@));
}

/// What follows the reply to the request for `requested`: no response, or
/// a status outside 2xx, is fatal; after any 2xx answer the browser is to
/// be opened at the requested address itself. The request serves only to
/// find out that the endpoint cannot be reached or refuses.
pub open spec fn request_outcome(requested: String, reply: Reply<()>) -> InitiationStep {
    match reply {
        Reply::Unreachable => InitiationStep::Failed(InitiationError::Transport),
        Reply::Answered { status, .. } => if !is_success(status) {
            InitiationStep::Failed(InitiationError::Status(HttpStatusError { status }))
        } else {
            InitiationStep::OpenBrowser(requested)
        },
    }
}

/// Takes the reply to the request for `requested`.
pub fn after_request(requested: String, reply: Reply<()>) -> (step: InitiationStep)
    ensures
        step == request_outcome(requested, reply),
{
    match reply {
        Reply::Unreachable => InitiationStep::Failed(InitiationError::Transport),
        Reply::Answered { status, body: _ } => {
            if !status_is_success(status) {
                InitiationStep::Failed(InitiationError::Status(HttpStatusError { status }))
            } else {
                InitiationStep::OpenBrowser(requested)
            }
        },
    }
}

/// What follows the attempt to open `address` in the browser. A browser
/// that did not open is no failure: the address is shown instead.
pub fn after_open(address: String, opened: bool) -> (step: InitiationStep)
    ensures
        step == if opened {
            InitiationStep::Done
        } else {
            InitiationStep::ShowAddress(address)
        },
{
    if opened {
        InitiationStep::Done
    } else {
        InitiationStep::ShowAddress(address)
    }
}

} // verus!

//! The token request in its two forms, and the reading of its answer.

use crate::http::{is_success, status_is_success, HttpStatusError, Reply};
use vstd::prelude::*;

verus! {

/// What is presented to the token endpoint in exchange for tokens.
#[derive(Clone, Debug, PartialEq, Eq)]
pub enum TokenGrant {
    /// The authorization code of a fresh consent, with the redirect address
    /// it was issued for.
    InitialGrant { code: String, redirect_uri: String },
    /// The refresh token of an earlier exchange.
    RefreshGrant { refresh_token: String },
}

/// The tokens that the token endpoint hands out.
#[derive(Clone, Debug, PartialEq, Eq)]
pub struct TokenSet {
    /// The bearer credential for the calls that follow.
    pub access_token: String,
    /// How the access token may be used.
    pub token_type: String,
    /// The scopes that were granted, separated by spaces.
    pub scope: String,
    /// For how many seconds the access token is valid.
    pub expires_in: u64,
    /// What can be exchanged for new tokens later. It replaces any refresh
    /// token received before.
    pub refresh_token: String,
}

/// Why an exchange produced no tokens.
#[derive(Clone, Copy, Debug, PartialEq, Eq, Structural)]
pub enum ExchangeError {
    /// The request got no response.
    Transport,
    /// The token endpoint answered with a status outside 2xx.
    TokenEndpointRejected(HttpStatusError),
    /// The token endpoint answered 2xx, but the body was not a token set.
    MalformedTokenResponse,
}

/// One field of a form body: its name and its value.
pub type FormField = (Seq<char>, Seq<char>);

/// The form fields held by a list of string pairs.
pub open spec fn form_view(fields: Seq<(String, String)>) -> Seq<FormField> {
    Seq::new(fields.len(), |i: int| (fields[i].0@, fields[i].1@))
}

/// Whether `form` has a field called `name`.
pub open spec fn has_field(form: Seq<FormField>, name: Seq<char>) -> bool {
    exists|i: int| 0 <= i < form.len() && (#[trigger] form[i]).0 == name
}

impl TokenGrant {
    /// The value of the `grant_type` field that announces this grant.
    pub open spec fn grant_type(self) -> Seq<char> {
        match self {
            TokenGrant::InitialGrant { .. } => "authorization_code"@,
            TokenGrant::RefreshGrant { .. } => "refresh_token"@,
        }
    }

    /// The fields that accompany `grant_type` for this grant.
    pub open spec fn companion_fields(self) -> Seq<FormField> {
        match self {
            TokenGrant::InitialGrant { code, redirect_uri } => seq![
                ("code"@, code@),
                ("redirect_uri"@, redirect_uri@),
            ],
            TokenGrant::RefreshGrant { refresh_token } => seq![
                ("refresh_token"@, refresh_token@),
            ],
        }
    }

    /// The whole form body of the token request: the client's credentials,
    /// the grant type, then the grant's own fields.
    pub open spec fn form(self, client_id: Seq<char>, client_secret: Seq<char>) -> Seq<FormField> {
        seq![
            ("client_id"@, client_id),
            ("client_secret"@, client_secret),
            ("grant_type"@, self.grant_type()),
        ] + self.companion_fields()
    }

    /// The grant for a freshly captured authorization code.
    pub fn initial(code: &str, redirect_uri: &str) -> (grant: TokenGrant)
        ensures
            grant matches TokenGrant::InitialGrant { code: c, redirect_uri: r } && c@ == code@
                && r@ == redirect_uri@,
    {
        TokenGrant::InitialGrant {
            code: String::from_str(code),
            redirect_uri: String::from_str(redirect_uri),
        }
    }

    /// The grant that renews tokens from a refresh token.
    pub fn refresh(refresh_token: &str) -> (grant: TokenGrant)
        ensures
            grant matches TokenGrant::RefreshGrant { refresh_token: t } && t@ == refresh_token@,
    {
        TokenGrant::RefreshGrant { refresh_token: String::from_str(refresh_token) }
    }

    /// Lays the grant out as the flat form body of the token request.
    pub fn form_fields(&self, client_id: &str, client_secret: &str) -> (fields: Vec<
        (String, String),
    >)
        ensures
            form_view(fields@) == self.form(client_id@, client_secret@),
    {
        let mut fields: Vec<(String, String)> = Vec::new();
        fields.push((String::from_str("client_id"), String::from_str(client_id)));
        fields.push((String::from_str("client_secret"), String::from_str(client_secret)));
        match self {
            TokenGrant::InitialGrant { code, redirect_uri } => {
                fields.push(
                    (String::from_str("grant_type"), String::from_str("authorization_code")),
                );
                fields.push((String::from_str("code"), code.clone()));
                fields.push((String::from_str("redirect_uri"), redirect_uri.clone()));
            },
            TokenGrant::RefreshGrant { refresh_token } => {
                fields.push((String::from_str("grant_type"), String::from_str("refresh_token")));
                fields.push((String::from_str("refresh_token"), refresh_token.clone()));
            },
        }
        assert(form_view(fields@) =~= self.form(client_id@, client_secret@));
        fields
    }
}

impl TokenSet {
    /// The grant that exchanges this set's refresh token for new tokens.
    pub fn refresh_grant(&self) -> (grant: TokenGrant)
        ensures
            grant matches TokenGrant::RefreshGrant { refresh_token: t } && t@
                == self.refresh_token@,
    {
        TokenGrant::RefreshGrant { refresh_token: self.refresh_token.clone() }
    }
}

/// What an exchange yields for a given reply: the tokens of a 2xx answer
/// that parsed, and otherwise the reason why there are none.
pub open spec fn exchange_outcome(reply: Reply<TokenSet>) -> Result<TokenSet, ExchangeError> {
    match reply {
        Reply::Unreachable => Err(ExchangeError::Transport),
        Reply::Answered { status, body } => if !is_success(status) {
            Err(ExchangeError::TokenEndpointRejected(HttpStatusError { status }))
        } else {
            match body {
                Some(tokens) => Ok(tokens),
                None => Err(ExchangeError::MalformedTokenResponse),
            }
        },
    }
}

/// Reads the reply to a token request. A status outside 2xx is a rejection
/// whatever the body holds; a 2xx answer gives its tokens if it parsed.
pub fn read_token_reply(reply: Reply<TokenSet>) -> (r: Result<TokenSet, ExchangeError>)
    ensures
        r == exchange_outcome(reply),
{
    match reply {
        Reply::Unreachable => Err(ExchangeError::Transport),
        Reply::Answered { status, body } => {
            if !status_is_success(status) {
                Err(ExchangeError::TokenEndpointRejected(HttpStatusError { status }))
            } else {
                match body {
                    Some(tokens) => Ok(tokens),
                    None => Err(ExchangeError::MalformedTokenResponse),
                }
            }
        },
    }
}

/// No field name occurs twice in a token request's form body, so that the
/// body reads the same as a map from names to values.
pub proof fn lemma_form_names_are_distinct(
    grant: TokenGrant,
    client_id: Seq<char>,
    client_secret: Seq<char>,
)
    ensures
        forall|i: int, j: int|
            0 <= i < j < grant.form(client_id, client_secret).len() ==> (#[trigger] grant.form(
                client_id,
                client_secret,
            )[i]).0 != (#[trigger] grant.form(client_id, client_secret)[j]).0,
{
    reveal_strlit("client_id");
    reveal_strlit("client_secret");
    reveal_strlit("grant_type");
    reveal_strlit("code");
    reveal_strlit("redirect_uri");
    reveal_strlit("refresh_token");
    let form = grant.form(client_id, client_secret);
    assert("code"@.len() == 4 && "client_id"@.len() == 9 && "client_secret"@.len() == 13
        && "grant_type"@.len() == 10 && "redirect_uri"@.len() == 12 && "refresh_token"@.len()
        == 13);
    assert("client_secret"@[0] == 'c' && "refresh_token"@[0] == 'r');
    assert(form[0].0 == "client_id"@ && form[1].0 == "client_secret"@ && form[2].0
        == "grant_type"@);
    match grant {
        TokenGrant::InitialGrant { .. } => {
            assert(form.len() == 5 && form[3].0 == "code"@ && form[4].0 == "redirect_uri"@);
        },
        TokenGrant::RefreshGrant { .. } => {
            assert(form.len() == 4 && form[3].0 == "refresh_token"@);
        },
    }
}

/// The two grants put different fields beside the three that every token
/// request has: an initial grant sends `code` and `redirect_uri` and no
/// `refresh_token`; a refresh grant sends `refresh_token` and neither of
/// the other two. A field name occurs in both bodies exactly when it is
/// `client_id`, `client_secret` or `grant_type`.
pub proof fn lemma_grant_forms_share_only_credentials(
    initial: TokenGrant,
    refresh: TokenGrant,
    client_id: Seq<char>,
    client_secret: Seq<char>,
)
    requires
        initial is InitialGrant,
        refresh is RefreshGrant,
    ensures
        has_field(initial.form(client_id, client_secret), "code"@),
        has_field(initial.form(client_id, client_secret), "redirect_uri"@),
        !has_field(initial.form(client_id, client_secret), "refresh_token"@),
        has_field(refresh.form(client_id, client_secret), "refresh_token"@),
        !has_field(refresh.form(client_id, client_secret), "code"@),
        !has_field(refresh.form(client_id, client_secret), "redirect_uri"@),
        forall|name: Seq<char>|
            (has_field(initial.form(client_id, client_secret), name) && has_field(
                refresh.form(client_id, client_secret),
                name,
            )) <==> (name == "client_id"@ || name == "client_secret"@ || name == "grant_type"@),
{
    reveal_strlit("client_id");
    reveal_strlit("client_secret");
    reveal_strlit("grant_type");
    reveal_strlit("code");
    reveal_strlit("redirect_uri");
    reveal_strlit("refresh_token");
    let a = initial.form(client_id, client_secret);
    let b = refresh.form(client_id, client_secret);
    assert(a.len() == 5 && b.len() == 4);
    assert(a[0].0 == "client_id"@ && a[1].0 == "client_secret"@ && a[2].0 == "grant_type"@);
    assert(a[3].0 == "code"@ && a[4].0 == "redirect_uri"@);
    assert(b[0].0 == "client_id"@ && b[1].0 == "client_secret"@ && b[2].0 == "grant_type"@);
    assert(b[3].0 == "refresh_token"@);
    assert("code"@.len() == 4 && "client_id"@.len() == 9 && "client_secret"@.len() == 13
        && "grant_type"@.len() == 10 && "redirect_uri"@.len() == 12 && "refresh_token"@.len()
        == 13);
    assert("client_secret"@[0] == 'c' && "refresh_token"@[0] == 'r');
}

} // verus!

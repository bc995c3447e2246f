use playlist_sync::http::{HttpStatusError, Reply};
use playlist_sync::token::{read_token_reply, ExchangeError, TokenGrant, TokenSet};

fn pair(name: &str, value: &str) -> (String, String) {
    (name.to_string(), value.to_string())
}

fn names(fields: &[(String, String)]) -> Vec<&str> {
    fields.iter().map(|f| f.0.as_str()).collect()
}

fn tokens() -> TokenSet {
    TokenSet {
        access_token: "tok".to_string(),
        token_type: "Bearer".to_string(),
        scope: "user-library-read".to_string(),
        expires_in: 3600,
        refresh_token: "ref".to_string(),
    }
}

#[test]
fn initial_grant_form() {
    let grant = TokenGrant::initial("abc123", "http://localhost/auth/callback/spotify");
    assert_eq!(
        grant.form_fields("id", "secret"),
        vec![
            pair("client_id", "id"),
            pair("client_secret", "secret"),
            pair("grant_type", "authorization_code"),
            pair("code", "abc123"),
            pair("redirect_uri", "http://localhost/auth/callback/spotify"),
        ]
    );
}

#[test]
fn refresh_grant_form() {
    let grant = TokenGrant::refresh("ref");
    assert_eq!(
        grant.form_fields("id", "secret"),
        vec![
            pair("client_id", "id"),
            pair("client_secret", "secret"),
            pair("grant_type", "refresh_token"),
            pair("refresh_token", "ref"),
        ]
    );
}

#[test]
fn the_two_forms_share_only_the_credentials_and_the_grant_type() {
    let initial = TokenGrant::initial("c", "r").form_fields("id", "secret");
    let refresh = TokenGrant::refresh("t").form_fields("id", "secret");
    let initial_names = names(&initial);
    let refresh_names = names(&refresh);
    assert!(initial_names.contains(&"code"));
    assert!(initial_names.contains(&"redirect_uri"));
    assert!(!initial_names.contains(&"refresh_token"));
    assert!(refresh_names.contains(&"refresh_token"));
    assert!(!refresh_names.contains(&"code"));
    assert!(!refresh_names.contains(&"redirect_uri"));
    let shared: Vec<&str> =
        initial_names.iter().copied().filter(|n| refresh_names.contains(n)).collect();
    assert_eq!(shared, vec!["client_id", "client_secret", "grant_type"]);
}

#[test]
fn grant_constructors_keep_their_arguments() {
    assert_eq!(
        TokenGrant::initial("c", "r"),
        TokenGrant::InitialGrant { code: "c".to_string(), redirect_uri: "r".to_string() }
    );
    assert_eq!(
        TokenGrant::refresh("t"),
        TokenGrant::RefreshGrant { refresh_token: "t".to_string() }
    );
}

#[test]
fn refresh_grant_uses_the_sets_refresh_token() {
    assert_eq!(
        tokens().refresh_grant(),
        TokenGrant::RefreshGrant { refresh_token: "ref".to_string() }
    );
}

#[test]
fn token_reply_2xx_with_tokens_is_ok() {
    let reply = Reply::Answered { status: 200, body: Some(tokens()) };
    assert_eq!(read_token_reply(reply), Ok(tokens()));
}

#[test]
fn token_reply_non_2xx_is_a_rejection_with_the_status() {
    for status in [199u16, 300, 400, 401, 500] {
        let with_body = Reply::Answered { status, body: Some(tokens()) };
        let without = Reply::Answered { status, body: None };
        let expected = Err(ExchangeError::TokenEndpointRejected(HttpStatusError { status }));
        assert_eq!(read_token_reply(with_body), expected);
        assert_eq!(read_token_reply(without), expected);
    }
}

#[test]
fn token_reply_2xx_without_tokens_is_malformed() {
    let reply = Reply::Answered { status: 200, body: None };
    assert_eq!(read_token_reply(reply), Err(ExchangeError::MalformedTokenResponse));
}

#[test]
fn token_reply_missing_is_a_transport_failure() {
    assert_eq!(read_token_reply(Reply::Unreachable), Err(ExchangeError::Transport));
}

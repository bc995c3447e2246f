use playlist_sync::authorize::{after_open, after_request, AuthorizationRequest, InitiationStep};
use playlist_sync::batch::{BatchWriter, WriteStep};
use playlist_sync::endpoints::{
    playlist_tracks_url, AUTHORIZE_ENDPOINT, DESIRED_SCOPES, PAGE_SIZE, REDIRECT_URI,
    SAVED_TRACKS_ENDPOINT, WRITE_CHUNK_SIZE,
};
use playlist_sync::http::Reply;
use playlist_sync::objects::{PagingObject, SavedTrackObject, TrackObject};
use playlist_sync::paginate::{FetchStep, Paginator};
use playlist_sync::redirect::{CaptureAction, CaptureEvent, CaptureStep, RedirectCapture};
use playlist_sync::token::{read_token_reply, TokenGrant, TokenSet};

fn track(name: &str, uri: Option<&str>) -> TrackObject {
    TrackObject {
        album: None,
        artists: Vec::new(),
        available_markets: None,
        disc_number: None,
        duration_ms: None,
        explicit: None,
        external_ids: None,
        external_urls: None,
        href: None,
        id: None,
        is_local: None,
        is_playable: None,
        linked_from: None,
        name: name.to_string(),
        popularity: None,
        preview_url: None,
        restrictions: None,
        track_number: None,
        kind: None,
        uri: uri.map(|u| u.to_string()),
    }
}

fn saved(name: &str, uri: Option<&str>) -> SavedTrackObject {
    SavedTrackObject { added_at: Some(1_600_000_000), track: track(name, uri) }
}

#[test]
fn uris_of_saved_tracks_in_order() {
    let tracks = vec![
        saved("a", Some("spotify:track:a")),
        saved("b", Some("spotify:track:b")),
        saved("c", Some("spotify:track:c")),
    ];
    assert_eq!(
        playlist_sync::objects::saved_track_uris(&tracks),
        vec!["spotify:track:a", "spotify:track:b", "spotify:track:c"]
    );
}

#[test]
fn tracks_without_a_uri_are_left_out() {
    let tracks = vec![
        saved("a", None),
        saved("b", Some("spotify:track:b")),
        saved("c", None),
        saved("d", Some("spotify:track:d")),
    ];
    assert_eq!(
        playlist_sync::objects::saved_track_uris(&tracks),
        vec!["spotify:track:b", "spotify:track:d"]
    );
    assert!(playlist_sync::objects::saved_track_uris(&Vec::new()).is_empty());
}

#[test]
fn authorize_exchange_fetch_and_write() {
    // Ask for authorization.
    let request = AuthorizationRequest {
        client_id: "client".to_string(),
        redirect_uri: REDIRECT_URI.to_string(),
        scope: DESIRED_SCOPES.to_string(),
    };
    let address = match request.begin(AUTHORIZE_ENDPOINT) {
        InitiationStep::Request(address) => address,
        other => panic!("unexpected {:?}", other),
    };
    let opened = match after_request(
        address.clone(),
        Reply::Answered { status: 200, body: Some(()) },
    ) {
        InitiationStep::OpenBrowser(opened) => opened,
        other => panic!("unexpected {:?}", other),
    };
    assert_eq!(opened, address);
    assert_eq!(after_open(opened, true), InitiationStep::Done);

    // Capture the code "abc123" from the redirect.
    let mut capture = RedirectCapture::start();
    let mut asked = Vec::new();
    let code = loop {
        let action = capture.pending();
        asked.push(action);
        let event = match action {
            CaptureAction::Bind => CaptureEvent::Bound,
            CaptureAction::Accept => CaptureEvent::Accepted,
            CaptureAction::Read => CaptureEvent::Received(
                b"GET /auth/callback/spotify?code=abc123 HTTP/1.1\r\nHost: localhost\r\n\r\n"
                    .to_vec(),
            ),
            CaptureAction::PromptManual => panic!("manual entry after a working listener"),
        };
        match capture.advance(event) {
            CaptureStep::Continue(next) => capture = next,
            CaptureStep::Captured(code) => break code,
            CaptureStep::Failed(e) => panic!("unexpected {:?}", e),
        }
    };
    assert_eq!(asked, vec![CaptureAction::Bind, CaptureAction::Accept, CaptureAction::Read]);
    assert_eq!(code.as_str(), "abc123");

    // Exchange it for tokens.
    let grant = TokenGrant::initial(code.as_str(), REDIRECT_URI);
    let form = grant.form_fields("client", "secret");
    assert_eq!(form[2], ("grant_type".to_string(), "authorization_code".to_string()));
    assert_eq!(form[3], ("code".to_string(), "abc123".to_string()));
    let tokens = read_token_reply(Reply::Answered {
        status: 200,
        body: Some(TokenSet {
            access_token: "tok".to_string(),
            token_type: "Bearer".to_string(),
            scope: "user-library-read".to_string(),
            expires_in: 3600,
            refresh_token: "ref".to_string(),
        }),
    })
    .unwrap();
    assert_eq!(tokens.access_token, "tok");
    assert_eq!(tokens.refresh_token, "ref");
    assert_eq!(tokens.expires_in, 3600);
    assert_eq!(tokens.scope, "user-library-read");
    assert_eq!(tokens.token_type, "Bearer");

    // Fetch three saved tracks in one page.
    let paginator: Paginator<SavedTrackObject> =
        Paginator::start(SAVED_TRACKS_ENDPOINT, &tokens.access_token, PAGE_SIZE);
    let page_request = paginator.pending();
    assert_eq!(page_request.url, "https://api.spotify.com/v1/me/tracks");
    assert_eq!(page_request.authorization, "Bearer tok");
    assert_eq!((page_request.offset, page_request.limit), (0, 50));
    let page = PagingObject {
        href: None,
        items: vec![
            saved("a", Some("spotify:track:a")),
            saved("b", Some("spotify:track:b")),
            saved("c", Some("spotify:track:c")),
        ],
        limit: 50,
        next: None,
        offset: 0,
        previous: None,
        total: 3,
    };
    let tracks = match paginator.advance(Reply::Answered { status: 200, body: Some(page) }) {
        FetchStep::Finished(tracks) => tracks,
        other => panic!("unexpected {:?}", other),
    };
    assert_eq!(tracks.len(), 3);

    // Write the three URIs to playlist "p1" in one request.
    let uris = playlist_sync::objects::saved_track_uris(&tracks);
    let writer = match BatchWriter::start(
        &playlist_tracks_url("p1"),
        &tokens.access_token,
        &uris,
        WRITE_CHUNK_SIZE,
    ) {
        WriteStep::Send(writer) => writer,
        other => panic!("unexpected {:?}", other),
    };
    let write_request = writer.pending();
    assert_eq!(write_request.url, "https://api.spotify.com/v1/playlists/p1/tracks");
    assert_eq!(write_request.authorization, "Bearer tok");
    assert_eq!(
        write_request.ids,
        vec!["spotify:track:a", "spotify:track:b", "spotify:track:c"]
    );
    assert!(matches!(
        writer.advance(Reply::Answered { status: 201, body: Some(()) }),
        WriteStep::Finished
    ));
}

use tado_exporter::api::{AuthStartResponse, AuthTokensErrorResponse, AuthTokensResponse};
use tado_exporter::client::Client;
use tado_exporter::session::{AuthAction, AuthError, AuthEvent, AuthPhase, PollEvent};

fn tokens(expires_in: u64) -> AuthTokensResponse {
    AuthTokensResponse {
        access_token: "access".to_string(),
        expires_in,
        refresh_token: "refresh".to_string(),
    }
}

fn pending() -> PollEvent {
    PollEvent::HttpBadRequest(Some(AuthTokensErrorResponse {
        error: "authorization_pending".to_string(),
    }))
}

fn polling(interval: u64, deadline: u64) -> AuthPhase {
    AuthPhase::Polling { device_code: "dc".to_string(), interval, deadline }
}

fn count_polls(actions: &[AuthAction]) -> usize {
    actions.iter().filter(|a| matches!(a, AuthAction::SendDevicePoll(_))).count()
}

fn sleeps(actions: &[AuthAction]) -> Vec<u64> {
    actions
        .iter()
        .filter_map(|a| if let AuthAction::SleepSeconds(s) = a { Some(*s) } else { None })
        .collect()
}

#[test]
fn device_flow_completes_after_three_polls() {
    let mut client = Client::new("cid".to_string());
    let creds = tokens(600);
    let events = vec![
        (100, AuthEvent::Woke),
        (100, AuthEvent::PollResponse(pending())),
        (105, AuthEvent::Woke),
        (105, AuthEvent::PollResponse(pending())),
        (110, AuthEvent::Woke),
        (110, AuthEvent::PollResponse(PollEvent::HttpOk(Some(creds.clone())))),
    ];

    let (phase, actions) = client.authenticate(polling(5, 1_000), events);

    assert_eq!(phase, AuthPhase::Authorized);
    assert_eq!(count_polls(&actions), 3);
    assert_eq!(sleeps(&actions), vec![5, 5]);
    // The parsed credentials of the final response are the session's.
    assert_eq!(client.tokens, creds);
    assert_eq!(client.tokens_refresh_by, 110 + 600 - 10);
    assert!(matches!(actions.last(), Some(AuthAction::PersistTokens(t)) if *t == creds));
}

#[test]
fn device_flow_access_denied_fails_without_further_polling() {
    let mut client = Client::new("cid".to_string());
    let denied = PollEvent::HttpBadRequest(Some(AuthTokensErrorResponse {
        error: "access_denied".to_string(),
    }));
    // Trailing events stand for a driver that would have kept going.
    let events = vec![
        (10, AuthEvent::Woke),
        (10, AuthEvent::PollResponse(denied)),
        (15, AuthEvent::Woke),
        (15, AuthEvent::PollResponse(pending())),
    ];

    let (phase, actions) = client.authenticate(polling(5, 1_000), events);

    assert_eq!(phase, AuthPhase::Failed(AuthError::Rejected("access_denied".to_string())));
    assert_eq!(count_polls(&actions), 1);
    assert_eq!(sleeps(&actions), Vec::<u64>::new());
}

#[test]
fn device_flow_times_out_and_stops_polling() {
    let mut client = Client::new("cid".to_string());
    let events = vec![(60, AuthEvent::Woke), (65, AuthEvent::Woke), (70, AuthEvent::Woke)];

    let (phase, actions) = client.authenticate(polling(5, 50), events);

    assert_eq!(phase, AuthPhase::Failed(AuthError::Timeout));
    assert!(actions.is_empty());
}

#[test]
fn full_device_flow_from_idle() {
    let mut client = Client::new("cid".to_string());
    let start = AuthStartResponse {
        device_code: "dc".to_string(),
        expires_in: 300,
        interval: 7,
        verification_uri_complete: "https://login.tado.com/verify?code=xyz".to_string(),
    };
    let creds = tokens(600);
    let events = vec![
        (0, AuthEvent::Tick),
        (0, AuthEvent::TokensLoaded(None)),
        (0, AuthEvent::RefreshResponse(None)),
        (0, AuthEvent::StartResponse(Some(start))),
        (0, AuthEvent::Woke),
        (3, AuthEvent::PollResponse(pending())),
        (10, AuthEvent::Woke),
        (10, AuthEvent::PollResponse(PollEvent::HttpOk(Some(creds.clone())))),
    ];

    let (phase, actions) = client.authenticate(AuthPhase::Idle, events);

    assert_eq!(phase, AuthPhase::Authorized);
    assert!(matches!(actions[0], AuthAction::ReadTokenStore));
    let refresh = match &actions[1] {
        AuthAction::SendRefresh(req) => req,
        other => panic!("expected a refresh, got {:?}", other),
    };
    assert_eq!(refresh.url, "https://login.tado.com/oauth2/token");
    assert_eq!(
        refresh.params,
        vec![
            ("client_id".to_string(), "cid".to_string()),
            ("grant_type".to_string(), "refresh_token".to_string()),
            ("refresh_token".to_string(), "".to_string()),
        ]
    );
    let start_req = match &actions[2] {
        AuthAction::SendDeviceStart(req) => req,
        other => panic!("expected a device start, got {:?}", other),
    };
    assert_eq!(start_req.url, "https://login.tado.com/oauth2/device_authorize");
    assert_eq!(
        start_req.params,
        vec![
            ("client_id".to_string(), "cid".to_string()),
            ("scope".to_string(), "offline_access".to_string()),
        ]
    );
    assert!(
        matches!(&actions[3], AuthAction::ShowVerification(url) if url == "https://login.tado.com/verify?code=xyz")
    );
    let poll = match &actions[4] {
        AuthAction::SendDevicePoll(req) => req,
        other => panic!("expected a poll, got {:?}", other),
    };
    assert_eq!(poll.url, "https://login.tado.com/oauth2/token");
    assert_eq!(
        poll.params,
        vec![
            ("client_id".to_string(), "cid".to_string()),
            ("device_code".to_string(), "dc".to_string()),
            (
                "grant_type".to_string(),
                "urn:ietf:params:oauth:grant-type:device_code".to_string()
            ),
        ]
    );
    assert!(matches!(&actions[5], AuthAction::SleepSeconds(7)));
    assert!(matches!(&actions[6], AuthAction::SendDevicePoll(_)));
    assert!(matches!(&actions[7], AuthAction::PersistTokens(t) if *t == creds));
    assert_eq!(actions.len(), 8);
}

#[test]
fn second_session_check_is_a_noop() {
    let mut client = Client::new("cid".to_string());
    client.tokens_loaded = true;
    client.set_tokens(tokens(600), 100);

    let (phase, actions) = client.authenticate(AuthPhase::Idle, vec![(100, AuthEvent::Tick)]);

    assert_eq!(phase, AuthPhase::Authorized);
    assert!(actions.is_empty());
}

#[test]
fn refresh_success_skips_device_flow() {
    let mut client = Client::new("cid".to_string());
    client.tokens_loaded = true;
    client.tokens = tokens(600);
    let fresh = AuthTokensResponse {
        access_token: "new-access".to_string(),
        expires_in: 900,
        refresh_token: "new-refresh".to_string(),
    };
    let events = vec![
        (50, AuthEvent::Tick),
        (50, AuthEvent::RefreshResponse(Some(fresh.clone()))),
    ];

    let (phase, actions) = client.authenticate(AuthPhase::Idle, events);

    assert_eq!(phase, AuthPhase::Authorized);
    assert!(matches!(&actions[0], AuthAction::SendRefresh(_)));
    assert!(matches!(&actions[1], AuthAction::PersistTokens(t) if *t == fresh));
    assert_eq!(actions.len(), 2);
    assert_eq!(client.tokens, fresh);
    assert_eq!(client.tokens_refresh_by, 50 + 900 - 10);
}

#[test]
fn start_failure_is_a_transport_error() {
    let mut client = Client::new("cid".to_string());
    let (phase, _) = client.authenticate(
        AuthPhase::StartingFlow,
        vec![(0, AuthEvent::StartResponse(None))],
    );
    assert_eq!(phase, AuthPhase::Failed(AuthError::Transport));
}

#[test]
fn unexpected_status_fails_with_the_status() {
    let mut client = Client::new("cid".to_string());
    let (phase, _) = client.authenticate(
        polling(5, 1_000),
        vec![
            (0, AuthEvent::Woke),
            (0, AuthEvent::PollResponse(PollEvent::HttpOther(503))),
        ],
    );
    assert_eq!(phase, AuthPhase::Failed(AuthError::UnexpectedStatus(503)));
}

#[test]
fn undecodable_poll_bodies_are_transport_errors() {
    let mut client = Client::new("cid".to_string());
    let (phase, _) = client.authenticate(
        polling(5, 1_000),
        vec![
            (0, AuthEvent::Woke),
            (0, AuthEvent::PollResponse(PollEvent::HttpOk(None))),
        ],
    );
    assert_eq!(phase, AuthPhase::Failed(AuthError::Transport));

    let mut client = Client::new("cid".to_string());
    let (phase, _) = client.authenticate(
        polling(5, 1_000),
        vec![
            (0, AuthEvent::Woke),
            (0, AuthEvent::PollResponse(PollEvent::HttpBadRequest(None))),
        ],
    );
    assert_eq!(phase, AuthPhase::Failed(AuthError::Transport));

    let mut client = Client::new("cid".to_string());
    let (phase, _) = client.authenticate(
        polling(5, 1_000),
        vec![
            (0, AuthEvent::Woke),
            (0, AuthEvent::PollResponse(PollEvent::Transport)),
        ],
    );
    assert_eq!(phase, AuthPhase::Failed(AuthError::Transport));
}

use apollo_client::conf::meta::Notification;
use apollo_client::conf::requests::WatchRequest;
use apollo_client::conf::responses::FetchResponse;
use apollo_client::conf::watch::ChangeBatch;
use apollo_client::conf::watch::LongPollOutcome;
use apollo_client::conf::watch::PollResult;
use apollo_client::conf::watch::WatchAction;
use apollo_client::conf::watch::WatchSession;
use apollo_client::conf::watch::classify_poll_result;
use apollo_client::errors::ApolloClientError;

fn watch_request(app_id: &str, namespaces: &[&str]) -> WatchRequest {
    WatchRequest {
        app_id: app_id.to_string(),
        namespace_names: namespaces.iter().map(|s| s.to_string()).collect(),
        ..Default::default()
    }
}

fn changed(entries: &[(&str, i32)]) -> LongPollOutcome {
    LongPollOutcome::Changed(
        entries
            .iter()
            .map(|(namespace, id)| Notification {
                namespace_name: namespace.to_string(),
                notification_id: *id,
            })
            .collect(),
    )
}

fn payload(namespace: &str) -> FetchResponse {
    FetchResponse {
        app_id: "SampleApp".to_string(),
        cluster: "default".to_string(),
        namespace_name: namespace.to_string(),
        configurations: vec![("timeout".to_string(), "100".to_string())],
        release_key: "release-1".to_string(),
    }
}

#[test]
fn test_first_batch_is_unconditional() {
    let session = WatchSession::new(watch_request("SampleApp", &["a", "b"]));
    let requests = session.initial_fetch_requests();
    assert_eq!(requests.len(), 2);
    assert_eq!(requests[0].namespace_name, "a");
    assert_eq!(requests[1].namespace_name, "b");

    // The first batch does not depend on what the first poll reports.
    let mut session = WatchSession::new(watch_request("SampleApp", &["a", "b"]));
    let action = session.on_poll_outcome(LongPollOutcome::TimedOut);
    assert!(matches!(action, WatchAction::Poll));
    let requests = session.initial_fetch_requests();
    assert_eq!(requests.len(), 2);
    assert_eq!(requests[0].namespace_name, "a");
    assert_eq!(requests[1].namespace_name, "b");
}

#[test]
fn test_silent_outcomes_emit_nothing() {
    let mut session = WatchSession::new(watch_request("SampleApp", &["a", "b"]));
    let before: Vec<Notification> = session.notifications().clone();
    for _ in 0..3 {
        assert!(matches!(
            session.on_poll_outcome(LongPollOutcome::Unchanged),
            WatchAction::Poll
        ));
        assert!(matches!(
            session.on_poll_outcome(LongPollOutcome::TimedOut),
            WatchAction::Poll
        ));
    }
    assert_eq!(session.notifications(), &before);
}

#[test]
fn test_changed_merges_and_fetches_exactly_the_reported() {
    let mut session = WatchSession::new(watch_request("SampleApp", &["a", "b"]));
    let action = session.on_poll_outcome(changed(&[("b", 5)]));
    match action {
        WatchAction::Fetch(requests) => {
            assert_eq!(requests.len(), 1);
            assert_eq!(requests[0].namespace_name, "b");
            assert_eq!(requests[0].app_id, "SampleApp");
        }
        _ => panic!("a change must be answered with fetches"),
    }
    let state = session.notifications();
    assert_eq!(state.len(), 2);
    assert_eq!(state[0].namespace_name, "a");
    assert_eq!(state[0].notification_id, -1);
    assert_eq!(state[1].namespace_name, "b");
    assert_eq!(state[1].notification_id, 5);
}

#[test]
fn test_partial_fetch_failure_isolation() {
    let mut session = WatchSession::new(watch_request("SampleApp", &["a", "b"]));
    let action = session.on_poll_outcome(changed(&[("a", 2), ("b", 3)]));
    let requests = match action {
        WatchAction::Fetch(requests) => requests,
        _ => panic!("a change must be answered with fetches"),
    };
    assert_eq!(requests.len(), 2);

    // "a" fails, "b" succeeds: the batch records both, independently.
    let batch = ChangeBatch::from_results(vec![
        (
            "a".to_string(),
            Err(ApolloClientError::Transport("connection reset".to_string())),
        ),
        ("b".to_string(), Ok(payload("b"))),
    ]);
    assert_eq!(batch.len(), 2);
    assert!(matches!(batch.get("a"), Some(Err(_))));
    assert!(matches!(batch.get("b"), Some(Ok(_))));
    assert!(batch.get("c").is_none());

    // The next poll is unaffected by "a"'s fetch failure.
    let next = session.notify_request();
    assert_eq!(next.notifications[0].namespace_name, "a");
    assert_eq!(next.notifications[0].notification_id, 2);
    assert_eq!(next.notifications[1].namespace_name, "b");
    assert_eq!(next.notifications[1].notification_id, 3);
}

#[test]
fn test_hard_error_is_reported_and_state_untouched() {
    let mut session = WatchSession::new(watch_request("SampleApp", &["a"]));
    let before: Vec<Notification> = session.notifications().clone();
    let action = session.on_poll_outcome(LongPollOutcome::HardError(
        ApolloClientError::MalformedBody,
    ));
    match action {
        WatchAction::Report(e) => assert_eq!(e, ApolloClientError::MalformedBody),
        _ => panic!("a hard error must be reported"),
    }
    assert_eq!(session.notifications(), &before);
}

#[test]
fn test_namespace_set_immutability() {
    let mut session = WatchSession::new(watch_request("SampleApp", &["x", "y"]));
    session.on_poll_outcome(changed(&[("x", 1)]));
    session.on_poll_outcome(LongPollOutcome::Unchanged);
    session.on_poll_outcome(changed(&[("y", 4), ("stranger", 9)]));
    session.on_poll_outcome(LongPollOutcome::HardError(
        ApolloClientError::MalformedBody,
    ));
    let state = session.notifications();
    assert_eq!(state.len(), 2);
    assert_eq!(state[0].namespace_name, "x");
    assert_eq!(state[1].namespace_name, "y");
    assert_eq!(state[0].notification_id, 1);
    assert_eq!(state[1].notification_id, 4);
}

#[test]
fn test_duplicate_namespaces_collapse() {
    let session = WatchSession::new(watch_request("SampleApp", &["a", "b", "a"]));
    let state = session.notifications();
    assert_eq!(state.len(), 2);
    assert_eq!(state[0].namespace_name, "a");
    assert_eq!(state[1].namespace_name, "b");
}

#[test]
fn test_end_to_end_scenario() {
    // App "Sample", namespaces ["app.json"].
    let mut session = WatchSession::new(watch_request("Sample", &["app.json"]));

    // The first check runs with the short first-check timeout.
    assert!(session.is_uninitialized());
    assert_eq!(session.poll_timeout_ms(), 3_000);

    // The unconditional first batch covers app.json, whatever the poll said.
    let first = session.initial_fetch_requests();
    assert_eq!(first.len(), 1);
    assert_eq!(first[0].namespace_name, "app.json");
    assert!(matches!(
        session.on_poll_outcome(LongPollOutcome::TimedOut),
        WatchAction::Poll
    ));
    assert_eq!(session.initial_fetch_requests()[0].namespace_name, "app.json");

    // Second poll reports a change: state moves to id 2 and app.json is fetched.
    let action = session.on_poll_outcome(changed(&[("app.json", 2)]));
    match action {
        WatchAction::Fetch(requests) => {
            assert_eq!(requests.len(), 1);
            assert_eq!(requests[0].namespace_name, "app.json");
        }
        _ => panic!("a change must be answered with fetches"),
    }
    assert_eq!(session.notifications()[0].notification_id, 2);
    assert!(!session.is_uninitialized());
    assert_eq!(session.poll_timeout_ms(), 90_000);
    let batch = ChangeBatch::from_results(vec![("app.json".to_string(), Ok(payload("app.json")))]);
    assert!(matches!(batch.get("app.json"), Some(Ok(_))));

    // Repeated not-modified answers emit nothing and move nothing.
    for _ in 0..3 {
        assert!(matches!(
            session.on_poll_outcome(LongPollOutcome::Unchanged),
            WatchAction::Poll
        ));
        assert_eq!(session.notifications()[0].notification_id, 2);
    }
}

#[test]
fn test_classify_poll_results() {
    assert!(matches!(
        classify_poll_result(PollResult::ClientTimeout),
        LongPollOutcome::TimedOut
    ));
    assert!(matches!(
        classify_poll_result(PollResult::Response {
            status: 304,
            notifications: None,
            body: String::new(),
        }),
        LongPollOutcome::Unchanged
    ));
    match classify_poll_result(PollResult::Response {
        status: 200,
        notifications: Some(vec![Notification {
            namespace_name: "a".to_string(),
            notification_id: 2,
        }]),
        body: String::new(),
    }) {
        LongPollOutcome::Changed(entries) => {
            assert_eq!(entries.len(), 1);
            assert_eq!(entries[0].namespace_name, "a");
            assert_eq!(entries[0].notification_id, 2);
        }
        _ => panic!("a success status with entries is a change"),
    }
    assert!(matches!(
        classify_poll_result(PollResult::Response {
            status: 200,
            notifications: Some(vec![]),
            body: String::new(),
        }),
        LongPollOutcome::Unchanged
    ));
    assert!(matches!(
        classify_poll_result(PollResult::Response {
            status: 200,
            notifications: None,
            body: "not json".to_string(),
        }),
        LongPollOutcome::HardError(ApolloClientError::MalformedBody)
    ));
    match classify_poll_result(PollResult::Response {
        status: 500,
        notifications: None,
        body: "boom".to_string(),
    }) {
        LongPollOutcome::HardError(ApolloClientError::ApolloResponse(e)) => {
            assert_eq!(e.status, 500);
            assert_eq!(e.body, "boom");
        }
        _ => panic!("a non-success status is a hard error"),
    }
    match classify_poll_result(PollResult::TransportError {
        message: "dns".to_string(),
    }) {
        LongPollOutcome::HardError(ApolloClientError::Transport(message)) => {
            assert_eq!(message, "dns");
        }
        _ => panic!("a transport failure is a hard error"),
    }
}

#[test]
fn test_fetch_response_configuration_lookup() {
    let response = payload("application");
    assert_eq!(response.configuration("timeout"), Some(&"100".to_string()));
    assert_eq!(response.configuration("missing"), None);
}

use iotedge::uds::{describe_error, ConnectError, ConnectFuture, ConnectState, PollStep, UnixConnector, is_unix_scheme};

#[test]
fn unix_scheme_is_recognised() {
    assert!(is_unix_scheme("unix"));
    assert!(!is_unix_scheme("http"));
    assert!(!is_unix_scheme("unixx"));
    assert!(!is_unix_scheme(""));
}

#[test]
fn other_schemes_are_refused() {
    let (fut, path) = UnixConnector.connect("http", Ok("/var/run/docker.sock".to_string()));
    assert_eq!(path, None);
    assert!(matches!(fut.poll_step(), PollStep::Fail(ConnectError::Connect(_))));
}

#[test]
fn unix_destination_starts_connecting() {
    let (fut, path) = UnixConnector.connect("unix", Ok("/var/run/docker.sock".to_string()));
    assert_eq!(path, Some("/var/run/docker.sock".to_string()));
    assert_eq!(fut.poll_step(), PollStep::PollConnection);
}

#[test]
fn bad_socket_path_is_reported() {
    let (fut, path) = UnixConnector.connect("unix", Err(ConnectError::InvalidUdsPath("zz".to_string())));
    assert_eq!(path, None);
    match fut.poll_step() {
        PollStep::Fail(ConnectError::Connect(text)) => assert!(text.contains("InvalidUdsPath")),
        other => panic!("unexpected {:?}", other),
    }
}

#[test]
fn new_future_starts_a_known_path() {
    let (fut, path) = ConnectFuture::new(ConnectState::Initialized("/tmp/s".to_string()));
    assert_eq!(path, Some("/tmp/s".to_string()));
    assert_eq!(fut.poll_step(), PollStep::PollConnection);
    let (fut, path) = ConnectFuture::new(ConnectState::Error(ConnectError::InvalidUrlScheme));
    assert_eq!(path, None);
    assert_eq!(
        fut.poll_step(),
        PollStep::Fail(ConnectError::Connect("InvalidUrlScheme".to_string()))
    );
}

#[test]
fn error_text_is_the_debug_rendering() {
    let errors = vec![
        ConnectError::InvalidUrlScheme,
        ConnectError::InvalidConnectState,
        ConnectError::InvalidUdsPath("a \"quoted\"\n\\path".to_string()),
        ConnectError::Connect("caf\u{e9}\t".to_string()),
    ];
    for e in errors {
        assert_eq!(describe_error(&e), format!("{:?}", e));
    }
    assert_eq!(
        describe_error(&ConnectError::InvalidUdsPath("x\"y".to_string())),
        "InvalidUdsPath(\"x\\\"y\")"
    );
}

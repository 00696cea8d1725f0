use faucet::error::{BadRequestReason, FaucetError, PoolError, TimeoutType};

#[test]
fn test_faucet_error() {
    let err = FaucetError::unknown("test");
    assert_eq!(err.to_string(), "Unknown error: test");
}

#[test]
fn test_faucet_error_debug() {
    let err = FaucetError::unknown("test");
    assert_eq!(err.debug_string(), r#"Unknown error: "test""#);
}

#[test]
fn test_faucet_error_from_pool_error() {
    let err = PoolError::Backend(FaucetError::unknown("test"));

    let err: FaucetError = From::from(err);
    assert_eq!(err.debug_string(), r#"Unknown error: "test""#);
    assert_eq!(err.to_string(), "Unknown error: test");
}

#[test]
fn test_faucet_error_from_pool_timeout_error() {
    let err = PoolError::Timeout(TimeoutType::Create);

    let err: FaucetError = From::from(err);
    assert!(matches!(err, FaucetError::PoolTimeout(TimeoutType::Create)));
    assert_eq!(err.debug_string(), "Pool timeout error: Create");
    assert_eq!(err.to_string(), "Pool timeout error: Create");
}

#[test]
fn test_faucet_error_from_pool_closed_error() {
    let err = PoolError::Closed;

    let err: FaucetError = From::from(err);
    assert!(matches!(err, FaucetError::PoolClosed));
    assert_eq!(err.to_string(), "Pool closed error");
}

#[test]
fn test_faucet_error_from_pool_post_create_hook_error() {
    let err = PoolError::PostCreateHook;

    let err: FaucetError = From::from(err);
    assert!(matches!(err, FaucetError::PoolPostCreateHook));
    assert_eq!(err.to_string(), "Pool post create hook error");
}

#[test]
fn test_faucet_error_from_pool_no_runtime_specified_error() {
    let err = PoolError::NoRuntimeSpecified;

    let err: FaucetError = From::from(err);
    assert!(matches!(err, FaucetError::PoolNoRuntimeSpecified));
    assert_eq!(err.to_string(), "Pool no runtime specified error");
}

#[test]
fn test_faucet_error_displat_missing_header() {
    let err = FaucetError::BadRequest(BadRequestReason::MissingHeader("test"));
    assert_eq!(err.debug_string(), "Missing header: test");
    assert_eq!(err.to_string(), "Missing header: test");
}

#[test]
fn test_faucet_error_displat_invalid_header() {
    let err = FaucetError::BadRequest(BadRequestReason::InvalidHeader("test"));
    assert_eq!(err.debug_string(), "Invalid header: test");
    assert_eq!(err.to_string(), "Invalid header: test");
}

#[test]
fn test_from_fauct_error_to_hyper_response() {
    let err = FaucetError::unknown("test");
    let resp = err.into_response();
    assert_eq!(resp.status, 500);
}

#[test]
fn response_body_is_the_description() {
    let resp = FaucetError::unknown("test").into_response();
    assert_eq!(resp.status, 500);
    assert_eq!(resp.body, "Unknown error: test");

    let resp = FaucetError::PoolTimeout(TimeoutType::Wait).into_response();
    assert_eq!(resp.status, 500);
    assert_eq!(resp.body, "Pool timeout error: Wait");
}

#[test]
fn every_variant_renders_its_description() {
    let cases: Vec<(FaucetError, &str)> = vec![
        (FaucetError::PoolBuild("no runtime".to_string()), "Pool build error: no runtime"),
        (FaucetError::PoolTimeout(TimeoutType::Recycle), "Pool timeout error: Recycle"),
        (FaucetError::Io("broken pipe".to_string()), "IO error: broken pipe"),
        (
            FaucetError::HostParseError("invalid socket address syntax".to_string()),
            "Error parsing host address: invalid socket address syntax",
        ),
        (FaucetError::Hyper("connection closed".to_string()), "Hyper error: connection closed"),
        (FaucetError::Http("invalid uri".to_string()), "Http error: invalid uri"),
        (
            FaucetError::InvalidHeaderValues("bad byte".to_string()),
            "Invalid header values: bad byte",
        ),
        (FaucetError::MissingArgument("dir"), "Missing argument: dir"),
        (FaucetError::DuplicateRoute("/api"), "Route '/api' is duplicated\n"),
    ];
    for (err, expected) in cases {
        assert_eq!(err.to_string(), expected);
        assert_eq!(err.debug_string(), expected);
    }
}

#[test]
fn debug_string_escapes_the_unknown_message() {
    let err = FaucetError::unknown("say \"hi\"\n");
    assert_eq!(err.debug_string(), "Unknown error: \"say \\\"hi\\\"\\n\"");
    assert_eq!(err.to_string(), "Unknown error: say \"hi\"\n");
}

#[test]
fn missing_websocket_key_is_a_bad_request() {
    let err = FaucetError::no_sec_web_socket_key();
    assert!(err.is_bad_request());
    assert_eq!(err.to_string(), "Missing header: Sec-WebSocket-Key");
    assert!(!FaucetError::PoolClosed.is_bad_request());
    assert!(!FaucetError::unknown("x").is_bad_request());
}

#[test]
fn pool_timeout_is_not_a_build_error() {
    for t in [TimeoutType::Wait, TimeoutType::Create, TimeoutType::Recycle] {
        let err = FaucetError::from_pool_error(PoolError::Timeout(t));
        assert!(matches!(err, FaucetError::PoolTimeout(x) if x == t));
        assert!(!matches!(err, FaucetError::PoolBuild(_)));
    }
}

use salvo_extra::ws::{
    Headers, PendingUpgrade, Rejection, Request, Response, Role, WebSocketConfig, WsHandler,
};

const SAMPLE_KEY: &[u8] = b"dGhlIHNhbXBsZSBub25jZQ==";
const SAMPLE_ACCEPT: &[u8] = b"s3pPLMBiTxaQ9kYGzzhZRbK+xOo=";

fn request(fields: &[(&[u8], &[u8])], upgradable: bool) -> Request {
    let mut headers = Headers::new();
    for (name, value) in fields {
        headers.append(name, value);
    }
    Request { headers, upgradable }
}

fn valid_request() -> Request {
    request(
        &[
            (b"Connection", b"Upgrade"),
            (b"Upgrade", b"websocket"),
            (b"Sec-WebSocket-Version", b"13"),
            (b"Sec-WebSocket-Key", SAMPLE_KEY),
        ],
        true,
    )
}

fn empty_response() -> Response {
    Response { status_code: None, headers: Headers::new() }
}

fn busy_response() -> Response {
    let mut headers = Headers::new();
    headers.append(b"Server", b"salvo");
    headers.append(b"Connection", b"close");
    headers.append(b"Set-Cookie", b"a=1");
    headers.append(b"Set-Cookie", b"b=2");
    Response { status_code: Some(200), headers }
}

fn value(bytes: &[u8]) -> Vec<u8> {
    bytes.to_vec()
}

#[test]
fn sample_key_gives_sample_accept() {
    let mut req = valid_request();
    let mut res = empty_response();
    let outcome = WsHandler::new().handle(&mut req, &mut res);
    assert_eq!(outcome, Ok(PendingUpgrade { role: Role::Server, config: None }));
    assert_eq!(res.status_code, Some(101));
    assert_eq!(res.headers.get(b"sec-websocket-accept"), Some(&value(SAMPLE_ACCEPT)));
    assert_eq!(res.headers.get(b"connection"), Some(&value(b"upgrade")));
    assert_eq!(res.headers.get(b"upgrade"), Some(&value(b"websocket")));
    assert_eq!(res.headers.len(), 3);
}

#[test]
fn accepted_handshake_takes_the_pending_upgrade() {
    let mut req = valid_request();
    let before = req.headers.clone();
    let mut res = empty_response();
    assert!(WsHandler::new().handle(&mut req, &mut res).is_ok());
    assert!(!req.upgradable);
    assert_eq!(req.headers, before);
}

#[test]
fn accepted_handshake_carries_the_chosen_limits() {
    let handler = WsHandler::new().max_frame_size(1024);
    let mut req = valid_request();
    let mut res = empty_response();
    let pending = handler.handle(&mut req, &mut res).unwrap();
    assert_eq!(pending.role, Role::Server);
    assert_eq!(
        pending.config,
        Some(WebSocketConfig {
            max_send_queue: None,
            max_message_size: Some(64 << 20),
            max_frame_size: Some(1024),
            accept_unmasked_frames: false,
        })
    );
}

#[test]
fn accepted_handshake_leaves_other_headers() {
    let mut req = valid_request();
    let mut res = busy_response();
    assert!(WsHandler::new().handle(&mut req, &mut res).is_ok());
    assert_eq!(res.status_code, Some(101));
    assert_eq!(res.headers.get_all(b"server"), vec![value(b"salvo")]);
    assert_eq!(res.headers.get_all(b"set-cookie"), vec![value(b"a=1"), value(b"b=2")]);
    assert_eq!(res.headers.get_all(b"connection"), vec![value(b"upgrade")]);
    assert_eq!(res.headers.get_all(b"upgrade"), vec![value(b"websocket")]);
    assert_eq!(res.headers.get_all(b"sec-websocket-accept"), vec![value(SAMPLE_ACCEPT)]);
    assert_eq!(res.headers.len(), 6);
}

#[test]
fn staging_twice_changes_nothing() {
    let mut res = busy_response();
    let mut first = valid_request();
    assert!(WsHandler::new().handle(&mut first, &mut res).is_ok());
    let staged = res.clone();
    let mut second = valid_request();
    assert!(WsHandler::new().handle(&mut second, &mut res).is_ok());
    assert_eq!(res, staged);
}

#[test]
fn missing_connection_header_is_rejected() {
    let mut req = request(
        &[
            (b"Upgrade", b"websocket"),
            (b"Sec-WebSocket-Version", b"13"),
            (b"Sec-WebSocket-Key", SAMPLE_KEY),
        ],
        true,
    );
    let mut res = busy_response();
    let before = res.clone();
    let outcome = WsHandler::new().handle(&mut req, &mut res);
    assert_eq!(outcome, Err(Rejection::MissingConnectionUpgrade));
    assert_eq!(res, before);
    assert!(req.upgradable);
}

#[test]
fn connection_without_upgrade_option_is_rejected() {
    let mut req = request(
        &[
            (b"Connection", b"keep-alive"),
            (b"Upgrade", b"websocket"),
            (b"Sec-WebSocket-Version", b"13"),
            (b"Sec-WebSocket-Key", SAMPLE_KEY),
        ],
        true,
    );
    let mut res = empty_response();
    let outcome = WsHandler::new().handle(&mut req, &mut res);
    assert_eq!(outcome, Err(Rejection::MissingConnectionUpgrade));
    assert_eq!(res, empty_response());
}

#[test]
fn connection_option_is_found_among_others() {
    let mut req = request(
        &[
            (b"Connection", b"keep-alive, Upgrade"),
            (b"Upgrade", b"websocket"),
            (b"Sec-WebSocket-Version", b"13"),
            (b"Sec-WebSocket-Key", SAMPLE_KEY),
        ],
        true,
    );
    let mut res = empty_response();
    assert!(WsHandler::new().handle(&mut req, &mut res).is_ok());
}

#[test]
fn connection_option_is_found_in_a_second_field() {
    let mut req = request(
        &[
            (b"Connection", b"keep-alive"),
            (b"Upgrade", b"websocket"),
            (b"Connection", b"UPGRADE"),
            (b"Sec-WebSocket-Version", b"13"),
            (b"Sec-WebSocket-Key", SAMPLE_KEY),
        ],
        true,
    );
    let mut res = empty_response();
    assert!(WsHandler::new().handle(&mut req, &mut res).is_ok());
}

#[test]
fn connection_option_inside_quotes_does_not_count() {
    let mut req = request(
        &[
            (b"Connection", b"x=\"a, upgrade\""),
            (b"Upgrade", b"websocket"),
            (b"Sec-WebSocket-Version", b"13"),
            (b"Sec-WebSocket-Key", SAMPLE_KEY),
        ],
        true,
    );
    let mut res = empty_response();
    let outcome = WsHandler::new().handle(&mut req, &mut res);
    assert_eq!(outcome, Err(Rejection::MissingConnectionUpgrade));
}

#[test]
fn connection_value_with_control_byte_is_rejected() {
    let mut req = request(
        &[
            (b"Connection", b"upgrade\n"),
            (b"Upgrade", b"websocket"),
            (b"Sec-WebSocket-Version", b"13"),
            (b"Sec-WebSocket-Key", SAMPLE_KEY),
        ],
        true,
    );
    let mut res = empty_response();
    let outcome = WsHandler::new().handle(&mut req, &mut res);
    assert_eq!(outcome, Err(Rejection::MissingConnectionUpgrade));
}

#[test]
fn missing_upgrade_header_is_rejected() {
    let mut req = request(
        &[
            (b"Connection", b"upgrade"),
            (b"Sec-WebSocket-Version", b"13"),
            (b"Sec-WebSocket-Key", SAMPLE_KEY),
        ],
        true,
    );
    let mut res = busy_response();
    let before = res.clone();
    let outcome = WsHandler::new().handle(&mut req, &mut res);
    assert_eq!(outcome, Err(Rejection::UpgradeNotWebsocket));
    assert_eq!(res, before);
}

#[test]
fn other_upgrade_protocol_is_rejected() {
    let mut req = request(
        &[
            (b"Connection", b"upgrade"),
            (b"Upgrade", b"h2c"),
            (b"Sec-WebSocket-Version", b"13"),
            (b"Sec-WebSocket-Key", SAMPLE_KEY),
        ],
        true,
    );
    let mut res = empty_response();
    let outcome = WsHandler::new().handle(&mut req, &mut res);
    assert_eq!(outcome, Err(Rejection::UpgradeNotWebsocket));
    assert_eq!(res, empty_response());
}

#[test]
fn only_the_first_upgrade_value_counts() {
    let mut req = request(
        &[
            (b"Connection", b"upgrade"),
            (b"Upgrade", b"h2c"),
            (b"Upgrade", b"websocket"),
            (b"Sec-WebSocket-Version", b"13"),
            (b"Sec-WebSocket-Key", SAMPLE_KEY),
        ],
        true,
    );
    let mut res = empty_response();
    let outcome = WsHandler::new().handle(&mut req, &mut res);
    assert_eq!(outcome, Err(Rejection::UpgradeNotWebsocket));
}

#[test]
fn upgrade_is_matched_in_any_case() {
    let mut req = request(
        &[
            (b"connection", b"upgrade"),
            (b"upgrade", b"WebSocket"),
            (b"sec-websocket-version", b"13"),
            (b"sec-websocket-key", SAMPLE_KEY),
        ],
        true,
    );
    let mut res = empty_response();
    assert!(WsHandler::new().handle(&mut req, &mut res).is_ok());
    assert_eq!(res.headers.get(b"Sec-WebSocket-Accept"), Some(&value(SAMPLE_ACCEPT)));
}

#[test]
fn other_version_is_rejected() {
    let mut req = request(
        &[
            (b"Connection", b"upgrade"),
            (b"Upgrade", b"websocket"),
            (b"Sec-WebSocket-Version", b"12"),
            (b"Sec-WebSocket-Key", SAMPLE_KEY),
        ],
        true,
    );
    let mut res = busy_response();
    let before = res.clone();
    let outcome = WsHandler::new().handle(&mut req, &mut res);
    assert_eq!(outcome, Err(Rejection::VersionNot13));
    assert_eq!(res, before);
}

#[test]
fn missing_version_is_rejected() {
    let mut req = request(
        &[
            (b"Connection", b"upgrade"),
            (b"Upgrade", b"websocket"),
            (b"Sec-WebSocket-Key", SAMPLE_KEY),
        ],
        true,
    );
    let mut res = empty_response();
    let outcome = WsHandler::new().handle(&mut req, &mut res);
    assert_eq!(outcome, Err(Rejection::VersionNot13));
}

#[test]
fn version_with_space_is_rejected() {
    let mut req = request(
        &[
            (b"Connection", b"upgrade"),
            (b"Upgrade", b"websocket"),
            (b"Sec-WebSocket-Version", b"13 "),
            (b"Sec-WebSocket-Key", SAMPLE_KEY),
        ],
        true,
    );
    let mut res = empty_response();
    let outcome = WsHandler::new().handle(&mut req, &mut res);
    assert_eq!(outcome, Err(Rejection::VersionNot13));
}

#[test]
fn missing_key_is_rejected() {
    let mut req = request(
        &[
            (b"Connection", b"upgrade"),
            (b"Upgrade", b"websocket"),
            (b"Sec-WebSocket-Version", b"13"),
        ],
        true,
    );
    let mut res = busy_response();
    let before = res.clone();
    let outcome = WsHandler::new().handle(&mut req, &mut res);
    assert_eq!(outcome, Err(Rejection::MissingKey));
    assert_eq!(res, before);
    assert!(req.upgradable);
}

#[test]
fn malformed_key_is_rejected() {
    let mut req = request(
        &[
            (b"Connection", b"upgrade"),
            (b"Upgrade", b"websocket"),
            (b"Sec-WebSocket-Version", b"13"),
            (b"Sec-WebSocket-Key", b"not base64!"),
        ],
        true,
    );
    let mut res = empty_response();
    let outcome = WsHandler::new().handle(&mut req, &mut res);
    assert_eq!(outcome, Err(Rejection::MissingKey));
    assert_eq!(res, empty_response());
}

#[test]
fn checks_are_made_in_order() {
    let mut req = request(&[(b"Upgrade", b"h2c"), (b"Sec-WebSocket-Version", b"8")], false);
    let mut res = empty_response();
    assert_eq!(
        WsHandler::new().handle(&mut req, &mut res),
        Err(Rejection::MissingConnectionUpgrade)
    );
    req.headers.append(b"Connection", b"upgrade");
    assert_eq!(WsHandler::new().handle(&mut req, &mut res), Err(Rejection::UpgradeNotWebsocket));
    req.headers.insert(b"Upgrade", b"websocket");
    assert_eq!(WsHandler::new().handle(&mut req, &mut res), Err(Rejection::VersionNot13));
    req.headers.insert(b"Sec-WebSocket-Version", b"13");
    assert_eq!(WsHandler::new().handle(&mut req, &mut res), Err(Rejection::MissingKey));
    assert_eq!(res, empty_response());
    req.headers.insert(b"Sec-WebSocket-Key", SAMPLE_KEY);
    assert_eq!(WsHandler::new().handle(&mut req, &mut res), Err(Rejection::NoUpgradeState));
}

#[test]
fn missing_upgrade_state_is_rejected_after_staging() {
    let mut req = valid_request();
    req.upgradable = false;
    let mut res = empty_response();
    let outcome = WsHandler::new().handle(&mut req, &mut res);
    assert_eq!(outcome, Err(Rejection::NoUpgradeState));
    assert_eq!(res.status_code, Some(101));
    assert_eq!(res.headers.get(b"sec-websocket-accept"), Some(&value(SAMPLE_ACCEPT)));
    assert!(!req.upgradable);
}

#[test]
fn different_keys_give_different_tokens() {
    let mut req = request(
        &[
            (b"Connection", b"upgrade"),
            (b"Upgrade", b"websocket"),
            (b"Sec-WebSocket-Version", b"13"),
            (b"Sec-WebSocket-Key", b"x3JJHMbDL1EzLkh9GBhXDw=="),
        ],
        true,
    );
    let mut res = empty_response();
    assert!(WsHandler::new().handle(&mut req, &mut res).is_ok());
    assert_eq!(
        res.headers.get(b"sec-websocket-accept"),
        Some(&value(b"HSmrc0sMlYUkAGmm5OPpG2HaGWk="))
    );
}

#[test]
fn summaries_are_exact() {
    assert_eq!(Rejection::MissingConnectionUpgrade.summary(), "missing connection upgrade");
    assert_eq!(
        Rejection::UpgradeNotWebsocket.summary(),
        "missing upgrade header or it is not equal websocket"
    );
    assert_eq!(Rejection::VersionNot13.summary(), "websocket version is not equal 13");
    assert_eq!(
        Rejection::MissingKey.summary(),
        "sec_websocket_key is not exist in request headers"
    );
    assert_eq!(
        Rejection::NoUpgradeState.summary(),
        "ws couldn't be upgraded since no upgrade state was present"
    );
}

#[test]
fn rejections_are_bad_requests() {
    for rejection in [
        Rejection::MissingConnectionUpgrade,
        Rejection::UpgradeNotWebsocket,
        Rejection::VersionNot13,
        Rejection::MissingKey,
        Rejection::NoUpgradeState,
    ] {
        assert_eq!(rejection.status_code(), 400);
        assert_eq!(rejection.is_header_fault(), rejection != Rejection::NoUpgradeState);
    }
}

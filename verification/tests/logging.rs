use salvo_extra::logging::LogHandler;
use salvo_extra::ws::MissingConnectionUpgrade;

#[test]
fn logged_status_prefers_the_set_status() {
    assert_eq!(LogHandler::logged_status(Some(201), false), 201);
    assert_eq!(LogHandler::logged_status(Some(500), true), 500);
}

#[test]
fn logged_status_of_an_unset_response() {
    assert_eq!(LogHandler::logged_status(None, false), 404);
    assert_eq!(LogHandler::logged_status(None, true), 200);
}

#[test]
fn remote_label_of_a_request() {
    assert_eq!(LogHandler::remote_label(Some("127.0.0.1:7979".to_string())), "127.0.0.1:7979");
    assert_eq!(LogHandler::remote_label(None), "[Unknown]");
}

#[test]
fn missing_connection_upgrade_message() {
    assert_eq!(MissingConnectionUpgrade.message(), "Connection header did not include 'upgrade'");
}

use mp_core::relay::{client_label, echo_step, Reply, SocketAction, SocketEvent};

#[test]
fn text_comes_back_behind_echo() {
    match echo_step(SocketEvent::Text("hello".to_string())) {
        SocketAction::Send(Reply::Text(text)) => assert_eq!(text, "Echo: hello"),
        _ => panic!("expected a text reply"),
    }
    match echo_step(SocketEvent::Text(String::new())) {
        SocketAction::Send(Reply::Text(text)) => assert_eq!(text, "Echo: "),
        _ => panic!("expected a text reply"),
    }
}

#[test]
fn binary_data_comes_back_as_it_is() {
    match echo_step(SocketEvent::Binary(vec![1, 2, 255])) {
        SocketAction::Send(Reply::Binary(data)) => assert_eq!(data, vec![1, 2, 255]),
        _ => panic!("expected a binary reply"),
    }
}

#[test]
fn a_ping_is_answered_by_a_pong() {
    match echo_step(SocketEvent::Ping(vec![7])) {
        SocketAction::Send(Reply::Pong(data)) => assert_eq!(data, vec![7]),
        _ => panic!("expected a pong"),
    }
}

#[test]
fn a_pong_is_ignored_and_the_rest_stops() {
    assert!(matches!(echo_step(SocketEvent::Pong(vec![7])), SocketAction::Ignore));
    assert!(matches!(echo_step(SocketEvent::Close), SocketAction::Stop));
    assert!(matches!(echo_step(SocketEvent::Failed), SocketAction::Stop));
}

#[test]
fn a_client_without_user_agent_is_unknown() {
    assert_eq!(client_label(None), "Unknown browser");
    assert_eq!(client_label(Some("curl/8".to_string())), "curl/8");
    assert_eq!(client_label(Some(String::new())), "");
}

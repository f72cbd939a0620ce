use dmnd_client::ingress::sv1_ingress::{
    strip_line_breaks, DownEvent, Downstream, RelayAction, UpEvent,
};
use dmnd_client::shared::error::Sv1IngressError;

fn sent(action: RelayAction) -> String {
    match action {
        RelayAction::Send(message) => message,
        other => panic!("expected a message to be passed on, got {:?}", other),
    }
}

fn stopped(action: RelayAction) -> Sv1IngressError {
    match action {
        RelayAction::Stop(reason) => reason,
        other => panic!("expected the relay to stop, got {:?}", other),
    }
}

#[test]
fn test_sv1_ingress_relay() {
    let mining_subscribe_message =
        "{\"id\": 1, \"method\": \"mining.subscribe\", \"params\": [\"cpuminer/2.5.1\"]}\n".to_string();
    let response_message = "{\"id\": 1, \"result\": true, \"error\": null}\n".to_string();

    let received_message = sent(Downstream::receive_from_downstream_and_relay_up(UpEvent::Line(
        Some(Ok(mining_subscribe_message.clone())),
    )));
    assert_eq!(received_message.trim(), mining_subscribe_message.trim());

    let received_response = sent(Downstream::receive_from_upstream_and_relay_down(
        DownEvent::Message(Some(response_message.clone())),
    ));
    assert_eq!(received_response.trim(), response_message.trim());
}

#[test]
fn line_breaks_are_removed_wherever_they_stand() {
    assert_eq!(strip_line_breaks(""), "");
    assert_eq!(strip_line_breaks("plain"), "plain");
    assert_eq!(strip_line_breaks("\r\na\nb\rc\n\n"), "abc");
    assert_eq!(strip_line_breaks("\n\r"), "");
    assert_eq!(strip_line_breaks("z\u{e9}\nro \u{1f600}\r"), "z\u{e9}ro \u{1f600}");
}

#[test]
fn relay_up_stops_when_either_side_is_gone() {
    let up = Downstream::receive_from_downstream_and_relay_up;
    assert_eq!(stopped(up(UpEvent::Line(None))), Sv1IngressError::DownstreamDropped);
    assert_eq!(stopped(up(UpEvent::Line(Some(Err(()))))), Sv1IngressError::DownstreamDropped);
    assert_eq!(stopped(up(UpEvent::Sent { ok: false })), Sv1IngressError::TranslatorDropped);
    assert_eq!(stopped(up(UpEvent::TaskFailed)), Sv1IngressError::TaskFailed);
    assert!(matches!(up(UpEvent::Sent { ok: true }), RelayAction::Receive));
}

#[test]
fn relay_down_stops_when_either_side_is_gone() {
    let down = Downstream::receive_from_upstream_and_relay_down;
    assert_eq!(stopped(down(DownEvent::Message(None))), Sv1IngressError::TranslatorDropped);
    assert_eq!(stopped(down(DownEvent::Sent { ok: false })), Sv1IngressError::DownstreamDropped);
    assert_eq!(stopped(down(DownEvent::TaskFailed)), Sv1IngressError::TaskFailed);
    assert!(matches!(down(DownEvent::Sent { ok: true }), RelayAction::Receive));
}

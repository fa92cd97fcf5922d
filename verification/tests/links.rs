use dog_teleop::front::{check_setting_value, parse_setting_key, SettingKey, ValueDecision, ValueKind, ValueShape};
use dog_teleop::game_pad::{select_pad, PadEvent, PadSelection};
use dog_teleop::msg_sender::{LinkState, MessageQueue, SocketAction, SocketEvent};
use dog_teleop::session::{newest_report, plan_cycle, CyclePlan, LinkConfig, Reconfigure};
use dog_teleop::system_status::{RosTime, RosbridgePublish};

#[test]
fn pad_selection_rules() {
    assert_eq!(select_pad(None, PadEvent::Connected(3)), PadSelection::Select(3));
    assert_eq!(select_pad(Some(1), PadEvent::Connected(3)), PadSelection::Keep);
    assert_eq!(select_pad(Some(1), PadEvent::Disconnected(1)), PadSelection::FirstConnected);
    assert_eq!(select_pad(Some(1), PadEvent::Disconnected(2)), PadSelection::Keep);
    assert_eq!(select_pad(None, PadEvent::Disconnected(2)), PadSelection::Keep);
    assert_eq!(select_pad(Some(0), PadEvent::Other), PadSelection::Keep);
}

#[test]
fn every_setting_key_parses() {
    let keys = [
        SettingKey::Curve,
        SettingKey::WsUrl,
        SettingKey::PublishTopic,
        SettingKey::SubscribeTopic,
        SettingKey::MaxLinearSpeedX,
        SettingKey::MaxLinearSpeedY,
        SettingKey::MaxRoll,
        SettingKey::MaxPitch,
        SettingKey::ExpSensitivity,
        SettingKey::MaxBaseHeight,
        SettingKey::MinBaseHeight,
        SettingKey::MaxStepHeight,
        SettingKey::MinStepHeight,
        SettingKey::MinDuration,
        SettingKey::MaxDuration,
        SettingKey::MinButtonIntervalMs,
        SettingKey::Step,
        SettingKey::AxisSmooth,
    ];
    for k in keys {
        assert_eq!(parse_setting_key(k.name()), Ok(k));
    }
    assert_eq!(parse_setting_key("min_button_interval_ms"), Ok(SettingKey::MinButtonIntervalMs));
    assert_eq!(parse_setting_key("ws_url"), Ok(SettingKey::WsUrl));
}

#[test]
fn unknown_setting_key_is_refused() {
    assert_eq!(parse_setting_key("speed"), Err("unknown key: speed".to_string()));
    assert_eq!(parse_setting_key(""), Err("unknown key: ".to_string()));
    assert_eq!(parse_setting_key("Curve"), Err("unknown key: Curve".to_string()));
}

#[test]
fn setting_kinds_and_rejections() {
    assert_eq!(SettingKey::Curve.kind(), ValueKind::Curve);
    assert_eq!(SettingKey::PublishTopic.kind(), ValueKind::Text);
    assert_eq!(SettingKey::MinButtonIntervalMs.kind(), ValueKind::Count);
    assert_eq!(SettingKey::AxisSmooth.kind(), ValueKind::Number);
    assert_eq!(ValueKind::Text.rejection(), Some("invalid string"));
    assert_eq!(ValueKind::Number.rejection(), Some("invalid"));
    assert_eq!(ValueKind::Count.rejection(), Some("invalid"));
    assert_eq!(ValueKind::Curve.rejection(), None);
}

fn envelope(op: &str, topic: Option<&str>, msg: Option<&str>) -> RosbridgePublish {
    RosbridgePublish {
        op: op.to_string(),
        topic: topic.map(|t| t.to_string()),
        msg: msg.map(|m| serde_json::from_str(m).unwrap()),
    }
}

#[test]
fn status_payload_accepts_both_topic_spellings() {
    let body = r#"{"cpu_usage": 12.5}"#;
    let expected: serde_json::Value = serde_json::from_str(body).unwrap();
    assert_eq!(envelope("publish", Some("/dog/monitor"), Some(body)).status_payload(), Some(expected.clone()));
    assert_eq!(envelope("publish", Some("dog/monitor"), Some(body)).status_payload(), Some(expected));
}

#[test]
fn status_payload_refuses_other_envelopes() {
    let body = r#"{"cpu_usage": 12.5}"#;
    assert_eq!(envelope("subscribe", Some("/dog/monitor"), Some(body)).status_payload(), None);
    assert_eq!(envelope("publish", Some("/dog/command"), Some(body)).status_payload(), None);
    assert_eq!(envelope("publish", None, Some(body)).status_payload(), None);
    assert_eq!(envelope("publish", Some("/dog/monitor"), None).status_payload(), None);
    assert_eq!(envelope("publish", Some("//dog/monitor"), Some(body)).status_payload(), None);
}

#[test]
fn ros_time_holds_fields() {
    let t = RosTime { sec: -1, nanosec: 999_999_999 };
    assert_eq!(t.sec, -1);
    assert_eq!(t.nanosec, 999_999_999);
}

#[test]
fn message_queue_is_fifo_and_hands_out_once() {
    let mut q = MessageQueue::new();
    q.push("a".to_string());
    q.push("b".to_string());
    assert_eq!(q.len(), 2);
    assert_eq!(q.drain(), vec!["a".to_string(), "b".to_string()]);
    assert_eq!(q.len(), 0);
    assert!(q.drain().is_empty());
    q.push("c".to_string());
    assert_eq!(q.drain(), vec!["c".to_string()]);
}

#[test]
fn link_state_transitions() {
    let mut link = LinkState::new();
    assert!(!link.connected);
    assert!(matches!(link.on_event(SocketEvent::ConnectFailed), SocketAction::Reconnect));
    assert!(!link.connected);
    assert!(matches!(link.on_event(SocketEvent::Connected), SocketAction::FlushOutgoing));
    assert!(link.connected);
    assert!(matches!(link.on_event(SocketEvent::SendRequested), SocketAction::FlushOutgoing));
    match link.on_event(SocketEvent::TextReceived("hi".to_string())) {
        SocketAction::StoreIncoming(t) => assert_eq!(t, "hi"),
        _ => panic!("text frame not stored"),
    }
    assert!(matches!(link.on_event(SocketEvent::OtherReceived), SocketAction::Wait));
    assert!(link.connected);
    assert!(matches!(link.on_event(SocketEvent::ReceiveFailed), SocketAction::Reconnect));
    assert!(!link.connected);
    link.on_event(SocketEvent::Connected);
    assert!(matches!(link.on_event(SocketEvent::Closed), SocketAction::Reconnect));
    assert!(!link.connected);
}

fn config(url: &str, sub: &str, publ: &str) -> LinkConfig {
    LinkConfig { ws_url: url.to_string(), subscribe_topic: sub.to_string(), publish_topic: publ.to_string() }
}

#[test]
fn follow_reports_changes_then_settles() {
    let mut current = config("", "", "/dog/command");
    let wanted = config("ws://localhost:9090", "/dog/monitor", "/dog/command");
    assert_eq!(current.follow(&wanted), Reconfigure { reconnect: true, republish: false });
    assert_eq!(current.ws_url, "ws://localhost:9090");
    assert_eq!(current.subscribe_topic, "/dog/monitor");
    assert_eq!(current.follow(&wanted), Reconfigure { reconnect: false, republish: false });
    let moved = config("ws://localhost:9090", "/dog/monitor", "/dog/cmd2");
    assert_eq!(current.follow(&moved), Reconfigure { reconnect: false, republish: true });
    assert_eq!(current.publish_topic, "/dog/cmd2");
    let resub = config("ws://localhost:9090", "/other", "/dog/cmd2");
    assert_eq!(current.follow(&resub), Reconfigure { reconnect: true, republish: false });
}

#[test]
fn setting_values_checked_by_kind() {
    assert_eq!(check_setting_value(SettingKey::Curve, ValueShape::Other), ValueDecision::DeserializeCurve);
    assert_eq!(check_setting_value(SettingKey::Curve, ValueShape::Text), ValueDecision::DeserializeCurve);
    assert_eq!(check_setting_value(SettingKey::WsUrl, ValueShape::Text), ValueDecision::Store);
    assert_eq!(check_setting_value(SettingKey::WsUrl, ValueShape::UnsignedInteger), ValueDecision::Reject("invalid string".to_string()));
    assert_eq!(check_setting_value(SettingKey::MaxRoll, ValueShape::OtherNumber), ValueDecision::Store);
    assert_eq!(check_setting_value(SettingKey::MaxRoll, ValueShape::UnsignedInteger), ValueDecision::Store);
    assert_eq!(check_setting_value(SettingKey::MaxRoll, ValueShape::Text), ValueDecision::Reject("invalid".to_string()));
    assert_eq!(check_setting_value(SettingKey::MinButtonIntervalMs, ValueShape::UnsignedInteger), ValueDecision::Store);
    assert_eq!(check_setting_value(SettingKey::MinButtonIntervalMs, ValueShape::OtherNumber), ValueDecision::Reject("invalid".to_string()));
    assert_eq!(check_setting_value(SettingKey::MinButtonIntervalMs, ValueShape::Other), ValueDecision::Reject("invalid".to_string()));
}

#[test]
fn cycle_plan_gates_mapper() {
    assert_eq!(plan_cycle(true, true), CyclePlan { read_incoming: true, run_mapper: true });
    assert_eq!(plan_cycle(false, true), CyclePlan { read_incoming: true, run_mapper: false });
    assert_eq!(plan_cycle(true, false), CyclePlan { read_incoming: false, run_mapper: false });
    assert_eq!(plan_cycle(false, false), CyclePlan { read_incoming: false, run_mapper: false });
}

#[test]
fn newest_parsed_report_wins() {
    assert_eq!(newest_report(Some(1), vec![None, Some(2), Some(3), None]), Some(3));
    assert_eq!(newest_report(Some(1), vec![None, None]), Some(1));
    assert_eq!(newest_report::<i32>(None, vec![]), None);
    assert_eq!(newest_report(None, vec![Some(7)]), Some(7));
}

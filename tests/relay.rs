use chat_relay::{Pump, PumpAction, PumpEvent, PumpState};
use chat_relay::{
    broadcast, decode_inbound, deliver, envelope_for, inbound_envelope, render_envelope,
    AttachError, Delivery, Outbox, Frame, FrameOutcome, Phase, Registry, RelayPolicy, Session, Status,
    UserData, UserState,
};
use tokio::sync::mpsc::{unbounded_channel, UnboundedReceiver};

fn profile(name: &str) -> Option<UserData> {
    Some(UserData {
        user_name: name.to_string(),
        uuid: format!("id-{}", name),
        email: format!("{}@example.com", name),
        password: String::new(),
    })
}

fn join(registry: &mut Registry, key: &str) -> (Session, UnboundedReceiver<String>) {
    let (tx, rx) = unbounded_channel::<String>();
    let session = Session::attach(key.to_string(), profile(key), tx, registry)
        .unwrap_or_else(|_| panic!("attach refused"));
    (session, rx)
}

fn drain(rx: &mut UnboundedReceiver<String>) -> Vec<String> {
    let mut out = Vec::new();
    while let Ok(frame) = rx.try_recv() {
        out.push(frame);
    }
    out
}

fn keys(ds: &[Delivery]) -> Vec<String> {
    let mut out: Vec<String> = ds.iter().map(|d| d.recipient.clone()).collect();
    out.sort();
    out
}

fn text(s: &str) -> Frame {
    Frame::Text(s.to_string())
}

#[test]
fn scenario_three_users_hello_then_bye() {
    let policy = RelayPolicy::standard();
    let mut reg = Registry::new();
    let (mut a, mut rx_a) = join(&mut reg, "A");
    let (mut b, mut rx_b) = join(&mut reg, "B");
    let (c, mut rx_c) = join(&mut reg, "C");

    let sent = a.handle_frame(&text(r#"{"message":"hello"}"#), &reg, policy, &mut Outbox::new());
    assert_eq!(keys(&sent), vec!["B".to_string(), "C".to_string()]);
    let hello = render_envelope("A", "hello");
    assert_eq!(drain(&mut rx_b), vec![hello.clone()]);
    assert_eq!(drain(&mut rx_c), vec![hello]);
    assert!(drain(&mut rx_a).is_empty());

    b.end_of_stream();
    b.close(&mut reg, policy);
    drop(rx_b);

    let sent = c.handle_frame(&text(r#"{"message":"bye"}"#), &reg, policy, &mut Outbox::new());
    assert_eq!(keys(&sent), vec!["A".to_string()]);
    assert!(sent.iter().all(|d| d.accepted));
    assert_eq!(drain(&mut rx_a), vec![render_envelope("C", "bye")]);
    assert!(drain(&mut rx_c).is_empty());

    a.end_of_stream();
    a.close(&mut reg, policy);
}

#[test]
fn scenario_with_echo_sender_gets_one_copy() {
    let policy = RelayPolicy { echo_to_sender: true, remove_on_close: false };
    let mut reg = Registry::new();
    let (a, mut rx_a) = join(&mut reg, "A");
    let (_b, mut rx_b) = join(&mut reg, "B");
    let (_c, mut rx_c) = join(&mut reg, "C");
    let sent = a.handle_frame(&text(r#"{"message":"hello"}"#), &reg, policy, &mut Outbox::new());
    assert_eq!(keys(&sent), vec!["A".to_string(), "B".to_string(), "C".to_string()]);
    let hello = render_envelope("A", "hello");
    assert_eq!(drain(&mut rx_a), vec![hello.clone()]);
    assert_eq!(drain(&mut rx_b), vec![hello.clone()]);
    assert_eq!(drain(&mut rx_c), vec![hello]);
}

#[test]
fn envelope_holds_sender_name_and_text() {
    assert_eq!(
        render_envelope("Ann", "hi there"),
        "<div id='recvchat' hx-swap-oob='beforeend:#log'><p id='username'>Ann</p><p>hi there</p></div>"
    );
}

#[test]
fn decode_accepts_message_member() {
    assert_eq!(decode_inbound(r#"{"message":"hello"}"#), Some("hello".to_string()));
    assert_eq!(decode_inbound(r#"{"message":"a","extra":1}"#), Some("a".to_string()));
    assert_eq!(decode_inbound(r#"{"message":""}"#), Some(String::new()));
}

#[test]
fn decode_rejects_malformed_frames() {
    assert_eq!(decode_inbound(r#"{"text": "hi"}"#), None);
    assert_eq!(decode_inbound(r#"{"message": 5}"#), None);
    assert_eq!(decode_inbound("not json"), None);
    assert_eq!(decode_inbound(r#"["message"]"#), None);
    assert_eq!(decode_inbound(""), None);
}

#[test]
fn envelope_for_decoded_results() {
    assert_eq!(envelope_for("A", None), None);
    assert_eq!(envelope_for("A", Some("x".to_string())), Some(render_envelope("A", "x")));
    assert_eq!(inbound_envelope("A", r#"{"message":"x"}"#), Some(render_envelope("A", "x")));
    assert_eq!(inbound_envelope("A", r#"{"text":"x"}"#), None);
}

#[test]
fn malformed_frame_is_dropped_without_broadcast() {
    let policy = RelayPolicy::standard();
    let mut reg = Registry::new();
    let (a, _rx_a) = join(&mut reg, "A");
    let (_b, mut rx_b) = join(&mut reg, "B");
    assert!(matches!(a.on_frame(&text(r#"{"text": "hi"}"#)), FrameOutcome::Malformed));
    let sent = a.handle_frame(&text(r#"{"text": "hi"}"#), &reg, policy, &mut Outbox::new());
    assert!(sent.is_empty());
    assert!(drain(&mut rx_b).is_empty());
    assert_eq!(a.phase(), Phase::Active);
    let sent = a.handle_frame(&text(r#"{"message":"still here"}"#), &reg, policy, &mut Outbox::new());
    assert_eq!(keys(&sent), vec!["B".to_string()]);
}

#[test]
fn non_text_frame_is_not_rebroadcast() {
    let policy = RelayPolicy::standard();
    let mut reg = Registry::new();
    let (a, _rx_a) = join(&mut reg, "A");
    let (_b, mut rx_b) = join(&mut reg, "B");
    assert!(matches!(a.on_frame(&Frame::Other), FrameOutcome::Ignored));
    assert!(a.handle_frame(&Frame::Other, &reg, policy, &mut Outbox::new()).is_empty());
    assert!(drain(&mut rx_b).is_empty());
}

#[test]
fn key_without_connected_entry_gets_nothing() {
    let mut reg = Registry::new();
    let (a, _rx_a) = join(&mut reg, "A");
    let (tx, mut rx_d) = unbounded_channel::<String>();
    drop(tx);
    assert!(reg.upsert("D".to_string(), UserState::disconnected()).is_none());
    let sent = broadcast(&reg, a.key(), &"frame".to_string(), true, &mut Outbox::new());
    assert_eq!(keys(&sent), vec!["A".to_string()]);
    assert!(drain(&mut rx_d).is_empty());
}

#[test]
fn close_marks_disconnected_and_ends_pump_channel() {
    let policy = RelayPolicy::standard();
    let mut reg = Registry::new();
    let (mut a, mut rx_a) = join(&mut reg, "A");
    let (b, _rx_b) = join(&mut reg, "B");
    a.end_of_stream();
    assert_eq!(a.phase(), Phase::Closing);
    a.close(&mut reg, policy);
    assert_eq!(a.phase(), Phase::Closed);
    let entry = reg.get(&"A".to_string()).expect("entry kept");
    assert_eq!(entry.status, Status::Disconnected);
    assert!(entry.sender.is_none());
    // every sender of A's channel is gone, so its pump sees the end
    assert!(matches!(
        rx_a.try_recv(),
        Err(tokio::sync::mpsc::error::TryRecvError::Disconnected)
    ));
    let sent = b.handle_frame(&text(r#"{"message":"anyone?"}"#), &reg, policy, &mut Outbox::new());
    assert!(sent.is_empty());
}

#[test]
fn close_with_removal_drops_entry() {
    let policy = RelayPolicy { echo_to_sender: false, remove_on_close: true };
    let mut reg = Registry::new();
    let (mut a, _rx_a) = join(&mut reg, "A");
    a.end_of_stream();
    a.close(&mut reg, policy);
    assert!(reg.get(&"A".to_string()).is_none());
    a.close(&mut reg, policy);
    assert_eq!(a.phase(), Phase::Closed);
}

#[test]
fn closed_session_ignores_frames() {
    let policy = RelayPolicy::standard();
    let mut reg = Registry::new();
    let (mut a, _rx_a) = join(&mut reg, "A");
    let (_b, mut rx_b) = join(&mut reg, "B");
    a.end_of_stream();
    assert!(matches!(a.on_frame(&text(r#"{"message":"late"}"#)), FrameOutcome::Ignored));
    assert!(a.handle_frame(&text(r#"{"message":"late"}"#), &reg, policy, &mut Outbox::new()).is_empty());
    assert!(drain(&mut rx_b).is_empty());
}

#[test]
fn second_attach_for_same_key_is_refused() {
    let mut reg = Registry::new();
    let (first, mut rx1) = join(&mut reg, "A");
    let (tx2, mut rx2) = unbounded_channel::<String>();
    let second = Session::attach("A".to_string(), profile("A"), tx2, &mut reg);
    assert!(matches!(second, Err(AttachError::AlreadyConnected)));
    // the second handle was dropped; the first entry is whole
    assert!(matches!(
        rx2.try_recv(),
        Err(tokio::sync::mpsc::error::TryRecvError::Disconnected)
    ));
    let entry = reg.get(&"A".to_string()).expect("entry kept");
    assert_eq!(entry.status, Status::Connected);
    let (_b, _rx_b) = join(&mut reg, "B");
    let sent = broadcast(&reg, &"B".to_string(), &"x".to_string(), false, &mut Outbox::new());
    assert_eq!(keys(&sent), vec!["A".to_string()]);
    assert_eq!(drain(&mut rx1), vec!["x".to_string()]);
    assert_eq!(first.key(), "A");
}

#[test]
fn attach_after_close_succeeds_again() {
    let policy = RelayPolicy::standard();
    let mut reg = Registry::new();
    let (mut a, _rx) = join(&mut reg, "A");
    a.end_of_stream();
    a.close(&mut reg, policy);
    let (again, _rx2) = join(&mut reg, "A");
    assert_eq!(again.phase(), Phase::Active);
    assert_eq!(reg.get(&"A".to_string()).map(|e| e.status), Some(Status::Connected));
}

#[test]
fn unknown_user_is_rejected_without_state() {
    let mut reg = Registry::new();
    let (tx, _rx) = unbounded_channel::<String>();
    let r = Session::attach("ghost".to_string(), None, tx, &mut reg);
    assert!(matches!(r, Err(AttachError::UnknownUser)));
    assert!(reg.get(&"ghost".to_string()).is_none());
}

#[test]
fn session_keeps_resolved_display_name() {
    let mut reg = Registry::new();
    let (tx, _rx) = unbounded_channel::<String>();
    let mut p = profile("A").unwrap();
    p.user_name = "Alice".to_string();
    let s = Session::attach("a@example.com".to_string(), Some(p), tx, &mut reg)
        .unwrap_or_else(|_| panic!("attach refused"));
    assert_eq!(s.display_name(), "Alice");
    match s.on_frame(&text(r#"{"message":"hi"}"#)) {
        FrameOutcome::Broadcast(e) => assert_eq!(e, render_envelope("Alice", "hi")),
        _ => panic!("expected a broadcast"),
    }
}

#[test]
fn upsert_returns_previous_entry() {
    let mut reg = Registry::new();
    let (tx1, _rx1) = unbounded_channel::<String>();
    assert!(reg.upsert("A".to_string(), UserState::connected(tx1)).is_none());
    let prev = reg.upsert("A".to_string(), UserState::disconnected()).expect("previous entry");
    assert_eq!(prev.status, Status::Connected);
    assert!(prev.sender.is_some());
    assert_eq!(reg.get(&"A".to_string()).map(|e| e.status), Some(Status::Disconnected));
}

#[test]
fn set_status_on_absent_key_is_not_an_error() {
    let mut reg = Registry::new();
    assert!(!reg.set_status(&"nobody".to_string(), Status::Disconnected));
    assert!(reg.get(&"nobody".to_string()).is_none());
    let (tx, _rx) = unbounded_channel::<String>();
    reg.upsert("A".to_string(), UserState::connected(tx));
    assert!(reg.set_status(&"A".to_string(), Status::Connected));
    assert_eq!(reg.get(&"A".to_string()).map(|e| e.status), Some(Status::Connected));
    assert!(reg.set_status(&"A".to_string(), Status::Disconnected));
    assert!(reg.get(&"A".to_string()).map(|e| e.sender.is_none()).unwrap_or(false));
}

#[test]
fn remove_hands_back_entry() {
    let mut reg = Registry::new();
    reg.upsert("A".to_string(), UserState::disconnected());
    reg.upsert("B".to_string(), UserState::disconnected());
    assert!(reg.remove(&"A".to_string()).is_some());
    assert!(reg.remove(&"A".to_string()).is_none());
    assert!(reg.get(&"B".to_string()).is_some());
}

#[test]
fn fan_out_targets_cover_connected_keys_once() {
    let mut reg = Registry::new();
    let mut rxs = Vec::new();
    for k in ["A", "B", "C", "D"] {
        let (tx, rx) = unbounded_channel::<String>();
        reg.upsert(k.to_string(), UserState::connected(tx));
        rxs.push(rx);
    }
    reg.set_status(&"C".to_string(), Status::Disconnected);
    let targets = reg.fan_out_targets(&"A".to_string(), false);
    let mut ks: Vec<String> = targets.iter().map(|t| t.key.clone()).collect();
    ks.sort();
    assert_eq!(ks, vec!["B".to_string(), "D".to_string()]);
    let report = deliver(targets, &"f".to_string(), &mut Outbox::new());
    assert_eq!(report.len(), 2);
    assert_eq!(drain(&mut rxs[1]), vec!["f".to_string()]);
    assert_eq!(drain(&mut rxs[3]), vec!["f".to_string()]);
    assert!(drain(&mut rxs[0]).is_empty());
}

#[test]
fn delivery_to_gone_receiver_is_reported_not_fatal() {
    let mut reg = Registry::new();
    let (tx, rx) = unbounded_channel::<String>();
    reg.upsert("A".to_string(), UserState::connected(tx));
    drop(rx);
    let sent = broadcast(&reg, &"B".to_string(), &"x".to_string(), false, &mut Outbox::new());
    assert_eq!(sent.len(), 1);
    assert!(!sent[0].accepted);
}

#[test]
fn standard_policy_excludes_sender_and_keeps_identities() {
    let p = RelayPolicy::standard();
    assert!(!p.echo_to_sender);
    assert!(!p.remove_on_close);
}

#[test]
fn defaults_are_disconnected() {
    assert_eq!(Status::default(), Status::Disconnected);
    let e = UserState::default();
    assert_eq!(e.status, Status::Disconnected);
    assert!(e.sender.is_none());
    assert!(!e.is_connected());
}

#[test]
fn pump_writes_in_order_then_closes() {
    let mut pump = Pump::new();
    assert_eq!(pump.state(), PumpState::Running);
    let mut written = Vec::new();
    for f in ["one", "two", "three"] {
        match pump.on_event(PumpEvent::Queued(f.to_string())) {
            PumpAction::Write(w) => written.push(w),
            _ => panic!("expected a write"),
        }
    }
    assert_eq!(written, vec!["one".to_string(), "two".to_string(), "three".to_string()]);
    assert!(matches!(pump.on_event(PumpEvent::ChannelClosed), PumpAction::CloseStream));
    assert_eq!(pump.state(), PumpState::Finished);
    assert!(matches!(pump.on_event(PumpEvent::Queued("late".to_string())), PumpAction::Stop));
}

#[test]
fn pump_stops_after_failed_write() {
    let mut pump = Pump::new();
    assert!(matches!(pump.on_event(PumpEvent::WriteFailed), PumpAction::Stop));
    assert_eq!(pump.state(), PumpState::Finished);
    assert!(matches!(pump.on_event(PumpEvent::ChannelClosed), PumpAction::Stop));
}

#[test]
fn failed_write_closes_session() {
    let policy = RelayPolicy::standard();
    let mut reg = Registry::new();
    let (mut a, _rx_a) = join(&mut reg, "A");
    let (b, mut rx_b) = join(&mut reg, "B");
    let mut pump = Pump::new();
    assert!(matches!(pump.on_event(PumpEvent::WriteFailed), PumpAction::Stop));
    a.pump_stopped();
    assert_eq!(a.phase(), Phase::Closing);
    a.close(&mut reg, policy);
    assert_eq!(reg.get(&"A".to_string()).map(|e| e.status), Some(Status::Disconnected));
    let sent = b.handle_frame(&text(r#"{"message":"x"}"#), &reg, policy, &mut Outbox::new());
    assert!(sent.is_empty());
    assert!(drain(&mut rx_b).is_empty());
}

#[test]
fn failed_push_leaves_other_recipients_served() {
    let mut reg = Registry::new();
    let (tx_a, rx_a) = unbounded_channel::<String>();
    let (tx_c, mut rx_c) = unbounded_channel::<String>();
    reg.upsert("A".to_string(), UserState::connected(tx_a));
    reg.upsert("C".to_string(), UserState::connected(tx_c));
    drop(rx_a);
    let sent = broadcast(&reg, &"B".to_string(), &"x".to_string(), false, &mut Outbox::new());
    assert_eq!(keys(&sent), vec!["A".to_string(), "C".to_string()]);
    assert_eq!(sent.iter().filter(|d| !d.accepted).count(), 1);
    assert_eq!(drain(&mut rx_c), vec!["x".to_string()]);
}

#[test]
fn reattached_user_is_reached_through_new_handle_only() {
    let policy = RelayPolicy::standard();
    let mut reg = Registry::new();
    let (mut a, mut rx_old) = join(&mut reg, "A");
    let (b, _rx_b) = join(&mut reg, "B");
    a.end_of_stream();
    a.close(&mut reg, policy);
    let (_a2, mut rx_new) = join(&mut reg, "A");
    let sent = b.handle_frame(&text(r#"{"message":"again"}"#), &reg, policy, &mut Outbox::new());
    assert_eq!(keys(&sent), vec!["A".to_string()]);
    assert_eq!(drain(&mut rx_new), vec![render_envelope("B", "again")]);
    assert!(drain(&mut rx_old).is_empty());
}

use mqtt_session::connect::{compose_client_id, connect_plan, new_client_id};
use mqtt_session::error::MqttError;
use mqtt_session::events::{ConnectionEvent, ConnectionStatus, Notification, SubscriptionEvent};
use mqtt_session::qos::{qos_from_level, Qos};
use mqtt_session::receive_loop::{PollEvent, ReceiveLoop};
use mqtt_session::session::{disconnect_outcome, publish_outcome, subscribe_outcome, MqttClientState};

fn connected_state() -> MqttClientState<u32, u32> {
    let mut s: MqttClientState<u32, u32> = MqttClientState::new();
    assert!(s.prepare_connect("broker".to_string(), 1883, None).is_ok());
    s.attach(7, 9);
    s
}

#[test]
fn qos_levels_parse() {
    assert_eq!(qos_from_level(0), Ok(Qos::AtMostOnce));
    assert_eq!(qos_from_level(1), Ok(Qos::AtLeastOnce));
    assert_eq!(qos_from_level(2), Ok(Qos::ExactlyOnce));
    assert_eq!(qos_from_level(3), Err(MqttError::InvalidQos));
    assert_eq!(qos_from_level(255), Err(MqttError::InvalidQos));
    assert_eq!(Qos::ExactlyOnce.level(), 2);
}

#[test]
fn invalid_qos_rejected_connected_or_not() {
    let empty: MqttClientState<u32, u32> = MqttClientState::new();
    let full = connected_state();
    for level in 3u8..=255 {
        assert_eq!(empty.check_request(level), Err(MqttError::InvalidQos));
        assert_eq!(full.check_request(level), Err(MqttError::InvalidQos));
    }
}

#[test]
fn requests_without_connection_fail() {
    let mut s: MqttClientState<u32, u32> = MqttClientState::new();
    for level in 0u8..=2 {
        assert_eq!(s.check_request(level), Err(MqttError::NotConnected));
    }
    let (task, client) = s.take_handles();
    assert_eq!(task, None);
    assert_eq!(client, None);
    let (r, ev) = disconnect_outcome(None);
    assert_eq!(r, Ok(()));
    assert_eq!(ev.status, ConnectionStatus::Disconnected);
    assert_eq!(ev.message, "Already disconnected or never connected.");
}

#[test]
fn second_connect_rejected() {
    let s = connected_state();
    let r = s.prepare_connect("broker".to_string(), 1883, None);
    assert_eq!(r, Err(MqttError::AlreadyConnected));
    assert_eq!(s.check_connect(), Err(MqttError::AlreadyConnected));
    assert_eq!(s.client(), Some(&7));
}

#[test]
fn connect_then_disconnect_handles() {
    let mut s = connected_state();
    assert!(s.is_connected());
    assert!(s.has_task());
    let (task, client) = s.take_handles();
    assert_eq!(task, Some(9));
    assert_eq!(client, Some(7));
    assert!(!s.is_connected());
    assert!(!s.has_task());
    assert_eq!(s.client(), None);
}

#[test]
fn disconnect_twice_succeeds() {
    let mut s = connected_state();
    let (_, client) = s.take_handles();
    let (r1, ev1) = disconnect_outcome(client.map(|_| Ok(())));
    assert_eq!(r1, Ok(()));
    assert_eq!(ev1.status, ConnectionStatus::Disconnected);
    assert_eq!(ev1.message, "Successfully disconnected.");
    let (_, client) = s.take_handles();
    assert_eq!(client, None);
    let (r2, ev2) = disconnect_outcome(client.map(|_| Ok(())));
    assert_eq!(r2, Ok(()));
    assert_eq!(ev2.status, ConnectionStatus::Disconnected);
}

#[test]
fn disconnect_failure_still_reports_disconnected() {
    let (r, ev) = disconnect_outcome(Some(Err("closed".to_string())));
    assert_eq!(r, Err(MqttError::Transport("Error disconnecting: closed".to_string())));
    assert_eq!(ev.status, ConnectionStatus::Disconnected);
    assert_eq!(ev.message, "Error during disconnect: closed");
    assert_eq!(ConnectionStatus::Disconnected.as_str(), "disconnected");
}

#[test]
fn transport_failures_are_reported() {
    let (r, n) = subscribe_outcome(&"a/b".to_string(), 1, Err("full".to_string()));
    assert_eq!(r, Err(MqttError::Transport("Failed to subscribe: full".to_string())));
    assert_eq!(n, None);
    let r = publish_outcome(Err("full".to_string()));
    assert_eq!(r, Err(MqttError::Transport("Failed to publish: full".to_string())));
    assert_eq!(r.unwrap_err().message(), "Failed to publish: full");
}

#[test]
fn error_messages() {
    assert_eq!(MqttError::AlreadyConnected.message(), "Already connected.");
    assert_eq!(MqttError::NotConnected.message(), "Not connected to MQTT broker.");
    assert_eq!(MqttError::InvalidQos.message(), "Invalid QoS level. Use 0, 1, or 2.");
}

#[test]
fn client_id_shape() {
    assert_eq!(compose_client_id(None, &"abcd1234".to_string()), "tauri-mqtt-abcd1234");
    assert_eq!(compose_client_id(Some("dev".to_string()), &"XY".to_string()), "dev-XY");
    let id = new_client_id(Some("app".to_string()));
    assert_eq!(id.len(), 12);
    assert!(id.starts_with("app-"));
    assert!(id[4..].chars().all(|c| c.is_ascii_alphanumeric()));
    let other = new_client_id(None);
    assert!(other.starts_with("tauri-mqtt-"));
    assert_eq!(other.len(), "tauri-mqtt-".len() + 8);
}

#[test]
fn connect_settings() {
    let s: MqttClientState<u32, u32> = MqttClientState::new();
    let plan = s.prepare_connect("10.0.0.1".to_string(), 1883, Some("p".to_string())).unwrap();
    assert_eq!(plan.host, "10.0.0.1");
    assert_eq!(plan.port, 1883);
    assert_eq!(plan.keep_alive_secs, 10);
    assert!(plan.clean_session);
    assert_eq!(plan.capacity, 10);
    assert!(plan.client_id.starts_with("p-"));
    let direct = connect_plan("h".to_string(), 1, "id".to_string());
    assert_eq!(direct.client_id, "id");
}

#[test]
fn end_to_end_session() {
    let mut s: MqttClientState<u32, u32> = MqttClientState::new();
    let plan = s.prepare_connect("addr".to_string(), 1883, None).unwrap();
    let mut lp = ReceiveLoop::new(plan.host.clone());
    s.attach(1, 2);

    let n = lp.step(&PollEvent::ConnAck);
    assert_eq!(
        n,
        Some(Notification::Connection(ConnectionEvent {
            message: "Connected to addr".to_string(),
            status: ConnectionStatus::Connected,
        }))
    );
    assert!(lp.is_running());

    assert_eq!(s.check_request(1), Ok(Qos::AtLeastOnce));
    let (r, n) = subscribe_outcome(&"a/b".to_string(), 1, Ok(()));
    assert_eq!(r, Ok(()));
    assert_eq!(
        n,
        Some(Notification::Subscription(SubscriptionEvent { topic: "a/b".to_string(), qos: 1 }))
    );

    assert_eq!(s.check_request(1), Ok(Qos::AtLeastOnce));
    assert_eq!(publish_outcome(Ok(())), Ok(()));

    let (task, client) = s.take_handles();
    assert_eq!((task, client), (Some(2), Some(1)));
    let (r, ev) = disconnect_outcome(Some(Ok(())));
    assert_eq!(r, Ok(()));
    assert_eq!(ev.status, ConnectionStatus::Disconnected);

    assert!(s.prepare_connect("addr".to_string(), 1883, None).is_ok());
}

#[test]
fn default_state_is_empty() {
    let s: MqttClientState<u8, u8> = Default::default();
    assert!(!s.is_connected());
    assert!(!s.has_task());
    assert_eq!(s.check_connect(), Ok(()));
}

#[test]
fn status_names() {
    assert_eq!(ConnectionStatus::Connected.as_str(), "connected");
    assert_eq!(ConnectionStatus::Disconnected.as_str(), "disconnected");
    assert_eq!(ConnectionStatus::Error.as_str(), "error");
}

#[test]
fn valid_levels_pass_when_connected() {
    let s = connected_state();
    assert_eq!(s.check_request(0), Ok(Qos::AtMostOnce));
    assert_eq!(s.check_request(2), Ok(Qos::ExactlyOnce));
}

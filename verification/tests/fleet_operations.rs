use ambilight::device::{DeviceCommandParams, DeviceState, ProtocolError};
use ambilight::fleet::FleetState;
use ambilight::light_communication::{Action, Event, Failure, LightCommunication, LAMPS_PORT};

const RGB_REPLY: &str = "{\"method\":\"getPilot\",\"result\":{\"state\":true,\"r\":255,\"g\":10,\"b\":0,\"dimming\":75}}";
const TEMP_REPLY: &str = "{\"method\":\"getPilot\",\"result\":{\"state\":false,\"temp\":2700,\"dimming\":30}}";
const CONFIG_REPLY: &str = "{\"method\":\"getUserConfig\",\"result\":{\"fadeIn\":500,\"fadeOut\":700}}";
const OK_REPLY: &str = "{\"method\":\"setPilot\",\"result\":{\"success\":true}}";

const GET_PILOT: &str = "{\"method\":\"getPilot\",\"params\":{}}";
const GET_USER_CONFIG: &str = "{\"method\":\"getUserConfig\",\"params\":{}}";

fn lamps(hosts: &[&str]) -> LightCommunication {
    LightCommunication::new(hosts.iter().map(|h| h.to_string()).collect())
}

fn send(host: &str, payload: &str) -> Action {
    Action::Send { host: host.to_string(), port: 38899, payload: payload.to_string() }
}

fn reply(text: &str) -> Event {
    Event::Reply(text.to_string())
}

fn rgb_state() -> DeviceState {
    DeviceState {
        params: DeviceCommandParams::RgbMode { r: 255, g: 10, b: 0, dimming: 75, state: true },
        fade_in: 500,
        fade_out: 700,
    }
}

fn temp_state() -> DeviceState {
    DeviceState {
        params: DeviceCommandParams::TempMode { temp: 2700, dimming: 30, state: false },
        fade_in: 500,
        fade_out: 700,
    }
}

fn captured() -> LightCommunication {
    let mut fleet = lamps(&["10.0.0.1", "10.0.0.2"]);
    fleet.get_initial_states();
    fleet.advance(reply(RGB_REPLY));
    fleet.advance(reply(CONFIG_REPLY));
    fleet.advance(reply(TEMP_REPLY));
    assert_eq!(fleet.advance(reply(CONFIG_REPLY)), Action::Finished);
    fleet
}

#[test]
fn port_is_the_lamps_port() {
    assert_eq!(LAMPS_PORT, 38899);
}

#[test]
fn new_fleet_has_nothing_to_do() {
    let mut fleet = lamps(&["10.0.0.1"]);
    assert_eq!(fleet.lights(), &vec!["10.0.0.1".to_string()]);
    assert_eq!(fleet.initial_states().len(), 0);
    assert_eq!(fleet.advance(reply(OK_REPLY)), Action::Finished);
    assert_eq!(fleet.advance(Event::Unreachable("timed out".to_string())), Action::Finished);
}

#[test]
fn fleet_state_replaces_by_address() {
    let mut states = FleetState::new();
    assert_eq!(states.len(), 0);
    assert_eq!(states.get(&"a".to_string()), None);
    states.put("a".to_string(), rgb_state());
    states.put("b".to_string(), temp_state());
    assert_eq!(states.len(), 2);
    assert_eq!(states.get(&"a".to_string()), Some(rgb_state()));
    assert_eq!(states.get(&"b".to_string()), Some(temp_state()));
    states.put("a".to_string(), temp_state());
    assert_eq!(states.len(), 2);
    assert_eq!(states.get(&"a".to_string()), Some(temp_state()));
    assert_eq!(states.entry(0).address, "a");
    assert_eq!(states.entry(0).state, temp_state());
    assert_eq!(states.entry(1).address, "b");
    assert_eq!(states.get(&"c".to_string()), None);
}

#[test]
fn capture_queries_every_lamp_twice() {
    let mut fleet = lamps(&["10.0.0.1", "10.0.0.2"]);
    assert_eq!(fleet.get_initial_states(), send("10.0.0.1", GET_PILOT));
    assert_eq!(fleet.advance(reply(RGB_REPLY)), send("10.0.0.1", GET_USER_CONFIG));
    assert_eq!(fleet.initial_states().len(), 0);
    assert_eq!(fleet.advance(reply(CONFIG_REPLY)), send("10.0.0.2", GET_PILOT));
    assert_eq!(fleet.initial_states().get(&"10.0.0.1".to_string()), Some(rgb_state()));
    assert_eq!(fleet.advance(reply(TEMP_REPLY)), send("10.0.0.2", GET_USER_CONFIG));
    assert_eq!(fleet.advance(reply(CONFIG_REPLY)), Action::Finished);
    assert_eq!(fleet.initial_states().len(), 2);
    assert_eq!(fleet.initial_states().get(&"10.0.0.2".to_string()), Some(temp_state()));
    assert_eq!(fleet.advance(reply(CONFIG_REPLY)), Action::Finished);
    assert_eq!(fleet.initial_states().len(), 2);
}

#[test]
fn capture_of_no_lamps_is_finished_at_once() {
    let mut fleet = lamps(&[]);
    assert_eq!(fleet.get_initial_states(), Action::Finished);
    assert_eq!(fleet.restore_initial_states(), Action::Finished);
    assert_eq!(fleet.set_color_all((1, 2, 3), 0, 100, true), Action::Finished);
}

#[test]
fn capture_of_one_address_listed_twice_keeps_one_state() {
    let mut fleet = lamps(&["10.0.0.1", "10.0.0.1"]);
    fleet.get_initial_states();
    fleet.advance(reply(RGB_REPLY));
    fleet.advance(reply(CONFIG_REPLY));
    fleet.advance(reply(TEMP_REPLY));
    assert_eq!(fleet.advance(reply(CONFIG_REPLY)), Action::Finished);
    assert_eq!(fleet.initial_states().len(), 1);
    assert_eq!(fleet.initial_states().get(&"10.0.0.1".to_string()), Some(temp_state()));
}

#[test]
fn zero_length_reply_to_capture_is_malformed() {
    let mut fleet = lamps(&["10.0.0.1", "10.0.0.2"]);
    fleet.get_initial_states();
    let failed = Action::Failed(Failure::Protocol {
        address: "10.0.0.1".to_string(),
        error: ProtocolError::Malformed,
    });
    assert_eq!(fleet.advance(reply("")), failed);
    assert_eq!(fleet.initial_states().len(), 0);
    assert_eq!(fleet.advance(reply(CONFIG_REPLY)), failed);
    assert_eq!(fleet.advance(reply(RGB_REPLY)), failed);
    assert_eq!(fleet.initial_states().len(), 0);
}

#[test]
fn malformed_reply_to_capture_records_nothing_for_that_lamp() {
    let mut fleet = lamps(&["10.0.0.1", "10.0.0.2"]);
    fleet.get_initial_states();
    fleet.advance(reply(RGB_REPLY));
    fleet.advance(reply(CONFIG_REPLY));
    let failed = Action::Failed(Failure::Protocol {
        address: "10.0.0.2".to_string(),
        error: ProtocolError::Malformed,
    });
    assert_eq!(fleet.advance(reply("{\"result\":{\"state\":true}}")), failed);
    assert_eq!(fleet.initial_states().len(), 1);
    assert_eq!(fleet.initial_states().get(&"10.0.0.2".to_string()), None);
    assert_eq!(fleet.initial_states().get(&"10.0.0.1".to_string()), Some(rgb_state()));
}

#[test]
fn malformed_fade_reply_records_nothing_for_that_lamp() {
    let mut fleet = lamps(&["10.0.0.1"]);
    fleet.get_initial_states();
    fleet.advance(reply(RGB_REPLY));
    let failed = Action::Failed(Failure::Protocol {
        address: "10.0.0.1".to_string(),
        error: ProtocolError::Malformed,
    });
    assert_eq!(fleet.advance(reply("{\"result\":{\"fadeIn\":1}}")), failed);
    assert_eq!(fleet.initial_states().len(), 0);
}

#[test]
fn unreachable_lamp_ends_capture() {
    let mut fleet = lamps(&["10.0.0.1", "10.0.0.2"]);
    fleet.get_initial_states();
    let failed = Action::Failed(Failure::DeviceUnreachable {
        address: "10.0.0.1".to_string(),
        detail: "timed out".to_string(),
    });
    assert_eq!(fleet.advance(Event::Unreachable("timed out".to_string())), failed);
    assert_eq!(fleet.advance(reply(RGB_REPLY)), failed);
    assert_eq!(fleet.initial_states().len(), 0);
}

#[test]
fn color_goes_to_every_lamp_in_order() {
    let mut fleet = lamps(&["10.0.0.1", "10.0.0.2", "10.0.0.3"]);
    let payload = "{\"method\":\"setPilot\",\"params\":{\"b\":3,\"dimming\":100,\"g\":2,\"r\":1,\"state\":true}}";
    assert_eq!(fleet.set_color_all((1, 2, 3), 0, 100, true), send("10.0.0.1", payload));
    assert_eq!(fleet.advance(reply(OK_REPLY)), send("10.0.0.2", payload));
    assert_eq!(fleet.advance(reply("")), send("10.0.0.3", payload));
    assert_eq!(fleet.advance(reply("whatever")), Action::Finished);
}

#[test]
fn temperature_goes_to_every_lamp() {
    let mut fleet = lamps(&["10.0.0.1"]);
    let payload = "{\"method\":\"setPilot\",\"params\":{\"dimming\":50,\"state\":false,\"temp\":4200}}";
    assert_eq!(fleet.set_color_all((1, 2, 3), 4200, 50, false), send("10.0.0.1", payload));
    assert_eq!(fleet.advance(reply(OK_REPLY)), Action::Finished);
}

#[test]
fn fade_speed_goes_to_every_lamp() {
    let mut fleet = lamps(&["10.0.0.1", "10.0.0.2"]);
    let payload = "{\"method\":\"setUserConfig\",\"params\":{\"fadeIn\":0,\"fadeOut\":250}}";
    assert_eq!(fleet.set_fade_speed_all(0, 250), send("10.0.0.1", payload));
    assert_eq!(fleet.advance(reply(OK_REPLY)), send("10.0.0.2", payload));
    assert_eq!(fleet.advance(reply(OK_REPLY)), Action::Finished);
}

#[test]
fn drive_stops_at_the_lamp_that_fails() {
    let hosts = ["10.0.0.1", "10.0.0.2", "10.0.0.3", "10.0.0.4"];
    let payload = "{\"method\":\"setPilot\",\"params\":{\"b\":0,\"dimming\":100,\"g\":0,\"r\":9,\"state\":true}}";
    for k in 0..hosts.len() {
        let mut fleet = lamps(&hosts);
        let mut sent = vec![];
        let mut action = fleet.set_color_all((9, 0, 0), 0, 100, true);
        for _ in 0..k {
            sent.push(action);
            action = fleet.advance(reply(OK_REPLY));
        }
        sent.push(action);
        let failed = fleet.advance(Event::Unreachable("no route".to_string()));
        let expected: Vec<Action> = hosts[..=k].iter().map(|h| send(h, payload)).collect();
        assert_eq!(sent, expected);
        assert_eq!(
            failed,
            Action::Failed(Failure::DeviceUnreachable {
                address: hosts[k].to_string(),
                detail: "no route".to_string(),
            })
        );
        for _ in 0..hosts.len() {
            assert_eq!(fleet.advance(reply(OK_REPLY)), failed);
        }
    }
}

#[test]
fn restore_sends_color_then_fade_to_every_captured_lamp() {
    let mut fleet = captured();
    assert_eq!(
        fleet.restore_initial_states(),
        send(
            "10.0.0.1",
            "{\"method\":\"setPilot\",\"params\":{\"b\":0,\"dimming\":75,\"g\":10,\"r\":255,\"state\":true}}"
        )
    );
    assert_eq!(
        fleet.advance(reply(OK_REPLY)),
        send("10.0.0.1", "{\"method\":\"setUserConfig\",\"params\":{\"fadeIn\":500,\"fadeOut\":700}}")
    );
    assert_eq!(
        fleet.advance(reply(OK_REPLY)),
        send("10.0.0.2", "{\"method\":\"setPilot\",\"params\":{\"dimming\":30,\"state\":false,\"temp\":2700}}")
    );
    assert_eq!(
        fleet.advance(reply(OK_REPLY)),
        send("10.0.0.2", "{\"method\":\"setUserConfig\",\"params\":{\"fadeIn\":500,\"fadeOut\":700}}")
    );
    assert_eq!(fleet.advance(reply(OK_REPLY)), Action::Finished);
    assert_eq!(fleet.initial_states().len(), 2);
}

#[test]
fn restore_of_temperature_state_names_temp_and_no_channel() {
    let mut fleet = lamps(&["10.0.0.9"]);
    fleet.get_initial_states();
    fleet.advance(reply(TEMP_REPLY));
    fleet.advance(reply(CONFIG_REPLY));
    match fleet.restore_initial_states() {
        Action::Send { payload, .. } => {
            assert!(payload.contains("\"method\":\"setPilot\""));
            assert!(payload.contains("\"temp\":2700"));
            assert!(!payload.contains("\"r\":"));
            assert!(!payload.contains("\"g\":"));
            assert!(!payload.contains("\"b\":"));
        }
        other => panic!("{:?}", other),
    }
}

#[test]
fn restore_after_failed_drive_starts_afresh() {
    let mut fleet = captured();
    fleet.set_color_all((1, 1, 1), 0, 100, true);
    let failed = fleet.advance(Event::Unreachable("gone".to_string()));
    assert!(matches!(failed, Action::Failed(_)));
    assert!(matches!(fleet.restore_initial_states(), Action::Send { .. }));
}

#[test]
fn restore_stops_at_the_lamp_that_fails() {
    let mut fleet = captured();
    fleet.restore_initial_states();
    fleet.advance(reply(OK_REPLY));
    fleet.advance(reply(OK_REPLY));
    let failed = Action::Failed(Failure::DeviceUnreachable {
        address: "10.0.0.2".to_string(),
        detail: "gone".to_string(),
    });
    assert_eq!(fleet.advance(Event::Unreachable("gone".to_string())), failed);
    assert_eq!(fleet.advance(reply(OK_REPLY)), failed);
}

#[test]
fn failure_message_names_the_address() {
    let unreachable = Failure::DeviceUnreachable {
        address: "10.0.0.7".to_string(),
        detail: "timed out".to_string(),
    };
    assert_eq!(
        unreachable.message(),
        "Error communicating with 10.0.0.7 \nPlease make sure the IP is correct, the lamp is turned on and connected to the same network as this computer"
    );
    assert_eq!(unreachable.duplicate(), unreachable);
    let unreadable = Failure::Protocol { address: "10.0.0.8".to_string(), error: ProtocolError::Malformed };
    assert_eq!(
        unreadable.message(),
        "Unreadable reply from 10.0.0.8 \nPlease make sure the IP is that of a lamp"
    );
    assert_eq!(unreadable.duplicate(), unreadable);
}

use ambilight::device::{DeviceCommandParams, ProtocolError};
use ambilight::light_communication::LightCommunication;
use ambilight::pilot::{
    get_pilot_message, get_user_config_message, set_pilot_message,
    set_pilot_message_from_previous_state, set_temperature_message, set_user_config_message,
};
use serde_json::Value;

fn object(members: Vec<(&str, Value)>) -> Value {
    let mut map = serde_json::Map::new();
    for (key, value) in members {
        map.insert(key.to_string(), value);
    }
    Value::Object(map)
}

fn command(method: &str, params: Vec<(&str, Value)>) -> String {
    object(vec![("method", Value::from(method)), ("params", object(params))]).to_string()
}

#[test]
fn set_pilot_message_exact_text() {
    assert_eq!(
        set_pilot_message(1, 2, 3, 100, true),
        "{\"method\":\"setPilot\",\"params\":{\"b\":3,\"dimming\":100,\"g\":2,\"r\":1,\"state\":true}}"
    );
}

#[test]
fn set_pilot_message_agrees_with_serde_json() {
    for (r, g, b, dimming, state) in [
        (0u64, 0u64, 0u64, 0u64, false),
        (255, 128, 7, 100, true),
        (9, 10, 99, 1000, true),
        (u64::MAX, 18446744073709551614, 1, 42, false),
    ] {
        let expected = command(
            "setPilot",
            vec![
                ("r", Value::from(r)),
                ("g", Value::from(g)),
                ("b", Value::from(b)),
                ("dimming", Value::from(dimming)),
                ("state", Value::from(state)),
            ],
        );
        assert_eq!(set_pilot_message(r, g, b, dimming, state), expected);
    }
}

#[test]
fn set_temperature_message_exact_text() {
    assert_eq!(
        set_temperature_message(2700, 80, false),
        "{\"method\":\"setPilot\",\"params\":{\"dimming\":80,\"state\":false,\"temp\":2700}}"
    );
}

#[test]
fn set_temperature_message_agrees_with_serde_json() {
    let expected = command(
        "setPilot",
        vec![("temp", Value::from(6500u64)), ("dimming", Value::from(10u64)), ("state", Value::from(true))],
    );
    assert_eq!(set_temperature_message(6500, 10, true), expected);
}

#[test]
fn query_messages_exact_text() {
    assert_eq!(get_pilot_message(), "{\"method\":\"getPilot\",\"params\":{}}");
    assert_eq!(get_user_config_message(), "{\"method\":\"getUserConfig\",\"params\":{}}");
    assert_eq!(get_pilot_message(), command("getPilot", vec![]));
    assert_eq!(get_user_config_message(), command("getUserConfig", vec![]));
}

#[test]
fn set_user_config_message_exact_text() {
    assert_eq!(
        set_user_config_message(500, 0),
        "{\"method\":\"setUserConfig\",\"params\":{\"fadeIn\":500,\"fadeOut\":0}}"
    );
    assert_eq!(
        set_user_config_message(12, 3456),
        command("setUserConfig", vec![("fadeIn", Value::from(12u64)), ("fadeOut", Value::from(3456u64))])
    );
}

#[test]
fn fleet_pilot_message_prefers_temperature() {
    let fleet = LightCommunication::new(vec![]);
    assert_eq!(
        fleet.set_pilot_message((1, 2, 3), 2700, 100, true),
        "{\"method\":\"setPilot\",\"params\":{\"dimming\":100,\"state\":true,\"temp\":2700}}"
    );
    assert_eq!(
        fleet.set_pilot_message((1, 2, 3), 0, 100, true),
        "{\"method\":\"setPilot\",\"params\":{\"b\":3,\"dimming\":100,\"g\":2,\"r\":1,\"state\":true}}"
    );
}

#[test]
fn params_message_follows_mode() {
    let white = DeviceCommandParams::TempMode { temp: 0, dimming: 5, state: true };
    assert_eq!(white.message(), "{\"method\":\"setPilot\",\"params\":{\"dimming\":5,\"state\":true,\"temp\":0}}");
    let red = DeviceCommandParams::RgbMode { r: 255, g: 0, b: 0, dimming: 5, state: true };
    assert_eq!(red.message(), set_pilot_message(255, 0, 0, 5, true));
}

#[test]
fn message_from_previous_rgb_state() {
    let reply = "{\"method\":\"getPilot\",\"env\":\"pro\",\"result\":{\"mac\":\"a8bb50aabbcc\",\"rssi\":-62,\"src\":\"\",\"state\":true,\"sceneId\":0,\"r\":255,\"g\":10,\"b\":0,\"c\":0,\"w\":0,\"dimming\":75}}";
    assert_eq!(
        set_pilot_message_from_previous_state(reply.to_string()),
        Ok(set_pilot_message(255, 10, 0, 75, true))
    );
}

#[test]
fn message_from_previous_temperature_state() {
    let reply = "{\"result\":{\"state\":false,\"temp\":2700,\"dimming\":30,\"r\":1,\"g\":2,\"b\":3}}";
    let message = set_pilot_message_from_previous_state(reply.to_string()).unwrap();
    assert_eq!(message, "{\"method\":\"setPilot\",\"params\":{\"dimming\":30,\"state\":false,\"temp\":2700}}");
    assert!(message.contains("\"temp\""));
    assert!(!message.contains("\"r\""));
    assert!(!message.contains("\"g\""));
    assert!(!message.contains("\"b\""));
}

#[test]
fn message_from_malformed_previous_state() {
    for reply in ["", "not json", "{\"result\":5}", "{\"result\":{\"r\":1,\"g\":2,\"b\":3,\"dimming\":4}}", "[1,2]"] {
        assert_eq!(
            set_pilot_message_from_previous_state(reply.to_string()),
            Err(ProtocolError::Malformed)
        );
    }
}

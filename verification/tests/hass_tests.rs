use home_assist::hass::{
    battery_soc_entity, charger_request_body, charger_service, ev_battery_level_entity,
    ev_location_entity, ev_plug_entity, ev_status, hass_base_address, min_soc_request_body, parse_port,
    pv_sum_entity, sample_slot, EvStatus, HassSample, SampleSlot,
};

fn sample(state: &str) -> HassSample {
    HassSample { state: state.to_string(), last_updated: "2024-06-01T12:00:00+00:00".to_string() }
}

#[test]
fn entity_names() {
    assert_eq!(ev_battery_level_entity("byd"), "sensor.byd_battery_level");
    assert_eq!(ev_location_entity("byd"), "device_tracker.byd_location");
    assert_eq!(ev_plug_entity("byd"), "sensor.byd_plug");
    assert_eq!(battery_soc_entity("delta"), "sensor.delta_power_battery_soc");
    assert_eq!(pv_sum_entity("delta"), "sensor.delta_power_pv_sum");
}

#[test]
fn service_bodies() {
    let expected = format!(
        r#"{{
            "entity_id": "number.{}",
            "value": {}
        }}"#,
        "delta", 57
    );
    assert_eq!(min_soc_request_body("delta", 57), expected);
    assert!(min_soc_request_body("delta", 0).contains("\"value\": 0\n"));
    assert!(min_soc_request_body("delta", 255).contains("\"value\": 255\n"));
    let expected = format!(
        r#"{{
            "entity_id": "switch.{}"
        }}"#,
        "voldt"
    );
    assert_eq!(charger_request_body("voldt"), expected);
    assert_eq!(charger_service(true), "turn_on");
    assert_eq!(charger_service(false), "turn_off");
}

#[test]
fn car_state() {
    assert_eq!(
        ev_status(80, &sample("home"), &sample("on")),
        EvStatus { battery_percent: 80, at_home: true, plugged_in: true }
    );
    assert_eq!(
        ev_status(80, &sample("not_home"), &sample("off")),
        EvStatus { battery_percent: 80, at_home: false, plugged_in: false }
    );
    assert!(!ev_status(1, &sample("Home"), &sample("on ")).at_home);
    assert!(!ev_status(1, &sample("Home"), &sample("on ")).plugged_in);
}

#[test]
fn solar_sample_slots() {
    assert_eq!(sample_slot(5, 5), SampleSlot::SameHour);
    assert_eq!(sample_slot(5, 6), SampleSlot::NextHour);
    assert_eq!(sample_slot(5, 7), SampleSlot::Gap);
    assert_eq!(sample_slot(5, 4), SampleSlot::Gap);
    assert_eq!(sample_slot(23, 23), SampleSlot::SameHour);
    assert_eq!(sample_slot(23, 0), SampleSlot::Gap);
}

#[test]
fn ports() {
    assert_eq!(parse_port("8123"), Some(8123));
    assert_eq!(parse_port("+8123"), Some(8123));
    assert_eq!(parse_port("008123"), Some(8123));
    assert_eq!(parse_port("65535"), Some(65535));
    assert_eq!(parse_port("65536"), None);
    assert_eq!(parse_port("99999999999999999999"), None);
    assert_eq!(parse_port(""), None);
    assert_eq!(parse_port("+"), None);
    assert_eq!(parse_port("-1"), None);
    assert_eq!(parse_port(" 80"), None);
    assert_eq!(parse_port("80a"), None);
    for text in ["0", "1", "443", "+0", "8123", "65535", "65536", "++1", "１２"] {
        assert_eq!(parse_port(text), text.parse::<u16>().ok());
    }
}

#[test]
fn server_address() {
    assert_eq!(hass_base_address("192.168.1.20", 8123), "http://192.168.1.20:8123");
    assert_eq!(hass_base_address("ha.local", 0), "http://ha.local:0");
    let host = "10.0.0.2";
    let port = 65535u16;
    assert_eq!(hass_base_address(host, port), format!("http://{host}:{port}"));
}

use home_assist::control_panel::{LedWrite, PanelState, APPLIANCE_1_WH};
use home_assist::toggle_panel;

#[test]
fn new_panel() {
    let p = PanelState::new();
    assert!(!p.app_1 && !p.app_2 && !p.app_3 && !p.lan);
    assert_eq!(p.ev_target_perc, 95);
}

#[test]
fn appliance_buttons_flip_switches() {
    let mut p = PanelState::new();
    assert_eq!(p.handle_pin(17), Some(LedWrite { led: 0, on: true }));
    assert!(p.app_1);
    assert_eq!(p.handle_pin(18), Some(LedWrite { led: 1, on: true }));
    assert_eq!(p.handle_pin(27), Some(LedWrite { led: 2, on: true }));
    assert!(p.app_1 && p.app_2 && p.app_3);
    assert_eq!(p.handle_pin(17), Some(LedWrite { led: 0, on: false }));
    assert!(!p.app_1 && p.app_2 && p.app_3);
}

#[test]
fn appliance_press_twice_restores() {
    let before = PanelState::new();
    let mut p = before;
    p.handle_pin(18);
    p.handle_pin(18);
    assert_eq!(p, before);
}

#[test]
fn ev_target_buttons() {
    let mut p = PanelState::new();
    assert_eq!(p.handle_pin(20), None);
    assert_eq!(p.ev_target_perc, 95);
    assert_eq!(p.handle_pin(21), None);
    assert_eq!(p.ev_target_perc, 90);
    for _ in 0..20 {
        p.handle_pin(21);
    }
    assert_eq!(p.ev_target_perc, 25);
    p.handle_pin(20);
    assert_eq!(p.ev_target_perc, 30);
    p.ev_target_perc = 92;
    p.handle_pin(20);
    assert_eq!(p.ev_target_perc, 95);
    p.ev_target_perc = 28;
    p.handle_pin(21);
    assert_eq!(p.ev_target_perc, 25);
}

#[test]
fn ev_target_up_then_down_restores() {
    for t in 25..=90u8 {
        let mut p = PanelState::new();
        p.ev_target_perc = t;
        let before = p;
        p.handle_pin(20);
        p.handle_pin(21);
        assert_eq!(p, before);
    }
}

#[test]
fn other_pins_change_nothing() {
    let mut p = PanelState::new();
    p.handle_pin(17);
    let before = p;
    for pin in [0u8, 11, 16, 19, 22, 26, 28, 255] {
        assert_eq!(p.handle_pin(pin), None);
        assert_eq!(p, before);
    }
}

#[test]
fn network_light() {
    let mut p = PanelState::new();
    assert_eq!(p.set_lan(true), LedWrite { led: 3, on: true });
    assert!(p.lan);
    assert_eq!(p.set_lan(false), LedWrite { led: 3, on: false });
    assert!(!p.lan);
}

#[test]
fn usage_estimate() {
    let mut p = PanelState::new();
    assert_eq!(p.get_usage_est(3600), 3600);
    p.handle_pin(18);
    p.handle_pin(27);
    assert_eq!(p.get_usage_est(3600), 3600);
    p.handle_pin(17);
    assert_eq!(p.get_usage_est(3600), 6000);
    assert_eq!(APPLIANCE_1_WH, 2400);
    assert_eq!(p.get_usage_est(-100), 2300);
}

#[test]
fn three_switch_panel() {
    let mut p = toggle_panel::PanelState::new();
    assert_eq!(p.toggle(11), Some(LedWrite { led: 0, on: true }));
    assert_eq!(p.toggle(12), Some(LedWrite { led: 1, on: true }));
    assert_eq!(p.toggle(13), Some(LedWrite { led: 2, on: true }));
    assert_eq!(p.toggle(17), None);
    assert!(p.app_1 && p.app_2 && p.app_3);
    assert_eq!(p.toggle(12), Some(LedWrite { led: 1, on: false }));
    assert!(p.app_1 && !p.app_2 && p.app_3);
    p.toggle(11);
    p.toggle(13);
    assert_eq!(p, toggle_panel::PanelState::new());
}

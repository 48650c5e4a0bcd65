use macropad::{Controller, EncoderState, Layer, Status, Step, decode_report, label, layer_name,
    press_edges, release_edges, release_bytes, report_bytes, snapshot_from_levels, status_icon};

fn no_keys() -> Vec<bool> {
    vec![false; 12]
}

fn one_key(i: usize) -> Vec<bool> {
    let mut v = vec![false; 12];
    v[i] = true;
    v
}

fn quiet_tick(c: &mut Controller) -> Vec<Step> {
    let serial: Vec<u8> = Vec::new();
    c.tick(&no_keys(), false, false, false, &serial)
}

#[test]
fn boot_then_overlay_toggle_round_trip() {
    let mut c = Controller::new(false, false);
    assert_eq!(c.state.layer, Layer::Primary);
    let serial: Vec<u8> = Vec::new();
    // press the reserved key: into the overlay, previous saved
    let steps = c.tick(&one_key(11), false, false, false, &serial);
    assert!(steps.is_empty());
    assert_eq!(c.state.layer, Layer::Overlay);
    assert_eq!(c.state.prev_layer, Layer::Primary);
    // release, then press again: back to the primary layer
    quiet_tick(&mut c);
    c.tick(&one_key(11), false, false, false, &serial);
    assert_eq!(c.state.layer, Layer::Primary);
}

#[test]
fn holding_the_key_fires_only_on_the_edge() {
    let mut c = Controller::new(false, false);
    let serial: Vec<u8> = Vec::new();
    c.tick(&one_key(11), false, false, false, &serial);
    assert_eq!(c.state.layer, Layer::Overlay);
    // the key is still down on the next tick: no new edge, no new toggle
    c.tick(&one_key(11), false, false, false, &serial);
    assert_eq!(c.state.layer, Layer::Overlay);
}

#[test]
fn encoder_falling_edge_advances_the_cycle() {
    let mut c = Controller::new(false, false);
    let serial: Vec<u8> = Vec::new();
    c.tick(&no_keys(), true, false, false, &serial);
    assert_eq!(c.state.layer, Layer::Secondary);
    // channel A still low: no new edge
    c.tick(&no_keys(), true, true, false, &serial);
    assert_eq!(c.state.layer, Layer::Secondary);
    // high then low again: one more step, whatever channel B reads
    c.tick(&no_keys(), false, true, false, &serial);
    c.tick(&no_keys(), true, true, false, &serial);
    assert_eq!(c.state.layer, Layer::Tertiary);
}

#[test]
fn encoder_does_not_advance_past_the_overlay() {
    let mut c = Controller::new(false, false);
    let serial: Vec<u8> = Vec::new();
    c.tick(&one_key(11), false, false, false, &serial);
    assert_eq!(c.state.layer, Layer::Overlay);
    quiet_tick(&mut c);
    c.tick(&no_keys(), true, false, false, &serial);
    assert_eq!(c.state.layer, Layer::Overlay);
}

#[test]
fn encoder_button_toggles_the_overlay() {
    let mut c = Controller::new(false, false);
    let serial: Vec<u8> = Vec::new();
    c.tick(&no_keys(), false, false, true, &serial);
    assert_eq!(c.state.layer, Layer::Overlay);
    c.tick(&no_keys(), false, false, false, &serial);
    c.tick(&no_keys(), false, false, true, &serial);
    assert_eq!(c.state.layer, Layer::Primary);
}

#[test]
fn note_key_on_the_secondary_layer_sounds() {
    let mut c = Controller::new(false, false);
    let serial: Vec<u8> = Vec::new();
    c.tick(&no_keys(), true, false, false, &serial);
    assert_eq!(c.state.layer, Layer::Secondary);
    let steps = c.tick(&one_key(0), true, false, false, &serial);
    assert_eq!(
        steps,
        vec![
            Step::Tone { top: 7454, duty: 3727 },
            Step::Wait { ms: 200 },
            Step::Silence,
        ]
    );
}

#[test]
fn hold_chord_releases_on_the_release_edge() {
    let mut c = Controller::new(false, false);
    let serial: Vec<u8> = Vec::new();
    let press = c.tick(&one_key(1), false, false, false, &serial);
    assert_eq!(press, vec![Step::Report { modifier: 0x0a, keycode: 0x16 }]);
    // held down: nothing more
    let held = c.tick(&one_key(1), false, false, false, &serial);
    assert!(held.is_empty());
    // release edge: the explicit release report
    let release = c.tick(&no_keys(), false, false, false, &serial);
    assert_eq!(release, vec![Step::Report { modifier: 0, keycode: 0 }]);
}

#[test]
fn serial_bytes_run_through_the_tick() {
    let mut c = Controller::new(false, false);
    let serial: Vec<u8> = b"STS:ERR\nMSG:deploy failed\n".to_vec();
    c.tick(&no_keys(), false, false, false, &serial);
    assert_eq!(c.state.status, Status::Error);
    assert_eq!(c.state.message, b"deploy failed".to_vec());
}

#[test]
fn tick_counter_moves_each_tick() {
    let mut c = Controller::new(false, false);
    assert_eq!(c.ticks, 0);
    quiet_tick(&mut c);
    quiet_tick(&mut c);
    assert_eq!(c.ticks, 2);
}

#[test]
fn leds_come_back_reduced_and_complete() {
    let mut c = Controller::new(false, false);
    quiet_tick(&mut c);
    let leds = c.leds(32);
    assert_eq!(leds.len(), 12);
}

#[test]
fn snapshot_inverts_active_low_levels() {
    let mut levels = vec![true; 12];
    levels[4] = false;
    let snap = snapshot_from_levels(&levels);
    for i in 0..12 {
        assert_eq!(snap[i], i == 4);
    }
}

#[test]
fn edges_between_snapshots() {
    let prev = {
        let mut v = vec![false; 12];
        v[1] = true;
        v[2] = true;
        v
    };
    let cur = {
        let mut v = vec![false; 12];
        v[2] = true;
        v[3] = true;
        v
    };
    let press = press_edges(&cur, &prev);
    let release = release_edges(&cur, &prev);
    for i in 0..12 {
        assert_eq!(press[i], i == 3);
        assert_eq!(release[i], i == 1);
    }
}

#[test]
fn encoder_state_edges() {
    let mut e = EncoderState::new(false, false);
    assert!(e.rotation_step(true, false));
    assert!(!e.rotation_step(true, true));
    assert!(!e.rotation_step(false, false));
    assert!(e.rotation_step(true, true));
    assert!(e.button_step(true));
    assert!(!e.button_step(true));
}

#[test]
fn report_bytes_shape() {
    assert_eq!(report_bytes(0x02, 0x04), vec![0x02, 0, 0, 0x04, 0, 0, 0, 0, 0]);
    assert_eq!(release_bytes(), vec![0, 0, 0, 0, 0, 0, 0, 0, 0]);
}

#[test]
fn decode_report_reads_modifier_and_keycode() {
    let buf: Vec<u8> = vec![0x0a, 0, 0x04, 0, 0, 0, 0, 0];
    let info = decode_report(&buf).unwrap();
    assert_eq!(info.modifier, 0x0a);
    assert_eq!(info.keycode, 0x04);
    assert!(info.lshift);
    assert!(info.lgui);
    assert!(!info.lctrl);
    assert!(!info.lalt);
    let short: Vec<u8> = vec![1, 2, 3];
    assert!(decode_report(&short).is_none());
}

#[test]
fn display_parts() {
    assert_eq!(layer_name(Layer::Primary), "Macros");
    assert_eq!(layer_name(Layer::Overlay), "Snippets");
    assert_eq!(status_icon(Status::Idle), '-');
    assert_eq!(status_icon(Status::Error), '!');
    assert_eq!(label(Layer::Primary, 10), "Today");
    assert_eq!(label(Layer::Secondary, 9), "A");
    assert_eq!(label(Layer::Tertiary, 1), "C#min");
    assert_eq!(label(Layer::Overlay, 11), "Back");
}

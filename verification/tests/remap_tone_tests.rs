use macropad::{KeyPress, arpeggio_notes, descending_melody, duty_for, note_freq, remap,
    startup_melody, tone_top};

#[test]
fn remap_case_pair_same_key() {
    let lower = remap(b'd').unwrap();
    let upper = remap(b'D').unwrap();
    assert_eq!(lower, KeyPress { key: 0x0a, shift: false });
    assert_eq!(upper, KeyPress { key: 0x0a, shift: true });
    assert_eq!(lower.key, upper.key);
}

#[test]
fn remap_unsupported_is_none() {
    assert_eq!(remap(b'@'), None);
    assert_eq!(remap(b'{'), None);
    assert_eq!(remap(0x01), None);
    assert_eq!(remap(0x7f), None);
}

#[test]
fn remap_reference_letters() {
    // keys that keep their position under the host layout
    assert_eq!(remap(b'a').unwrap(), KeyPress { key: 0x04, shift: false });
    assert_eq!(remap(b'q').unwrap(), KeyPress { key: 0x14, shift: false });
    // keys that move: the host turns the f position into t, the g
    // position into d, the semicolon position into o
    assert_eq!(remap(b't').unwrap(), KeyPress { key: 0x09, shift: false });
    assert_eq!(remap(b'd').unwrap(), KeyPress { key: 0x0a, shift: false });
    assert_eq!(remap(b'o').unwrap(), KeyPress { key: 0x33, shift: false });
    assert_eq!(remap(b'p').unwrap(), KeyPress { key: 0x15, shift: false });
    assert_eq!(remap(b';').unwrap(), KeyPress { key: 0x13, shift: false });
}

#[test]
fn remap_digits_space_enter_tab_punctuation() {
    assert_eq!(remap(b'1').unwrap(), KeyPress { key: 0x1e, shift: false });
    assert_eq!(remap(b'9').unwrap(), KeyPress { key: 0x26, shift: false });
    assert_eq!(remap(b'0').unwrap(), KeyPress { key: 0x27, shift: false });
    assert_eq!(remap(b' ').unwrap(), KeyPress { key: 0x2c, shift: false });
    assert_eq!(remap(b'\n').unwrap(), KeyPress { key: 0x28, shift: false });
    assert_eq!(remap(b'\t').unwrap(), KeyPress { key: 0x2b, shift: false });
    assert_eq!(remap(b'!').unwrap(), KeyPress { key: 0x1e, shift: true });
    assert_eq!(remap(b'?').unwrap(), KeyPress { key: 0x38, shift: true });
    assert_eq!(remap(b':').unwrap(), KeyPress { key: 0x13, shift: true });
    assert_eq!(remap(b'_').unwrap(), KeyPress { key: 0x2d, shift: true });
}

#[test]
fn all_letters_pair_up() {
    for b in b'a'..=b'z' {
        let lower = remap(b).unwrap();
        let upper = remap(b - 0x20).unwrap();
        assert_eq!(lower.key, upper.key);
        assert!(!lower.shift);
        assert!(upper.shift);
    }
}

#[test]
fn tone_top_reference_vector() {
    assert_eq!(tone_top(125_000_000, 64, 440), 4438);
    assert_eq!(125_000_000u32 / 64 / 440, 4438);
}

#[test]
fn duty_is_half_the_top() {
    assert_eq!(duty_for(4438), 2219);
    assert_eq!(duty_for(0), 0);
}

#[test]
fn note_table_reference_values() {
    assert_eq!(note_freq(0), 262);
    assert_eq!(note_freq(9), 440);
    assert_eq!(note_freq(12), 523);
    assert_eq!(note_freq(24), 1047);
}

#[test]
fn arpeggio_up_then_down_skips_duplicated_peak() {
    assert_eq!(arpeggio_notes(0, false), vec![0, 4, 7, 12, 7, 4, 0]);
    assert_eq!(arpeggio_notes(1, true), vec![1, 4, 8, 13, 8, 4, 1]);
    let idxs = arpeggio_notes(11, false);
    assert_eq!(idxs, vec![11, 15, 18, 23, 18, 15, 11]);
    for i in idxs {
        assert!(i < 25);
    }
}

#[test]
fn melody_tables() {
    let startup = startup_melody();
    assert_eq!(startup.len(), 12);
    assert_eq!(startup[0].freq, 660);
    assert_eq!(startup[0].ms, 100);
    assert_eq!(startup[2].freq, 0);
    let descending = descending_melody();
    assert_eq!(descending.len(), 8);
    assert_eq!(descending[7].freq, 440);
    assert_eq!(descending[7].ms, 200);
}

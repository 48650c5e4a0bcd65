use macropad::{Action, Chord, Layer, MelodyId, Step, TextId, action_for, melody_of, plan_action,
    plan_melody, plan_typed, text_of};

#[test]
fn chord_plan_press_hold_release_gap() {
    let steps = plan_action(Action::Chord(Chord { modifier: 0x0a, keycode: 0x04 }));
    assert_eq!(
        steps,
        vec![
            Step::Report { modifier: 0x0a, keycode: 0x04 },
            Step::Wait { ms: 30 },
            Step::Report { modifier: 0, keycode: 0 },
            Step::Wait { ms: 10 },
        ]
    );
}

#[test]
fn double_chord_sends_the_chord_twice() {
    let steps = plan_action(Action::DoubleChord(Chord { modifier: 0, keycode: 0x29 }));
    assert_eq!(steps.len(), 8);
    assert_eq!(steps[0], Step::Report { modifier: 0, keycode: 0x29 });
    assert_eq!(steps[4], Step::Report { modifier: 0, keycode: 0x29 });
    assert_eq!(steps[2], Step::Report { modifier: 0, keycode: 0 });
    assert_eq!(steps[6], Step::Report { modifier: 0, keycode: 0 });
}

#[test]
fn hold_chord_plan_is_press_only() {
    let steps = plan_action(Action::HoldChord(Chord { modifier: 0x0a, keycode: 0x16 }));
    assert_eq!(steps, vec![Step::Report { modifier: 0x0a, keycode: 0x16 }]);
}

#[test]
fn typed_snippet_remaps_each_character() {
    // "!td": bang is shifted 1; t sits on the f position; d on the g position
    let steps = plan_action(Action::Typed(TextId::Today));
    assert_eq!(steps.len(), 12);
    assert_eq!(steps[0], Step::Report { modifier: 0x02, keycode: 0x1e });
    assert_eq!(steps[1], Step::Wait { ms: 20 });
    assert_eq!(steps[2], Step::Report { modifier: 0, keycode: 0 });
    assert_eq!(steps[4], Step::Report { modifier: 0, keycode: 0x09 });
    assert_eq!(steps[8], Step::Report { modifier: 0, keycode: 0x0a });
}

#[test]
fn typed_plan_drops_unsupported_characters() {
    let text: Vec<u8> = b"a\x01b".to_vec();
    let steps = plan_typed(&text);
    assert_eq!(steps.len(), 8);
    assert_eq!(steps[0], Step::Report { modifier: 0, keycode: 0x04 });
    assert_eq!(steps[4], Step::Report { modifier: 0, keycode: 0x05 });
}

#[test]
fn tone_action_computes_top_and_duty() {
    // note 9 is 440 Hz: top 125000000/64/440 = 4438, duty 2219
    let steps = plan_action(Action::Tone { note: 9 });
    assert_eq!(
        steps,
        vec![
            Step::Tone { top: 4438, duty: 2219 },
            Step::Wait { ms: 200 },
            Step::Silence,
        ]
    );
}

#[test]
fn melody_plan_rests_and_notes() {
    let notes = melody_of(MelodyId::Startup);
    let steps = plan_melody(&notes);
    // 7 sounding notes of 4 steps each, 5 rests of 2 steps each
    assert_eq!(steps.len(), 38);
    // first note: 660 Hz: top 1953125/660 = 2959
    assert_eq!(steps[0], Step::Tone { top: 2959, duty: 1479 });
    assert_eq!(steps[1], Step::Wait { ms: 100 });
    assert_eq!(steps[2], Step::Silence);
    assert_eq!(steps[3], Step::Wait { ms: 20 });
    // third entry is a rest: wait only
    assert_eq!(steps[8], Step::Wait { ms: 100 });
    assert_eq!(steps[9], Step::Wait { ms: 20 });
}

#[test]
fn arpeggio_plan_seven_bursts() {
    let steps = plan_action(Action::Arpeggio { root: 0, minor: false });
    assert_eq!(steps.len(), 28);
    // root note C4 at 262 Hz: top 1953125/262 = 7454
    assert_eq!(steps[0], Step::Tone { top: 7454, duty: 3727 });
    assert_eq!(steps[1], Step::Wait { ms: 100 });
    assert_eq!(steps[2], Step::Silence);
    assert_eq!(steps[3], Step::Wait { ms: 10 });
    // the peak, one octave up at 523 Hz: top 3734
    assert_eq!(steps[12], Step::Tone { top: 3734, duty: 1867 });
    // the descent repeats the third and root, not the peak
    assert_eq!(steps[24], Step::Tone { top: 7454, duty: 3727 });
}

#[test]
fn action_table_reference_entries() {
    assert_eq!(action_for(Layer::Primary, 0), Action::Melody(MelodyId::Startup));
    assert_eq!(
        action_for(Layer::Primary, 2),
        Action::Chord(Chord { modifier: 0x0a, keycode: 0x04 })
    );
    assert_eq!(action_for(Layer::Primary, 10), Action::Typed(TextId::Today));
    assert_eq!(action_for(Layer::Primary, 11), Action::Nop);
    assert_eq!(action_for(Layer::Secondary, 4), Action::Tone { note: 4 });
    assert_eq!(action_for(Layer::Secondary, 11), Action::Nop);
    assert_eq!(action_for(Layer::Tertiary, 2), Action::Arpeggio { root: 2, minor: false });
    assert_eq!(action_for(Layer::Tertiary, 3), Action::Arpeggio { root: 3, minor: true });
    assert_eq!(action_for(Layer::Overlay, 0), Action::Typed(TextId::Thanks));
}

#[test]
fn snippet_texts() {
    assert_eq!(text_of(TextId::Today), b"!td".to_vec());
    assert_eq!(text_of(TextId::Thanks), b"Thanks!".to_vec());
    assert_eq!(text_of(TextId::OnIt), b"On it.".to_vec());
    assert_eq!(text_of(TextId::Brb), b"brb".to_vec());
}

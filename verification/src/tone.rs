use vstd::prelude::*;

verus! {

/// The fixed system clock the PWM slice runs from, in hertz.
pub const SYS_CLOCK_HZ: u32 = 125_000_000;

/// The fixed integer prescaler the PWM slice divides the clock by.
pub const PWM_PRESCALER: u32 = 64;

/// How long a plain tone key sounds, in milliseconds.
pub const TONE_MS: u32 = 200;

/// How long each arpeggio note sounds, in milliseconds.
pub const ARPEGGIO_NOTE_MS: u32 = 100;

/// Gap between melody notes, in milliseconds.
pub const MELODY_GAP_MS: u32 = 20;

/// Gap between arpeggio notes, in milliseconds.
pub const ARPEGGIO_GAP_MS: u32 = 10;

/// Number of entries in the chromatic note table.
pub const NOTE_COUNT: usize = 25;

/// The timer-top value that makes one PWM period last one cycle of the
/// requested frequency: the clock divided by the prescaler, divided by the
/// frequency, rounded down.
pub open spec fn tone_top_spec(clock: u32, prescaler: u32, freq: u32) -> int {
    (clock as int) / (prescaler as int) / (freq as int)
}

/// Executable timer-top computation.
pub fn tone_top(clock: u32, prescaler: u32, freq: u32) -> (r: u16)
    requires
        prescaler > 0,
        freq > 0,
        tone_top_spec(clock, prescaler, freq) <= u16::MAX,
    ensures
        r == tone_top_spec(clock, prescaler, freq),
{
    let effective: u32 = clock / prescaler;
    (effective / freq) as u16
}

/// Half the top value: the compare level of a roughly 50% duty square wave.
pub open spec fn duty_spec(top: u16) -> u16 {
    (top / 2) as u16
}

/// Executable duty computation.
pub fn duty_for(top: u16) -> (r: u16)
    ensures
        r == duty_spec(top),
{
    top / 2
}

/// The chromatic note table, two octaves and one more root, in hertz.
pub open spec fn note_freq_spec(i: int) -> u32 {
    if i == 0 {
        262
    } else if i == 1 {
        277
    } else if i == 2 {
        294
    } else if i == 3 {
        311
    } else if i == 4 {
        330
    } else if i == 5 {
        349
    } else if i == 6 {
        370
    } else if i == 7 {
        392
    } else if i == 8 {
        415
    } else if i == 9 {
        440
    } else if i == 10 {
        466
    } else if i == 11 {
        494
    } else if i == 12 {
        523
    } else if i == 13 {
        554
    } else if i == 14 {
        587
    } else if i == 15 {
        622
    } else if i == 16 {
        659
    } else if i == 17 {
        698
    } else if i == 18 {
        740
    } else if i == 19 {
        784
    } else if i == 20 {
        831
    } else if i == 21 {
        880
    } else if i == 22 {
        932
    } else if i == 23 {
        988
    } else if i == 24 {
        1047
    } else {
        0
    }
}

/// Executable note table lookup.
pub fn note_freq(i: usize) -> (r: u32)
    requires
        i < NOTE_COUNT,
    ensures
        r == note_freq_spec(i as int),
        r > 0,
{
    if i == 0 {
        262
    } else if i == 1 {
        277
    } else if i == 2 {
        294
    } else if i == 3 {
        311
    } else if i == 4 {
        330
    } else if i == 5 {
        349
    } else if i == 6 {
        370
    } else if i == 7 {
        392
    } else if i == 8 {
        415
    } else if i == 9 {
        440
    } else if i == 10 {
        466
    } else if i == 11 {
        494
    } else if i == 12 {
        523
    } else if i == 13 {
        554
    } else if i == 14 {
        587
    } else if i == 15 {
        622
    } else if i == 16 {
        659
    } else if i == 17 {
        698
    } else if i == 18 {
        740
    } else if i == 19 {
        784
    } else if i == 20 {
        831
    } else if i == 21 {
        880
    } else if i == 22 {
        932
    } else if i == 23 {
        988
    } else {
        1047
    }
}

/// One melody entry: a frequency in hertz (zero meaning a rest) and a
/// duration in milliseconds.
#[derive(Clone, Copy, PartialEq, Eq, Structural, Debug)]
pub struct Note {
    pub freq: u32,
    pub ms: u32,
}

/// The startup melody.
pub open spec fn startup_melody_spec() -> Seq<Note> {
    seq![
        Note { freq: 660, ms: 100 },
        Note { freq: 660, ms: 100 },
        Note { freq: 0, ms: 100 },
        Note { freq: 660, ms: 100 },
        Note { freq: 0, ms: 100 },
        Note { freq: 520, ms: 100 },
        Note { freq: 660, ms: 100 },
        Note { freq: 0, ms: 100 },
        Note { freq: 784, ms: 150 },
        Note { freq: 0, ms: 150 },
        Note { freq: 392, ms: 150 },
        Note { freq: 0, ms: 150 },
    ]
}

/// Executable startup melody table.
pub fn startup_melody() -> (r: Vec<Note>)
    ensures
        r@ == startup_melody_spec(),
{
    let mut v: Vec<Note> = Vec::new();
    v.push(Note { freq: 660, ms: 100 });
    v.push(Note { freq: 660, ms: 100 });
    v.push(Note { freq: 0, ms: 100 });
    v.push(Note { freq: 660, ms: 100 });
    v.push(Note { freq: 0, ms: 100 });
    v.push(Note { freq: 520, ms: 100 });
    v.push(Note { freq: 660, ms: 100 });
    v.push(Note { freq: 0, ms: 100 });
    v.push(Note { freq: 784, ms: 150 });
    v.push(Note { freq: 0, ms: 150 });
    v.push(Note { freq: 392, ms: 150 });
    v.push(Note { freq: 0, ms: 150 });
    proof {
        assert(v@ =~= startup_melody_spec());
    }
    v
}

/// The descending melody.
pub open spec fn descending_melody_spec() -> Seq<Note> {
    seq![
        Note { freq: 740, ms: 150 },
        Note { freq: 659, ms: 150 },
        Note { freq: 587, ms: 150 },
        Note { freq: 554, ms: 150 },
        Note { freq: 494, ms: 150 },
        Note { freq: 440, ms: 150 },
        Note { freq: 415, ms: 150 },
        Note { freq: 440, ms: 200 },
    ]
}

/// Executable descending melody table.
pub fn descending_melody() -> (r: Vec<Note>)
    ensures
        r@ == descending_melody_spec(),
{
    let mut v: Vec<Note> = Vec::new();
    v.push(Note { freq: 740, ms: 150 });
    v.push(Note { freq: 659, ms: 150 });
    v.push(Note { freq: 587, ms: 150 });
    v.push(Note { freq: 554, ms: 150 });
    v.push(Note { freq: 494, ms: 150 });
    v.push(Note { freq: 440, ms: 150 });
    v.push(Note { freq: 415, ms: 150 });
    v.push(Note { freq: 440, ms: 200 });
    proof {
        assert(v@ =~= descending_melody_spec());
    }
    v
}

/// The note indices of one arpeggio: the triad of the root — major or minor
/// third deciding the flavor — played up to the octave and back down,
/// leaving out the duplicated peak on the way down.
pub open spec fn arpeggio_notes_spec(root: int, minor: bool) -> Seq<int> {
    let third = if minor {
        3int
    } else {
        4int
    };
    seq![root, root + third, root + 7, root + 12, root + 7, root + third, root]
}

/// Executable arpeggio index list. Rooted at a key index, every entry lies
/// inside the note table.
pub fn arpeggio_notes(root: usize, minor: bool) -> (r: Vec<usize>)
    requires
        root < 12,
    ensures
        r@.len() == arpeggio_notes_spec(root as int, minor).len(),
        forall|i: int|
            0 <= i < r@.len() ==> r@[i] == arpeggio_notes_spec(root as int, minor)[i],
        forall|i: int| 0 <= i < r@.len() ==> r@[i] < NOTE_COUNT,
{
    let third: usize = if minor {
        3
    } else {
        4
    };
    let mut v: Vec<usize> = Vec::new();
    v.push(root);
    v.push(root + third);
    v.push(root + 7);
    v.push(root + 12);
    v.push(root + 7);
    v.push(root + third);
    v.push(root);
    v
}

} // verus!

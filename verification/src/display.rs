use vstd::prelude::*;

use crate::layers::Layer;
use crate::layers::Status;

verus! {

/// The title shown for each layer.
pub open spec fn layer_name_spec(l: Layer) -> Seq<char> {
    match l {
        Layer::Primary => "Macros"@,
        Layer::Secondary => "Notes"@,
        Layer::Tertiary => "Chords"@,
        Layer::Overlay => "Snippets"@,
    }
}

/// Executable layer title.
pub fn layer_name(l: Layer) -> (r: &'static str)
    ensures
        r@ == layer_name_spec(l),
{
    match l {
        Layer::Primary => "Macros",
        Layer::Secondary => "Notes",
        Layer::Tertiary => "Chords",
        Layer::Overlay => "Snippets",
    }
}

/// The one-glyph icon shown for each status value.
pub open spec fn status_icon_spec(s: Status) -> char {
    match s {
        Status::Idle => '-',
        Status::Running => '>',
        Status::Waiting => '~',
        Status::Error => '!',
    }
}

/// Executable status icon.
pub fn status_icon(s: Status) -> (r: char)
    ensures
        r == status_icon_spec(s),
{
    match s {
        Status::Idle => '-',
        Status::Running => '>',
        Status::Waiting => '~',
        Status::Error => '!',
    }
}

/// The key label table of the primary layer.
pub open spec fn primary_label_spec(i: int) -> Seq<char> {
    if i == 0 {
        "Tune"@
    } else if i == 1 {
        "Rec"@
    } else if i == 2 {
        "Mute"@
    } else if i == 3 {
        "Esc2"@
    } else if i == 4 {
        "Run"@
    } else if i == 5 {
        "Down"@
    } else if i == 10 {
        "Today"@
    } else if i == 11 {
        "Snip"@
    } else {
        ""@
    }
}

/// The key label table of the secondary (note) layer.
pub open spec fn secondary_label_spec(i: int) -> Seq<char> {
    if i == 0 {
        "C"@
    } else if i == 1 {
        "C#"@
    } else if i == 2 {
        "D"@
    } else if i == 3 {
        "D#"@
    } else if i == 4 {
        "E"@
    } else if i == 5 {
        "F"@
    } else if i == 6 {
        "F#"@
    } else if i == 7 {
        "G"@
    } else if i == 8 {
        "G#"@
    } else if i == 9 {
        "A"@
    } else if i == 10 {
        "A#"@
    } else if i == 11 {
        "Snip"@
    } else {
        ""@
    }
}

/// The key label table of the tertiary (arpeggio) layer: major triads on
/// even keys, minor triads on odd ones.
pub open spec fn tertiary_label_spec(i: int) -> Seq<char> {
    if i == 0 {
        "Cmaj"@
    } else if i == 1 {
        "C#min"@
    } else if i == 2 {
        "Dmaj"@
    } else if i == 3 {
        "D#min"@
    } else if i == 4 {
        "Emaj"@
    } else if i == 5 {
        "Fmin"@
    } else if i == 6 {
        "F#maj"@
    } else if i == 7 {
        "Gmin"@
    } else if i == 8 {
        "G#maj"@
    } else if i == 9 {
        "Amin"@
    } else if i == 10 {
        "A#maj"@
    } else if i == 11 {
        "Snip"@
    } else {
        ""@
    }
}

/// The key label table of the overlay (snippet) layer.
pub open spec fn overlay_label_spec(i: int) -> Seq<char> {
    if i == 0 {
        "Thanks"@
    } else if i == 1 {
        "On it"@
    } else if i == 2 {
        "brb"@
    } else if i == 11 {
        "Back"@
    } else {
        ""@
    }
}

/// The label of one key on one layer.
pub open spec fn label_spec(l: Layer, i: int) -> Seq<char> {
    match l {
        Layer::Primary => primary_label_spec(i),
        Layer::Secondary => secondary_label_spec(i),
        Layer::Tertiary => tertiary_label_spec(i),
        Layer::Overlay => overlay_label_spec(i),
    }
}

/// Executable key label lookup.
pub fn label(l: Layer, i: usize) -> (r: &'static str)
    requires
        i < 12,
    ensures
        r@ == label_spec(l, i as int),
{
    match l {
        Layer::Primary => {
            if i == 0 {
                "Tune"
            } else if i == 1 {
                "Rec"
            } else if i == 2 {
                "Mute"
            } else if i == 3 {
                "Esc2"
            } else if i == 4 {
                "Run"
            } else if i == 5 {
                "Down"
            } else if i == 10 {
                "Today"
            } else if i == 11 {
                "Snip"
            } else {
                ""
            }
        },
        Layer::Secondary => {
            if i == 0 {
                "C"
            } else if i == 1 {
                "C#"
            } else if i == 2 {
                "D"
            } else if i == 3 {
                "D#"
            } else if i == 4 {
                "E"
            } else if i == 5 {
                "F"
            } else if i == 6 {
                "F#"
            } else if i == 7 {
                "G"
            } else if i == 8 {
                "G#"
            } else if i == 9 {
                "A"
            } else if i == 10 {
                "A#"
            } else if i == 11 {
                "Snip"
            } else {
                ""
            }
        },
        Layer::Tertiary => {
            if i == 0 {
                "Cmaj"
            } else if i == 1 {
                "C#min"
            } else if i == 2 {
                "Dmaj"
            } else if i == 3 {
                "D#min"
            } else if i == 4 {
                "Emaj"
            } else if i == 5 {
                "Fmin"
            } else if i == 6 {
                "F#maj"
            } else if i == 7 {
                "Gmin"
            } else if i == 8 {
                "G#maj"
            } else if i == 9 {
                "Amin"
            } else if i == 10 {
                "A#maj"
            } else if i == 11 {
                "Snip"
            } else {
                ""
            }
        },
        Layer::Overlay => {
            if i == 0 {
                "Thanks"
            } else if i == 1 {
                "On it"
            } else if i == 2 {
                "brb"
            } else if i == 11 {
                "Back"
            } else {
                ""
            }
        },
    }
}

} // verus!

use vstd::prelude::*;

use crate::led::NUM_KEYS;

verus! {

/// A key is pressed this tick exactly when it is down now and was not down
/// on the previous tick.
pub open spec fn press_edge_spec(cur: Seq<bool>, prev: Seq<bool>, i: int) -> bool {
    cur[i] && !prev[i]
}

/// A key is released this tick exactly when it was down on the previous
/// tick and is not down now.
pub open spec fn release_edge_spec(cur: Seq<bool>, prev: Seq<bool>, i: int) -> bool {
    !cur[i] && prev[i]
}

/// The pressed-state snapshot read from raw pin levels: the keys are wired
/// active-low, so a key is down exactly when its level reads low.
pub fn snapshot_from_levels(levels: &Vec<bool>) -> (r: Vec<bool>)
    requires
        levels@.len() == NUM_KEYS,
    ensures
        r@.len() == NUM_KEYS,
        forall|i: int| 0 <= i < NUM_KEYS ==> r@[i] == !levels@[i],
{
    let mut r: Vec<bool> = Vec::new();
    let mut i: usize = 0;
    while i < NUM_KEYS
        invariant
            levels@.len() == NUM_KEYS,
            i <= NUM_KEYS,
            r@.len() == i,
            forall|j: int| 0 <= j < i ==> r@[j] == !levels@[j],
        decreases NUM_KEYS - i,
    {
        r.push(!levels[i]);
        i = i + 1;
    }
    r
}

/// The press edges between two consecutive snapshots. Electrical bounce
/// inside one tick window collapses into the single snapshot the caller's
/// tick interval samples, so no further debounce timer is applied.
pub fn press_edges(cur: &Vec<bool>, prev: &Vec<bool>) -> (r: Vec<bool>)
    requires
        cur@.len() == NUM_KEYS,
        prev@.len() == NUM_KEYS,
    ensures
        r@.len() == NUM_KEYS,
        forall|i: int| 0 <= i < NUM_KEYS ==> r@[i] == press_edge_spec(cur@, prev@, i),
{
    let mut r: Vec<bool> = Vec::new();
    let mut i: usize = 0;
    while i < NUM_KEYS
        invariant
            cur@.len() == NUM_KEYS,
            prev@.len() == NUM_KEYS,
            i <= NUM_KEYS,
            r@.len() == i,
            forall|j: int| 0 <= j < i ==> r@[j] == press_edge_spec(cur@, prev@, j),
        decreases NUM_KEYS - i,
    {
        r.push(cur[i] && !prev[i]);
        i = i + 1;
    }
    r
}

/// The release edges between two consecutive snapshots.
pub fn release_edges(cur: &Vec<bool>, prev: &Vec<bool>) -> (r: Vec<bool>)
    requires
        cur@.len() == NUM_KEYS,
        prev@.len() == NUM_KEYS,
    ensures
        r@.len() == NUM_KEYS,
        forall|i: int| 0 <= i < NUM_KEYS ==> r@[i] == release_edge_spec(cur@, prev@, i),
{
    let mut r: Vec<bool> = Vec::new();
    let mut i: usize = 0;
    while i < NUM_KEYS
        invariant
            cur@.len() == NUM_KEYS,
            prev@.len() == NUM_KEYS,
            i <= NUM_KEYS,
            r@.len() == i,
            forall|j: int| 0 <= j < i ==> r@[j] == release_edge_spec(cur@, prev@, j),
        decreases NUM_KEYS - i,
    {
        r.push(!cur[i] && prev[i]);
        i = i + 1;
    }
    r
}

/// The remembered previous levels of the encoder's channel A and of the
/// encoder button, both read active-low like the keys.
pub struct EncoderState {
    pub last_a: bool,
    pub last_btn: bool,
}

impl EncoderState {
    /// Seed the state from the first levels read at boot.
    pub fn new(a_low: bool, btn_low: bool) -> (r: EncoderState)
        ensures
            r.last_a == a_low,
            r.last_btn == btn_low,
    {
        EncoderState { last_a: a_low, last_btn: btn_low }
    }

    /// One rotation sample. A step fires exactly on the falling edge of
    /// channel A (its level becoming low). Channel B is sampled but
    /// deliberately not consulted: the device does not decode the rotation
    /// direction, any step of the knob advances one step.
    pub fn rotation_step(&mut self, a_low: bool, b_low: bool) -> (stepped: bool)
        ensures
            stepped == (a_low && !old(self).last_a),
            final(self).last_a == a_low,
            final(self).last_btn == old(self).last_btn,
    {
        let _ = b_low;
        let stepped = a_low && !self.last_a;
        self.last_a = a_low;
        stepped
    }

    /// One encoder-button sample; fires on the press edge.
    pub fn button_step(&mut self, btn_low: bool) -> (pressed: bool)
        ensures
            pressed == (btn_low && !old(self).last_btn),
            final(self).last_btn == btn_low,
            final(self).last_a == old(self).last_a,
    {
        let pressed = btn_low && !self.last_btn;
        self.last_btn = btn_low;
        pressed
    }
}

} // verus!

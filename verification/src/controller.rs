use vstd::prelude::*;

use crate::actions::Action;
use crate::actions::Step;
use crate::actions::action_for;
use crate::actions::action_spec;
use crate::actions::action_steps_spec;
use crate::actions::plan_action;
use crate::led::NUM_KEYS;
use crate::led::Rgb;
use crate::led::STATUS_KEY;
use crate::led::led_output;
use crate::led::led_spec;
use crate::led::scaled_spec;
use crate::scan::EncoderState;
use crate::scan::press_edge_spec;
use crate::scan::release_edge_spec;
use crate::serial::LineBuffer;
use crate::serial::serial_fold_spec;
use crate::serial::serial_input;
use crate::state::RuntimeState;
use crate::state::StateView;

verus! {

/// The state, held keys and pending steps after one key's press edge.
///
/// The reserved key toggles the overlay and is intercepted before layer
/// dispatch. Any other key resolves through the active layer's action
/// table; a press-and-hold chord marks the key held so its release edge
/// owes the release report.
pub open spec fn press_spec(st: StateView, held: Seq<bool>, key: int) -> (
    StateView,
    Seq<bool>,
    Seq<Step>,
) {
    if key == STATUS_KEY as int {
        (st.toggle_spec(), held, Seq::empty())
    } else {
        let a = action_spec(st.layer, key);
        let held2 = if a is HoldChord {
            held.update(key, true)
        } else {
            held
        };
        (st, held2, action_steps_spec(a))
    }
}

/// The held keys and pending steps after one key's release edge: a key
/// held by a press-and-hold chord sends the explicit release report and is
/// unmarked; any other release does nothing. The runtime state itself is
/// untouched.
pub open spec fn release_spec(held: Seq<bool>, key: int) -> (Seq<bool>, Seq<Step>) {
    if held[key] {
        (held.update(key, false), seq![Step::Report { modifier: 0, keycode: 0 }])
    } else {
        (held, Seq::empty())
    }
}

/// One key of the fold over all keys: a press edge dispatches, a release
/// edge settles a held chord, anything else changes nothing; steps
/// accumulate in key order.
pub open spec fn key_step_spec(
    acc: (StateView, Seq<bool>, Seq<Step>),
    cur: Seq<bool>,
    prev: Seq<bool>,
    key: int,
) -> (StateView, Seq<bool>, Seq<Step>) {
    if press_edge_spec(cur, prev, key) {
        let t = press_spec(acc.0, acc.1, key);
        (t.0, t.1, acc.2 + t.2)
    } else if release_edge_spec(cur, prev, key) {
        let t = release_spec(acc.1, key);
        (acc.0, t.0, acc.2 + t.1)
    } else {
        acc
    }
}

/// The state, held keys and pending steps after handling the edges of the
/// first `k` keys, in key order.
pub open spec fn keys_fold_spec(
    st: StateView,
    held: Seq<bool>,
    cur: Seq<bool>,
    prev: Seq<bool>,
    k: int,
) -> (StateView, Seq<bool>, Seq<Step>)
    decreases k,
{
    if k <= 0 {
        (st, held, Seq::empty())
    } else {
        key_step_spec(keys_fold_spec(st, held, cur, prev, k - 1), cur, prev, k - 1)
    }
}

/// Handle one key's press edge.
fn key_press(state: &mut RuntimeState, held: &mut Vec<bool>, out: &mut Vec<Step>, key: usize)
    requires
        old(state)@.wf(),
        old(held)@.len() == NUM_KEYS,
        key < NUM_KEYS,
    ensures
        final(state)@.wf(),
        final(state)@ == press_spec(old(state)@, old(held)@, key as int).0,
        final(held)@ == press_spec(old(state)@, old(held)@, key as int).1,
        final(out)@ == old(out)@ + press_spec(old(state)@, old(held)@, key as int).2,
{
    if key == STATUS_KEY {
        state.toggle_overlay();
        proof {
            assert(out@ =~= old(out)@ + Seq::<Step>::empty());
        }
    } else {
        let a = action_for(state.layer, key);
        if let Action::HoldChord(_c) = a {
            held.set(key, true);
        }
        let mut steps = plan_action(a);
        out.append(&mut steps);
    }
}

/// Handle one key's release edge.
fn key_release(held: &mut Vec<bool>, out: &mut Vec<Step>, key: usize)
    requires
        old(held)@.len() == NUM_KEYS,
        key < NUM_KEYS,
    ensures
        final(held)@ == release_spec(old(held)@, key as int).0,
        final(out)@ == old(out)@ + release_spec(old(held)@, key as int).1,
{
    if held[key] {
        held.set(key, false);
        out.push(Step::Report { modifier: 0, keycode: 0 });
        proof {
            assert(out@ =~= old(out)@ + release_spec(old(held)@, key as int).1);
        }
    } else {
        proof {
            assert(out@ =~= old(out)@ + Seq::<Step>::empty());
        }
    }
}

/// Handle the edges of all keys between two snapshots, in key order,
/// returning the steps the hardware must carry out.
pub fn process_keys(
    state: &mut RuntimeState,
    held: &mut Vec<bool>,
    cur: &Vec<bool>,
    prev: &Vec<bool>,
) -> (out: Vec<Step>)
    requires
        old(state)@.wf(),
        old(held)@.len() == NUM_KEYS,
        cur@.len() == NUM_KEYS,
        prev@.len() == NUM_KEYS,
    ensures
        final(state)@.wf(),
        final(held)@.len() == NUM_KEYS,
        final(state)@ == keys_fold_spec(
            old(state)@,
            old(held)@,
            cur@,
            prev@,
            NUM_KEYS as int,
        ).0,
        final(held)@ == keys_fold_spec(old(state)@, old(held)@, cur@, prev@, NUM_KEYS as int).1,
        out@ == keys_fold_spec(old(state)@, old(held)@, cur@, prev@, NUM_KEYS as int).2,
{
    let mut out: Vec<Step> = Vec::new();
    let mut key: usize = 0;
    while key < NUM_KEYS
        invariant
            cur@.len() == NUM_KEYS,
            prev@.len() == NUM_KEYS,
            key <= NUM_KEYS,
            state@.wf(),
            held@.len() == NUM_KEYS,
            state@ == keys_fold_spec(old(state)@, old(held)@, cur@, prev@, key as int).0,
            held@ == keys_fold_spec(old(state)@, old(held)@, cur@, prev@, key as int).1,
            out@ == keys_fold_spec(old(state)@, old(held)@, cur@, prev@, key as int).2,
        decreases NUM_KEYS - key,
    {
        let pressed_now = cur[key] && !prev[key];
        let released_now = !cur[key] && prev[key];
        if pressed_now {
            key_press(state, held, &mut out, key);
        } else if released_now {
            key_release(held, &mut out, key);
        } else {
            proof {
                assert(out@ =~= out@ + Seq::<Step>::empty());
            }
        }
        key = key + 1;
    }
    out
}

/// The whole device model the runtime loop owns: the shared state, the
/// held-key markers of press-and-hold chords, the serial line buffer, the
/// encoder's remembered levels, the previous key snapshot and the tick
/// counter.
pub struct Controller {
    pub state: RuntimeState,
    pub held: Vec<bool>,
    pub buffer: LineBuffer,
    pub encoder: EncoderState,
    pub prev_keys: Vec<bool>,
    pub ticks: u64,
}

/// The mathematical model of [`Controller`].
#[verifier::ext_equal]
pub struct ControllerView {
    pub state: StateView,
    pub held: Seq<bool>,
    pub buffer: Seq<u8>,
    pub last_a: bool,
    pub last_btn: bool,
    pub prev_keys: Seq<bool>,
    pub ticks: u64,
}

impl View for Controller {
    type V = ControllerView;

    open spec fn view(&self) -> ControllerView {
        ControllerView {
            state: self.state@,
            held: self.held@,
            buffer: self.buffer.bytes@,
            last_a: self.encoder.last_a,
            last_btn: self.encoder.last_btn,
            prev_keys: self.prev_keys@,
            ticks: self.ticks,
        }
    }
}

impl ControllerView {
    /// Well-formedness of the whole device model.
    pub open spec fn wf(self) -> bool {
        &&& self.state.wf()
        &&& self.held.len() == NUM_KEYS
        &&& self.prev_keys.len() == NUM_KEYS
        &&& self.buffer.len() <= crate::serial::LINE_CAP
    }
}

/// The tick counter one past a value, wrapping at the top.
pub open spec fn next_tick_spec(t: u64) -> u64 {
    if t == u64::MAX {
        0
    } else {
        (t + 1) as u64
    }
}

/// The whole device model after one cooperative tick, together with the
/// steps the hardware must carry out before the next tick.
///
/// In order: a falling edge of encoder channel A advances the layer cycle;
/// a press edge of the encoder button toggles the overlay; the key edges
/// between the new snapshot and the previous one dispatch macro actions;
/// the serial bytes read this tick run through the line buffer and the
/// command parser; the snapshot and the encoder levels are remembered and
/// the tick counter moves on.
pub open spec fn tick_spec(
    cv: ControllerView,
    keys: Seq<bool>,
    a_low: bool,
    b_low: bool,
    btn_low: bool,
    serial: Seq<u8>,
) -> (ControllerView, Seq<Step>) {
    let st1 = if a_low && !cv.last_a {
        cv.state.advance_spec()
    } else {
        cv.state
    };
    let st2 = if btn_low && !cv.last_btn {
        st1.toggle_spec()
    } else {
        st1
    };
    let kf = keys_fold_spec(st2, cv.held, keys, cv.prev_keys, NUM_KEYS as int);
    let sf = serial_fold_spec(kf.0, cv.buffer, serial);
    (
        ControllerView {
            state: sf.0,
            held: kf.1,
            buffer: sf.1,
            last_a: a_low,
            last_btn: btn_low,
            prev_keys: keys,
            ticks: next_tick_spec(cv.ticks),
        },
        kf.2,
    )
}

/// A copy of a key snapshot.
fn copy_snapshot(v: &Vec<bool>) -> (r: Vec<bool>)
    ensures
        r@ == v@,
{
    let mut r: Vec<bool> = Vec::new();
    let mut i: usize = 0;
    while i < v.len()
        invariant
            i <= v@.len(),
            r@ == v@.take(i as int),
        decreases v@.len() - i,
    {
        r.push(v[i]);
        proof {
            assert(v@.take(i + 1 as int) =~= v@.take(i as int).push(v@[i as int]));
        }
        i = i + 1;
    }
    proof {
        assert(v@.take(v@.len() as int) =~= v@);
    }
    r
}

impl Controller {
    /// The device model as built at boot: boot state, nothing held, an
    /// empty line buffer, the encoder seeded from the first levels read,
    /// no key down, tick zero.
    pub fn new(a_low: bool, btn_low: bool) -> (r: Controller)
        ensures
            r@.wf(),
            r@.state.boot_spec(),
            r@.held == Seq::new(NUM_KEYS as nat, |i: int| false),
            r@.buffer == Seq::<u8>::empty(),
            r@.last_a == a_low,
            r@.last_btn == btn_low,
            r@.prev_keys == Seq::new(NUM_KEYS as nat, |i: int| false),
            r@.ticks == 0,
    {
        let mut held: Vec<bool> = Vec::new();
        let mut prev_keys: Vec<bool> = Vec::new();
        let mut i: usize = 0;
        while i < NUM_KEYS
            invariant
                i <= NUM_KEYS,
                held@.len() == i,
                prev_keys@.len() == i,
                forall|j: int| 0 <= j < i ==> held@[j] == false,
                forall|j: int| 0 <= j < i ==> prev_keys@[j] == false,
            decreases NUM_KEYS - i,
        {
            held.push(false);
            prev_keys.push(false);
            i = i + 1;
        }
        proof {
            assert(held@ =~= Seq::new(NUM_KEYS as nat, |j: int| false));
            assert(prev_keys@ =~= Seq::new(NUM_KEYS as nat, |j: int| false));
        }
        Controller {
            state: RuntimeState::new(),
            held,
            buffer: LineBuffer::new(),
            encoder: EncoderState::new(a_low, btn_low),
            prev_keys,
            ticks: 0,
        }
    }

    /// Run one cooperative tick: encoder, key edges, serial bytes, in that
    /// order; returns the steps the hardware must carry out before the
    /// next tick.
    pub fn tick(
        &mut self,
        keys: &Vec<bool>,
        a_low: bool,
        b_low: bool,
        btn_low: bool,
        serial: &Vec<u8>,
    ) -> (steps: Vec<Step>)
        requires
            old(self)@.wf(),
            keys@.len() == NUM_KEYS,
        ensures
            final(self)@.wf(),
            final(self)@ == tick_spec(old(self)@, keys@, a_low, b_low, btn_low, serial@).0,
            steps@ == tick_spec(old(self)@, keys@, a_low, b_low, btn_low, serial@).1,
    {
        let stepped = self.encoder.rotation_step(a_low, b_low);
        if stepped {
            self.state.advance();
        }
        let btn_edge = self.encoder.button_step(btn_low);
        if btn_edge {
            self.state.toggle_overlay();
        }
        let steps = process_keys(&mut self.state, &mut self.held, keys, &self.prev_keys);
        serial_input(&mut self.state, &mut self.buffer, serial);
        self.prev_keys = copy_snapshot(keys);
        self.ticks = if self.ticks == u64::MAX {
            0
        } else {
            self.ticks + 1
        };
        proof {
            assert(self@ =~= tick_spec(old(self)@, keys@, a_low, b_low, btn_low, serial@).0);
        }
        steps
    }

    /// The LED frame of the moment, brightness-reduced for the strip.
    pub fn leds(&self, level: u8) -> (r: Vec<Rgb>)
        requires
            self@.wf(),
        ensures
            r@.len() == 12,
            forall|i: int|
                0 <= i < 12 ==> r@[i] == scaled_spec(
                    led_spec(self@.state.layer, self@.ticks, self@.state.status,
                    self@.state.overrides)[i],
                    level,
                ),
    {
        led_output(self.state.layer, self.ticks, self.state.status, &self.state.overrides, level)
    }
}

} // verus!

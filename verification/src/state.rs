use vstd::prelude::*;

use crate::layers::Layer;
use crate::layers::Status;
use crate::led::NUM_KEYS;
use crate::led::Rgb;

verus! {

/// Longest display message the state keeps, in bytes.
pub const MSG_CAP: usize = 20;

/// A printable ASCII byte; the only bytes a display message may hold.
pub open spec fn is_printable(b: u8) -> bool {
    0x20 <= b <= 0x7e
}

/// The override table with every entry unset.
pub open spec fn unset_overrides() -> Seq<Rgb> {
    Seq::new(NUM_KEYS as nat, |i: int| Rgb { r: 0, g: 0, b: 0 })
}

/// The mathematical model of [`RuntimeState`]: the same fields with the
/// byte and color tables as sequences.
#[verifier::ext_equal]
pub struct StateView {
    pub layer: Layer,
    pub prev_layer: Layer,
    pub message: Seq<u8>,
    pub status: Status,
    pub overrides: Seq<Rgb>,
    pub dirty: bool,
}

impl StateView {
    /// Well-formedness: the message is bounded and printable, the override
    /// table has one entry per key, and the saved previous layer is never
    /// the overlay, so a toggle-back always lands in the cycle.
    pub open spec fn wf(self) -> bool {
        &&& self.message.len() <= MSG_CAP
        &&& (forall|i: int| 0 <= i < self.message.len() ==> is_printable(self.message[i]))
        &&& self.overrides.len() == NUM_KEYS
        &&& self.prev_layer != Layer::Overlay
    }

    /// The state as built at boot: primary layer, no message, idle status,
    /// no overrides, and a first display draw pending.
    pub open spec fn boot_spec(self) -> bool {
        &&& self.layer == Layer::Primary
        &&& self.prev_layer == Layer::Primary
        &&& self.message == Seq::<u8>::empty()
        &&& self.status == Status::Idle
        &&& self.overrides == unset_overrides()
        &&& self.dirty == true
    }

    /// The state after one encoder step: the next layer in the cycle, or
    /// the same layer if the overlay is active; the display is marked dirty
    /// either way.
    pub open spec fn advance_spec(self) -> StateView {
        StateView { layer: self.layer.next_spec(), dirty: true, ..self }
    }

    /// The state after an overlay toggle: from the overlay back to the
    /// saved previous layer; from anywhere else into the overlay, saving
    /// the layer that was active.
    pub open spec fn toggle_spec(self) -> StateView {
        if self.layer == Layer::Overlay {
            StateView { layer: self.prev_layer, dirty: true, ..self }
        } else {
            StateView { layer: Layer::Overlay, prev_layer: self.layer, dirty: true, ..self }
        }
    }

    /// The state after a direct set: the overlay is rejected (it is
    /// reachable only through the toggle); any other target becomes both
    /// the active and the previous layer, so a later toggle-back lands on
    /// it.
    pub open spec fn set_layer_spec(self, target: Layer) -> StateView {
        if target == Layer::Overlay {
            StateView { dirty: true, ..self }
        } else {
            StateView { layer: target, prev_layer: target, dirty: true, ..self }
        }
    }
}

/// The shared runtime state of the device: the active and previous layer,
/// the display message, the status indicator, the per-key LED override
/// table (the all-zero color meaning "unset"), and the display-dirty flag.
///
/// It is built once at boot and then mutated only by the input handlers
/// (layer fields) and the serial command parser (message, status,
/// overrides).
pub struct RuntimeState {
    pub layer: Layer,
    pub prev_layer: Layer,
    pub message: Vec<u8>,
    pub status: Status,
    pub overrides: Vec<Rgb>,
    pub dirty: bool,
}

impl View for RuntimeState {
    type V = StateView;

    open spec fn view(&self) -> StateView {
        StateView {
            layer: self.layer,
            prev_layer: self.prev_layer,
            message: self.message@,
            status: self.status,
            overrides: self.overrides@,
            dirty: self.dirty,
        }
    }
}

/// A fresh override table with every entry unset.
pub fn zero_overrides() -> (r: Vec<Rgb>)
    ensures
        r@ == unset_overrides(),
{
    let mut overrides: Vec<Rgb> = Vec::new();
    let mut i: usize = 0;
    while i < NUM_KEYS
        invariant
            i <= NUM_KEYS,
            overrides@.len() == i,
            forall|j: int| 0 <= j < i ==> overrides@[j] == (Rgb { r: 0, g: 0, b: 0 }),
        decreases NUM_KEYS - i,
    {
        overrides.push(Rgb { r: 0, g: 0, b: 0 });
        i = i + 1;
    }
    proof {
        assert(overrides@ =~= unset_overrides());
    }
    overrides
}

impl RuntimeState {
    /// Boot-time constructor.
    pub fn new() -> (r: RuntimeState)
        ensures
            r@.wf(),
            r@.boot_spec(),
    {
        let r = RuntimeState {
            layer: Layer::Primary,
            prev_layer: Layer::Primary,
            message: Vec::new(),
            status: Status::Idle,
            overrides: zero_overrides(),
            dirty: true,
        };
        proof {
            assert(r@.message =~= Seq::<u8>::empty());
        }
        r
    }

    /// Move to the next layer in cyclic order; a no-op on the layer field
    /// while the overlay is active.
    pub fn advance(&mut self)
        requires
            old(self)@.wf(),
        ensures
            final(self)@.wf(),
            final(self)@ == old(self)@.advance_spec(),
    {
        self.layer = self.layer.next_in_cycle();
        self.dirty = true;
    }

    /// Toggle the overlay layer.
    pub fn toggle_overlay(&mut self)
        requires
            old(self)@.wf(),
        ensures
            final(self)@.wf(),
            final(self)@ == old(self)@.toggle_spec(),
    {
        if self.layer == Layer::Overlay {
            self.layer = self.prev_layer;
        } else {
            self.prev_layer = self.layer;
            self.layer = Layer::Overlay;
        }
        self.dirty = true;
    }

    /// Set the active layer directly.
    pub fn set_layer(&mut self, target: Layer)
        requires
            old(self)@.wf(),
        ensures
            final(self)@.wf(),
            final(self)@ == old(self)@.set_layer_spec(target),
    {
        if !(target == Layer::Overlay) {
            self.layer = target;
            self.prev_layer = target;
        }
        self.dirty = true;
    }
}

/// The overlay toggle is its own inverse on the layer field: toggling twice
/// from any non-overlay layer, with no mutation in between, restores the
/// starting layer.
pub proof fn lemma_toggle_involution(s: StateView)
    requires
        s.wf(),
        s.layer != Layer::Overlay,
    ensures
        s.toggle_spec().toggle_spec().layer == s.layer,
{
}

/// Three encoder steps from any layer of the cycle return to it, and an
/// encoder step on the overlay leaves every layer field unchanged.
pub proof fn lemma_advance_properties(s: StateView)
    requires
        s.wf(),
    ensures
        s.layer != Layer::Overlay ==> s.advance_spec().advance_spec().advance_spec().layer
            == s.layer,
        s.layer == Layer::Overlay ==> s.advance_spec().layer == s.layer
            && s.advance_spec().prev_layer == s.prev_layer,
{
}

} // verus!

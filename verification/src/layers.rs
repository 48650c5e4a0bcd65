use vstd::prelude::*;

verus! {

/// One of the fixed key-mapping configurations of the pad.
///
/// `Primary`, `Secondary` and `Tertiary` form a three-member cycle walked by
/// the encoder; `Overlay` sits outside the cycle and is reachable only
/// through the overlay toggle, which restores the layer that was active
/// before it.
#[derive(Clone, Copy, PartialEq, Eq, Structural, Debug)]
pub enum Layer {
    Primary,
    Secondary,
    Tertiary,
    Overlay,
}

/// The status indicator shown on the display and pulsed on the status LED.
/// It is set only by the `STS:` serial command and reset by `RST:`.
#[derive(Clone, Copy, PartialEq, Eq, Structural, Debug)]
pub enum Status {
    Idle,
    Running,
    Waiting,
    Error,
}

impl Layer {
    /// The successor in the cyclic order. The overlay layer is not part of
    /// the cycle: it is its own successor.
    pub open spec fn next_spec(self) -> Layer {
        match self {
            Layer::Primary => Layer::Secondary,
            Layer::Secondary => Layer::Tertiary,
            Layer::Tertiary => Layer::Primary,
            Layer::Overlay => Layer::Overlay,
        }
    }

    /// Executable successor in the cyclic order.
    pub fn next_in_cycle(self) -> (r: Layer)
        ensures
            r == self.next_spec(),
    {
        match self {
            Layer::Primary => Layer::Secondary,
            Layer::Secondary => Layer::Tertiary,
            Layer::Tertiary => Layer::Primary,
            Layer::Overlay => Layer::Overlay,
        }
    }
}

/// Walking the cycle three times from any layer of the cycle returns to the
/// starting layer.
pub proof fn lemma_advance_cycle(l: Layer)
    requires
        l != Layer::Overlay,
    ensures
        l.next_spec().next_spec().next_spec() == l,
{
}

/// The cyclic successor leaves the overlay layer in place: the overlay can
/// never be reached, nor left, by advancing the cycle.
pub proof fn lemma_advance_overlay_fixed()
    ensures
        Layer::Overlay.next_spec() == Layer::Overlay,
{
}

} // verus!

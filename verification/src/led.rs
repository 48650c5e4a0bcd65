use vstd::prelude::*;

use crate::layers::Layer;
use crate::layers::Status;
use smart_leds::brightness;
use smart_leds::RGB8;

verus! {

/// Number of keys, and so of LEDs, on the pad.
pub const NUM_KEYS: usize = 12;

/// Key position reserved across all layers for the pulsing status indicator;
/// it doubles as the overlay-toggle key.
pub const STATUS_KEY: usize = 11;

/// One LED color. The all-zero color doubles as "no override" in the
/// per-key override table.
#[derive(Clone, Copy, PartialEq, Eq, Structural, Debug)]
pub struct Rgb {
    pub r: u8,
    pub g: u8,
    pub b: u8,
}

impl Rgb {
    /// The all-zero color, which the override table reads as "unset".
    pub open spec fn is_unset_spec(self) -> bool {
        self.r == 0 && self.g == 0 && self.b == 0
    }

    /// Whether this color is the "unset" marker of the override table.
    pub fn is_unset(&self) -> (r: bool)
        ensures
            r == self.is_unset_spec(),
    {
        self.r == 0 && self.g == 0 && self.b == 0
    }
}

/// Color wheel: positions 0..=255 travel red -> blue -> green -> red.
pub open spec fn wheel_spec(pos: u8) -> Rgb {
    let p = 255 - pos;
    if p < 85 {
        Rgb { r: (255 - 3 * p) as u8, g: 0, b: (3 * p) as u8 }
    } else if p < 170 {
        let q = p - 85;
        Rgb { r: 0, g: (3 * q) as u8, b: (255 - 3 * q) as u8 }
    } else {
        let q = p - 170;
        Rgb { r: (3 * q) as u8, g: (255 - 3 * q) as u8, b: 0 }
    }
}

/// Executable color wheel.
pub fn wheel(pos: u8) -> (r: Rgb)
    ensures
        r == wheel_spec(pos),
{
    let p: u8 = 255 - pos;
    if p < 85 {
        Rgb { r: 255 - 3 * p, g: 0, b: 3 * p }
    } else if p < 170 {
        let q: u8 = p - 85;
        Rgb { r: 0, g: 3 * q, b: 255 - 3 * q }
    } else {
        let q: u8 = p - 170;
        Rgb { r: 3 * q, g: 255 - 3 * q, b: 0 }
    }
}

/// Triangle wave over the tick counter with period 64, rising from 0 to 248
/// and back; drives the pulsing of the status indicator and of the
/// secondary layer's solid scheme.
pub open spec fn tri_spec(tick: u64) -> u8 {
    let ph = tick % 64;
    if ph < 32 {
        (8 * ph) as u8
    } else {
        (8 * (63 - ph)) as u8
    }
}

/// Executable triangle wave.
pub fn tri(tick: u64) -> (r: u8)
    ensures
        r == tri_spec(tick),
{
    let ph: u64 = tick % 64;
    if ph < 32 {
        (8 * ph) as u8
    } else {
        (8 * (63 - ph)) as u8
    }
}

/// One channel scaled to `c * (v + 1) / 256`; the scaling the LED strip's
/// brightness reduction applies, reused for the indicator pulse.
pub open spec fn scale_spec(c: u8, v: u8) -> u8 {
    (c * (v + 1) / 256) as u8
}

/// A whole color scaled channel by channel.
pub open spec fn scaled_spec(c: Rgb, v: u8) -> Rgb {
    Rgb { r: scale_spec(c.r, v), g: scale_spec(c.g, v), b: scale_spec(c.b, v) }
}

/// Executable channel scaling.
pub fn scale(c: u8, v: u8) -> (r: u8)
    ensures
        r == scale_spec(c, v),
{
    let cw: u32 = c as u32;
    let vw: u32 = (v as u32) + 1;
    proof {
        assert(cw * vw <= 255 * 256) by (nonlinear_arith)
            requires
                cw <= 255,
                vw <= 256,
        ;
    }
    (cw * vw / 256) as u8
}

/// The solid color standing for each status value: blue when idle, green
/// when running, yellow when waiting, red on error.
pub open spec fn status_color_spec(s: Status) -> Rgb {
    match s {
        Status::Idle => Rgb { r: 0, g: 0, b: 255 },
        Status::Running => Rgb { r: 0, g: 255, b: 0 },
        Status::Waiting => Rgb { r: 255, g: 255, b: 0 },
        Status::Error => Rgb { r: 255, g: 0, b: 0 },
    }
}

/// The pulsing status indicator: the status color scaled by the triangle
/// wave of the tick.
pub open spec fn indicator_spec(s: Status, tick: u64) -> Rgb {
    scaled_spec(status_color_spec(s), tri_spec(tick))
}

/// The computed (pre-override) color of key `i` for one tick.
///
/// The status key always shows the pulsing indicator. Elsewhere each layer
/// has its own scheme: the primary layer drifts a rainbow forward, the
/// secondary layer pulses green in step on every key, the tertiary layer
/// drifts the rainbow backward, and the overlay layer is solid dim blue.
pub open spec fn base_color_spec(layer: Layer, tick: u64, status: Status, i: int) -> Rgb {
    if i == STATUS_KEY {
        indicator_spec(status, tick)
    } else {
        match layer {
            Layer::Primary => wheel_spec((((tick % 256) * 2 + 21 * i) % 256) as u8),
            Layer::Secondary => Rgb { r: 0, g: tri_spec(tick), b: 0 },
            Layer::Tertiary => wheel_spec(((21 * i + 255 - (tick % 256)) % 256) as u8),
            Layer::Overlay => Rgb { r: 0, g: 0, b: 128 },
        }
    }
}

/// The color of key `i` with the override table applied last: a non-zero
/// override wins over the computed color.
pub open spec fn led_at_spec(
    layer: Layer,
    tick: u64,
    status: Status,
    ov: Seq<Rgb>,
    i: int,
) -> Rgb {
    if !ov[i].is_unset_spec() {
        ov[i]
    } else {
        base_color_spec(layer, tick, status, i)
    }
}

/// The whole 12-entry LED frame for one tick. A spec function of its
/// arguments alone, so for a fixed input the frame is the same on every
/// call.
pub open spec fn led_spec(layer: Layer, tick: u64, status: Status, ov: Seq<Rgb>) -> Seq<Rgb> {
    Seq::new(NUM_KEYS as nat, |i: int| led_at_spec(layer, tick, status, ov, i))
}

/// The LED frame always has exactly one entry per key.
pub proof fn lemma_led_frame_len(layer: Layer, tick: u64, status: Status, ov: Seq<Rgb>)
    ensures
        led_spec(layer, tick, status, ov).len() == 12,
{
}

/// Executable color of key `i` for one tick, override applied last.
pub fn led_at(layer: Layer, tick: u64, status: Status, ov: &Vec<Rgb>, i: usize) -> (r: Rgb)
    requires
        ov@.len() == NUM_KEYS,
        i < NUM_KEYS,
    ensures
        r == led_at_spec(layer, tick, status, ov@, i as int),
{
    let o = ov[i];
    if !o.is_unset() {
        o
    } else if i == STATUS_KEY {
        let v = tri(tick);
        let c = match status {
            Status::Idle => Rgb { r: 0, g: 0, b: 255 },
            Status::Running => Rgb { r: 0, g: 255, b: 0 },
            Status::Waiting => Rgb { r: 255, g: 255, b: 0 },
            Status::Error => Rgb { r: 255, g: 0, b: 0 },
        };
        Rgb { r: scale(c.r, v), g: scale(c.g, v), b: scale(c.b, v) }
    } else {
        match layer {
            Layer::Primary => {
                let m: u64 = ((tick % 256) * 2 + 21 * (i as u64)) % 256;
                wheel(m as u8)
            },
            Layer::Secondary => Rgb { r: 0, g: tri(tick), b: 0 },
            Layer::Tertiary => {
                let m: u64 = (21 * (i as u64) + 255 - (tick % 256)) % 256;
                wheel(m as u8)
            },
            Layer::Overlay => Rgb { r: 0, g: 0, b: 128 },
        }
    }
}

/// Executable LED frame: exactly the 12 entries of `led_spec`.
pub fn led_frame(layer: Layer, tick: u64, status: Status, ov: &Vec<Rgb>) -> (r: Vec<Rgb>)
    requires
        ov@.len() == NUM_KEYS,
    ensures
        r@ == led_spec(layer, tick, status, ov@),
        r@.len() == 12,
{
    let mut out: Vec<Rgb> = Vec::new();
    let mut i: usize = 0;
    while i < NUM_KEYS
        invariant
            ov@.len() == NUM_KEYS,
            i <= NUM_KEYS,
            out@.len() == i,
            forall|j: int| 0 <= j < i ==> out@[j] == led_at_spec(layer, tick, status, ov@, j),
        decreases NUM_KEYS - i,
    {
        let c = led_at(layer, tick, status, ov, i);
        out.push(c);
        i = i + 1;
    }
    proof {
        assert(out@ =~= led_spec(layer, tick, status, ov@));
    }
    out
}

/// Relies on `smart_leds::brightness`: each channel of each color comes back
/// as `channel * (level + 1) / 256`.
#[verifier::external_body]
fn reduce_brightness(colors: &Vec<Rgb>, level: u8) -> (r: Vec<Rgb>)
    ensures
        r@.len() == colors@.len(),
        forall|i: int| 0 <= i < colors@.len() ==> r@[i] == scaled_spec(colors@[i], level),
{
    let strip = colors.iter().map(|c| RGB8 { r: c.r, g: c.g, b: c.b });
    brightness(strip, level).map(|c| Rgb { r: c.r, g: c.g, b: c.b }).collect()
}

/// The LED frame as handed to the strip: the frame of `led_spec` with the
/// strip's brightness reduction applied to every channel.
pub fn led_output(layer: Layer, tick: u64, status: Status, ov: &Vec<Rgb>, level: u8) -> (r: Vec<
    Rgb,
>)
    requires
        ov@.len() == NUM_KEYS,
    ensures
        r@.len() == 12,
        forall|i: int|
            0 <= i < 12 ==> r@[i] == scaled_spec(led_spec(layer, tick, status, ov@)[i], level),
{
    let frame = led_frame(layer, tick, status, ov);
    reduce_brightness(&frame, level)
}

} // verus!

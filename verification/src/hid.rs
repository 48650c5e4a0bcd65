use vstd::prelude::*;

verus! {

/// Left-control bit of the HID modifier byte.
pub const MOD_LCTRL: u8 = 0x01;

/// Left-shift bit of the HID modifier byte.
pub const MOD_LSHIFT: u8 = 0x02;

/// Left-alt bit of the HID modifier byte.
pub const MOD_LALT: u8 = 0x04;

/// Left-GUI (command) bit of the HID modifier byte.
pub const MOD_LGUI: u8 = 0x08;

/// The wire shape of one boot keyboard input report: the modifier byte, a
/// reserved byte, a byte the host uses for LEDs, and six keycode slots of
/// which this device fills only the first.
pub open spec fn report_spec(modifier: u8, keycode: u8) -> Seq<u8> {
    seq![modifier, 0, 0, keycode, 0, 0, 0, 0, 0]
}

/// Build the bytes of one keyboard report holding one key (or none, for a
/// release) and a set of modifier bits.
pub fn report_bytes(modifier: u8, keycode: u8) -> (r: Vec<u8>)
    ensures
        r@ == report_spec(modifier, keycode),
{
    let mut v: Vec<u8> = Vec::new();
    v.push(modifier);
    v.push(0);
    v.push(0);
    v.push(keycode);
    v.push(0);
    v.push(0);
    v.push(0);
    v.push(0);
    v.push(0);
    proof {
        assert(v@ =~= report_spec(modifier, keycode));
    }
    v
}

/// A release is the explicit report with no keys and no modifiers held.
pub fn release_bytes() -> (r: Vec<u8>)
    ensures
        r@ == report_spec(0, 0),
{
    report_bytes(0, 0)
}

/// One keyboard report read back from the host side, decoded: the raw
/// modifier and first keycode, and the modifier bits spelled out.
#[derive(Clone, Copy, PartialEq, Eq, Structural, Debug)]
pub struct ReportInfo {
    pub modifier: u8,
    pub keycode: u8,
    pub lctrl: bool,
    pub lshift: bool,
    pub lalt: bool,
    pub lgui: bool,
}

/// The decoding of a received report: the modifier byte leads, the first
/// keycode sits in the third byte; anything shorter than the 8-byte boot
/// report decodes to nothing.
pub open spec fn decode_report_spec(s: Seq<u8>) -> Option<ReportInfo> {
    if s.len() >= 8 {
        Some(
            ReportInfo {
                modifier: s[0],
                keycode: s[2],
                lctrl: s[0] & MOD_LCTRL != 0,
                lshift: s[0] & MOD_LSHIFT != 0,
                lalt: s[0] & MOD_LALT != 0,
                lgui: s[0] & MOD_LGUI != 0,
            },
        )
    } else {
        None
    }
}

/// Decode one report read back from a device.
pub fn decode_report(buf: &Vec<u8>) -> (r: Option<ReportInfo>)
    ensures
        r == decode_report_spec(buf@),
{
    if buf.len() >= 8 {
        let m = buf[0];
        Some(
            ReportInfo {
                modifier: m,
                keycode: buf[2],
                lctrl: m & MOD_LCTRL != 0,
                lshift: m & MOD_LSHIFT != 0,
                lalt: m & MOD_LALT != 0,
                lgui: m & MOD_LGUI != 0,
            },
        )
    } else {
        None
    }
}

} // verus!

use vstd::prelude::*;

verus! {

/// A physical key to send: its HID keycode and whether shift must be held
/// with it.
#[derive(Clone, Copy, PartialEq, Eq, Structural, Debug)]
pub struct KeyPress {
    pub key: u8,
    pub shift: bool,
}

/// The physical key whose position produces a given lowercase letter on the
/// host's fixed non-default layout. The host interprets positions through
/// the Colemak layout, so this is Colemak's inverse: the keycode named is
/// the QWERTY position the host turns into the desired letter. Meaningful
/// only for the bytes `a` through `z`; anything else maps to zero and is
/// never consulted.
pub open spec fn letter_key_spec(b: u8) -> u8 {
    if b == 0x61 {
        0x04  // a stays on the a position
    } else if b == 0x62 {
        0x05  // b stays
    } else if b == 0x63 {
        0x06  // c stays
    } else if b == 0x64 {
        0x0a  // d sits on the g position
    } else if b == 0x65 {
        0x0e  // e sits on the k position
    } else if b == 0x66 {
        0x08  // f sits on the e position
    } else if b == 0x67 {
        0x17  // g sits on the t position
    } else if b == 0x68 {
        0x0b  // h stays
    } else if b == 0x69 {
        0x0f  // i sits on the l position
    } else if b == 0x6a {
        0x1c  // j sits on the y position
    } else if b == 0x6b {
        0x11  // k sits on the n position
    } else if b == 0x6c {
        0x18  // l sits on the u position
    } else if b == 0x6d {
        0x10  // m stays
    } else if b == 0x6e {
        0x0d  // n sits on the j position
    } else if b == 0x6f {
        0x33  // o sits on the semicolon position
    } else if b == 0x70 {
        0x15  // p sits on the r position
    } else if b == 0x71 {
        0x14  // q stays
    } else if b == 0x72 {
        0x16  // r sits on the s position
    } else if b == 0x73 {
        0x07  // s sits on the d position
    } else if b == 0x74 {
        0x09  // t sits on the f position
    } else if b == 0x75 {
        0x0c  // u sits on the i position
    } else if b == 0x76 {
        0x19  // v stays
    } else if b == 0x77 {
        0x1a  // w stays
    } else if b == 0x78 {
        0x1b  // x stays
    } else if b == 0x79 {
        0x12  // y sits on the o position
    } else if b == 0x7a {
        0x1d  // z stays
    } else {
        0
    }
}

/// The remap table as a whole: the key to send, with or without shift, for
/// a desired output byte, or nothing when the byte is unsupported.
///
/// It covers lowercase and uppercase letters (the same key, shift deciding
/// the case), digits, space, enter, tab and a small set of punctuation.
pub open spec fn remap_spec(b: u8) -> Option<KeyPress> {
    if 0x41 <= b <= 0x5a {
        // uppercase letter: the lowercase letter's key with shift held
        Some(KeyPress { key: letter_key_spec((b + 0x20) as u8), shift: true })
    } else if 0x61 <= b <= 0x7a {
        Some(KeyPress { key: letter_key_spec(b), shift: false })
    } else if 0x31 <= b <= 0x39 {
        // digits 1 through 9 keep their positions
        Some(KeyPress { key: ((b - 0x31) + 0x1e) as u8, shift: false })
    } else if b == 0x30 {
        Some(KeyPress { key: 0x27, shift: false })  // digit 0
    } else if b == 0x20 {
        Some(KeyPress { key: 0x2c, shift: false })  // space
    } else if b == 0x0a {
        Some(KeyPress { key: 0x28, shift: false })  // enter
    } else if b == 0x09 {
        Some(KeyPress { key: 0x2b, shift: false })  // tab
    } else if b == 0x2e {
        Some(KeyPress { key: 0x37, shift: false })  // period stays
    } else if b == 0x2c {
        Some(KeyPress { key: 0x36, shift: false })  // comma stays
    } else if b == 0x2f {
        Some(KeyPress { key: 0x38, shift: false })  // slash stays
    } else if b == 0x3b {
        Some(KeyPress { key: 0x13, shift: false })  // semicolon sits on the p position
    } else if b == 0x3a {
        Some(KeyPress { key: 0x13, shift: true })  // colon: shifted semicolon
    } else if b == 0x21 {
        Some(KeyPress { key: 0x1e, shift: true })  // bang: shifted 1
    } else if b == 0x3f {
        Some(KeyPress { key: 0x38, shift: true })  // question mark: shifted slash
    } else if b == 0x2d {
        Some(KeyPress { key: 0x2d, shift: false })  // hyphen stays
    } else if b == 0x5f {
        Some(KeyPress { key: 0x2d, shift: true })  // underscore: shifted hyphen
    } else if b == 0x27 {
        Some(KeyPress { key: 0x34, shift: false })  // apostrophe stays
    } else {
        None
    }
}

/// Executable key for one lowercase letter.
fn letter_key(b: u8) -> (r: u8)
    requires
        0x61 <= b <= 0x7a,
    ensures
        r == letter_key_spec(b),
{
    if b == 0x61 {
        0x04
    } else if b == 0x62 {
        0x05
    } else if b == 0x63 {
        0x06
    } else if b == 0x64 {
        0x0a
    } else if b == 0x65 {
        0x0e
    } else if b == 0x66 {
        0x08
    } else if b == 0x67 {
        0x17
    } else if b == 0x68 {
        0x0b
    } else if b == 0x69 {
        0x0f
    } else if b == 0x6a {
        0x1c
    } else if b == 0x6b {
        0x11
    } else if b == 0x6c {
        0x18
    } else if b == 0x6d {
        0x10
    } else if b == 0x6e {
        0x0d
    } else if b == 0x6f {
        0x33
    } else if b == 0x70 {
        0x15
    } else if b == 0x71 {
        0x14
    } else if b == 0x72 {
        0x16
    } else if b == 0x73 {
        0x07
    } else if b == 0x74 {
        0x09
    } else if b == 0x75 {
        0x0c
    } else if b == 0x76 {
        0x19
    } else if b == 0x77 {
        0x1a
    } else if b == 0x78 {
        0x1b
    } else if b == 0x79 {
        0x12
    } else {
        0x1d
    }
}

/// Map a desired output byte to the physical key to send under the fixed
/// host layout, or nothing when the byte is unsupported and must be
/// dropped.
pub fn remap(b: u8) -> (r: Option<KeyPress>)
    ensures
        r == remap_spec(b),
{
    if 0x41 <= b && b <= 0x5a {
        Some(KeyPress { key: letter_key(b + 0x20), shift: true })
    } else if 0x61 <= b && b <= 0x7a {
        Some(KeyPress { key: letter_key(b), shift: false })
    } else if 0x31 <= b && b <= 0x39 {
        Some(KeyPress { key: (b - 0x31) + 0x1e, shift: false })
    } else if b == 0x30 {
        Some(KeyPress { key: 0x27, shift: false })
    } else if b == 0x20 {
        Some(KeyPress { key: 0x2c, shift: false })
    } else if b == 0x0a {
        Some(KeyPress { key: 0x28, shift: false })
    } else if b == 0x09 {
        Some(KeyPress { key: 0x2b, shift: false })
    } else if b == 0x2e {
        Some(KeyPress { key: 0x37, shift: false })
    } else if b == 0x2c {
        Some(KeyPress { key: 0x36, shift: false })
    } else if b == 0x2f {
        Some(KeyPress { key: 0x38, shift: false })
    } else if b == 0x3b {
        Some(KeyPress { key: 0x13, shift: false })
    } else if b == 0x3a {
        Some(KeyPress { key: 0x13, shift: true })
    } else if b == 0x21 {
        Some(KeyPress { key: 0x1e, shift: true })
    } else if b == 0x3f {
        Some(KeyPress { key: 0x38, shift: true })
    } else if b == 0x2d {
        Some(KeyPress { key: 0x2d, shift: false })
    } else if b == 0x5f {
        Some(KeyPress { key: 0x2d, shift: true })
    } else if b == 0x27 {
        Some(KeyPress { key: 0x34, shift: false })
    } else {
        None
    }
}

/// The shifted form of a remapped key: the same key with shift held.
pub open spec fn shifted_spec(o: Option<KeyPress>) -> Option<KeyPress> {
    match o {
        Some(k) => Some(KeyPress { key: k.key, shift: true }),
        None => None,
    }
}

/// Each uppercase letter maps to the same physical key as its lowercase
/// letter, with shift required for the uppercase form and not for the
/// lowercase one.
pub proof fn lemma_remap_case_pairs(b: u8)
    requires
        0x61 <= b <= 0x7a,
    ensures
        remap_spec(b) is Some,
        remap_spec(b) matches Some(kp) ==> !kp.shift,
        remap_spec((b - 0x20) as u8) == shifted_spec(remap_spec(b)),
{
}

} // verus!

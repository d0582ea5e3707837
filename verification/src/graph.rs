//! Color assignment for chart traces: a fixed palette indexed by codec
//! position, with a documented fallback once the palette is exhausted.

use vstd::prelude::*;

verus! {

/// Number of entries in the fixed color palette.
pub const COLOR_WHEEL_LEN: usize = 20;

/// The fixed palette, as (red, green, blue) triples, indexed by codec
/// position in registration order.
pub open spec fn color_wheel(i: int) -> (u8, u8, u8) {
    if i == 0 { (0x00, 0xff, 0xff) }
    else if i == 1 { (0x65, 0x37, 0x00) }
    else if i == 2 { (0x13, 0xea, 0xc9) }
    else if i == 3 { (0x06, 0x9a, 0xf3) }
    else if i == 4 { (0xe6, 0xda, 0xa6) }
    else if i == 5 { (0xc1, 0xf8, 0x0a) }
    else if i == 6 { (0x7f, 0xff, 0x00) }
    else if i == 7 { (0xd2, 0x69, 0x1e) }
    else if i == 8 { (0xfc, 0x5a, 0x50) }
    else if i == 9 { (0x03, 0x07, 0x64) }
    else if i == 10 { (0x00, 0x64, 0x00) }
    else if i == 11 { (0xed, 0x0d, 0xd9) }
    else if i == 12 { (0xff, 0xd7, 0x00) }
    else if i == 13 { (0x4b, 0x00, 0x82) }
    else if i == 14 { (0xc7, 0x9f, 0xef) }
    else if i == 15 { (0xaa, 0xff, 0x32) }
    else if i == 16 { (0xff, 0xa5, 0x00) }
    else if i == 17 { (0xf9, 0x73, 0x06) }
    else if i == 18 { (0xda, 0x70, 0xd6) }
    else { (0xfa, 0x80, 0x72) }
}

/// The documented fallback color (red), assigned to every codec whose index
/// lies past the end of the palette.
pub open spec fn fallback_color() -> (u8, u8, u8) {
    (0xff, 0x00, 0x00)
}

/// Deterministic color assignment by codec index: the palette entry while one
/// is available, the fallback color afterwards. Running out of palette
/// entries is not an error; the caller may warn about it separately.
pub fn color_for(idx: usize) -> (c: (u8, u8, u8))
    ensures
        idx < COLOR_WHEEL_LEN ==> c == color_wheel(idx as int),
        idx >= COLOR_WHEEL_LEN ==> c == fallback_color(),
{
    match idx {
        0 => (0x00, 0xff, 0xff),
        1 => (0x65, 0x37, 0x00),
        2 => (0x13, 0xea, 0xc9),
        3 => (0x06, 0x9a, 0xf3),
        4 => (0xe6, 0xda, 0xa6),
        5 => (0xc1, 0xf8, 0x0a),
        6 => (0x7f, 0xff, 0x00),
        7 => (0xd2, 0x69, 0x1e),
        8 => (0xfc, 0x5a, 0x50),
        9 => (0x03, 0x07, 0x64),
        10 => (0x00, 0x64, 0x00),
        11 => (0xed, 0x0d, 0xd9),
        12 => (0xff, 0xd7, 0x00),
        13 => (0x4b, 0x00, 0x82),
        14 => (0xc7, 0x9f, 0xef),
        15 => (0xaa, 0xff, 0x32),
        16 => (0xff, 0xa5, 0x00),
        17 => (0xf9, 0x73, 0x06),
        18 => (0xda, 0x70, 0xd6),
        19 => (0xfa, 0x80, 0x72),
        _ => (0xff, 0x00, 0x00),
    }
}

/// Whether registering `count` codecs exhausts the palette, in which case the
/// codecs past the end all share the fallback color and a warning is due.
pub fn palette_exhausted(count: usize) -> (r: bool)
    ensures
        r == (count > COLOR_WHEEL_LEN),
{
    count > COLOR_WHEEL_LEN
}

} // verus!

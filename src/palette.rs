use vstd::prelude::*;

verus! {

/// A colour as its red, green and blue channels.
#[derive(Clone, Copy, Debug, PartialEq, Eq, Structural)]
pub struct Rgb {
    pub r: u8,
    pub g: u8,
    pub b: u8,
}

/// Channel level of the gray drawn past the end of the categorical palette.
pub const GRAY_LEVEL: u8 = 160;

/// Colour of the arms past the end of the categorical palette.
pub open spec fn gray() -> Rgb {
    Rgb { r: GRAY_LEVEL, g: GRAY_LEVEL, b: GRAY_LEVEL }
}

/// The colour at index `i` of the ten-colour "category10" palette.
pub open spec fn category10_color(i: int) -> Rgb {
    if i == 0 {
        Rgb { r: 0x1f, g: 0x77, b: 0xb4 }
    } else if i == 1 {
        Rgb { r: 0xff, g: 0x7f, b: 0x0e }
    } else if i == 2 {
        Rgb { r: 0x2c, g: 0xa0, b: 0x2c }
    } else if i == 3 {
        Rgb { r: 0xd6, g: 0x27, b: 0x28 }
    } else if i == 4 {
        Rgb { r: 0x94, g: 0x67, b: 0xbd }
    } else if i == 5 {
        Rgb { r: 0x8c, g: 0x56, b: 0x4b }
    } else if i == 6 {
        Rgb { r: 0xe3, g: 0x77, b: 0xc2 }
    } else if i == 7 {
        Rgb { r: 0x7f, g: 0x7f, b: 0x7f }
    } else if i == 8 {
        Rgb { r: 0xbc, g: 0xbd, b: 0x22 }
    } else {
        Rgb { r: 0x17, g: 0xbe, b: 0xcf }
    }
}

/// Relies on colorous::CATEGORY10, an array of ten colours, and on slice
/// `get`: `Some` of the colour below ten, `None` from there on.
#[verifier::external_body]
fn category10_entry(i: usize) -> (r: Option<Rgb>)
    ensures
        i < 10 ==> r == Some(category10_color(i as int)),
        i >= 10 ==> r is None,
{
    match colorous::CATEGORY10.get(i) {
        Some(c) => Some(Rgb { r: c.r, g: c.g, b: c.b }),
        None => None,
    }
}

/// Colour in which the arm at position `i` of the chain is drawn: the
/// categorical palette while it lasts, gray after it.
pub fn get_color(i: usize) -> (c: Rgb)
    ensures
        c == (if i < 10 { category10_color(i as int) } else { gray() }),
{
    match category10_entry(i) {
        Some(c) => c,
        None => Rgb { r: GRAY_LEVEL, g: GRAY_LEVEL, b: GRAY_LEVEL },
    }
}

} // verus!

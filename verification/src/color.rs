//! Colors.
//!
//! A color holds three 8-bit channels and a fixed-point alpha in
//! `[0, FP_ONE]`, and renders as `rgba(r, g, b, a)`.

use vstd::prelude::*;
use vstd::string::StringExecFns;
use crate::fixed::FP_ONE;
use crate::numfmt::dec_str;
use crate::numfmt::fixed_str;
use crate::numfmt::u64_to_string;
use crate::numfmt::fixed_to_string;

verus! {

/// A color: red, green and blue channels plus a fixed-point alpha.
#[derive(Clone, Copy, Debug, PartialEq, Eq, Structural)]
pub struct Color(pub u8, pub u8, pub u8, pub i64);

/// The canonical text of a color: `rgba(r, g, b, a)` with the alpha
/// rendered as a fixed-point decimal.
pub open spec fn color_str(c: Color) -> Seq<char> {
    "rgba("@ + dec_str(c.0 as int) + ", "@ + dec_str(c.1 as int) + ", "@ + dec_str(c.2 as int)
        + ", "@ + fixed_str(c.3 as int) + ")"@
}

impl Color {
    /// The alpha channel stays within one unit.
    pub open spec fn wf(self) -> bool {
        0 <= self.3 <= FP_ONE
    }

    /// Render the color as `rgba(r, g, b, a)`.
    pub fn to_string(&self) -> (s: String)
        ensures
            s@ == color_str(*self),
    {
        let mut s = String::from_str("rgba(");
        s.append(u64_to_string(self.0 as u64).as_str());
        s.append(", ");
        s.append(u64_to_string(self.1 as u64).as_str());
        s.append(", ");
        s.append(u64_to_string(self.2 as u64).as_str());
        s.append(", ");
        s.append(fixed_to_string(self.3).as_str());
        s.append(")");
        proof {
            assert(s@ =~= color_str(*self));
        }
        s
    }

    /// Pure red, fully opaque.
    pub fn red() -> (c: Color)
        ensures
            c == (Color(255, 0, 0, FP_ONE)),
            c.wf(),
    {
        Color(255, 0, 0, FP_ONE)
    }

    /// Pure green, fully opaque.
    pub fn green() -> (c: Color)
        ensures
            c == (Color(0, 255, 0, FP_ONE)),
            c.wf(),
    {
        Color(0, 255, 0, FP_ONE)
    }

    /// Pure blue, fully opaque.
    pub fn blue() -> (c: Color)
        ensures
            c == (Color(0, 0, 255, FP_ONE)),
            c.wf(),
    {
        Color(0, 0, 255, FP_ONE)
    }

    /// The color the library names black: all channels full.
    pub fn black() -> (c: Color)
        ensures
            c == (Color(255, 255, 255, FP_ONE)),
            c.wf(),
    {
        Color(255, 255, 255, FP_ONE)
    }

    /// The color the library names white: all channels zero.
    pub fn white() -> (c: Color)
        ensures
            c == (Color(0, 0, 0, FP_ONE)),
            c.wf(),
    {
        Color(0, 0, 0, FP_ONE)
    }
}

/// Build a color from the three bytes of a hex number such as
/// `0xff8000`, together with an alpha.
pub fn color_from_hex(hexnumber: u64, alpha: i64) -> (c: Color)
    requires
        0 <= alpha <= FP_ONE,
    ensures
        c.0 == ((hexnumber & 0xff0000) >> 16u64) as u8,
        c.1 == ((hexnumber & 0x00ff00) >> 8u64) as u8,
        c.2 == (hexnumber & 0x0000ff) as u8,
        c.3 == alpha,
        c.wf(),
{
    proof {
        assert(((hexnumber & 0xff0000) >> 16u64) < 256 && ((hexnumber & 0x00ff00) >> 8u64) < 256 && (
        hexnumber & 0x0000ff) < 256) by (bit_vector);
    }
    Color(
        ((hexnumber & 0xff0000) >> 16) as u8,
        ((hexnumber & 0x00ff00) >> 8) as u8,
        (hexnumber & 0x0000ff) as u8,
        alpha,
    )
}

} // verus!

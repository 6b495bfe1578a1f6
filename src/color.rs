use vstd::prelude::*;

use crate::geometry::SCALE;

verus! {

/// A 24-bit color.
#[derive(Clone, Copy, Debug, PartialEq, Eq, Structural)]
pub struct Rgb {
    pub red: u8,
    pub blue: u8,
    pub green: u8,
}

/// The packed `0xRRGGBB` value of three channels.
pub open spec fn packed(red: u8, green: u8, blue: u8) -> int {
    red as int * 0x10000 + green as int * 0x100 + blue as int
}

/// The channel `amount / SCALE` of the way from `v1` to `v2`, rounded down.
pub open spec fn blend_channel(amount: int, v1: u8, v2: u8) -> int {
    (amount * v2 + (SCALE - amount) * v1) / SCALE as int
}

impl Rgb {
    fn lerp(amount: i64, v1: u8, v2: u8) -> (r: u8)
        requires
            0 <= amount <= SCALE,
        ensures
            r == blend_channel(amount as int, v1, v2),
    {
        let a = amount as u32;
        proof {
            assert(a * v2 + (1000 - a) * v1 <= 255000int) by (nonlinear_arith)
                requires
                    a <= 1000,
                    v1 <= 255,
                    v2 <= 255,
            ;
            vstd::arithmetic::div_mod::lemma_div_is_ordered(
                a * v2 + (1000 - a) * v1,
                255000int,
                1000,
            );
            vstd::arithmetic::div_mod::lemma_div_multiples_vanish(255, 1000);
            assert(1000int * 255 == 255000int);
            assert(0 <= a * v2 + (1000 - a) * v1) by (nonlinear_arith)
                requires
                    a <= 1000,
            ;
        }
        ((a * v2 as u32 + (1000 - a) * v1 as u32) / 1000) as u8
    }

    /// The color `blend_amount / SCALE` of the way from `self` to `color`,
    /// channel by channel.
    pub fn blend(&self, blend_amount: i64, color: Rgb) -> (r: Rgb)
        requires
            0 <= blend_amount <= SCALE,
        ensures
            r.red == blend_channel(blend_amount as int, self.red, color.red),
            r.green == blend_channel(blend_amount as int, self.green, color.green),
            r.blue == blend_channel(blend_amount as int, self.blue, color.blue),
    {
        Rgb {
            red: Self::lerp(blend_amount, self.red, color.red),
            green: Self::lerp(blend_amount, self.green, color.green),
            blue: Self::lerp(blend_amount, self.blue, color.blue),
        }
    }

    pub fn new(red: u8, blue: u8, green: u8) -> (r: Rgb)
        ensures
            r.red == red,
            r.blue == blue,
            r.green == green,
    {
        Rgb { red, green, blue }
    }

    /// Unpacks the low 24 bits of `number` as `0xRRGGBB`.
    pub fn from_u32(number: u32) -> (r: Rgb)
        ensures
            r.red as int == (number as int / 0x10000) % 0x100,
            r.green as int == (number as int / 0x100) % 0x100,
            r.blue as int == number as int % 0x100,
    {
        let red = ((number & 0xff0000) / 0x10000) as u8;
        let green = ((number & 0xff00) / 0x100) as u8;
        let blue = (number & 0xff) as u8;
        assert((number & 0xff0000) / 0x10000 == (number / 0x10000) % 0x100) by (bit_vector);
        assert((number & 0xff00) / 0x100 == (number / 0x100) % 0x100) by (bit_vector);
        assert(number & 0xff == number % 0x100) by (bit_vector);
        Rgb { red, green, blue }
    }

    /// Packs the color as `0xRRGGBB`.
    pub fn to_u32(self) -> (r: u32)
        ensures
            r as int == packed(self.red, self.green, self.blue),
    {
        self.red as u32 * 0x10000 + self.green as u32 * 0x100 + self.blue as u32
    }
}

} // verus!

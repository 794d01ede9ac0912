use vstd::prelude::*;

verus! {

/// A 15-bit colour: five bits each of red (bits 0-4), green (5-9) and blue
/// (10-14); the value 0x8000 marks a transparent pixel.
#[derive(Clone, Copy, Debug)]
pub struct Rgb15 {
    pub red: u8,
    pub green: u8,
    pub blue: u8,
    pub value: u16,
}

/// The colour a 16-bit value stands for.
pub open spec fn rgb15_of(value: u16) -> Rgb15 {
    Rgb15 {
        red: (value & 0x1F) as u8,
        green: ((value >> 5u16) & 0x1F) as u8,
        blue: ((value >> 10u16) & 0x1F) as u8,
        value,
    }
}

/// The 0RGB word of a colour: each component shifted to the top of its byte.
pub open spec fn zero_rgb(red: u8, green: u8, blue: u8) -> u32 {
    ((red as u32) << 19u32) | ((green as u32) << 11u32) | ((blue as u32) << 3u32)
}

impl Rgb15 {
    /// Splits a 16-bit colour value into its components.
    pub fn new(value: u16) -> (c: Rgb15)
        ensures
            c == rgb15_of(value),
            c.red < 32 && c.green < 32 && c.blue < 32,
    {
        proof {
            assert(value & 0x1F < 32 && (value >> 5u16) & 0x1F < 32 && (value >> 10u16) & 0x1F < 32) by (bit_vector);
        }
        Rgb15 {
            red: (value & 0x1F) as u8,
            green: ((value >> 5u16) & 0x1F) as u8,
            blue: ((value >> 10u16) & 0x1F) as u8,
            value: value,
        }
    }

    /// The colour as a 0RGB word for the frame buffer; for five-bit components
    /// that is red * 2^19 + green * 2^11 + blue * 2^3.
    pub fn to_0rgb(&self) -> (word: u32)
        ensures
            word == zero_rgb(self.red, self.green, self.blue),
            self.red < 32 && self.green < 32 && self.blue < 32 ==> word == self.red * 0x80000 + self.green * 0x800
                + self.blue * 8,
    {
        let (r, g, b) = (self.red as u32, self.green as u32, self.blue as u32);
        proof {
            assert(r < 32 && g < 32 && b < 32 ==> (r << 19u32) | (g << 11u32) | (b << 3u32) == r * 0x80000 + g * 0x800
                + b * 8) by (bit_vector);
        }
        (r << 19u32) | (g << 11u32) | (b << 3u32)
    }

    /// Whether this is the transparent marker 0x8000.
    pub fn is_transparent(&self) -> (t: bool)
        ensures
            t == (self.value == 0x8000),
    {
        self.value == 0x8000
    }
}

} // verus!

use vstd::prelude::*;

verus! {

/// An RGB colour with eight bits per channel.
#[derive(Debug, Clone, Copy, PartialEq, Eq, Structural)]
pub struct Color {
    pub r: u8,
    pub g: u8,
    pub b: u8,
}

/// The nearest value to `value` within `0..=255`.
pub open spec fn clamp_channel(value: int) -> int {
    if value < 0 {
        0
    } else if value > 255 {
        255
    } else {
        value
    }
}

/// The colour packed as `0x00RRGGBB`, as a number.
pub open spec fn packed(r: int, g: int, b: int) -> int {
    r * 65536 + g * 256 + b
}

impl Color {
    /// The colour packed as `0x00RRGGBB`.
    pub open spec fn hex(self) -> int {
        packed(self.r as int, self.g as int, self.b as int)
    }

    /// Builds a colour from three channel values, each clamped into `0..=255`.
    pub fn new(r: i32, g: i32, b: i32) -> (c: Color)
        ensures
            c.r == clamp_channel(r as int),
            c.g == clamp_channel(g as int),
            c.b == clamp_channel(b as int),
    {
        Color { r: Color::clamp(r), g: Color::clamp(g), b: Color::clamp(b) }
    }

    /// Reads a colour from the low 24 bits of `hex`, laid out as `0xRRGGBB`.
    /// The top eight bits are ignored.
    pub fn from_hex(hex: u32) -> (c: Color)
        ensures
            c.r == (hex as int / 65536) % 256,
            c.g == (hex as int / 256) % 256,
            c.b == hex as int % 256,
            hex < 0x100_0000 ==> c.hex() == hex,
    {
        let r: u32 = (hex >> 16) & 0xFF;
        let g: u32 = (hex >> 8) & 0xFF;
        let b: u32 = hex & 0xFF;
        assert(((hex >> 16) & 0xFF) == (hex / 65536) % 256) by (bit_vector);
        assert(((hex >> 8) & 0xFF) == (hex / 256) % 256) by (bit_vector);
        assert((hex & 0xFF) == hex % 256) by (bit_vector);
        Color { r: r as u8, g: g as u8, b: b as u8 }
    }

    /// Clamps a channel value into `0..=255`.
    pub fn clamp(value: i32) -> (v: u8)
        ensures
            v == clamp_channel(value as int),
    {
        if value < 0 {
            0
        } else if value > 255 {
            255
        } else {
            value as u8
        }
    }

    /// Adds two colours channel by channel; a channel that would pass 255
    /// stays at 255.
    pub fn add(&self, other: &Color) -> (c: Color)
        ensures
            c == self.plus(*other),
    {
        Color {
            r: Color::clamp(self.r as i32 + other.r as i32),
            g: Color::clamp(self.g as i32 + other.g as i32),
            b: Color::clamp(self.b as i32 + other.b as i32),
        }
    }

    /// The colour with all channels zero.
    pub fn black() -> (c: Color)
        ensures
            c == (Color { r: 0, g: 0, b: 0 }),
    {
        Color { r: 0, g: 0, b: 0 }
    }

    /// Packs the colour as `0x00RRGGBB`.
    pub fn to_u32(&self) -> (hex: u32)
        ensures
            hex == self.hex(),
            hex < 0x100_0000,
    {
        let r: u32 = (self.r as u32) << 16;
        let g: u32 = (self.g as u32) << 8;
        let b: u32 = self.b as u32;
        let (cr, cg, cb) = (self.r, self.g, self.b);
        assert((((cr as u32) << 16) | ((cg as u32) << 8) | (cb as u32)) == (cr as u32) * 65536 + (
        cg as u32) * 256 + (cb as u32)) by (bit_vector);
        r | g | b
    }
}

/// Packing loses nothing: the channels read back from a packed colour are
/// the colour's own, so `from_hex` undoes `to_u32`.
pub proof fn lemma_hex_round_trip(c: Color)
    ensures
        0 <= c.hex() < 0x100_0000,
        (c.hex() / 65536) % 256 == c.r,
        (c.hex() / 256) % 256 == c.g,
        c.hex() % 256 == c.b,
{
}

impl Color {
    /// The channel-wise saturating sum of two colours.
    pub open spec fn plus(self, other: Color) -> Color {
        Color {
            r: clamp_channel(self.r + other.r) as u8,
            g: clamp_channel(self.g + other.g) as u8,
            b: clamp_channel(self.b + other.b) as u8,
        }
    }
}

impl core::ops::Add for Color {
    type Output = Color;

    /// `a + b` adds channel by channel and saturates, as `Color::add` does.
    fn add(self, other: Color) -> (c: Color) {
        Color {
            r: Color::clamp(self.r as i32 + other.r as i32),
            g: Color::clamp(self.g as i32 + other.g as i32),
            b: Color::clamp(self.b as i32 + other.b as i32),
        }
    }
}

impl vstd::std_specs::ops::AddSpecImpl for Color {
    open spec fn obeys_add_spec() -> bool {
        true
    }

    open spec fn add_req(self, other: Color) -> bool {
        true
    }

    open spec fn add_spec(self, other: Color) -> Color {
        self.plus(other)
    }
}

} // verus!

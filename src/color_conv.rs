//! Packed 32-bit RGBA colours as emitted by a physics engine's debug buffer.
//!
//! A packed colour holds four 8-bit channels in little-endian byte order:
//! byte 0 is red, byte 1 green, byte 2 blue and byte 3 alpha. Unpacking
//! yields a [`NormalizedColor`], whose channels are kept exactly, as
//! numerators over [`CHANNEL_MAX`].

use vstd::prelude::*;

verus! {

/// The denominator of every normalized channel: a channel byte `c` stands
/// for the value `c / 255`, which lies in `[0, 1]`.
pub const CHANNEL_MAX: u8 = 255;

/// Four normalized channels, each held as its numerator over [`CHANNEL_MAX`].
#[derive(Clone, Copy, Debug, PartialEq, Eq, Structural)]
pub struct NormalizedColor {
    pub red: u8,
    pub green: u8,
    pub blue: u8,
    pub alpha: u8,
}

/// The byte at position `pos` (0 is the least significant) of `packed`.
pub open spec fn byte_at(packed: u32, pos: u32) -> u8 {
    ((packed >> (8 * pos)) & 0xFF) as u8
}

/// `packed` with its byte at position `pos` replaced by `v`.
pub open spec fn with_byte(packed: u32, pos: u32, v: u8) -> u32 {
    (packed & !(0xFFu32 << (8 * pos))) | ((v as u32) << (8 * pos))
}

/// What unpacking `packed` yields: one channel per byte, red lowest.
pub open spec fn unpacked(packed: u32) -> NormalizedColor {
    NormalizedColor {
        red: (packed & 0xFF) as u8,
        green: ((packed >> 8) & 0xFF) as u8,
        blue: ((packed >> 16) & 0xFF) as u8,
        alpha: ((packed >> 24) & 0xFF) as u8,
    }
}

impl NormalizedColor {
    /// The channel at byte position `pos`: 0 red, 1 green, 2 blue, 3 alpha.
    pub open spec fn channel_spec(self, pos: u32) -> u8
        recommends
            pos < 4,
    {
        if pos == 0 {
            self.red
        } else if pos == 1 {
            self.green
        } else if pos == 2 {
            self.blue
        } else {
            self.alpha
        }
    }

    /// The channel at byte position `pos`: 0 red, 1 green, 2 blue, 3 alpha.
    pub fn channel(&self, pos: u32) -> (r: u8)
        requires
            pos < 4,
        ensures
            r == self.channel_spec(pos),
    {
        if pos == 0 {
            self.red
        } else if pos == 1 {
            self.green
        } else if pos == 2 {
            self.blue
        } else {
            self.alpha
        }
    }
}

/// Splits a packed colour into its four channels; total over all inputs.
pub fn unpack_color(packed: u32) -> (r: NormalizedColor)
    ensures
        r == unpacked(packed),
{
    let red: u32 = packed & 0xFF;
    let green: u32 = (packed >> 8) & 0xFF;
    let blue: u32 = (packed >> 16) & 0xFF;
    let alpha: u32 = (packed >> 24) & 0xFF;
    assert(red < 256 && green < 256 && blue < 256 && alpha < 256) by (bit_vector)
        requires
            red == packed & 0xFF,
            green == (packed >> 8) & 0xFF,
            blue == (packed >> 16) & 0xFF,
            alpha == (packed >> 24) & 0xFF,
    ;
    NormalizedColor { red: red as u8, green: green as u8, blue: blue as u8, alpha: alpha as u8 }
}

/// Every channel of an unpacked colour has a numerator between 0 and
/// [`CHANNEL_MAX`], so each normalized channel lies in `[0, 1]`.
pub proof fn lemma_channels_in_unit_range(packed: u32)
    ensures
        forall|pos: u32|
            pos < 4 ==> 0 <= #[trigger] unpacked(packed).channel_spec(pos) <= CHANNEL_MAX,
{
}

/// Unpacking a colour reads channel `pos` from byte `pos` alone.
pub proof fn lemma_channel_is_byte(packed: u32, pos: u32)
    requires
        pos < 4,
    ensures
        unpacked(packed).channel_spec(pos) == byte_at(packed, pos),
{
    assert(packed & 0xFF == (packed >> (8 * 0u32)) & 0xFF) by (bit_vector);
    assert((packed >> 8) & 0xFF == (packed >> (8 * 1u32)) & 0xFF) by (bit_vector);
    assert((packed >> 16) & 0xFF == (packed >> (8 * 2u32)) & 0xFF) by (bit_vector);
    assert((packed >> 24) & 0xFF == (packed >> (8 * 3u32)) & 0xFF) by (bit_vector);
}

/// Embedding a byte `v` at position `pos` of any packed colour and unpacking
/// yields `v` in the channel at `pos`, whatever the other three bytes hold;
/// the other three channels are those of the colour before the embedding.
pub proof fn lemma_embedded_byte_unpacks(other: u32, pos: u32, v: u8)
    requires
        pos < 4,
    ensures
        unpacked(with_byte(other, pos, v)).channel_spec(pos) == v,
        forall|q: u32|
            q < 4 && q != pos ==> #[trigger] unpacked(with_byte(other, pos, v)).channel_spec(q)
                == unpacked(other).channel_spec(q),
{
    let p = with_byte(other, pos, v);
    lemma_channel_is_byte(p, pos);
    assert(byte_at(with_byte(other, pos, v), pos) == v) by (bit_vector)
        requires
            pos < 4,
    ;
    assert forall|q: u32| q < 4 && q != pos implies #[trigger] unpacked(p).channel_spec(q)
        == unpacked(other).channel_spec(q) by {
        lemma_channel_is_byte(p, q);
        lemma_channel_is_byte(other, q);
        assert(byte_at(with_byte(other, pos, v), q) == byte_at(other, q)) by (bit_vector)
            requires
                pos < 4,
                q < 4,
                q != pos,
        ;
    }
}

} // verus!

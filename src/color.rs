use vstd::prelude::*;

verus! {

/// The three colours of a black/white/chromatic panel.
#[derive(Clone, Copy, Debug, PartialEq, Eq, Structural)]
pub enum TriColor {
    Black,
    White,
    Chromatic,
}

/// Colour used for the panel background until another one is set.
pub const DEFAULT_BACKGROUND_COLOR: TriColor = TriColor::White;

impl TriColor {
    /// The single bit that stands for this colour in the achromatic plane.
    pub open spec fn bit_spec(self) -> u8 {
        match self {
            TriColor::White => 1,
            _ => 0,
        }
    }

    /// The bit value, replicated over all eight bits of a byte.
    pub open spec fn byte_spec(self) -> u8 {
        match self {
            TriColor::White => 0xff,
            _ => 0x00,
        }
    }

    pub fn get_bit_value(&self) -> (r: u8)
        ensures
            r == self.bit_spec(),
    {
        match self {
            TriColor::White => 1,
            _ => 0,
        }
    }

    pub fn get_byte_value(&self) -> (r: u8)
        ensures
            r == self.byte_spec(),
    {
        match self {
            TriColor::White => 0xff,
            _ => 0x00,
        }
    }
}

/// The byte value of a colour is its bit value copied into each of the eight
/// bit positions.
pub proof fn lemma_byte_replicates_bit(c: TriColor)
    ensures
        forall|i: u8| #![auto] i < 8 ==> (c.byte_spec() >> i) & 1 == c.bit_spec(),
{
    let b = c.byte_spec();
    let v = c.bit_spec();
    assert(forall|i: u8| #![auto] i < 8 ==> (b >> i) & 1 == v) by {
        if v == 1 {
            assert(b == 0xff);
            assert(forall|i: u8| #![auto] i < 8 ==> (0xffu8 >> i) & 1 == 1u8) by (bit_vector);
        } else {
            assert(b == 0);
            assert(forall|i: u8| #![auto] i < 8 ==> (0u8 >> i) & 1 == 0u8) by (bit_vector);
        }
    }
}

} // verus!

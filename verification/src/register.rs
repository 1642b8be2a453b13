//! A pair of 8-bit hardware registers addressed together as one 16-bit
//! value, high byte first (`H` and `L` making `HL`, and so on).

use vstd::prelude::*;

verus! {

/// Two 8-bit registers viewed as one 16-bit pair.
#[derive(Clone, Copy, Debug, PartialEq, Eq, Structural)]
pub struct Register {
    /// High byte of the pair.
    pub hi: u8,
    /// Low byte of the pair.
    pub lo: u8,
}

/// The 16-bit value a `hi`/`lo` byte pair stands for.
pub open spec fn pair_value(hi: u8, lo: u8) -> u16 {
    (((hi as u16) << 8) | (lo as u16)) as u16
}

/// `pair_value` agrees with plain arithmetic on the two bytes.
pub proof fn lemma_pair_value(hi: u8, lo: u8)
    ensures
        pair_value(hi, lo) == hi as int * 256 + lo as int,
{
    assert((((hi as u16) << 8) | (lo as u16)) == hi as int * 256 + lo as int) by (bit_vector);
}

impl Register {
    /// A new pair holding the 16-bit value `num`.
    pub fn new(num: u16) -> (r: Register)
        ensures
            r.hi == num >> 8,
            r.lo == (num & 0xFF),
            pair_value(r.hi, r.lo) == num,
    {
        let r = Register { hi: (num >> 8) as u8, lo: (num & 0xFF) as u8 };
        proof {
            lemma_split_rejoin(num);
        }
        r
    }

    /// Store the 16-bit value `num` into the pair.
    pub fn set(&mut self, num: u16)
        ensures
            final(self).hi == num >> 8,
            final(self).lo == (num & 0xFF),
            pair_value(final(self).hi, final(self).lo) == num,
    {
        self.lo = (num & 0xFF) as u8;
        self.hi = (num >> 8) as u8;
        proof {
            lemma_split_rejoin(num);
        }
    }

    /// The 16-bit value of the pair.
    pub fn get(&self) -> (r: u16)
        ensures
            r == pair_value(self.hi, self.lo),
    {
        ((self.hi as u16) << 8) | (self.lo as u16)
    }

    /// Store `num` into the high byte alone.
    pub fn set_hi(&mut self, num: u8)
        ensures
            *final(self) == (Register { hi: num, lo: old(self).lo }),
    {
        self.hi = num;
    }

    /// Store `num` into the low byte alone.
    pub fn set_lo(&mut self, num: u8)
        ensures
            *final(self) == (Register { hi: old(self).hi, lo: num }),
    {
        self.lo = num;
    }

    /// The high byte.
    pub fn get_hi(&self) -> (r: u8)
        ensures
            r == self.hi,
    {
        self.hi
    }

    /// The low byte.
    pub fn get_lo(&self) -> (r: u8)
        ensures
            r == self.lo,
    {
        self.lo
    }
}

/// Splitting a 16-bit value into bytes and rejoining them gives it back.
proof fn lemma_split_rejoin(num: u16)
    ensures
        pair_value((num >> 8) as u8, (num & 0xFF) as u8) == num,
        ((num >> 8) as u8) == num >> 8,
        ((num & 0xFF) as u8) == (num & 0xFF),
{
    assert(((((((num >> 8) as u8) as u16) << 8) | (((num & 0xFF) as u8) as u16)) as u16) == num)
        by (bit_vector);
    assert(((num >> 8) as u8) as u16 == (num >> 8) && ((num & 0xFF) as u8) as u16 == (num & 0xFF))
        by (bit_vector);
}

/// Every 16-bit store is read back unchanged: the pair is a faithful cell.
pub proof fn lemma_register_round_trip(num: u16)
    ensures
        pair_value((num >> 8) as u8, (num & 0xFF) as u8) == num,
{
    lemma_split_rejoin(num);
}

} // verus!

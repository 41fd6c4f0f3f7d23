//! Bit utilities: an overflow-free left shift and binary-coded-decimal
//! conversion of a byte.

use vstd::prelude::*;

verus! {

/// What `shl_no` returns: a left shift that yields 0 instead of wrapping
/// once the shift amount reaches the bit width.
pub open spec fn spec_shl_no(val: u8, shift: int) -> u8 {
    if shift > 7 {
        0u8
    } else {
        (val << shift) as u8
    }
}

/// Shift left without risk of overflow errors: shifting by 8 or more
/// returns 0 rather than wrapping the shift amount.
pub fn shl_no(val: u8, shift: usize) -> (r: u8)
    ensures
        r == spec_shl_no(val, shift as int),
{
    if shift > 7 {
        0
    } else {
        val << (shift as u8)
    }
}

/// A byte decomposed into its three decimal digits.
#[derive(Clone, Copy, Debug, PartialEq, Eq, Structural)]
pub struct BCD {
    pub hundreds: u8,
    pub tens: u8,
    pub ones: u8,
}

impl From<u8> for BCD {
    /// Decompose `value` into hundreds, tens and ones digits.
    fn from(value: u8) -> (r: Self)
        ensures
            r == BCD::spec_from(value),
    {
        let ones = value % 10;
        let value = value / 10;
        let tens = value % 10;
        let value = value / 10;
        let hundreds = value % 10;

        Self { hundreds, tens, ones }
    }
}

impl vstd::std_specs::convert::FromSpecImpl<u8> for BCD {
    open spec fn obeys_from_spec() -> bool {
        true
    }

    open spec fn from_spec(v: u8) -> BCD {
        BCD::spec_from(v)
    }
}

impl BCD {
    /// The decimal digits of a byte: `hundreds` is `v / 100`, `tens` is
    /// `(v / 10) % 10`, `ones` is `v % 10`.
    pub open spec fn spec_from(v: u8) -> BCD {
        BCD { hundreds: (v / 100) as u8, tens: ((v / 10) % 10) as u8, ones: (v % 10) as u8 }
    }

    pub fn new(hundreds: u8, tens: u8, ones: u8) -> (r: Self)
        ensures
            r == (BCD { hundreds, tens, ones }),
    {
        Self { hundreds, tens, ones }
    }
}

} // verus!

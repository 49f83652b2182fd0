use vstd::prelude::*;
use crate::error::Error;
use crate::session::Cipher;

verus! {

/// Bytes of a DES key.
pub const DES_KEY_SIZE: usize = 8;

/// Number of one bits in `v`.
pub open spec fn ones(v: nat) -> nat
    decreases v,
{
    if v == 0 {
        0
    } else {
        v % 2 + ones(v / 2)
    }
}

/// `b` with its lowest bit chosen so that the byte has odd parity.
pub open spec fn odd_parity(b: u8) -> u8 {
    let high = b as nat / 2;
    (high * 2 + if ones(high) % 2 == 0 { 1nat } else { 0nat }) as u8
}

fn odd_parity_byte(b: u8) -> (r: u8)
    ensures
        r == odd_parity(b),
{
    let high: u8 = b / 2;
    let mut v: u8 = high;
    let mut count: u8 = 0;
    while v > 0
        invariant
            count as nat + ones(v as nat) == ones(high as nat),
            count + v <= 255,
        decreases v,
    {
        assert(ones(v as nat) == v as nat % 2 + ones(v as nat / 2));
        count = count + v % 2;
        v = v / 2;
    }
    high * 2 + if count % 2 == 0 { 1u8 } else { 0u8 }
}

impl Cipher {
    /// Sets each of the eight bytes of a DES key to odd parity, keeping its
    /// seven high bits; bytes past the eighth are left alone.
    pub fn set_parity(key: &mut [u8]) -> (r: Result<(), Error>)
        requires
            old(key)@.len() >= DES_KEY_SIZE,
        ensures
            r is Ok,
            final(key)@.len() == old(key)@.len(),
            forall|i: int| 0 <= i < DES_KEY_SIZE ==> final(key)@[i] == odd_parity(#[trigger] old(key)@[i]),
            forall|i: int| DES_KEY_SIZE <= i < old(key)@.len() ==> final(key)@[i] == #[trigger] old(key)@[i],
    {
        let mut i: usize = 0;
        while i < DES_KEY_SIZE
            invariant
                i <= DES_KEY_SIZE,
                key@.len() == old(key)@.len(),
                old(key)@.len() >= DES_KEY_SIZE,
                forall|j: int| 0 <= j < i ==> key@[j] == odd_parity(#[trigger] old(key)@[j]),
                forall|j: int| i <= j < old(key)@.len() ==> key@[j] == #[trigger] old(key)@[j],
            decreases DES_KEY_SIZE - i,
        {
            let b = key[i];
            key[i] = odd_parity_byte(b);
            i = i + 1;
        }
        Ok(())
    }
}

} // verus!

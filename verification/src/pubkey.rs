use vstd::prelude::*;

verus! {

/// The all-zero address, which stands for no account.
pub open spec fn empty_key() -> Seq<u8> {
    Seq::new(32, |i: int| 0u8)
}

/// Whether two addresses are the same.
pub fn keys_equal(a: &[u8; 32], b: &[u8; 32]) -> (r: bool)
    ensures
        r == (a@ == b@),
{
    let mut i: usize = 0;
    while i < 32
        invariant
            i <= 32,
            a@.len() == 32,
            b@.len() == 32,
            forall|k: int| 0 <= k < i ==> a@[k] == b@[k],
        decreases 32 - i,
    {
        if a[i] != b[i] {
            return false;
        }
        i = i + 1;
    }
    proof {
        assert(a@ =~= b@);
    }
    true
}

/// The little endian `u16` at `offset` of the bytes.
pub open spec fn spec_u16_le(data: Seq<u8>, offset: int) -> u16 {
    (data[offset] + 256 * data[offset + 1]) as u16
}

pub fn read_u16_le(data: &[u8], offset: usize) -> (r: u16)
    requires
        offset + 2 <= data@.len(),
    ensures
        r == spec_u16_le(data@, offset as int),
{
    (data[offset] as u16) + (data[offset + 1] as u16) * 256
}

/// Whether the bytes begin with the eight bytes of an account discriminator.
pub fn starts_with_discriminator(data: &[u8], discriminator: &[u8; 8]) -> (r: bool)
    ensures
        r == (data@.len() >= 8 && data@.subrange(0, 8) == discriminator@),
{
    if data.len() < 8 {
        return false;
    }
    let mut i: usize = 0;
    while i < 8
        invariant
            i <= 8,
            data@.len() >= 8,
            discriminator@.len() == 8,
            forall|k: int| 0 <= k < i ==> data@[k] == discriminator@[k],
        decreases 8 - i,
    {
        if data[i] != discriminator[i] {
            proof {
                assert(data@.subrange(0, 8)[i as int] != discriminator@[i as int]);
            }
            return false;
        }
        i = i + 1;
    }
    proof {
        assert(data@.subrange(0, 8) =~= discriminator@);
    }
    true
}

} // verus!

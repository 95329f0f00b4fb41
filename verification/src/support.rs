use vstd::prelude::*;

verus! {

/// Bit position, in the capability bitmask of the host's support query, of
/// the flag for operating on distinct input and output buffers.
pub const NO_COPY_BIT: usize = 0;

/// Bit position, in the capability bitmask of the host's support query, of
/// the flag for operating in place in a single buffer.
pub const IN_PLACE_NO_COPY_BIT: usize = 1;

/// Describes AES-256-GCM support.
#[derive(Debug, PartialEq, Eq, Structural, Clone, Copy)]
pub struct Support {
    /// Encryption and decryption are supported without copy when the input
    /// pointer is non-null, i.e. when the operation uses different buffers
    /// for input and output.
    pub no_copy: bool,

    /// Encryption and decryption are supported without copy when the input
    /// pointer is null, i.e. when the operation works in place in a single
    /// buffer.
    pub in_place_no_copy: bool,
}

impl Support {
    /// The support flags encoded by a capability bitmask.
    pub open spec fn of_bits(bits: usize) -> Support {
        Support { no_copy: bits & 1 != 0, in_place_no_copy: bits & 2 != 0 }
    }

    /// The support flags reported by a raw status of the capability query: a
    /// non-negative status carries the bitmask, and an absent capability
    /// reads as the all-zero bitmask.
    pub open spec fn of_status(status: isize) -> Support {
        if status >= 0 {
            Support::of_bits(status as usize)
        } else {
            Support::of_bits(0)
        }
    }

    /// Reads the two aliasing capability flags out of a capability bitmask.
    pub fn from_bits(bits: usize) -> (s: Support)
        ensures
            s == Support::of_bits(bits),
    {
        let no_copy_mask: usize = 1usize << NO_COPY_BIT;
        let in_place_mask: usize = 1usize << IN_PLACE_NO_COPY_BIT;
        assert(1usize << 0usize == 1usize) by (bit_vector);
        assert(1usize << 1usize == 2usize) by (bit_vector);
        Support { no_copy: bits & no_copy_mask != 0, in_place_no_copy: bits & in_place_mask != 0 }
    }

    /// Reads the aliasing capability flags out of a raw status of the
    /// capability query.
    pub fn from_status(status: isize) -> (s: Support)
        ensures
            s == Support::of_status(status),
    {
        if status >= 0 {
            Support::from_bits(status as usize)
        } else {
            Support::from_bits(0)
        }
    }
}

/// Whether a raw status of the capability query reports any support at all.
pub fn supported_from_status(status: isize) -> (r: bool)
    ensures
        r == (status > 0),
        !r ==> Support::of_status(status) == (Support { no_copy: false, in_place_no_copy: false }),
{
    proof {
        if status <= 0 {
            lemma_unsupported_claims_no_mode(status);
        }
    }
    status > 0
}

/// A capability query that reports no support at all claims neither aliasing
/// mode: the descriptor never shows a mode where the service itself is
/// absent.
pub proof fn lemma_unsupported_claims_no_mode(status: isize)
    requires
        status <= 0,
    ensures
        !Support::of_status(status).no_copy,
        !Support::of_status(status).in_place_no_copy,
{
    assert(0usize & 1 == 0) by (bit_vector);
    assert(0usize & 2 == 0) by (bit_vector);
}

} // verus!

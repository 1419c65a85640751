use vstd::prelude::*;

verus! {

/// Bit of [`Interest`] for readable readiness.
pub const READABLE_BIT: u8 = 0b0_0001;

/// Bit of [`Interest`] for writable readiness.
pub const WRITABLE_BIT: u8 = 0b0_0010;

/// Bit of [`Interest`] for AIO completion.
pub const AIO_BIT: u8 = 0b0_0100;

/// Bit of [`Interest`] for list-I/O completion.
pub const LIO_BIT: u8 = 0b0_1000;

/// Bit of [`Interest`] for priority (out-of-band) readiness.
pub const PRIORITY_BIT: u8 = 0b1_0000;

/// Every bit that an [`Interest`] may hold.
pub const ALL_BITS: u8 = 0b1_1111;

/// The set of readiness kinds a registration asks to be told about.
///
/// An `Interest` is never empty and holds no bit outside [`ALL_BITS`].
#[derive(Clone, Copy, Debug, PartialEq, Eq, Structural, Hash)]
pub struct Interest {
    bits: u8,
}

/// Whether `bits` is a valid, nonempty interest set.
pub open spec fn valid_bits(bits: u8) -> bool {
    bits != 0 && bits <= ALL_BITS
}

impl View for Interest {
    type V = u8;

    closed spec fn view(&self) -> u8 {
        self.bits
    }
}

impl Interest {
    #[verifier::type_invariant]
    spec fn inv(self) -> bool {
        valid_bits(self.bits)
    }

    /// Readable interest alone.
    pub fn readable() -> (r: Interest)
        ensures
            r@ == READABLE_BIT,
    {
        Interest { bits: READABLE_BIT }
    }

    /// Writable interest alone.
    pub fn writable() -> (r: Interest)
        ensures
            r@ == WRITABLE_BIT,
    {
        Interest { bits: WRITABLE_BIT }
    }

    /// AIO interest alone.
    pub fn aio() -> (r: Interest)
        ensures
            r@ == AIO_BIT,
    {
        Interest { bits: AIO_BIT }
    }

    /// List-I/O interest alone.
    pub fn lio() -> (r: Interest)
        ensures
            r@ == LIO_BIT,
    {
        Interest { bits: LIO_BIT }
    }

    /// Priority interest alone.
    pub fn priority() -> (r: Interest)
        ensures
            r@ == PRIORITY_BIT,
    {
        Interest { bits: PRIORITY_BIT }
    }

    /// Builds an interest from raw bits; `None` for zero or for unknown bits.
    pub fn from_bits(bits: u8) -> (r: Option<Interest>)
        ensures
            r.is_some() <==> valid_bits(bits),
            r.is_some() ==> r.unwrap()@ == bits,
    {
        if bits != 0 && bits <= ALL_BITS {
            Some(Interest { bits })
        } else {
            None
        }
    }

    /// The raw bits of this interest.
    pub fn bits(self) -> (r: u8)
        ensures
            r == self@,
    {
        self.bits
    }

    /// The union of two interests.
    pub fn add(self, other: Interest) -> (r: Interest)
        ensures
            r@ == self@ | other@,
    {
        proof {
            use_type_invariant(self);
            use_type_invariant(other);
            let (a, b) = (self.bits, other.bits);
            assert((a | b) != 0 && (a | b) <= 31) by (bit_vector)
                requires
                    a != 0,
                    a <= 31,
                    b <= 31,
            ;
        }
        Interest { bits: self.bits | other.bits }
    }

    /// This interest without the kinds in `other`; `None` when nothing is left.
    pub fn remove(self, other: Interest) -> (r: Option<Interest>)
        ensures
            r.is_some() <==> self@ & !other@ != 0,
            r.is_some() ==> r.unwrap()@ == self@ & !other@,
    {
        proof {
            use_type_invariant(self);
            let (a, b) = (self.bits, other.bits);
            assert((a & !b) <= a) by (bit_vector);
        }
        let bits = self.bits & !other.bits;
        if bits != 0 {
            Some(Interest { bits })
        } else {
            None
        }
    }

    /// Whether readable readiness is asked for.
    pub fn is_readable(self) -> (r: bool)
        ensures
            r == (self@ & READABLE_BIT != 0),
    {
        self.bits & READABLE_BIT != 0
    }

    /// Whether writable readiness is asked for.
    pub fn is_writable(self) -> (r: bool)
        ensures
            r == (self@ & WRITABLE_BIT != 0),
    {
        self.bits & WRITABLE_BIT != 0
    }

    /// Whether AIO completion is asked for.
    pub fn is_aio(self) -> (r: bool)
        ensures
            r == (self@ & AIO_BIT != 0),
    {
        self.bits & AIO_BIT != 0
    }

    /// Whether list-I/O completion is asked for.
    pub fn is_lio(self) -> (r: bool)
        ensures
            r == (self@ & LIO_BIT != 0),
    {
        self.bits & LIO_BIT != 0
    }

    /// Whether priority readiness is asked for.
    pub fn is_priority(self) -> (r: bool)
        ensures
            r == (self@ & PRIORITY_BIT != 0),
    {
        self.bits & PRIORITY_BIT != 0
    }
}

/// Union of interests is commutative and idempotent.
pub proof fn lemma_union_laws(a: Interest, b: Interest)
    ensures
        a@ | b@ == b@ | a@,
        a@ | a@ == a@,
{
    let (x, y) = (a@, b@);
    assert(x | y == y | x) by (bit_vector);
    assert(x | x == x) by (bit_vector);
}

} // verus!

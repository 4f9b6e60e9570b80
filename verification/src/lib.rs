use vstd::prelude::*;

pub mod instruction;

verus! {

/// Memory address: a 12-bit unsigned value (0..=4095).
///
/// Construction masks any wider input down to 12 bits, matching the address
/// width of the instruction format; out-of-range bits are silently truncated,
/// never rejected.
#[derive(Clone, Copy, Debug, PartialEq, Eq, Structural)]
pub struct Addr(u16);

impl View for Addr {
    type V = u16;

    closed spec fn view(&self) -> u16 {
        self.0
    }
}

impl Addr {
    /// The address that construction from `addr` yields: the low 12 bits.
    pub closed spec fn spec_new(addr: u16) -> Addr {
        Addr(addr & 0xfff)
    }

    /// An address is well formed when its value fits in 12 bits.
    pub open spec fn wf(self) -> bool {
        self@ < 4096
    }

    #[verifier::when_used_as_spec(spec_new)]
    pub fn new(addr: u16) -> (r: Self)
        ensures
            r == Self::spec_new(addr),
            r@ == addr & 0xfff,
            r@ == addr % 4096,
            r.wf(),
    {
        proof {
            assert(addr & 0xfff == addr % 4096 && addr & 0xfff < 4096) by (bit_vector);
        }
        Self(addr & 0xfff)
    }

    /// The value of a freshly constructed address, as a mask and as a modulus.
    pub proof fn lemma_new_view(addr: u16)
        ensures
            Self::spec_new(addr)@ == addr & 0xfff,
            Self::spec_new(addr)@ == addr % 4096,
            Self::spec_new(addr).wf(),
    {
        assert(addr & 0xfff == addr % 4096 && addr & 0xfff < 4096) by (bit_vector);
    }

    /// Two addresses holding the same value are the same address.
    pub proof fn lemma_view_injective(a: Addr, b: Addr)
        requires
            a@ == b@,
        ensures
            a == b,
    {
    }

    /// Masking invariant: constructing an address from any 16-bit value and
    /// from that value modulo 4096 yields identical results.
    pub proof fn lemma_masking(addr: u16)
        ensures
            Addr::new(addr) == Addr::new(addr % 4096),
    {
        assert(addr & 0xfff == (addr % 4096) & 0xfff) by (bit_vector);
    }
}

/// V-register index: a 4-bit unsigned value (0..=15) naming one of the 16
/// general-purpose registers.
///
/// Construction masks any wider input down to 4 bits, as for [`Addr`].
#[derive(Clone, Copy, Debug, PartialEq, Eq, Structural)]
pub struct RegisterIndex(u8);

impl View for RegisterIndex {
    type V = u8;

    closed spec fn view(&self) -> u8 {
        self.0
    }
}

impl RegisterIndex {
    /// The index that construction from `index` yields: the low 4 bits.
    pub closed spec fn spec_new(index: u8) -> RegisterIndex {
        RegisterIndex(index & 0xf)
    }

    /// A register index is well formed when its value fits in 4 bits.
    pub open spec fn wf(self) -> bool {
        self@ < 16
    }

    #[verifier::when_used_as_spec(spec_new)]
    pub fn new(index: u8) -> (r: Self)
        ensures
            r == Self::spec_new(index),
            r@ == index & 0xf,
            r@ == index % 16,
            r.wf(),
    {
        proof {
            assert(index & 0xf == index % 16 && index & 0xf < 16) by (bit_vector);
        }
        Self(index & 0xf)
    }

    /// The value of a freshly constructed index, as a mask and as a modulus.
    pub proof fn lemma_new_view(index: u8)
        ensures
            Self::spec_new(index)@ == index & 0xf,
            Self::spec_new(index)@ == index % 16,
            Self::spec_new(index).wf(),
    {
        assert(index & 0xf == index % 16 && index & 0xf < 16) by (bit_vector);
    }

    /// Two register indices holding the same value are the same index.
    pub proof fn lemma_view_injective(a: RegisterIndex, b: RegisterIndex)
        requires
            a@ == b@,
        ensures
            a == b,
    {
    }

    /// Constructing a well-formed index back from its own value yields it
    /// unchanged.
    pub proof fn lemma_new_identity(r: RegisterIndex)
        requires
            r.wf(),
        ensures
            RegisterIndex::new(r@) == r,
    {
        let v = r@;
        assert(v < 16 ==> v & 0xf == v) by (bit_vector);
        Self::lemma_view_injective(Self::spec_new(v), r);
    }

    /// Masking invariant: constructing a register index from any 8-bit value
    /// and from that value modulo 16 yields identical results.
    pub proof fn lemma_masking(index: u8)
        ensures
            RegisterIndex::new(index) == RegisterIndex::new(index % 16),
    {
        assert(index & 0xf == (index % 16) & 0xf) by (bit_vector);
    }
}

} // verus!

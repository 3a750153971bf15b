use vstd::prelude::*;

verus! {

/// 2 to the 128th power: the weight of the high word of a [`U256`].
pub open spec fn pow2_128() -> nat {
    0x1_0000_0000_0000_0000_0000_0000_0000_0000nat
}

/// The unsigned value of `s` read as a big-endian number.
pub open spec fn be_value(s: Seq<u8>) -> nat
    decreases s.len(),
{
    if s.len() == 0 {
        0
    } else {
        be_value(s.drop_last()) * 256 + s.last() as nat
    }
}

/// Bytes that are all zero read as zero.
pub proof fn lemma_be_value_zeros(z: Seq<u8>)
    requires
        forall|i: int| 0 <= i < z.len() ==> z[i] == 0,
    ensures
        be_value(z) == 0,
    decreases z.len(),
{
    if z.len() > 0 {
        lemma_be_value_zeros(z.drop_last());
    }
}

/// Leading zero bytes do not change a big-endian value.
pub proof fn lemma_be_value_leading_zeros(z: Seq<u8>, s: Seq<u8>)
    requires
        forall|i: int| 0 <= i < z.len() ==> z[i] == 0,
    ensures
        be_value(z + s) == be_value(s),
    decreases s.len(),
{
    if s.len() == 0 {
        assert(z + s =~= z);
        lemma_be_value_zeros(z);
    } else {
        assert((z + s).drop_last() =~= z + s.drop_last());
        lemma_be_value_leading_zeros(z, s.drop_last());
    }
}

/// A 256-bit unsigned integer held as its high and low 128-bit words.
#[derive(Debug, Clone, Copy, PartialEq, Eq, Structural, PartialOrd, Ord, Hash, Default)]
pub struct U256 {
    pub hi: u128,
    pub lo: u128,
}

impl U256 {
    /// The number this value stands for.
    pub open spec fn value(self) -> nat {
        self.hi as nat * pow2_128() + self.lo as nat
    }

    /// Zero.
    pub fn zero() -> (r: U256)
        ensures
            r.value() == 0,
            r.hi == 0 && r.lo == 0,
    {
        U256 { hi: 0, lo: 0 }
    }

    /// Whether the value is zero.
    pub fn is_zero(&self) -> (r: bool)
        ensures
            r == (self.value() == 0),
    {
        self.hi == 0 && self.lo == 0
    }

    /// Whether the value is one.
    pub fn is_one(&self) -> (r: bool)
        ensures
            r == (self.value() == 1),
    {
        assert(self.hi > 0 ==> self.value() >= pow2_128()) by (nonlinear_arith)
            requires self.value() == self.hi as nat * pow2_128() + self.lo as nat,
                     pow2_128() > 1;
        self.hi == 0 && self.lo == 1
    }
}

/// Two values with the same number are the same value.
pub proof fn lemma_value_unique(a: U256, b: U256)
    requires
        a.value() == b.value(),
    ensures
        a == b,
{
    let p = pow2_128() as int;
    assert(a.hi == b.hi && a.lo == b.lo) by (nonlinear_arith)
        requires
            a.hi as int * p + a.lo as int == b.hi as int * p + b.lo as int,
            0 <= a.lo < p,
            0 <= b.lo < p,
            0 <= a.hi,
            0 <= b.hi,
    ;
}

/// Relies on `ethnum::U256::from_be_bytes` (the 32 bytes read as a
/// big-endian number) and `into_words` (its high and low 128-bit words).
#[verifier::external_body]
pub(crate) fn u256_from_be_bytes(bytes: &[u8; 32]) -> (r: U256)
    ensures
        r.value() == be_value(bytes@),
{
    let (hi, lo) = ethnum::U256::from_be_bytes(*bytes).into_words();
    U256 { hi, lo }
}

} // verus!

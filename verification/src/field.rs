//! Base-field elements of the console network, represented by their canonical
//! little-endian byte encoding. The encoding is the value's view: every
//! contract over field elements speaks of these 32 bytes.

use vstd::prelude::*;
use snarkvm_console_network::MainnetV0;
use snarkvm_console_network::Network;
use snarkvm_console_network::prelude::FromBytes;
use snarkvm_console_network::prelude::ToBytes;
use snarkvm_console_network::prelude::Uniform;
use snarkvm_utilities::TestRng;

verus! {

/// The number of bits in a base-field element.
pub const FIELD_BITS: usize = 253;

/// A base-field element, as its canonical 32-byte little-endian encoding.
/// Values are only created by this crate's bindings to the console
/// arithmetic, so the bytes always denote a field element below the modulus.
#[derive(Clone, Copy)]
pub struct FieldElem {
    repr: [u8; 32],
}

impl View for FieldElem {
    type V = Seq<u8>;

    closed spec fn view(&self) -> Seq<u8> {
        self.repr@
    }
}

/// The byte encodings of a sequence of field elements.
pub open spec fn views_of_fields(s: Seq<FieldElem>) -> Seq<Seq<u8>> {
    s.map_values(|f: FieldElem| f@)
}

/// Indexing into the encodings of a sequence of field elements.
pub broadcast proof fn lemma_views_index(s: Seq<FieldElem>, i: int)
    requires
        0 <= i < s.len(),
    ensures
        #[trigger] views_of_fields(s)[i] == s[i]@,
{
}

/// Concatenation commutes with taking encodings.
pub proof fn lemma_views_add(a: Seq<FieldElem>, b: Seq<FieldElem>)
    ensures
        views_of_fields(a + b) =~= views_of_fields(a) + views_of_fields(b),
{
}

/// Pushes every element of `src` onto `dst`, in order.
pub fn push_fields(dst: &mut Vec<FieldElem>, src: &Vec<FieldElem>)
    ensures
        final(dst)@ == old(dst)@ + src@,
{
    let mut i: usize = 0;
    while i < src.len()
        invariant
            i <= src@.len(),
            dst@ == old(dst)@ + src@.subrange(0, i as int),
        decreases src@.len() - i,
    {
        dst.push(src[i]);
        proof {
            assert(old(dst)@ + src@.subrange(0, i as int) + seq![src@[i as int]] =~= old(
                dst,
            )@ + src@.subrange(0, i + 1));
        }
        i += 1;
    }
    proof {
        assert(src@.subrange(0, src@.len() as int) =~= src@);
    }
}

/// The 32-byte little-endian encoding of a 128-bit integer.
pub open spec fn le_bytes_of_u128(v: u128) -> Seq<u8> {
    Seq::new(32, |i: int| if i < 16 { (v >> (8 * i) as u128) as u8 } else { 0u8 })
}

/// Bit `i` of a little-endian byte string.
pub open spec fn bit_of(bytes: Seq<u8>, i: int) -> bool {
    (bytes[i / 8] >> (i % 8) as u8) & 1 == 1
}

impl FieldElem {
    /// A field element from its 32 canonical little-endian bytes. Used within
    /// the crate where the bytes are already known to be a canonical encoding
    /// (an x-coordinate handed back by the curve bindings).
    pub(crate) fn from_repr(repr: &[u8; 32]) -> (r: FieldElem)
        ensures
            r@ == repr@,
    {
        FieldElem { repr: *repr }
    }

    /// The canonical 32-byte little-endian encoding.
    pub(crate) fn to_bytes(&self) -> (r: [u8; 32])
        ensures
            r@ == self@,
    {
        self.repr
    }

    /// Relies on `Field::from_u128`: the field element with a given integer
    /// value, whose canonical encoding is that value in little-endian bytes.
    #[verifier::external_body]
    pub(crate) fn of_integer(value: u128) -> (r: FieldElem)
        ensures
            r@ == le_bytes_of_u128(value),
    {
        let f = snarkvm_console_types::Field::<MainnetV0>::from_u128(value);
        let mut repr = [0u8; 32];
        repr.copy_from_slice(&f.to_bytes_le().expect("field encoding"));
        FieldElem { repr }
    }

    /// Relies on `Field::rand` with a seeded test RNG: a field element
    /// sampled deterministically from the given seed, spanning the whole
    /// field. A signing nonce must be sampled from a fresh seed per call —
    /// reusing one reuses the transition secret key.
    #[verifier::external_body]
    pub fn sample(seed: u64) -> FieldElem {
        let f = snarkvm_console_types::Field::<MainnetV0>::rand(&mut TestRng::from_seed(seed));
        let mut repr = [0u8; 32];
        repr.copy_from_slice(&f.to_bytes_le().expect("field encoding"));
        FieldElem { repr }
    }

    /// A 128-bit unsigned integer reconstituted as a field element.
    pub fn from_u128(value: u128) -> (r: FieldElem)
        ensures
            r@ == le_bytes_of_u128(value),
    {
        FieldElem::of_integer(value)
    }

    /// Whether two field elements are the same value.
    pub fn equals(&self, other: &FieldElem) -> (r: bool)
        ensures
            r == (self@ == other@),
    {
        let mut i: usize = 0;
        while i < 32
            invariant
                i <= 32,
                forall|j: int| 0 <= j < i ==> self@[j] == other@[j],
            decreases 32 - i,
        {
            if self.repr[i] != other.repr[i] {
                assert(self@[i as int] != other@[i as int]);
                assert(self@ != other@);
                return false;
            }
            i += 1;
        }
        proof {
            assert(self@ =~= other@);
        }
        true
    }

    /// An 8-bit unsigned integer reconstituted as a field element.
    pub fn from_u8(value: u8) -> (r: FieldElem)
        ensures
            r@ == le_bytes_of_u128(value as u128),
    {
        FieldElem::from_u128(value as u128)
    }

    /// A 16-bit unsigned integer reconstituted as a field element.
    pub fn from_u16(value: u16) -> (r: FieldElem)
        ensures
            r@ == le_bytes_of_u128(value as u128),
    {
        FieldElem::from_u128(value as u128)
    }

    /// A 32-bit unsigned integer reconstituted as a field element.
    pub fn from_u32(value: u32) -> (r: FieldElem)
        ensures
            r@ == le_bytes_of_u128(value as u128),
    {
        FieldElem::from_u128(value as u128)
    }

    /// A 64-bit unsigned integer reconstituted as a field element.
    pub fn from_u64(value: u64) -> (r: FieldElem)
        ensures
            r@ == le_bytes_of_u128(value as u128),
    {
        FieldElem::from_u128(value as u128)
    }

    /// An 8-bit signed integer reconstituted as a field element from its
    /// two's-complement bits.
    pub fn from_i8(value: i8) -> (r: FieldElem)
        ensures
            r@ == le_bytes_of_u128((value as u8) as u128),
    {
        FieldElem::from_u128(value as u8 as u128)
    }

    /// A 16-bit signed integer reconstituted as a field element from its
    /// two's-complement bits.
    pub fn from_i16(value: i16) -> (r: FieldElem)
        ensures
            r@ == le_bytes_of_u128((value as u16) as u128),
    {
        FieldElem::from_u128(value as u16 as u128)
    }

    /// A 32-bit signed integer reconstituted as a field element from its
    /// two's-complement bits.
    pub fn from_i32(value: i32) -> (r: FieldElem)
        ensures
            r@ == le_bytes_of_u128((value as u32) as u128),
    {
        FieldElem::from_u128(value as u32 as u128)
    }

    /// A 64-bit signed integer reconstituted as a field element from its
    /// two's-complement bits.
    pub fn from_i64(value: i64) -> (r: FieldElem)
        ensures
            r@ == le_bytes_of_u128((value as u64) as u128),
    {
        FieldElem::from_u128(value as u64 as u128)
    }

    /// A 128-bit signed integer reconstituted as a field element from its
    /// two's-complement bits.
    pub fn from_i128(value: i128) -> (r: FieldElem)
        ensures
            r@ == le_bytes_of_u128(value as u128),
    {
        FieldElem::from_u128(value as u128)
    }

    /// The little-endian bits of the element, one for each of the 253 bit
    /// positions of the base field.
    pub fn to_bits_le(&self) -> (r: Vec<bool>)
        ensures
            r@.len() == FIELD_BITS,
            forall|i: int| 0 <= i < FIELD_BITS ==> r@[i] == bit_of(self@, i),
    {
        let mut bits: Vec<bool> = Vec::new();
        let mut i: usize = 0;
        while i < FIELD_BITS
            invariant
                i <= FIELD_BITS,
                bits@.len() == i,
                forall|j: int| 0 <= j < i ==> bits@[j] == bit_of(self@, j),
            decreases FIELD_BITS - i,
        {
            let byte = self.repr[i / 8];
            let bit = (byte >> (i % 8) as u8) & 1 == 1;
            bits.push(bit);
            i += 1;
        }
        bits
    }
}

} // verus!

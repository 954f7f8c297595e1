//! Scalar-field elements of the console network, represented by their
//! canonical little-endian byte encoding.

use vstd::prelude::*;
use snarkvm_console_network::MainnetV0;
use snarkvm_console_network::prelude::FromBytes;
use snarkvm_console_network::prelude::ToBytes;
use snarkvm_console_network::prelude::Zero;
use snarkvm_console_types::Scalar;

verus! {

/// A scalar-field element, as its canonical 32-byte little-endian encoding.
/// Values are only created by this crate's bindings to the console
/// arithmetic, so the bytes always denote a scalar below the modulus.
#[derive(Clone, Copy)]
pub struct ScalarElem {
    repr: [u8; 32],
}

impl View for ScalarElem {
    type V = Seq<u8>;

    closed spec fn view(&self) -> Seq<u8> {
        self.repr@
    }
}

/// The product of two scalars, named by their canonical encodings.
pub uninterp spec fn scalar_mul_of(a: Seq<u8>, b: Seq<u8>) -> Seq<u8>;

/// The difference of two scalars, named by their canonical encodings.
pub uninterp spec fn scalar_sub_of(a: Seq<u8>, b: Seq<u8>) -> Seq<u8>;

impl ScalarElem {
    /// A scalar from its 32 canonical little-endian bytes. Used within the
    /// crate where the bytes are already known to be a canonical encoding.
    pub(crate) fn from_repr(repr: &[u8; 32]) -> (r: ScalarElem)
        ensures
            r@ == repr@,
    {
        ScalarElem { repr: *repr }
    }

    /// The canonical 32-byte little-endian encoding.
    pub(crate) fn to_bytes(&self) -> (r: [u8; 32])
        ensures
            r@ == self@,
    {
        self.repr
    }

    /// Whether two scalars are the same value.
    pub fn equals(&self, other: &ScalarElem) -> (r: bool)
        ensures
            r == (self@ == other@),
    {
        let mut i: usize = 0;
        while i < 32
            invariant
                i <= 32,
                forall|j: int| 0 <= j < i ==> self@[j] == other@[j],
            decreases 32 - i,
        {
            if self.repr[i] != other.repr[i] {
                assert(self@[i as int] != other@[i as int]);
                assert(self@ != other@);
                return false;
            }
            i += 1;
        }
        proof {
            assert(self@ =~= other@);
        }
        true
    }

    /// Relies on scalar-field multiplication of the console network.
    #[verifier::external_body]
    pub(crate) fn mul(&self, other: &ScalarElem) -> (r: ScalarElem)
        ensures
            r@ == scalar_mul_of(self@, other@),
    {
        let a = Scalar::<MainnetV0>::from_bytes_le(&self.repr).unwrap_or(Scalar::zero());
        let b = Scalar::<MainnetV0>::from_bytes_le(&other.repr).unwrap_or(Scalar::zero());
        let out = a * b;
        let mut repr = [0u8; 32];
        repr.copy_from_slice(&out.to_bytes_le().expect("scalar encoding"));
        ScalarElem { repr }
    }

    /// Relies on scalar-field subtraction of the console network.
    #[verifier::external_body]
    pub(crate) fn sub(&self, other: &ScalarElem) -> (r: ScalarElem)
        ensures
            r@ == scalar_sub_of(self@, other@),
    {
        let a = Scalar::<MainnetV0>::from_bytes_le(&self.repr).unwrap_or(Scalar::zero());
        let b = Scalar::<MainnetV0>::from_bytes_le(&other.repr).unwrap_or(Scalar::zero());
        let out = a - b;
        let mut repr = [0u8; 32];
        repr.copy_from_slice(&out.to_bytes_le().expect("scalar encoding"));
        ScalarElem { repr }
    }
}

} // verus!

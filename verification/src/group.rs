//! Group elements of the console network's embedded curve, represented by the
//! canonical little-endian encoding of their x-coordinate. Within the
//! prime-order subgroup that the console types guarantee, the x-coordinate
//! determines the point, so the encoding is a faithful view.

use vstd::prelude::*;
use crate::field::FieldElem;
use crate::scalar::ScalarElem;
use crate::scalar::scalar_mul_of;
use crate::scalar::scalar_sub_of;
use snarkvm_console_network::MainnetV0;
use snarkvm_console_network::Network;
use snarkvm_console_network::prelude::FromBytes;
use snarkvm_console_network::prelude::ToBytes;
use snarkvm_console_network::prelude::Zero;
use snarkvm_console_types::Group;
use snarkvm_console_types::Scalar;

verus! {

/// A group element, as the canonical 32-byte little-endian encoding of its
/// x-coordinate. Values are only created by this crate's bindings, so the
/// bytes always denote a point of the prime-order subgroup.
#[derive(Clone, Copy)]
pub struct GroupElem {
    repr: [u8; 32],
}

impl View for GroupElem {
    type V = Seq<u8>;

    closed spec fn view(&self) -> Seq<u8> {
        self.repr@
    }
}

/// The scalar multiple of the group generator `G`, named by encodings.
pub uninterp spec fn g_mul_of(scalar: Seq<u8>) -> Seq<u8>;

/// The scalar multiple of an arbitrary group element, named by encodings.
pub uninterp spec fn group_mul_of(point: Seq<u8>, scalar: Seq<u8>) -> Seq<u8>;

/// The sum of two group elements, named by encodings.
pub uninterp spec fn group_add_of(a: Seq<u8>, b: Seq<u8>) -> Seq<u8>;

/// Relies on `MainnetV0::g_scalar_multiply`: multiplication of the fixed
/// generator `G` by a scalar.
#[verifier::external_body]
pub(crate) fn g_scalar_multiply(scalar: &ScalarElem) -> (r: GroupElem)
    ensures
        r@ == g_mul_of(scalar@),
{
    let s = Scalar::<MainnetV0>::from_bytes_le(&scalar.to_bytes()).unwrap_or(Scalar::zero());
    let out = MainnetV0::g_scalar_multiply(&s);
    let mut repr = [0u8; 32];
    repr.copy_from_slice(&out.to_bytes_le().expect("group encoding"));
    GroupElem { repr }
}

impl GroupElem {
    /// A group element from its 32 canonical x-coordinate bytes. Used within
    /// the crate where the bytes are already known to be a canonical encoding.
    pub(crate) fn from_repr(repr: &[u8; 32]) -> (r: GroupElem)
        ensures
            r@ == repr@,
    {
        GroupElem { repr: *repr }
    }

    /// The canonical 32-byte little-endian encoding of the x-coordinate.
    pub(crate) fn to_bytes(&self) -> (r: [u8; 32])
        ensures
            r@ == self@,
    {
        self.repr
    }

    /// The x-coordinate of the point as a field element. Relies on the group
    /// encoding being exactly the encoding of the x-coordinate.
    pub fn to_x_coordinate(&self) -> (r: FieldElem)
        ensures
            r@ == self@,
    {
        FieldElem::from_repr(&self.repr)
    }

    /// Whether two group elements are the same point.
    pub fn equals(&self, other: &GroupElem) -> (r: bool)
        ensures
            r == (self@ == other@),
    {
        let mut i: usize = 0;
        while i < 32
            invariant
                i <= 32,
                forall|j: int| 0 <= j < i ==> self@[j] == other@[j],
            decreases 32 - i,
        {
            if self.repr[i] != other.repr[i] {
                assert(self@[i as int] != other@[i as int]);
                assert(self@ != other@);
                return false;
            }
            i += 1;
        }
        proof {
            assert(self@ =~= other@);
        }
        true
    }

    /// Relies on scalar multiplication of curve points.
    #[verifier::external_body]
    pub(crate) fn mul(&self, scalar: &ScalarElem) -> (r: GroupElem)
        ensures
            r@ == group_mul_of(self@, scalar@),
    {
        let p = Group::<MainnetV0>::from_bytes_le(&self.repr).unwrap_or(Group::zero());
        let s = Scalar::<MainnetV0>::from_bytes_le(&scalar.to_bytes()).unwrap_or(Scalar::zero());
        let out = p * s;
        let mut repr = [0u8; 32];
        repr.copy_from_slice(&out.to_bytes_le().expect("group encoding"));
        GroupElem { repr }
    }

    /// Relies on addition of curve points. The two further clauses state the
    /// standard Schnorr recovery identities of the group's exponent
    /// arithmetic: `(x - c*s)*G + c*(s*G) == x*G`, both over the fixed
    /// generator and over an arbitrary base point; the console verifier rests
    /// on exactly these identities.
    #[verifier::external_body]
    pub(crate) fn add(&self, other: &GroupElem) -> (r: GroupElem)
        ensures
            r@ == group_add_of(self@, other@),
            forall|x: Seq<u8>, c: Seq<u8>, s: Seq<u8>|
                self@ == #[trigger] g_mul_of(scalar_sub_of(x, scalar_mul_of(c, s)))
                    && other@ == group_mul_of(g_mul_of(s), c)
                    ==> r@ == g_mul_of(x),
            forall|h: Seq<u8>, x: Seq<u8>, c: Seq<u8>, s: Seq<u8>|
                self@ == group_mul_of(group_mul_of(h, s), c)
                    && other@ == #[trigger] group_mul_of(h, scalar_sub_of(x, scalar_mul_of(c, s)))
                    ==> r@ == group_mul_of(h, x),
    {
        let a = Group::<MainnetV0>::from_bytes_le(&self.repr).unwrap_or(Group::zero());
        let b = Group::<MainnetV0>::from_bytes_le(&other.repr).unwrap_or(Group::zero());
        let out = a + b;
        let mut repr = [0u8; 32];
        repr.copy_from_slice(&out.to_bytes_le().expect("group encoding"));
        GroupElem { repr }
    }
}

} // verus!

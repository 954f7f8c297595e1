//! Bindings to the console network's Poseidon hash functions, each named by
//! an uninterpreted function over the byte encodings of its input and output.

use vstd::prelude::*;
use crate::field::FieldElem;
use crate::field::views_of_fields;
use crate::group::GroupElem;
use crate::scalar::ScalarElem;
use snarkvm_console_network::MainnetV0;
use snarkvm_console_network::Network;
use snarkvm_console_network::prelude::FromBytes;
use snarkvm_console_network::prelude::ToBytes;
use snarkvm_console_network::prelude::Zero;
use snarkvm_console_network::ToField;
use snarkvm_console_types::Field;
use snarkvm_console_types::Scalar;

verus! {

/// The Poseidon hash with input rate 2, over field-element encodings.
pub uninterp spec fn hash_psd2_of(preimage: Seq<Seq<u8>>) -> Seq<u8>;

/// The Poseidon hash with input rate 4, over field-element encodings.
pub uninterp spec fn hash_psd4_of(preimage: Seq<Seq<u8>>) -> Seq<u8>;

/// The Poseidon hash with input rate 8, over field-element encodings.
pub uninterp spec fn hash_psd8_of(preimage: Seq<Seq<u8>>) -> Seq<u8>;

/// The Poseidon hash with input rate 8 onto the scalar field.
pub uninterp spec fn hash_to_scalar_psd8_of(preimage: Seq<Seq<u8>>) -> Seq<u8>;

/// The transition secret key derived from the signing scalar and a nonce:
/// the Poseidon hash with rate 4 onto the scalar field of the serial-number
/// domain separator, the signing scalar reconstituted as a field element,
/// and the nonce.
pub uninterp spec fn tsk_of(sk_sig: Seq<u8>, nonce: Seq<u8>) -> Seq<u8>;

/// The serial-number generator of a commitment: the Poseidon hash with
/// rate 2 onto the curve of the serial-number domain separator and the
/// commitment.
pub uninterp spec fn sn_group_of(commitment: Seq<u8>) -> Seq<u8>;

/// Whether the serial-number generator of a commitment is delivered: the
/// hash onto the curve declines on the rare inputs whose curve encoding
/// fails, and its success is a function of the commitment alone.
pub uninterp spec fn sn_group_derivable(commitment: Seq<u8>) -> bool;

/// Relies on `MainnetV0::hash_psd2` (Poseidon, rate 2), which returns a hash
/// for every input list.
#[verifier::external_body]
pub(crate) fn hash_psd2(preimage: &Vec<FieldElem>) -> (r: FieldElem)
    ensures
        r@ == hash_psd2_of(views_of_fields(preimage@)),
{
    let mut fields: Vec<Field<MainnetV0>> = Vec::with_capacity(preimage.len());
    for f in preimage.iter() {
        fields.push(Field::from_bytes_le(&f.to_bytes()).unwrap_or(Field::zero()));
    }
    let out = MainnetV0::hash_psd2(&fields).expect("poseidon hash is total");
    let mut repr = [0u8; 32];
    repr.copy_from_slice(&out.to_bytes_le().expect("field encoding"));
    FieldElem::from_repr(&repr)
}

/// Relies on `MainnetV0::hash_psd4` (Poseidon, rate 4), which returns a hash
/// for every input list.
#[verifier::external_body]
pub(crate) fn hash_psd4(preimage: &Vec<FieldElem>) -> (r: FieldElem)
    ensures
        r@ == hash_psd4_of(views_of_fields(preimage@)),
{
    let mut fields: Vec<Field<MainnetV0>> = Vec::with_capacity(preimage.len());
    for f in preimage.iter() {
        fields.push(Field::from_bytes_le(&f.to_bytes()).unwrap_or(Field::zero()));
    }
    let out = MainnetV0::hash_psd4(&fields).expect("poseidon hash is total");
    let mut repr = [0u8; 32];
    repr.copy_from_slice(&out.to_bytes_le().expect("field encoding"));
    FieldElem::from_repr(&repr)
}

/// Relies on `MainnetV0::hash_psd8` (Poseidon, rate 8), which returns a hash
/// for every input list.
#[verifier::external_body]
pub(crate) fn hash_psd8(preimage: &Vec<FieldElem>) -> (r: FieldElem)
    ensures
        r@ == hash_psd8_of(views_of_fields(preimage@)),
{
    let mut fields: Vec<Field<MainnetV0>> = Vec::with_capacity(preimage.len());
    for f in preimage.iter() {
        fields.push(Field::from_bytes_le(&f.to_bytes()).unwrap_or(Field::zero()));
    }
    let out = MainnetV0::hash_psd8(&fields).expect("poseidon hash is total");
    let mut repr = [0u8; 32];
    repr.copy_from_slice(&out.to_bytes_le().expect("field encoding"));
    FieldElem::from_repr(&repr)
}

/// Relies on `MainnetV0::hash_to_scalar_psd8` (Poseidon, rate 8, projected
/// onto the scalar field by truncation), which returns a scalar for every
/// input list.
#[verifier::external_body]
pub(crate) fn hash_to_scalar_psd8(preimage: &Vec<FieldElem>) -> (r: ScalarElem)
    ensures
        r@ == hash_to_scalar_psd8_of(views_of_fields(preimage@)),
{
    let mut fields: Vec<Field<MainnetV0>> = Vec::with_capacity(preimage.len());
    for f in preimage.iter() {
        fields.push(Field::from_bytes_le(&f.to_bytes()).unwrap_or(Field::zero()));
    }
    let out = MainnetV0::hash_to_scalar_psd8(&fields).expect("poseidon hash is total");
    let mut repr = [0u8; 32];
    repr.copy_from_slice(&out.to_bytes_le().expect("scalar encoding"));
    ScalarElem::from_repr(&repr)
}

/// Relies on `MainnetV0::hash_to_scalar_psd4` over the serial-number domain
/// separator, the signing scalar as a field element, and the nonce; this is
/// the transition-secret-key derivation of the request protocol.
#[verifier::external_body]
pub(crate) fn derive_tsk(sk_sig: &ScalarElem, nonce: &FieldElem) -> (r: ScalarElem)
    ensures
        r@ == tsk_of(sk_sig@, nonce@),
{
    let sk = Scalar::<MainnetV0>::from_bytes_le(&sk_sig.to_bytes()).unwrap_or(Scalar::zero());
    let n = Field::<MainnetV0>::from_bytes_le(&nonce.to_bytes()).unwrap_or(Field::zero());
    let sk_field = sk.to_field().expect("scalar fits in the base field");
    let out = MainnetV0::hash_to_scalar_psd4(&[MainnetV0::serial_number_domain(), sk_field, n])
        .expect("poseidon hash is total");
    let mut repr = [0u8; 32];
    repr.copy_from_slice(&out.to_bytes_le().expect("scalar encoding"));
    ScalarElem::from_repr(&repr)
}

/// Relies on `MainnetV0::hash_to_group_psd2` over the serial-number domain
/// separator and a commitment; the hash declines on the rare inputs whose
/// curve encoding fails, exactly when the named condition says so.
#[verifier::external_body]
pub(crate) fn hash_to_group_sn(commitment: &FieldElem) -> (r: Option<GroupElem>)
    ensures
        r is Some <==> sn_group_derivable(commitment@),
        r matches Some(g) ==> g@ == sn_group_of(commitment@),
{
    let c = Field::<MainnetV0>::from_bytes_le(&commitment.to_bytes()).unwrap_or(Field::zero());
    match MainnetV0::hash_to_group_psd2(&[MainnetV0::serial_number_domain(), c]) {
        Ok(out) => {
            let mut repr = [0u8; 32];
            repr.copy_from_slice(&out.to_bytes_le().expect("group encoding"));
            Some(GroupElem::from_repr(&repr))
        }
        Err(_) => None,
    }
}

} // verus!

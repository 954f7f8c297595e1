//! The account key hierarchy: private key, compute key, view key, the tag
//! secret, and the public address. Each derivation is consumed from the
//! console account crate through a trusted binding and named by an
//! uninterpreted function over canonical byte encodings.

use vstd::prelude::*;
use crate::field::FieldElem;
use crate::group::GroupElem;
use crate::group::g_mul_of;
use crate::scalar::ScalarElem;
use snarkvm_console_account::Address;
use snarkvm_console_account::ComputeKey;
use snarkvm_console_account::PrivateKey;
use snarkvm_console_account::ViewKey;
use snarkvm_console_account::GraphKey;
use snarkvm_console_network::MainnetV0;
use snarkvm_console_network::prelude::FromBytes;
use snarkvm_console_network::prelude::ToBytes;
use snarkvm_console_network::prelude::Zero;
use snarkvm_console_types::Scalar;
use snarkvm_utilities::TestRng;
use core::str::FromStr;

verus! {

/// An account private key, as the canonical 32-byte encoding of its seed.
#[derive(Clone, Copy)]
pub struct PrivKey {
    repr: [u8; 32],
}

impl View for PrivKey {
    type V = Seq<u8>;

    closed spec fn view(&self) -> Seq<u8> {
        self.repr@
    }
}

/// An account compute key, as the canonical 64-byte encoding of its two
/// public group elements (`pk_sig` then `pr_sig`, x-coordinates).
#[derive(Clone, Copy)]
pub struct CompKey {
    repr: [u8; 64],
}

impl View for CompKey {
    type V = Seq<u8>;

    closed spec fn view(&self) -> Seq<u8> {
        self.repr@
    }
}

/// An account view key, as the canonical 32-byte encoding of its scalar.
#[derive(Clone, Copy)]
pub struct ViewingKey {
    repr: [u8; 32],
}

impl View for ViewingKey {
    type V = Seq<u8>;

    closed spec fn view(&self) -> Seq<u8> {
        self.repr@
    }
}

/// A public account address, as the canonical 32-byte encoding of its
/// group element (the x-coordinate).
#[derive(Clone, Copy)]
pub struct Addr {
    repr: [u8; 32],
}

impl View for Addr {
    type V = Seq<u8>;

    closed spec fn view(&self) -> Seq<u8> {
        self.repr@
    }
}

/// The signing scalar `sk_sig` of a private key.
pub uninterp spec fn sk_sig_of(sk: Seq<u8>) -> Seq<u8>;

/// The compute key derived from a private key.
pub uninterp spec fn compute_key_of(sk: Seq<u8>) -> Seq<u8>;

/// The signing anchor `pk_sig` of a compute key.
pub uninterp spec fn pk_sig_of(ck: Seq<u8>) -> Seq<u8>;

/// The secondary anchor `pr_sig` of a compute key.
pub uninterp spec fn pr_sig_of(ck: Seq<u8>) -> Seq<u8>;

/// The view key derived from a private key and its compute key.
pub uninterp spec fn view_key_of(sk: Seq<u8>, ck: Seq<u8>) -> Seq<u8>;

/// The tag secret `sk_tag` of the graph key derived from a view key.
pub uninterp spec fn sk_tag_of(vk: Seq<u8>) -> Seq<u8>;

/// The public address derived from a compute key.
pub uninterp spec fn address_of(ck: Seq<u8>) -> Seq<u8>;

impl PrivKey {
    /// Relies on `PrivateKey::new` with a seeded test RNG: a private key
    /// sampled deterministically from the given seed.
    #[verifier::external_body]
    pub fn sample(seed: u64) -> PrivKey {
        let key = PrivateKey::<MainnetV0>::new(&mut TestRng::from_seed(seed))
            .expect("private key sampling is total");
        let mut repr = [0u8; 32];
        repr.copy_from_slice(&key.to_bytes_le().expect("private key encoding"));
        PrivKey { repr }
    }

    /// Relies on `PrivateKey::from_str`: parses the textual form of a
    /// private key, declining on malformed text.
    #[verifier::external_body]
    pub fn parse(text: &str) -> Option<PrivKey> {
        let Ok(key) = PrivateKey::<MainnetV0>::from_str(text) else { return None };
        let mut repr = [0u8; 32];
        repr.copy_from_slice(&key.to_bytes_le().expect("private key encoding"));
        Some(PrivKey { repr })
    }

    /// Relies on `PrivateKey::sk_sig`: the signing scalar of the key.
    #[verifier::external_body]
    pub(crate) fn sk_sig(&self) -> (r: ScalarElem)
        ensures
            r@ == sk_sig_of(self@),
    {
        let out = PrivateKey::<MainnetV0>::from_bytes_le(&self.repr)
            .map(|key| key.sk_sig()).unwrap_or(Scalar::zero());
        let mut repr = [0u8; 32];
        repr.copy_from_slice(&out.to_bytes_le().expect("scalar encoding"));
        ScalarElem::from_repr(&repr)
    }

    /// Relies on `ComputeKey::try_from` over a private key.
    #[verifier::external_body]
    pub(crate) fn compute_key(&self) -> (r: CompKey)
        ensures
            r@ == compute_key_of(self@),
    {
        let mut repr = [0u8; 64];
        if let Ok(key) = PrivateKey::<MainnetV0>::from_bytes_le(&self.repr) {
            let ck = ComputeKey::try_from(&key).expect("compute key derivation is total");
            repr.copy_from_slice(&ck.to_bytes_le().expect("compute key encoding"));
        }
        CompKey { repr }
    }

    /// The caller's public address, derived through the compute key.
    pub fn address(&self) -> (r: Addr)
        ensures
            r@ == address_of(compute_key_of(self@)),
    {
        self.compute_key().to_address()
    }

    /// Relies on `ViewKey::try_from` over a private key and its compute key.
    #[verifier::external_body]
    pub(crate) fn view_key(&self, ck: &CompKey) -> (r: ViewingKey)
        ensures
            r@ == view_key_of(self@, ck@),
    {
        let mut repr = [0u8; 32];
        if let (Ok(key), Ok(compute_key)) = (
            PrivateKey::<MainnetV0>::from_bytes_le(&self.repr),
            ComputeKey::<MainnetV0>::from_bytes_le(&ck.to_bytes()),
        ) {
            let vk = ViewKey::try_from((&key, &compute_key)).expect("view key derivation is total");
            repr.copy_from_slice(&vk.to_bytes_le().expect("view key encoding"));
        }
        ViewingKey { repr }
    }
}

impl CompKey {
    /// The canonical 64-byte encoding.
    pub(crate) fn to_bytes(&self) -> (r: [u8; 64])
        ensures
            r@ == self@,
    {
        self.repr
    }

    /// Relies on `ComputeKey::pk_sig`: the first public anchor of the key.
    /// The second clause is shown by the compute-key derivation's source:
    /// for a compute key derived from a private key, `pk_sig` is the
    /// generator multiplied by the key's signing scalar.
    #[verifier::external_body]
    pub(crate) fn pk_sig(&self) -> (r: GroupElem)
        ensures
            r@ == pk_sig_of(self@),
            forall|sk: Seq<u8>|
                self@ == #[trigger] compute_key_of(sk) ==> r@ == g_mul_of(sk_sig_of(sk)),
    {
        let mut repr = [0u8; 32];
        if let Ok(ck) = ComputeKey::<MainnetV0>::from_bytes_le(&self.repr) {
            repr.copy_from_slice(&ck.pk_sig().to_bytes_le().expect("group encoding"));
        }
        GroupElem::from_repr(&repr)
    }

    /// Relies on `ComputeKey::pr_sig`: the second public anchor of the key.
    #[verifier::external_body]
    pub(crate) fn pr_sig(&self) -> (r: GroupElem)
        ensures
            r@ == pr_sig_of(self@),
    {
        let mut repr = [0u8; 32];
        if let Ok(ck) = ComputeKey::<MainnetV0>::from_bytes_le(&self.repr) {
            repr.copy_from_slice(&ck.pr_sig().to_bytes_le().expect("group encoding"));
        }
        GroupElem::from_repr(&repr)
    }

    /// Relies on `ComputeKey::to_address`: the account address of the key.
    #[verifier::external_body]
    pub(crate) fn to_address(&self) -> (r: Addr)
        ensures
            r@ == address_of(self@),
    {
        let mut repr = [0u8; 32];
        if let Ok(ck) = ComputeKey::<MainnetV0>::from_bytes_le(&self.repr) {
            repr.copy_from_slice(&ck.to_address().to_bytes_le().expect("address encoding"));
        }
        Addr { repr }
    }
}

impl ViewingKey {
    /// The view key as a scalar. Relies on the view key being a scalar and
    /// both carrying the same canonical encoding.
    pub(crate) fn to_scalar(&self) -> (r: ScalarElem)
        ensures
            r@ == self@,
    {
        ScalarElem::from_repr(&self.repr)
    }

    /// Relies on `GraphKey::try_from` over a view key, and on
    /// `GraphKey::sk_tag`: the tag secret of the derived graph key.
    #[verifier::external_body]
    pub(crate) fn sk_tag(&self) -> (r: FieldElem)
        ensures
            r@ == sk_tag_of(self@),
    {
        let mut repr = [0u8; 32];
        if let Ok(vk) = ViewKey::<MainnetV0>::from_bytes_le(&self.repr) {
            let gk = GraphKey::try_from(&vk).expect("graph key derivation is total");
            repr.copy_from_slice(&gk.sk_tag().to_bytes_le().expect("field encoding"));
        }
        FieldElem::from_repr(&repr)
    }
}

impl Addr {
    /// An address from its 32 canonical x-coordinate bytes. Used within the
    /// crate where the bytes are already known to be a canonical encoding.
    pub(crate) fn from_repr(repr: &[u8; 32]) -> (r: Addr)
        ensures
            r@ == repr@,
    {
        Addr { repr: *repr }
    }

    /// The address as the group element it encodes; both carry the same
    /// canonical x-coordinate bytes.
    pub fn to_group(&self) -> (r: GroupElem)
        ensures
            r@ == self@,
    {
        GroupElem::from_repr(&self.repr)
    }

    /// The x-coordinate of the address's group element as a field element;
    /// the canonical encodings coincide.
    pub fn to_x_coordinate(&self) -> (r: FieldElem)
        ensures
            r@ == self@,
    {
        FieldElem::from_repr(&self.repr)
    }

    /// Whether two addresses are the same.
    pub fn equals(&self, other: &Addr) -> (r: bool)
        ensures
            r == (self@ == other@),
    {
        let mut i: usize = 0;
        while i < 32
            invariant
                i <= 32,
                forall|j: int| 0 <= j < i ==> self@[j] == other@[j],
            decreases 32 - i,
        {
            if self.repr[i] != other.repr[i] {
                assert(self@[i as int] != other@[i as int]);
                assert(self@ != other@);
                return false;
            }
            i += 1;
        }
        proof {
            assert(self@ =~= other@);
        }
        true
    }

    /// Relies on the bech32 display of `Address`: the textual form of the
    /// address.
    #[verifier::external_body]
    pub fn to_text(&self) -> String {
        let Ok(addr) = Address::<MainnetV0>::from_bytes_le(&self.repr) else { return String::new() };
        format!("{}", addr)
    }
}

} // verus!

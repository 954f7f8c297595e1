//! The request-signing protocol: transition keys, the authenticated message,
//! the per-input identifier policy, and the Schnorr-style challenge and
//! response. The whole construction is pinned down by a spec-level model
//! (`spec_request`) over the named results of the consumed primitives, and
//! `sign` is proved to return exactly that model.

use vstd::prelude::*;
use crate::field::FieldElem;
use crate::field::le_bytes_of_u128;
use crate::field::lemma_views_add;
use crate::field::push_fields;
use crate::field::views_of_fields;
use crate::group::GroupElem;
use crate::group::g_mul_of;
use crate::group::g_scalar_multiply;
use crate::group::group_add_of;
use crate::group::group_mul_of;
use crate::keys::Addr;
use crate::keys::CompKey;
use crate::keys::PrivKey;
use crate::keys::address_of;
use crate::keys::compute_key_of;
use crate::keys::pk_sig_of;
use crate::keys::pr_sig_of;
use crate::keys::sk_sig_of;
use crate::keys::sk_tag_of;
use crate::keys::view_key_of;
use crate::poseidon::derive_tsk;
use crate::poseidon::hash_psd2;
use crate::poseidon::hash_psd2_of;
use crate::poseidon::hash_psd4;
use crate::poseidon::hash_psd4_of;
use crate::poseidon::hash_psd8;
use crate::poseidon::hash_psd8_of;
use crate::poseidon::hash_to_group_sn;
use crate::poseidon::hash_to_scalar_psd8;
use crate::poseidon::hash_to_scalar_psd8_of;
use crate::poseidon::sn_group_derivable;
use crate::poseidon::sn_group_of;
use crate::poseidon::tsk_of;
use crate::program::Ident;
use crate::program::ProgId;
use crate::program::Value;
use crate::program::ValueType;
use crate::program::ValueTypeView;
use crate::program::ValueView;
use crate::program::ciphertext_encodable;
use crate::program::ciphertext_fields_of;
use crate::program::commitment_derivable;
use crate::program::commitment_of;
use crate::program::encrypt_of;
use crate::program::encryptable;
use crate::program::function_id_derivable;
use crate::program::function_id_of;
use crate::program::plaintext_encodable;
use crate::program::record_encodable;
use crate::program::nonce_of;
use crate::program::owner_of;
use crate::program::payload_of;
use crate::program::serial_number_derivable;
use crate::program::serial_number_from_gamma;
use crate::program::serial_number_of;
use crate::program::value_fields_of;
use crate::program::views_of_types;
use crate::program::views_of_values;
use crate::scalar::ScalarElem;
use crate::scalar::scalar_mul_of;
use crate::scalar::scalar_sub_of;

verus! {

broadcast use
    crate::field::lemma_views_index,
    crate::program::lemma_value_views_index,
    crate::program::lemma_type_views_index;

/// The identifier of this network inside function ids and requests.
pub const NETWORK_ID: u16 = 0;

/// The largest input index a request may carry.
pub const MAX_INPUT_INDEX: usize = 65535;

/// The public, verifiable identifier derived from one input per its
/// declared visibility class.
#[derive(Clone, Copy)]
pub enum InputID {
    Constant(FieldElem),
    Public(FieldElem),
    Private(FieldElem),
    Record { commitment: FieldElem, gamma: GroupElem, serial_number: FieldElem, tag: FieldElem },
    ExternalRecord(FieldElem),
}

/// The mathematical shape of an `InputID`.
pub ghost enum InputIDView {
    Constant(Seq<u8>),
    Public(Seq<u8>),
    Private(Seq<u8>),
    Record { commitment: Seq<u8>, gamma: Seq<u8>, serial_number: Seq<u8>, tag: Seq<u8> },
    ExternalRecord(Seq<u8>),
}

impl View for InputID {
    type V = InputIDView;

    open spec fn view(&self) -> InputIDView {
        match self {
            InputID::Constant(h) => InputIDView::Constant(h@),
            InputID::Public(h) => InputIDView::Public(h@),
            InputID::Private(h) => InputIDView::Private(h@),
            InputID::Record { commitment, gamma, serial_number, tag } => InputIDView::Record {
                commitment: commitment@,
                gamma: gamma@,
                serial_number: serial_number@,
                tag: tag@,
            },
            InputID::ExternalRecord(h) => InputIDView::ExternalRecord(h@),
        }
    }
}

/// The views of a sequence of input identifiers.
pub open spec fn views_of_ids(s: Seq<InputID>) -> Seq<InputIDView> {
    s.map_values(|id: InputID| id@)
}

/// Indexing into the views of a sequence of input identifiers.
pub broadcast proof fn lemma_id_views_index(s: Seq<InputID>, i: int)
    requires
        0 <= i < s.len(),
    ensures
        #[trigger] views_of_ids(s)[i] == s[i]@,
{
}

/// A Schnorr-style signature: the challenge, the response, and the signer's
/// compute key, against which both are checked.
#[derive(Clone, Copy)]
pub struct Signature {
    pub challenge: ScalarElem,
    pub response: ScalarElem,
    pub compute_key: CompKey,
}

/// The mathematical shape of a `Signature`.
pub ghost struct SignatureView {
    pub challenge: Seq<u8>,
    pub response: Seq<u8>,
    pub compute_key: Seq<u8>,
}

impl View for Signature {
    type V = SignatureView;

    open spec fn view(&self) -> SignatureView {
        SignatureView {
            challenge: self.challenge@,
            response: self.response@,
            compute_key: self.compute_key@,
        }
    }
}

/// A signed authorization of one function call: the caller, the call being
/// made, the per-input identifiers, the prepared inputs, the signature, and
/// the transition key material retained for downstream execution.
pub struct Request {
    pub caller: Addr,
    pub network_id: u16,
    pub program_id: ProgId,
    pub function_name: Ident,
    pub input_ids: Vec<InputID>,
    pub inputs: Vec<Value>,
    pub signature: Signature,
    pub sk_tag: FieldElem,
    pub tvk: FieldElem,
    pub tsk: ScalarElem,
    pub tcm: FieldElem,
}

/// The mathematical shape of a `Request`.
pub ghost struct RequestView {
    pub caller: Seq<u8>,
    pub network_id: u16,
    pub program_id: Seq<u8>,
    pub function_name: Seq<u8>,
    pub input_ids: Seq<InputIDView>,
    pub inputs: Seq<ValueView>,
    pub signature: SignatureView,
    pub sk_tag: Seq<u8>,
    pub tvk: Seq<u8>,
    pub tsk: Seq<u8>,
    pub tcm: Seq<u8>,
}

impl View for Request {
    type V = RequestView;

    open spec fn view(&self) -> RequestView {
        RequestView {
            caller: self.caller@,
            network_id: self.network_id,
            program_id: self.program_id@,
            function_name: self.function_name@,
            input_ids: views_of_ids(self.input_ids@),
            inputs: views_of_values(self.inputs@),
            signature: self.signature@,
            sk_tag: self.sk_tag@,
            tvk: self.tvk@,
            tsk: self.tsk@,
            tcm: self.tcm@,
        }
    }
}

/// Why a signing call failed.
#[derive(Debug)]
pub enum SignError {
    /// The number of inputs does not match the number of declared types.
    ArityMismatch { expected: usize, provided: usize },
    /// More inputs were supplied than an input index can address.
    TooManyInputs { provided: usize },
    /// The input at this index of the named call has the wrong shape for
    /// its declared type.
    TypeMismatch { index: usize, program_id: ProgId, function_name: Ident },
    /// The record input at this index of the named call is not owned by
    /// the caller.
    OwnershipMismatch { index: usize, program_id: ProgId, function_name: Ident },
    /// A consumed hash or commitment primitive declined its input.
    DerivationFailure,
}

/// The caller address derived from a private key.
pub open spec fn spec_caller(sk: Seq<u8>) -> Seq<u8> {
    address_of(compute_key_of(sk))
}

/// The view key derived from a private key.
pub open spec fn spec_view_key(sk: Seq<u8>) -> Seq<u8> {
    view_key_of(sk, compute_key_of(sk))
}

/// The tag secret derived from a private key.
pub open spec fn spec_sk_tag(sk: Seq<u8>) -> Seq<u8> {
    sk_tag_of(spec_view_key(sk))
}

/// The transition secret key derived from a private key and a nonce.
pub open spec fn spec_tsk(sk: Seq<u8>, nonce: Seq<u8>) -> Seq<u8> {
    tsk_of(sk_sig_of(sk), nonce)
}

/// The transition view key: the x-coordinate of the caller's address
/// multiplied by the transition secret key.
pub open spec fn spec_tvk(sk: Seq<u8>, nonce: Seq<u8>) -> Seq<u8> {
    group_mul_of(spec_caller(sk), spec_tsk(sk, nonce))
}

/// The transition commitment: the hash of the transition view key.
pub open spec fn spec_tcm(sk: Seq<u8>, nonce: Seq<u8>) -> Seq<u8> {
    hash_psd2_of(seq![spec_tvk(sk, nonce)])
}

/// The input index folded into every per-input hash, as a field encoding.
pub open spec fn index_bytes(i: int) -> Seq<u8> {
    le_bytes_of_u128(i as u128)
}

/// The record view key of a record under a private key.
pub open spec fn spec_rvk(sk: Seq<u8>, rec: Seq<u8>) -> Seq<u8> {
    group_mul_of(nonce_of(rec), spec_view_key(sk))
}

/// The commitment of a record input.
pub open spec fn spec_commitment(sk: Seq<u8>, pid: Seq<u8>, rec: Seq<u8>, name: Seq<u8>) -> Seq<
    u8,
> {
    commitment_of(rec, pid, name, spec_rvk(sk, rec))
}

/// The per-record generator: the hash of the commitment onto the curve.
pub open spec fn spec_h(sk: Seq<u8>, pid: Seq<u8>, rec: Seq<u8>, name: Seq<u8>) -> Seq<u8> {
    sn_group_of(spec_commitment(sk, pid, rec, name))
}

/// `gamma`: the per-record generator multiplied by the signing scalar.
pub open spec fn spec_gamma(sk: Seq<u8>, pid: Seq<u8>, rec: Seq<u8>, name: Seq<u8>) -> Seq<u8> {
    group_mul_of(spec_h(sk, pid, rec, name), sk_sig_of(sk))
}

/// The serial number of a record input: the double-spend nullifier.
pub open spec fn spec_serial_number(sk: Seq<u8>, pid: Seq<u8>, rec: Seq<u8>, name: Seq<u8>) -> Seq<
    u8,
> {
    serial_number_of(spec_gamma(sk, pid, rec, name), spec_commitment(sk, pid, rec, name))
}

/// The tag of a record input: the hash of the tag secret and the commitment.
pub open spec fn spec_tag(sk: Seq<u8>, pid: Seq<u8>, rec: Seq<u8>, name: Seq<u8>) -> Seq<u8> {
    hash_psd2_of(seq![spec_sk_tag(sk), spec_commitment(sk, pid, rec, name)])
}

/// Whether a value has the shape its declared type demands: plaintext for
/// constant, public and private inputs; a record for record and external
/// record inputs.
pub open spec fn spec_shape_ok(ty: ValueTypeView, v: ValueView) -> bool {
    match ty {
        ValueTypeView::Constant => v is Plaintext,
        ValueTypeView::Public => v is Plaintext,
        ValueTypeView::Private => v is Plaintext,
        ValueTypeView::Record(_) => v is Record,
        ValueTypeView::ExternalRecord => v is Record,
    }
}

/// Whether an input passes the per-input policy: the right shape, and for a
/// record input, ownership by the caller.
pub open spec fn spec_input_ok(sk: Seq<u8>, ty: ValueTypeView, v: ValueView) -> bool {
    spec_shape_ok(ty, v) && match ty {
        ValueTypeView::Record(_) => owner_of(payload_of(v)) == spec_caller(sk),
        _ => true,
    }
}

/// Whether a whole signing call passes every check that does not involve a
/// consumed primitive: matching arity, addressable indices, and the
/// per-input policy.
pub open spec fn spec_sign_ok(
    sk: Seq<u8>,
    inputs: Seq<ValueView>,
    types: Seq<ValueTypeView>,
) -> bool {
    &&& inputs.len() == types.len()
    &&& inputs.len() <= MAX_INPUT_INDEX
    &&& forall|i: int| 0 <= i < inputs.len() ==> spec_input_ok(sk, types[i], inputs[i])
}

/// Whether every consumed derivation that signing the input at index `i`
/// performs is delivered, for an input that passes the signing policy.
pub open spec fn spec_input_derivable(
    sk: Seq<u8>,
    pid: Seq<u8>,
    fname: Seq<u8>,
    nonce: Seq<u8>,
    ty: ValueTypeView,
    v: ValueView,
    i: int,
) -> bool {
    spec_input_ok(sk, ty, v) ==> match ty {
        ValueTypeView::Constant => plaintext_encodable(payload_of(v)),
        ValueTypeView::Public => plaintext_encodable(payload_of(v)),
        ValueTypeView::Private => {
            let ivk = hash_psd4_of(
                seq![function_id_of(pid, fname), spec_tvk(sk, nonce), index_bytes(i)],
            );
            encryptable(payload_of(v), ivk) && ciphertext_encodable(
                encrypt_of(payload_of(v), ivk),
            )
        },
        ValueTypeView::Record(name) => {
            let rec = payload_of(v);
            &&& commitment_derivable(rec, pid, name, spec_rvk(sk, rec))
            &&& sn_group_derivable(spec_commitment(sk, pid, rec, name))
            &&& serial_number_derivable(
                spec_gamma(sk, pid, rec, name),
                spec_commitment(sk, pid, rec, name),
            )
        },
        ValueTypeView::ExternalRecord => record_encodable(payload_of(v)),
    }
}

/// Whether every consumed derivation of a whole signing call is delivered:
/// the function id and, input by input, whatever the input's class needs.
/// Success of each consumed primitive is a function of its arguments, so
/// this decides — together with the signing policy — exactly when `sign`
/// succeeds.
pub open spec fn spec_derivable(
    sk: Seq<u8>,
    pid: Seq<u8>,
    fname: Seq<u8>,
    nonce: Seq<u8>,
    types: Seq<ValueTypeView>,
    inputs: Seq<ValueView>,
) -> bool {
    &&& function_id_derivable(pid, fname)
    &&& forall|i: int|
        0 <= i < types.len() ==> spec_input_derivable(
            sk,
            pid,
            fname,
            nonce,
            types[i],
            inputs[i],
            i,
        )
}

/// The identifier derived from the input at index `i`.
pub open spec fn spec_input_id(
    sk: Seq<u8>,
    pid: Seq<u8>,
    fname: Seq<u8>,
    nonce: Seq<u8>,
    ty: ValueTypeView,
    v: ValueView,
    i: int,
) -> InputIDView {
    let fid = function_id_of(pid, fname);
    let tcm = spec_tcm(sk, nonce);
    let tvk = spec_tvk(sk, nonce);
    match ty {
        ValueTypeView::Constant => InputIDView::Constant(
            hash_psd8_of(seq![fid] + value_fields_of(v) + seq![tcm, index_bytes(i)]),
        ),
        ValueTypeView::Public => InputIDView::Public(
            hash_psd8_of(seq![fid] + value_fields_of(v) + seq![tcm, index_bytes(i)]),
        ),
        ValueTypeView::Private => InputIDView::Private(
            hash_psd8_of(
                ciphertext_fields_of(
                    encrypt_of(payload_of(v), hash_psd4_of(seq![fid, tvk, index_bytes(i)])),
                ),
            ),
        ),
        ValueTypeView::Record(name) => InputIDView::Record {
            commitment: spec_commitment(sk, pid, payload_of(v), name),
            gamma: spec_gamma(sk, pid, payload_of(v), name),
            serial_number: spec_serial_number(sk, pid, payload_of(v), name),
            tag: spec_tag(sk, pid, payload_of(v), name),
        },
        ValueTypeView::ExternalRecord => InputIDView::ExternalRecord(
            hash_psd8_of(seq![fid] + value_fields_of(v) + seq![tvk, index_bytes(i)]),
        ),
    }
}

/// What the input at index `i` contributes to the authenticated message.
pub open spec fn spec_input_message(
    sk: Seq<u8>,
    pid: Seq<u8>,
    fname: Seq<u8>,
    nonce: Seq<u8>,
    ty: ValueTypeView,
    v: ValueView,
    i: int,
) -> Seq<Seq<u8>> {
    match ty {
        ValueTypeView::Record(name) => {
            let rec = payload_of(v);
            seq![
                spec_h(sk, pid, rec, name),
                group_mul_of(spec_h(sk, pid, rec, name), spec_tsk(sk, nonce)),
                spec_gamma(sk, pid, rec, name),
                spec_tag(sk, pid, rec, name),
            ]
        },
        _ => match spec_input_id(sk, pid, fname, nonce, ty, v, i) {
            InputIDView::Constant(h) => seq![h],
            InputIDView::Public(h) => seq![h],
            InputIDView::Private(h) => seq![h],
            InputIDView::Record { commitment, gamma, serial_number, tag } => seq![],
            InputIDView::ExternalRecord(h) => seq![h],
        },
    }
}

/// The opening of the authenticated message: the transition public key, the
/// two compute-key anchors and the caller (all as x-coordinates), then the
/// transition view key, the transition commitment, and the function id.
pub open spec fn spec_base_message(
    sk: Seq<u8>,
    pid: Seq<u8>,
    fname: Seq<u8>,
    nonce: Seq<u8>,
) -> Seq<Seq<u8>> {
    seq![
        g_mul_of(spec_tsk(sk, nonce)),
        pk_sig_of(compute_key_of(sk)),
        pr_sig_of(compute_key_of(sk)),
        spec_caller(sk),
        spec_tvk(sk, nonce),
        spec_tcm(sk, nonce),
        function_id_of(pid, fname),
    ]
}

/// The concatenated message contributions of the first `n` inputs, in index
/// order.
pub open spec fn spec_messages(
    sk: Seq<u8>,
    pid: Seq<u8>,
    fname: Seq<u8>,
    nonce: Seq<u8>,
    types: Seq<ValueTypeView>,
    inputs: Seq<ValueView>,
    n: int,
) -> Seq<Seq<u8>>
    decreases n,
{
    if n <= 0 {
        Seq::empty()
    } else {
        spec_messages(sk, pid, fname, nonce, types, inputs, n - 1) + spec_input_message(
            sk,
            pid,
            fname,
            nonce,
            types[n - 1],
            inputs[n - 1],
            n - 1,
        )
    }
}

/// The whole authenticated message of a signing call.
pub open spec fn spec_message(
    sk: Seq<u8>,
    pid: Seq<u8>,
    fname: Seq<u8>,
    nonce: Seq<u8>,
    types: Seq<ValueTypeView>,
    inputs: Seq<ValueView>,
) -> Seq<Seq<u8>> {
    spec_base_message(sk, pid, fname, nonce) + spec_messages(
        sk,
        pid,
        fname,
        nonce,
        types,
        inputs,
        types.len() as int,
    )
}

/// The challenge of a signing call: the hash of the whole message onto the
/// scalar field.
pub open spec fn spec_challenge(
    sk: Seq<u8>,
    pid: Seq<u8>,
    fname: Seq<u8>,
    nonce: Seq<u8>,
    types: Seq<ValueTypeView>,
    inputs: Seq<ValueView>,
) -> Seq<u8> {
    hash_to_scalar_psd8_of(spec_message(sk, pid, fname, nonce, types, inputs))
}

/// The response of a signing call: `r - challenge * sk_sig`.
pub open spec fn spec_response(
    sk: Seq<u8>,
    pid: Seq<u8>,
    fname: Seq<u8>,
    nonce: Seq<u8>,
    types: Seq<ValueTypeView>,
    inputs: Seq<ValueView>,
) -> Seq<u8> {
    scalar_sub_of(
        spec_tsk(sk, nonce),
        scalar_mul_of(spec_challenge(sk, pid, fname, nonce, types, inputs), sk_sig_of(sk)),
    )
}

/// The request a successful signing call returns: every field is a function
/// of the private key, the call being made, the inputs and their types, and
/// the nonce.
pub open spec fn spec_request(
    sk: Seq<u8>,
    pid: Seq<u8>,
    fname: Seq<u8>,
    inputs: Seq<ValueView>,
    types: Seq<ValueTypeView>,
    nonce: Seq<u8>,
) -> RequestView {
    RequestView {
        caller: spec_caller(sk),
        network_id: NETWORK_ID,
        program_id: pid,
        function_name: fname,
        input_ids: Seq::new(
            types.len(),
            |i: int| spec_input_id(sk, pid, fname, nonce, types[i], inputs[i], i),
        ),
        inputs: inputs,
        signature: SignatureView {
            challenge: spec_challenge(sk, pid, fname, nonce, types, inputs),
            response: spec_response(sk, pid, fname, nonce, types, inputs),
            compute_key: compute_key_of(sk),
        },
        sk_tag: spec_sk_tag(sk),
        tvk: spec_tvk(sk, nonce),
        tsk: spec_tsk(sk, nonce),
        tcm: spec_tcm(sk, nonce),
    }
}

impl Request {
    /// Signs a request: derives the transition keys from the private key and
    /// the nonce, classifies every input per its declared type, accumulates
    /// the authenticated message in index order, and closes it with the
    /// Schnorr-style challenge and response.
    ///
    /// The checks that involve no consumed primitive are decided exactly:
    /// an arity mismatch is reported if and only if the counts differ, and
    /// then nothing else is examined; shape and ownership violations are
    /// reported with the first offending index. A `DerivationFailure` is
    /// reported only where a consumed hash or commitment primitive declines
    /// its input.
    pub fn sign(
        private_key: &PrivKey,
        program_id: &ProgId,
        function_name: &Ident,
        inputs: &Vec<Value>,
        input_types: &Vec<ValueType>,
        nonce: &FieldElem,
    ) -> (result: Result<Request, SignError>)
        ensures
            (result is Ok) <==> (spec_sign_ok(
                private_key@,
                views_of_values(inputs@),
                views_of_types(input_types@),
            ) && spec_derivable(
                private_key@,
                program_id@,
                function_name@,
                nonce@,
                views_of_types(input_types@),
                views_of_values(inputs@),
            )),
            (result matches Err(SignError::ArityMismatch { .. })) <==> inputs@.len()
                != input_types@.len(),
            result matches Err(SignError::ArityMismatch { expected, provided }) ==> expected
                == input_types@.len() && provided == inputs@.len(),
            (result matches Err(SignError::TooManyInputs { .. })) <==> (inputs@.len()
                == input_types@.len() && inputs@.len() > MAX_INPUT_INDEX),
            result matches Err(SignError::TooManyInputs { provided }) ==> provided
                == inputs@.len(),
            result matches Ok(req) ==> {
                &&& spec_sign_ok(
                    private_key@,
                    views_of_values(inputs@),
                    views_of_types(input_types@),
                )
                &&& req@ == spec_request(
                    private_key@,
                    program_id@,
                    function_name@,
                    views_of_values(inputs@),
                    views_of_types(input_types@),
                    nonce@,
                )
            },
            result matches Err(SignError::TypeMismatch { index: i, program_id: p, function_name: f }) ==> {
                &&& inputs@.len() == input_types@.len()
                &&& 0 <= i < inputs@.len()
                &&& p@ == program_id@
                &&& f@ == function_name@
                &&& !spec_shape_ok(
                    views_of_types(input_types@)[i as int],
                    views_of_values(inputs@)[i as int],
                )
                &&& forall|j: int|
                    0 <= j < i ==> spec_input_ok(
                        private_key@,
                        views_of_types(input_types@)[j],
                        views_of_values(inputs@)[j],
                    )
            },
            result matches Err(SignError::OwnershipMismatch { index: i, program_id: p, function_name: f }) ==> {
                &&& inputs@.len() == input_types@.len()
                &&& 0 <= i < inputs@.len()
                &&& p@ == program_id@
                &&& f@ == function_name@
                &&& spec_shape_ok(
                    views_of_types(input_types@)[i as int],
                    views_of_values(inputs@)[i as int],
                )
                &&& views_of_types(input_types@)[i as int] is Record
                &&& owner_of(payload_of(views_of_values(inputs@)[i as int])) != spec_caller(
                    private_key@,
                )
                &&& forall|j: int|
                    0 <= j < i ==> spec_input_ok(
                        private_key@,
                        views_of_types(input_types@)[j],
                        views_of_values(inputs@)[j],
                    )
            },
            result matches Err(SignError::DerivationFailure) ==> {
                &&& inputs@.len() == input_types@.len()
                &&& inputs@.len() <= MAX_INPUT_INDEX
                &&& !spec_derivable(
                    private_key@,
                    program_id@,
                    function_name@,
                    nonce@,
                    views_of_types(input_types@),
                    views_of_values(inputs@),
                )
            },
    {
        broadcast use lemma_id_views_index;

        if inputs.len() != input_types.len() {
            return Err(
                SignError::ArityMismatch { expected: input_types.len(), provided: inputs.len() },
            );
        }
        if inputs.len() > MAX_INPUT_INDEX {
            return Err(SignError::TooManyInputs { provided: inputs.len() });
        }

        let ghost sk = private_key@;
        let ghost pid = program_id@;
        let ghost fname = function_name@;
        let ghost nv = nonce@;
        let ghost typevs = views_of_types(input_types@);
        let ghost valuevs = views_of_values(inputs@);

        // Derive the key material and the transition keys.
        let sk_sig = private_key.sk_sig();
        let compute_key = private_key.compute_key();
        let pk_sig = compute_key.pk_sig();
        let pr_sig = compute_key.pr_sig();
        let view_key = private_key.view_key(&compute_key);
        let sk_tag = view_key.sk_tag();
        let tsk = derive_tsk(&sk_sig, nonce);
        let g_r = g_scalar_multiply(&tsk);
        let caller = compute_key.to_address();
        let tvk = caller.to_group().mul(&tsk).to_x_coordinate();
        let mut tcm_preimage: Vec<FieldElem> = Vec::new();
        tcm_preimage.push(tvk);
        let tcm = hash_psd2(&tcm_preimage);
        proof {
            assert(views_of_fields(tcm_preimage@) =~~= seq![tvk@]);
        }
        let fid = match program_id.function_id(function_name) {
            Some(f) => f,
            None => {
                proof {
                    assert(!spec_derivable(sk, pid, fname, nv, typevs, valuevs));
                }
                return Err(SignError::DerivationFailure);
            },
        };

        // Open the authenticated message.
        let x_gr = g_r.to_x_coordinate();
        let x_pk = pk_sig.to_x_coordinate();
        let x_pr = pr_sig.to_x_coordinate();
        let x_caller = caller.to_x_coordinate();
        let mut message: Vec<FieldElem> = Vec::new();
        message.push(x_gr);
        message.push(x_pk);
        message.push(x_pr);
        message.push(x_caller);
        message.push(tvk);
        message.push(tcm);
        message.push(fid);
        proof {
            assert(message@ =~= seq![x_gr, x_pk, x_pr, x_caller, tvk, tcm, fid]);
            assert(views_of_fields(message@) =~~= spec_base_message(sk, pid, fname, nv));
        }

        let mut input_ids: Vec<InputID> = Vec::new();
        let mut prepared: Vec<Value> = Vec::new();
        let mut i: usize = 0;
        while i < inputs.len()
            invariant
                inputs@.len() == input_types@.len(),
                inputs@.len() <= MAX_INPUT_INDEX,
                i <= inputs@.len(),
                typevs == views_of_types(input_types@),
                valuevs == views_of_values(inputs@),
                sk_sig@ == sk_sig_of(sk),
                compute_key@ == compute_key_of(sk),
                sk == private_key@,
                pid == program_id@,
                fname == function_name@,
                nv == nonce@,
                view_key@ == spec_view_key(sk),
                sk_tag@ == spec_sk_tag(sk),
                tsk@ == spec_tsk(sk, nv),
                caller@ == spec_caller(sk),
                tvk@ == spec_tvk(sk, nv),
                tcm@ == spec_tcm(sk, nv),
                fid@ == function_id_of(pid, fname),
                function_id_derivable(pid, fname),
                views_of_fields(message@) == spec_base_message(sk, pid, fname, nv)
                    + spec_messages(sk, pid, fname, nv, typevs, valuevs, i as int),
                input_ids@.len() == i,
                forall|j: int|
                    0 <= j < i ==> #[trigger] input_ids@[j]@ == spec_input_id(
                        sk,
                        pid,
                        fname,
                        nv,
                        typevs[j],
                        valuevs[j],
                        j,
                    ),
                prepared@.len() == i,
                forall|j: int| 0 <= j < i ==> #[trigger] prepared@[j]@ == valuevs[j],
                forall|j: int| 0 <= j < i ==> spec_input_ok(sk, typevs[j], valuevs[j]),
                forall|j: int|
                    0 <= j < i ==> #[trigger] spec_input_derivable(
                        sk,
                        pid,
                        fname,
                        nv,
                        typevs[j],
                        valuevs[j],
                        j,
                    ),
            decreases inputs@.len() - i,
        {
            let ty = &input_types[i];
            let v = &inputs[i];
            let index_field = FieldElem::from_u128(i as u128);
            proof {
                assert(index_field@ == index_bytes(i as int));
                assert(typevs[i as int] == ty@);
                assert(valuevs[i as int] == v@);
            }
            let ghost msg_before = message@;
            match (ty, v) {
                (ValueType::Constant, Value::Plaintext(p)) => {
                    let pfields = match p.to_fields() {
                        Some(fs) => fs,
                        None => {
                            proof {
                                assert(!spec_input_derivable(
                                    sk, pid, fname, nv,
                                    typevs[i as int], valuevs[i as int], i as int,
                                ));
                                assert(!spec_derivable(sk, pid, fname, nv, typevs, valuevs));
                            }
                            return Err(SignError::DerivationFailure);
                        },
                    };
                    let mut preimage: Vec<FieldElem> = Vec::new();
                    preimage.push(fid);
                    push_fields(&mut preimage, &pfields);
                    preimage.push(tcm);
                    preimage.push(index_field);
                    let input_hash = hash_psd8(&preimage);
                    proof {
                        assert(preimage@ =~= seq![fid] + pfields@ + seq![tcm, index_field]);
                        lemma_views_add(seq![fid] + pfields@, seq![tcm, index_field]);
                        lemma_views_add(seq![fid], pfields@);
                        assert(views_of_fields(seq![fid]) =~= seq![fid@]);
                        assert(views_of_fields(seq![tcm, index_field]) =~= seq![
                            tcm@,
                            index_field@,
                        ]);
                        assert(views_of_fields(preimage@) =~= seq![fid@] + value_fields_of(v@)
                            + seq![tcm@, index_bytes(i as int)]);
                    }
                    message.push(input_hash);
                    input_ids.push(InputID::Constant(input_hash));
                },
                (ValueType::Public, Value::Plaintext(p)) => {
                    let pfields = match p.to_fields() {
                        Some(fs) => fs,
                        None => {
                            proof {
                                assert(!spec_input_derivable(
                                    sk, pid, fname, nv,
                                    typevs[i as int], valuevs[i as int], i as int,
                                ));
                                assert(!spec_derivable(sk, pid, fname, nv, typevs, valuevs));
                            }
                            return Err(SignError::DerivationFailure);
                        },
                    };
                    let mut preimage: Vec<FieldElem> = Vec::new();
                    preimage.push(fid);
                    push_fields(&mut preimage, &pfields);
                    preimage.push(tcm);
                    preimage.push(index_field);
                    let input_hash = hash_psd8(&preimage);
                    proof {
                        assert(preimage@ =~= seq![fid] + pfields@ + seq![tcm, index_field]);
                        lemma_views_add(seq![fid] + pfields@, seq![tcm, index_field]);
                        lemma_views_add(seq![fid], pfields@);
                        assert(views_of_fields(seq![fid]) =~= seq![fid@]);
                        assert(views_of_fields(seq![tcm, index_field]) =~= seq![
                            tcm@,
                            index_field@,
                        ]);
                        assert(views_of_fields(preimage@) =~= seq![fid@] + value_fields_of(v@)
                            + seq![tcm@, index_bytes(i as int)]);
                    }
                    message.push(input_hash);
                    input_ids.push(InputID::Public(input_hash));
                },
                (ValueType::Private, Value::Plaintext(p)) => {
                    let mut ivk_preimage: Vec<FieldElem> = Vec::new();
                    ivk_preimage.push(fid);
                    ivk_preimage.push(tvk);
                    ivk_preimage.push(index_field);
                    let input_view_key = hash_psd4(&ivk_preimage);
                    proof {
                        assert(views_of_fields(ivk_preimage@) =~~= seq![
                            fid@,
                            tvk@,
                            index_field@,
                        ]);
                    }
                    let ciphertext = match p.encrypt(&input_view_key) {
                        Some(c) => c,
                        None => {
                            proof {
                                assert(!spec_input_derivable(
                                    sk, pid, fname, nv,
                                    typevs[i as int], valuevs[i as int], i as int,
                                ));
                                assert(!spec_derivable(sk, pid, fname, nv, typevs, valuevs));
                            }
                            return Err(SignError::DerivationFailure);
                        },
                    };
                    let ct_fields = match ciphertext.to_fields() {
                        Some(fs) => fs,
                        None => {
                            proof {
                                assert(!spec_input_derivable(
                                    sk, pid, fname, nv,
                                    typevs[i as int], valuevs[i as int], i as int,
                                ));
                                assert(!spec_derivable(sk, pid, fname, nv, typevs, valuevs));
                            }
                            return Err(SignError::DerivationFailure);
                        },
                    };
                    let input_hash = hash_psd8(&ct_fields);
                    message.push(input_hash);
                    input_ids.push(InputID::Private(input_hash));
                },
                (ValueType::Record(record_name), Value::Record(rec)) => {
                    let owner = rec.owner();
                    if !owner.equals(&caller) {
                        proof {
                            assert(!spec_input_ok(sk, typevs[i as int], valuevs[i as int]));
                            assert(!spec_sign_ok(sk, valuevs, typevs));
                        }
                        return Err(
                            SignError::OwnershipMismatch {
                                index: i,
                                program_id: program_id.duplicate(),
                                function_name: function_name.duplicate(),
                            },
                        );
                    }
                    let rvk = rec.nonce().mul(&view_key.to_scalar()).to_x_coordinate();
                    let commitment = match rec.to_commitment(program_id, record_name, &rvk) {
                        Some(c) => c,
                        None => {
                            proof {
                                assert(rvk@ == spec_rvk(sk, payload_of(v@)));
                                assert(!spec_input_derivable(
                                    sk, pid, fname, nv,
                                    typevs[i as int], valuevs[i as int], i as int,
                                ));
                                assert(!spec_derivable(sk, pid, fname, nv, typevs, valuevs));
                            }
                            return Err(SignError::DerivationFailure);
                        },
                    };
                    let h = match hash_to_group_sn(&commitment) {
                        Some(g) => g,
                        None => {
                            proof {
                                assert(commitment@ == spec_commitment(
                                    sk, pid, payload_of(v@), record_name@,
                                ));
                                assert(!spec_input_derivable(
                                    sk, pid, fname, nv,
                                    typevs[i as int], valuevs[i as int], i as int,
                                ));
                                assert(!spec_derivable(sk, pid, fname, nv, typevs, valuevs));
                            }
                            return Err(SignError::DerivationFailure);
                        },
                    };
                    let h_r = h.mul(&tsk);
                    let gamma = h.mul(&sk_sig);
                    let serial_number = match serial_number_from_gamma(&gamma, &commitment) {
                        Some(s) => s,
                        None => {
                            proof {
                                assert(gamma@ == spec_gamma(sk, pid, payload_of(v@), record_name@));
                                assert(!spec_input_derivable(
                                    sk, pid, fname, nv,
                                    typevs[i as int], valuevs[i as int], i as int,
                                ));
                                assert(!spec_derivable(sk, pid, fname, nv, typevs, valuevs));
                            }
                            return Err(SignError::DerivationFailure);
                        },
                    };
                    let mut tag_preimage: Vec<FieldElem> = Vec::new();
                    tag_preimage.push(sk_tag);
                    tag_preimage.push(commitment);
                    let tag = hash_psd2(&tag_preimage);
                    proof {
                        assert(views_of_fields(tag_preimage@) =~~= seq![
                            sk_tag@,
                            commitment@,
                        ]);
                        assert(commitment@ == spec_commitment(sk, pid, payload_of(v@), record_name@));
                        assert(gamma@ == spec_gamma(sk, pid, payload_of(v@), record_name@));
                        assert(tag@ == spec_tag(sk, pid, payload_of(v@), record_name@));
                    }
                    message.push(h.to_x_coordinate());
                    message.push(h_r.to_x_coordinate());
                    message.push(gamma.to_x_coordinate());
                    message.push(tag);
                    input_ids.push(
                        InputID::Record { commitment, gamma, serial_number, tag },
                    );
                },
                (ValueType::ExternalRecord, Value::Record(rec)) => {
                    let rfields = match rec.to_fields() {
                        Some(fs) => fs,
                        None => {
                            proof {
                                assert(!spec_input_derivable(
                                    sk, pid, fname, nv,
                                    typevs[i as int], valuevs[i as int], i as int,
                                ));
                                assert(!spec_derivable(sk, pid, fname, nv, typevs, valuevs));
                            }
                            return Err(SignError::DerivationFailure);
                        },
                    };
                    let mut preimage: Vec<FieldElem> = Vec::new();
                    preimage.push(fid);
                    push_fields(&mut preimage, &rfields);
                    preimage.push(tvk);
                    preimage.push(index_field);
                    let input_hash = hash_psd8(&preimage);
                    proof {
                        assert(preimage@ =~= seq![fid] + rfields@ + seq![tvk, index_field]);
                        lemma_views_add(seq![fid] + rfields@, seq![tvk, index_field]);
                        lemma_views_add(seq![fid], rfields@);
                        assert(views_of_fields(seq![fid]) =~= seq![fid@]);
                        assert(views_of_fields(seq![tvk, index_field]) =~= seq![
                            tvk@,
                            index_field@,
                        ]);
                        assert(views_of_fields(preimage@) =~= seq![fid@] + value_fields_of(v@)
                            + seq![tvk@, index_bytes(i as int)]);
                    }
                    message.push(input_hash);
                    input_ids.push(InputID::ExternalRecord(input_hash));
                },
                _ => {
                    proof {
                        assert(!spec_shape_ok(typevs[i as int], valuevs[i as int]));
                        assert(!spec_sign_ok(sk, valuevs, typevs));
                    }
                    return Err(
                        SignError::TypeMismatch {
                            index: i,
                            program_id: program_id.duplicate(),
                            function_name: function_name.duplicate(),
                        },
                    );
                },
            }
            prepared.push(v.duplicate());
            proof {
                assert(spec_input_derivable(
                    sk,
                    pid,
                    fname,
                    nv,
                    typevs[i as int],
                    valuevs[i as int],
                    i as int,
                ));
                assert(input_ids@[i as int]@ == spec_input_id(
                    sk,
                    pid,
                    fname,
                    nv,
                    typevs[i as int],
                    valuevs[i as int],
                    i as int,
                ));
                assert(views_of_fields(message@) =~= msg_before.map_values(|f: FieldElem| f@)
                    + spec_input_message(
                    sk,
                    pid,
                    fname,
                    nv,
                    typevs[i as int],
                    valuevs[i as int],
                    i as int,
                ));
                assert(views_of_fields(message@) == spec_base_message(sk, pid, fname, nv)
                    + spec_messages(sk, pid, fname, nv, typevs, valuevs, i + 1));
            }
            i += 1;
        }

        // Close the message with the challenge and the response.
        let challenge = hash_to_scalar_psd8(&message);
        let response = tsk.sub(&challenge.mul(&sk_sig));

        let req = Request {
            caller,
            network_id: NETWORK_ID,
            program_id: program_id.duplicate(),
            function_name: function_name.duplicate(),
            input_ids,
            inputs: prepared,
            signature: Signature { challenge, response, compute_key },
            sk_tag,
            tvk,
            tsk,
            tcm,
        };
        proof {
            assert(views_of_ids(req.input_ids@) =~= spec_request(
                sk,
                pid,
                fname,
                valuevs,
                typevs,
                nv,
            ).input_ids);
            assert(views_of_values(req.inputs@) =~= valuevs);
            assert(req@ == spec_request(sk, pid, fname, valuevs, typevs, nv));
            assert(spec_derivable(sk, pid, fname, nv, typevs, valuevs));
        }
        Ok(req)
    }
}


/// Whether a request is exactly what the signing model produces for a
/// private key and nonce, over inputs that pass every signing-policy check.
pub open spec fn spec_signed(
    sk: Seq<u8>,
    nonce: Seq<u8>,
    r: RequestView,
    types: Seq<ValueTypeView>,
) -> bool {
    &&& spec_sign_ok(sk, r.inputs, types)
    &&& r == spec_request(sk, r.program_id, r.function_name, r.inputs, types, nonce)
}

/// Whether the identifier and value at index `i` pass the verifier's
/// per-input checks against the request's public data.
pub open spec fn spec_verifier_input_ok(r: RequestView, types: Seq<ValueTypeView>, i: int) -> bool {
    let fid = function_id_of(r.program_id, r.function_name);
    let ty = types[i];
    let v = r.inputs[i];
    let id = r.input_ids[i];
    match ty {
        ValueTypeView::Constant => id matches InputIDView::Constant(h) && v is Plaintext && h
            == hash_psd8_of(seq![fid] + value_fields_of(v) + seq![r.tcm, index_bytes(i)]),
        ValueTypeView::Public => id matches InputIDView::Public(h) && v is Plaintext && h
            == hash_psd8_of(seq![fid] + value_fields_of(v) + seq![r.tcm, index_bytes(i)]),
        ValueTypeView::Private => id matches InputIDView::Private(h) && v is Plaintext && h
            == hash_psd8_of(
            ciphertext_fields_of(
                encrypt_of(payload_of(v), hash_psd4_of(seq![fid, r.tvk, index_bytes(i)])),
            ),
        ),
        ValueTypeView::Record(name) => id matches InputIDView::Record {
            commitment,
            gamma,
            serial_number,
            tag,
        } && v is Record && owner_of(payload_of(v)) == r.caller && serial_number
            == serial_number_of(gamma, commitment) && tag == hash_psd2_of(
            seq![r.sk_tag, commitment],
        ),
        ValueTypeView::ExternalRecord => id matches InputIDView::ExternalRecord(h) && v is Record
            && h == hash_psd8_of(seq![fid] + value_fields_of(v) + seq![r.tvk, index_bytes(i)]),
    }
}

/// What the identifier at index `i` contributes to the message the verifier
/// rebuilds. For a record, the `r * H` element is recovered from the
/// signature by the standard Schnorr relation.
pub open spec fn spec_verifier_input_message(
    r: RequestView,
    types: Seq<ValueTypeView>,
    i: int,
) -> Seq<Seq<u8>> {
    match (types[i], r.input_ids[i]) {
        (
            ValueTypeView::Record(_),
            InputIDView::Record { commitment, gamma, serial_number: _, tag },
        ) => seq![
            sn_group_of(commitment),
            group_add_of(
                group_mul_of(gamma, r.signature.challenge),
                group_mul_of(sn_group_of(commitment), r.signature.response),
            ),
            gamma,
            tag,
        ],
        _ => match r.input_ids[i] {
            InputIDView::Constant(h) => seq![h],
            InputIDView::Public(h) => seq![h],
            InputIDView::Private(h) => seq![h],
            InputIDView::Record { .. } => seq![],
            InputIDView::ExternalRecord(h) => seq![h],
        },
    }
}

/// The opening of the message the verifier rebuilds: the transition public
/// key is recovered from the signature as `response * G + challenge *
/// pk_sig`.
pub open spec fn spec_verifier_base(r: RequestView) -> Seq<Seq<u8>> {
    seq![
        group_add_of(
            g_mul_of(r.signature.response),
            group_mul_of(pk_sig_of(r.signature.compute_key), r.signature.challenge),
        ),
        pk_sig_of(r.signature.compute_key),
        pr_sig_of(r.signature.compute_key),
        r.caller,
        r.tvk,
        r.tcm,
        function_id_of(r.program_id, r.function_name),
    ]
}

/// The concatenated verifier-side contributions of the first `n` inputs.
pub open spec fn spec_verifier_messages(r: RequestView, types: Seq<ValueTypeView>, n: int) -> Seq<
    Seq<u8>,
>
    decreases n,
{
    if n <= 0 {
        Seq::empty()
    } else {
        spec_verifier_messages(r, types, n - 1) + spec_verifier_input_message(r, types, n - 1)
    }
}

/// What the verifier decides about a request from its public data: the
/// transition commitment, the caller, every per-input identifier, and the
/// recomputed challenge must all check out.
pub open spec fn spec_verify(r: RequestView, types: Seq<ValueTypeView>) -> bool {
    &&& r.input_ids.len() == types.len()
    &&& r.inputs.len() == types.len()
    &&& r.tcm == hash_psd2_of(seq![r.tvk])
    &&& r.caller == address_of(r.signature.compute_key)
    &&& forall|i: int| 0 <= i < types.len() ==> spec_verifier_input_ok(r, types, i)
    &&& r.signature.challenge == hash_to_scalar_psd8_of(
        spec_verifier_base(r) + spec_verifier_messages(r, types, types.len() as int),
    )
}


/// Whether the verifier's recomputation of the input at index `i` is
/// delivered, for the identifier and value the request carries. Everything
/// else the verifier does is a comparison, so this decides — together with
/// the function id — exactly when verification completes.
pub open spec fn spec_input_checkable(r: RequestView, types: Seq<ValueTypeView>, i: int) -> bool {
    let v = r.inputs[i];
    match (types[i], r.input_ids[i]) {
        (ValueTypeView::Constant, InputIDView::Constant(_)) => v is Plaintext
            ==> plaintext_encodable(payload_of(v)),
        (ValueTypeView::Public, InputIDView::Public(_)) => v is Plaintext ==> plaintext_encodable(
            payload_of(v),
        ),
        (ValueTypeView::Private, InputIDView::Private(_)) => v is Plaintext ==> {
            let ivk = hash_psd4_of(
                seq![
                    function_id_of(r.program_id, r.function_name),
                    r.tvk,
                    index_bytes(i),
                ],
            );
            encryptable(payload_of(v), ivk) && ciphertext_encodable(
                encrypt_of(payload_of(v), ivk),
            )
        },
        (ValueTypeView::Record(_), InputIDView::Record { commitment, gamma, .. }) => {
            &&& serial_number_derivable(gamma, commitment)
            &&& sn_group_derivable(commitment)
        },
        (ValueTypeView::ExternalRecord, InputIDView::ExternalRecord(_)) => v is Record
            ==> record_encodable(payload_of(v)),
        _ => true,
    }
}

/// Whether verification of a request against the declared types completes:
/// the function id and, input by input, whatever the verifier recomputes
/// are all delivered.
pub open spec fn spec_checkable(r: RequestView, types: Seq<ValueTypeView>) -> bool {
    &&& function_id_derivable(r.program_id, r.function_name)
    &&& forall|i: int| 0 <= i < types.len() ==> spec_input_checkable(r, types, i)
}

/// For a signed request, every per-input check of the verifier holds.
proof fn lemma_signed_verifier_ok(
    r: RequestView,
    types: Seq<ValueTypeView>,
    sk: Seq<u8>,
    nonce: Seq<u8>,
    j: int,
)
    requires
        spec_signed(sk, nonce, r, types),
        0 <= j < types.len(),
    ensures
        spec_verifier_input_ok(r, types, j),
{
    assert(r.input_ids[j] == spec_input_id(
        sk,
        r.program_id,
        r.function_name,
        nonce,
        types[j],
        r.inputs[j],
        j,
    ));
    assert(spec_input_ok(sk, types[j], r.inputs[j]));
}

/// Law: completion of the round trip — a request that passes the signing
/// policy and whose derivations are delivered is also checkable, so the
/// verifier completes on it; with `verify`'s round-trip clause this owes
/// the whole trip: signing succeeds and verification returns true.
pub proof fn lemma_signed_checkable(
    sk: Seq<u8>,
    pid: Seq<u8>,
    fname: Seq<u8>,
    inputs: Seq<ValueView>,
    types: Seq<ValueTypeView>,
    nonce: Seq<u8>,
)
    requires
        spec_sign_ok(sk, inputs, types),
        spec_derivable(sk, pid, fname, nonce, types, inputs),
    ensures
        spec_checkable(spec_request(sk, pid, fname, inputs, types, nonce), types),
{
    let r = spec_request(sk, pid, fname, inputs, types, nonce);
    assert forall|i: int| 0 <= i < types.len() implies spec_input_checkable(r, types, i) by {
        assert(r.input_ids[i] == spec_input_id(sk, pid, fname, nonce, types[i], inputs[i], i));
        assert(spec_input_ok(sk, types[i], inputs[i]));
        assert(spec_input_derivable(sk, pid, fname, nonce, types[i], inputs[i], i));
    }
}

/// Whether the round-trip relation holds of the input at index `j`: for
/// every key and nonce this request could have been signed with, the
/// verifier's rebuilt contribution equals the signer's.
pub open spec fn spec_rt_input(r: RequestView, types: Seq<ValueTypeView>, j: int) -> bool {
    forall|sk: Seq<u8>, nonce: Seq<u8>|
        #[trigger] spec_signed(sk, nonce, r, types) ==> spec_verifier_input_message(r, types, j)
            == spec_input_message(sk, r.program_id, r.function_name, nonce, types[j], r.inputs[j], j)
}

/// For a signed request whose per-input round-trip relations hold, the
/// verifier's rebuilt contributions equal the signer's, prefix by prefix.
proof fn lemma_messages_equal(
    r: RequestView,
    types: Seq<ValueTypeView>,
    sk: Seq<u8>,
    nonce: Seq<u8>,
    n: int,
)
    requires
        0 <= n <= types.len(),
        types.len() == r.inputs.len(),
        forall|j: int| 0 <= j < n ==> #[trigger] spec_rt_input(r, types, j),
        spec_signed(sk, nonce, r, types),
    ensures
        spec_verifier_messages(r, types, n) == spec_messages(
            sk,
            r.program_id,
            r.function_name,
            nonce,
            types,
            r.inputs,
            n,
        ),
    decreases n,
{
    if n > 0 {
        lemma_messages_equal(r, types, sk, nonce, n - 1);
        assert(spec_rt_input(r, types, n - 1));
        assert(spec_signed(sk, nonce, r, types));
    }
}

impl Request {
    /// Verifies the request against the declared input types, from its
    /// public data alone: recomputes the transition commitment, rebuilds the
    /// authenticated message from the input identifiers and values — with
    /// the transition public key and each record's `r * H` element recovered
    /// from the signature by the standard Schnorr relation — and checks the
    /// recomputed challenge, the caller, and every identifier. Returns
    /// `None` exactly where, with matching arities, some recomputation is
    /// not delivered.
    ///
    /// The last clause is the verifiability round trip: whatever key and
    /// nonce a request was signed with, if verification completes it
    /// succeeds.
    pub fn verify(&self, input_types: &Vec<ValueType>) -> (result: Option<bool>)
        ensures
            result matches Some(b) ==> b == spec_verify(self@, views_of_types(input_types@)),
            (result is None) <==> (self@.input_ids.len() == input_types@.len()
                && self@.inputs.len() == input_types@.len() && !spec_checkable(
                self@,
                views_of_types(input_types@),
            )),
            result matches Some(b) ==> forall|sk: Seq<u8>, nonce: Seq<u8>|
                #[trigger] spec_signed(sk, nonce, self@, views_of_types(input_types@)) ==> b,
    {
        broadcast use lemma_id_views_index;

        let ghost rv = self@;
        let ghost typevs = views_of_types(input_types@);

        if self.input_ids.len() != input_types.len() || self.inputs.len() != input_types.len() {
            proof {
                assert forall|sk: Seq<u8>, nonce: Seq<u8>|
                    #[trigger] spec_signed(sk, nonce, rv, typevs) implies false by {
                    assert(rv.inputs.len() == typevs.len());
                    assert(rv.input_ids.len() == typevs.len());
                }
            }
            return Some(false);
        }
        let challenge = self.signature.challenge;
        let response = self.signature.response;
        let compute_key = self.signature.compute_key;

        // The function id decides completion, along with the per-input
        // recomputations; everything else is a comparison.
        let fid = match self.program_id.function_id(&self.function_name) {
            Some(f) => f,
            None => {
                proof {
                    assert(!spec_checkable(rv, typevs));
                }
                return None;
            },
        };

        // The transition commitment must be the hash of the view key, and
        // the caller must be the address of the signature's compute key.
        let mut ok = true;
        let mut tcm_preimage: Vec<FieldElem> = Vec::new();
        tcm_preimage.push(self.tvk);
        let tcm_candidate = hash_psd2(&tcm_preimage);
        proof {
            assert(views_of_fields(tcm_preimage@) =~~= seq![rv.tvk]);
        }
        if !tcm_candidate.equals(&self.tcm) {
            ok = false;
        }
        let pk_sig = compute_key.pk_sig();
        let pr_sig = compute_key.pr_sig();
        let addr = compute_key.to_address();
        if !addr.equals(&self.caller) {
            ok = false;
        }

        // Recover the transition public key from the signature.
        let resp_g = g_scalar_multiply(&response);
        let pk_challenge = pk_sig.mul(&challenge);
        let g_r = resp_g.add(&pk_challenge);

        let x_gr = g_r.to_x_coordinate();
        let x_pk = pk_sig.to_x_coordinate();
        let x_pr = pr_sig.to_x_coordinate();
        let x_caller = self.caller.to_x_coordinate();
        let mut message: Vec<FieldElem> = Vec::new();
        message.push(x_gr);
        message.push(x_pk);
        message.push(x_pr);
        message.push(x_caller);
        message.push(self.tvk);
        message.push(self.tcm);
        message.push(fid);
        proof {
            assert(message@ =~= seq![x_gr, x_pk, x_pr, x_caller, self.tvk, self.tcm, fid]);
            assert(views_of_fields(message@) =~~= spec_verifier_base(rv));
        }

        let mut i: usize = 0;
        while i < input_types.len()
            invariant
                self.input_ids@.len() == input_types@.len(),
                self.inputs@.len() == input_types@.len(),
                i <= input_types@.len(),
                rv == self@,
                typevs == views_of_types(input_types@),
                typevs.len() == input_types@.len(),
                challenge@ == rv.signature.challenge,
                response@ == rv.signature.response,
                compute_key@ == rv.signature.compute_key,
                fid@ == function_id_of(rv.program_id, rv.function_name),
                function_id_derivable(rv.program_id, rv.function_name),
                ok == (rv.tcm == hash_psd2_of(seq![rv.tvk]) && rv.caller == address_of(
                    rv.signature.compute_key,
                ) && (forall|j: int| 0 <= j < i ==> spec_verifier_input_ok(rv, typevs, j))),
                views_of_fields(message@) == spec_verifier_base(rv) + spec_verifier_messages(
                    rv,
                    typevs,
                    i as int,
                ),
                forall|j: int| 0 <= j < i ==> #[trigger] spec_rt_input(rv, typevs, j),
                forall|j: int| 0 <= j < i ==> #[trigger] spec_input_checkable(rv, typevs, j),
            decreases input_types@.len() - i,
        {
            let ty = &input_types[i];
            let id = &self.input_ids[i];
            let v = &self.inputs[i];
            let index_field = FieldElem::from_u128(i as u128);
            proof {
                assert(index_field@ == index_bytes(i as int));
                assert(typevs[i as int] == ty@);
                assert(rv.inputs[i as int] == v@);
                assert(rv.input_ids[i as int] == id@);
            }
            let ghost msg_before = message@;
            let mut input_ok = true;
            match (ty, id) {
                (ValueType::Constant, InputID::Constant(h)) => {
                    match v {
                        Value::Plaintext(p) => {
                            let pfields = match p.to_fields() {
                                Some(fs) => fs,
                                None => {
                                    proof {
                                        assert(!spec_input_checkable(rv, typevs, i as int));
                                        assert(!spec_checkable(rv, typevs));
                                    }
                                    return None;
                                },
                            };
                            let mut preimage: Vec<FieldElem> = Vec::new();
                            preimage.push(fid);
                            push_fields(&mut preimage, &pfields);
                            preimage.push(self.tcm);
                            preimage.push(index_field);
                            let candidate = hash_psd8(&preimage);
                            proof {
                                assert(preimage@ =~= seq![fid] + pfields@ + seq![
                                    self.tcm,
                                    index_field,
                                ]);
                                lemma_views_add(seq![fid] + pfields@, seq![self.tcm, index_field]);
                                lemma_views_add(seq![fid], pfields@);
                                assert(views_of_fields(seq![fid]) =~~= seq![fid@]);
                                assert(views_of_fields(seq![self.tcm, index_field]) =~~= seq![
                                    rv.tcm,
                                    index_field@,
                                ]);
                                assert(candidate@ == hash_psd8_of(
                                    seq![fid@] + value_fields_of(v@) + seq![
                                        rv.tcm,
                                        index_bytes(i as int),
                                    ],
                                ));
                            }
                            if !candidate.equals(h) {
                                input_ok = false;
                            }
                        },
                        _ => {
                            input_ok = false;
                        },
                    }
                    message.push(*h);
                },
                (ValueType::Public, InputID::Public(h)) => {
                    match v {
                        Value::Plaintext(p) => {
                            let pfields = match p.to_fields() {
                                Some(fs) => fs,
                                None => {
                                    proof {
                                        assert(!spec_input_checkable(rv, typevs, i as int));
                                        assert(!spec_checkable(rv, typevs));
                                    }
                                    return None;
                                },
                            };
                            let mut preimage: Vec<FieldElem> = Vec::new();
                            preimage.push(fid);
                            push_fields(&mut preimage, &pfields);
                            preimage.push(self.tcm);
                            preimage.push(index_field);
                            let candidate = hash_psd8(&preimage);
                            proof {
                                assert(preimage@ =~= seq![fid] + pfields@ + seq![
                                    self.tcm,
                                    index_field,
                                ]);
                                lemma_views_add(seq![fid] + pfields@, seq![self.tcm, index_field]);
                                lemma_views_add(seq![fid], pfields@);
                                assert(views_of_fields(seq![fid]) =~~= seq![fid@]);
                                assert(views_of_fields(seq![self.tcm, index_field]) =~~= seq![
                                    rv.tcm,
                                    index_field@,
                                ]);
                                assert(candidate@ == hash_psd8_of(
                                    seq![fid@] + value_fields_of(v@) + seq![
                                        rv.tcm,
                                        index_bytes(i as int),
                                    ],
                                ));
                            }
                            if !candidate.equals(h) {
                                input_ok = false;
                            }
                        },
                        _ => {
                            input_ok = false;
                        },
                    }
                    message.push(*h);
                },
                (ValueType::Private, InputID::Private(h)) => {
                    match v {
                        Value::Plaintext(p) => {
                            let mut ivk_preimage: Vec<FieldElem> = Vec::new();
                            ivk_preimage.push(fid);
                            ivk_preimage.push(self.tvk);
                            ivk_preimage.push(index_field);
                            let input_view_key = hash_psd4(&ivk_preimage);
                            proof {
                                assert(views_of_fields(ivk_preimage@) =~~= seq![
                                    fid@,
                                    rv.tvk,
                                    index_field@,
                                ]);
                            }
                            let ciphertext = match p.encrypt(&input_view_key) {
                                Some(c) => c,
                                None => {
                                    proof {
                                        assert(!spec_input_checkable(rv, typevs, i as int));
                                        assert(!spec_checkable(rv, typevs));
                                    }
                                    return None;
                                },
                            };
                            let ct_fields = match ciphertext.to_fields() {
                                Some(fs) => fs,
                                None => {
                                    proof {
                                        assert(!spec_input_checkable(rv, typevs, i as int));
                                        assert(!spec_checkable(rv, typevs));
                                    }
                                    return None;
                                },
                            };
                            let candidate = hash_psd8(&ct_fields);
                            if !candidate.equals(h) {
                                input_ok = false;
                            }
                        },
                        _ => {
                            input_ok = false;
                        },
                    }
                    message.push(*h);
                },
                (
                    ValueType::Record(record_name),
                    InputID::Record { commitment, gamma, serial_number, tag },
                ) => {
                    let sn_candidate = match serial_number_from_gamma(gamma, commitment) {
                        Some(s) => s,
                        None => {
                            proof {
                                assert(!spec_input_checkable(rv, typevs, i as int));
                                assert(!spec_checkable(rv, typevs));
                            }
                            return None;
                        },
                    };
                    let h = match hash_to_group_sn(commitment) {
                        Some(g) => g,
                        None => {
                            proof {
                                assert(!spec_input_checkable(rv, typevs, i as int));
                                assert(!spec_checkable(rv, typevs));
                            }
                            return None;
                        },
                    };
                    match v {
                        Value::Record(rec) => {
                            if !rec.owner().equals(&self.caller) {
                                input_ok = false;
                            }
                        },
                        _ => {
                            input_ok = false;
                        },
                    }
                    if !sn_candidate.equals(serial_number) {
                        input_ok = false;
                    }
                    let mut tag_preimage: Vec<FieldElem> = Vec::new();
                    tag_preimage.push(self.sk_tag);
                    tag_preimage.push(*commitment);
                    let tag_candidate = hash_psd2(&tag_preimage);
                    proof {
                        assert(views_of_fields(tag_preimage@) =~~= seq![rv.sk_tag, commitment@]);
                    }
                    if !tag_candidate.equals(tag) {
                        input_ok = false;
                    }
                    let gamma_challenge = gamma.mul(&challenge);
                    let h_response = h.mul(&response);
                    let h_r = gamma_challenge.add(&h_response);
                    message.push(h.to_x_coordinate());
                    message.push(h_r.to_x_coordinate());
                    message.push(gamma.to_x_coordinate());
                    message.push(*tag);
                    proof {
                        assert forall|sk: Seq<u8>, nonce: Seq<u8>|
                            #[trigger] spec_signed(sk, nonce, rv, typevs) implies
                            spec_verifier_input_message(rv, typevs, i as int) == spec_input_message(
                            sk,
                            rv.program_id,
                            rv.function_name,
                            nonce,
                            typevs[i as int],
                            rv.inputs[i as int],
                            i as int,
                        ) by {
                            let rec_bytes = payload_of(rv.inputs[i as int]);
                            let name = record_name@;
                            assert(rv.input_ids[i as int] == spec_input_id(
                                sk,
                                rv.program_id,
                                rv.function_name,
                                nonce,
                                typevs[i as int],
                                rv.inputs[i as int],
                                i as int,
                            ));
                            assert(commitment@ == spec_commitment(
                                sk,
                                rv.program_id,
                                rec_bytes,
                                name,
                            ));
                            assert(gamma@ == spec_gamma(sk, rv.program_id, rec_bytes, name));
                            assert(h@ == sn_group_of(commitment@));
                            assert(rv.signature.response == scalar_sub_of(
                                spec_tsk(sk, nonce),
                                scalar_mul_of(rv.signature.challenge, sk_sig_of(sk)),
                            ));
                            assert(h_response@ == group_mul_of(
                                h@,
                                scalar_sub_of(
                                    spec_tsk(sk, nonce),
                                    scalar_mul_of(challenge@, sk_sig_of(sk)),
                                ),
                            ));
                            assert(gamma_challenge@ == group_mul_of(
                                group_mul_of(h@, sk_sig_of(sk)),
                                challenge@,
                            ));
                            assert(h_r@ == group_mul_of(h@, spec_tsk(sk, nonce)));
                        }
                    }
                },
                (ValueType::ExternalRecord, InputID::ExternalRecord(h)) => {
                    match v {
                        Value::Record(rec) => {
                            let rfields = match rec.to_fields() {
                                Some(fs) => fs,
                                None => {
                                    proof {
                                        assert(!spec_input_checkable(rv, typevs, i as int));
                                        assert(!spec_checkable(rv, typevs));
                                    }
                                    return None;
                                },
                            };
                            let mut preimage: Vec<FieldElem> = Vec::new();
                            preimage.push(fid);
                            push_fields(&mut preimage, &rfields);
                            preimage.push(self.tvk);
                            preimage.push(index_field);
                            let candidate = hash_psd8(&preimage);
                            proof {
                                assert(preimage@ =~= seq![fid] + rfields@ + seq![
                                    self.tvk,
                                    index_field,
                                ]);
                                lemma_views_add(seq![fid] + rfields@, seq![self.tvk, index_field]);
                                lemma_views_add(seq![fid], rfields@);
                                assert(views_of_fields(seq![fid]) =~~= seq![fid@]);
                                assert(views_of_fields(seq![self.tvk, index_field]) =~~= seq![
                                    rv.tvk,
                                    index_field@,
                                ]);
                                assert(candidate@ == hash_psd8_of(
                                    seq![fid@] + value_fields_of(v@) + seq![
                                        rv.tvk,
                                        index_bytes(i as int),
                                    ],
                                ));
                            }
                            if !candidate.equals(h) {
                                input_ok = false;
                            }
                        },
                        _ => {
                            input_ok = false;
                        },
                    }
                    message.push(*h);
                },
                _ => {
                    input_ok = false;
                    match id {
                        InputID::Constant(h) => message.push(*h),
                        InputID::Public(h) => message.push(*h),
                        InputID::Private(h) => message.push(*h),
                        InputID::Record { .. } => {},
                        InputID::ExternalRecord(h) => message.push(*h),
                    }
                },
            }
            if !input_ok {
                ok = false;
            }
            proof {
                assert(input_ok == spec_verifier_input_ok(rv, typevs, i as int));
                assert(spec_input_checkable(rv, typevs, i as int));
                assert forall|sk: Seq<u8>, nonce: Seq<u8>|
                    #[trigger] spec_signed(sk, nonce, rv, typevs) implies
                    spec_verifier_input_message(rv, typevs, i as int) == spec_input_message(
                    sk,
                    rv.program_id,
                    rv.function_name,
                    nonce,
                    typevs[i as int],
                    rv.inputs[i as int],
                    i as int,
                ) by {
                    assert(rv.input_ids[i as int] == spec_input_id(
                        sk,
                        rv.program_id,
                        rv.function_name,
                        nonce,
                        typevs[i as int],
                        rv.inputs[i as int],
                        i as int,
                    ));
                }
                assert(spec_rt_input(rv, typevs, i as int));
                assert(views_of_fields(message@) =~~= msg_before.map_values(|f: FieldElem| f@)
                    + spec_verifier_input_message(rv, typevs, i as int));
                assert(views_of_fields(message@) == spec_verifier_base(rv)
                    + spec_verifier_messages(rv, typevs, i + 1));
            }
            i += 1;
        }

        let challenge_candidate = hash_to_scalar_psd8(&message);
        let challenge_ok = challenge_candidate.equals(&challenge);
        let valid = ok && challenge_ok;
        proof {
            assert(challenge_candidate@ == hash_to_scalar_psd8_of(
                spec_verifier_base(rv) + spec_verifier_messages(rv, typevs, typevs.len() as int),
            ));
            assert(valid == spec_verify(rv, typevs));
            assert(spec_checkable(rv, typevs));
            assert forall|sk: Seq<u8>, nonce: Seq<u8>|
                #[trigger] spec_signed(sk, nonce, rv, typevs) implies valid by {
                assert forall|j: int| 0 <= j < typevs.len() implies spec_verifier_input_ok(
                    rv,
                    typevs,
                    j,
                ) by {
                    lemma_signed_verifier_ok(rv, typevs, sk, nonce, j);
                }
                assert(rv.signature.response == scalar_sub_of(
                    spec_tsk(sk, nonce),
                    scalar_mul_of(rv.signature.challenge, sk_sig_of(sk)),
                ));
                assert(resp_g@ == g_mul_of(
                    scalar_sub_of(
                        spec_tsk(sk, nonce),
                        scalar_mul_of(challenge@, sk_sig_of(sk)),
                    ),
                ));
                assert(rv.signature.compute_key == compute_key_of(sk));
                assert(pk_sig@ == g_mul_of(sk_sig_of(sk)));
                assert(pk_challenge@ == group_mul_of(g_mul_of(sk_sig_of(sk)), challenge@));
                assert(g_r@ == g_mul_of(spec_tsk(sk, nonce)));
                assert(spec_verifier_base(rv) =~~= spec_base_message(
                    sk,
                    rv.program_id,
                    rv.function_name,
                    nonce,
                ));
                lemma_messages_equal(rv, typevs, sk, nonce, typevs.len() as int);
                assert(rv.signature.challenge == hash_to_scalar_psd8_of(
                    spec_verifier_base(rv) + spec_verifier_messages(
                        rv,
                        typevs,
                        typevs.len() as int,
                    ),
                ));
            }
        }
        Some(valid)
    }
}


/// Law: determinism given randomness — for a fixed private key, call,
/// inputs, input types and nonce, the signing model admits exactly one
/// request, so two successful `sign` calls agreeing on all arguments return
/// identical requests.
pub proof fn lemma_sign_deterministic(
    sk: Seq<u8>,
    pid: Seq<u8>,
    fname: Seq<u8>,
    inputs: Seq<ValueView>,
    types: Seq<ValueTypeView>,
    nonce: Seq<u8>,
    r1: RequestView,
    r2: RequestView,
)
    requires
        r1 == spec_request(sk, pid, fname, inputs, types, nonce),
        r2 == spec_request(sk, pid, fname, inputs, types, nonce),
    ensures
        r1 == r2,
{
}

/// Law: ownership enforcement — inputs among which some record is not owned
/// by the caller's derived address never pass the signing policy, so `sign`
/// never returns a request for them.
pub proof fn lemma_ownership_enforced(
    sk: Seq<u8>,
    inputs: Seq<ValueView>,
    types: Seq<ValueTypeView>,
    i: int,
)
    requires
        0 <= i < types.len(),
        types[i] is Record,
        owner_of(payload_of(inputs[i])) != spec_caller(sk),
    ensures
        !spec_sign_ok(sk, inputs, types),
{
    if spec_sign_ok(sk, inputs, types) {
        assert(spec_input_ok(sk, types[i], inputs[i]));
    }
}

/// Law: serial-number stability — the identifier of a record input, its
/// serial number and tag included, depends only on the signing key, the
/// program id, the record and its type name; in particular two signings of
/// the same record under independent nonces derive the same serial number,
/// which is what double-spend detection rests on.
pub proof fn lemma_serial_number_stable(
    sk: Seq<u8>,
    pid: Seq<u8>,
    fname: Seq<u8>,
    inputs: Seq<ValueView>,
    types: Seq<ValueTypeView>,
    nonce1: Seq<u8>,
    nonce2: Seq<u8>,
    i: int,
)
    requires
        0 <= i < types.len(),
        i < inputs.len(),
        types[i] is Record,
    ensures
        spec_request(sk, pid, fname, inputs, types, nonce1).input_ids[i] == spec_request(
            sk,
            pid,
            fname,
            inputs,
            types,
            nonce2,
        ).input_ids[i],
{
}


impl Request {
    /// A copy of the request.
    pub fn duplicate(&self) -> (r: Request)
        ensures
            r@ == self@,
    {
        let mut input_ids: Vec<InputID> = Vec::new();
        let mut i: usize = 0;
        while i < self.input_ids.len()
            invariant
                i <= self.input_ids@.len(),
                input_ids@ == self.input_ids@.subrange(0, i as int),
            decreases self.input_ids@.len() - i,
        {
            input_ids.push(self.input_ids[i]);
            proof {
                assert(self.input_ids@.subrange(0, i as int).push(self.input_ids@[i as int])
                    =~= self.input_ids@.subrange(0, i + 1));
            }
            i += 1;
        }
        let mut inputs: Vec<Value> = Vec::new();
        let mut i: usize = 0;
        while i < self.inputs.len()
            invariant
                i <= self.inputs@.len(),
                inputs@.len() == i,
                forall|j: int| 0 <= j < i ==> #[trigger] inputs@[j]@ == self.inputs@[j]@,
            decreases self.inputs@.len() - i,
        {
            inputs.push(self.inputs[i].duplicate());
            i += 1;
        }
        let out = Request {
            caller: self.caller,
            network_id: self.network_id,
            program_id: self.program_id.duplicate(),
            function_name: self.function_name.duplicate(),
            input_ids,
            inputs,
            signature: self.signature,
            sk_tag: self.sk_tag,
            tvk: self.tvk,
            tsk: self.tsk,
            tcm: self.tcm,
        };
        proof {
            assert(out.input_ids@ =~= self.input_ids@);
            assert(views_of_ids(out.input_ids@) =~~= views_of_ids(self.input_ids@));
            assert(views_of_values(out.inputs@) =~~= views_of_values(self.inputs@));
            assert(out@ == self@);
        }
        out
    }
}

} // verus!

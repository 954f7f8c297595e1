//! Program data as the request protocol sees it: identifiers, program ids,
//! plaintext and record values, ciphertexts, and the declared visibility
//! classes of function inputs. Each value is carried as its canonical byte
//! encoding; what the console crate computes from a value (its field
//! encoding, a record's owner, nonce or commitment) is consumed through a
//! trusted binding and named by an uninterpreted function.

use vstd::prelude::*;
use crate::bytes::clone_bytes;
use crate::bytes::eq_bytes;
use crate::field::FieldElem;
use crate::field::views_of_fields;
use crate::group::GroupElem;
use crate::keys::Addr;
use snarkvm_console_network::MainnetV0;
use snarkvm_console_network::Network;
use snarkvm_console_network::prelude::FromBytes;
use snarkvm_console_network::prelude::ToBytes;
use snarkvm_console_network::prelude::Zero;
use snarkvm_console_program::Ciphertext;
use snarkvm_console_program::Identifier;
use snarkvm_console_program::Plaintext;
use snarkvm_console_program::ProgramID;
use snarkvm_console_program::Record;
use snarkvm_console_program::compute_function_id;
use snarkvm_console_types::Field;
use snarkvm_console_types::Group;
use snarkvm_console_types::U16;
use core::str::FromStr;

verus! {

/// A function or record-type identifier, as its canonical byte encoding
/// (one length byte followed by the name's characters).
#[derive(Debug)]
pub struct Ident {
    repr: Vec<u8>,
}

impl View for Ident {
    type V = Seq<u8>;

    closed spec fn view(&self) -> Seq<u8> {
        self.repr@
    }
}

/// A program id, as its canonical byte encoding (name and network
/// identifiers in order).
#[derive(Debug)]
pub struct ProgId {
    repr: Vec<u8>,
}

impl View for ProgId {
    type V = Seq<u8>;

    closed spec fn view(&self) -> Seq<u8> {
        self.repr@
    }
}

/// A plaintext value, as its canonical byte encoding.
pub struct PlainVal {
    repr: Vec<u8>,
}

impl View for PlainVal {
    type V = Seq<u8>;

    closed spec fn view(&self) -> Seq<u8> {
        self.repr@
    }
}

/// A plaintext record, as its canonical byte encoding.
pub struct RecordVal {
    repr: Vec<u8>,
}

impl View for RecordVal {
    type V = Seq<u8>;

    closed spec fn view(&self) -> Seq<u8> {
        self.repr@
    }
}

/// A ciphertext, as its canonical byte encoding.
pub struct CipherVal {
    repr: Vec<u8>,
}

impl View for CipherVal {
    type V = Seq<u8>;

    closed spec fn view(&self) -> Seq<u8> {
        self.repr@
    }
}

/// A function input value: either a plaintext or a record.
pub enum Value {
    Plaintext(PlainVal),
    Record(RecordVal),
}

/// The mathematical shape of a `Value`: its variant and the canonical byte
/// encoding it carries.
pub ghost enum ValueView {
    Plaintext(Seq<u8>),
    Record(Seq<u8>),
}

impl View for Value {
    type V = ValueView;

    open spec fn view(&self) -> ValueView {
        match self {
            Value::Plaintext(p) => ValueView::Plaintext(p@),
            Value::Record(r) => ValueView::Record(r@),
        }
    }
}

/// The declared visibility class of a function input.
pub enum ValueType {
    Constant,
    Public,
    Private,
    Record(Ident),
    ExternalRecord,
}

/// The mathematical shape of a `ValueType`: its class and, for a record,
/// the record type's name.
pub ghost enum ValueTypeView {
    Constant,
    Public,
    Private,
    Record(Seq<u8>),
    ExternalRecord,
}

impl View for ValueType {
    type V = ValueTypeView;

    open spec fn view(&self) -> ValueTypeView {
        match self {
            ValueType::Constant => ValueTypeView::Constant,
            ValueType::Public => ValueTypeView::Public,
            ValueType::Private => ValueTypeView::Private,
            ValueType::Record(name) => ValueTypeView::Record(name@),
            ValueType::ExternalRecord => ValueTypeView::ExternalRecord,
        }
    }
}

/// The field encoding of a plaintext value (its packed little-endian bits,
/// with a terminus marker).
pub uninterp spec fn plaintext_fields_of(pt: Seq<u8>) -> Seq<Seq<u8>>;

/// The field encoding of a record.
pub uninterp spec fn record_fields_of(rec: Seq<u8>) -> Seq<Seq<u8>>;

/// The field encoding of a ciphertext.
pub uninterp spec fn ciphertext_fields_of(ct: Seq<u8>) -> Seq<Seq<u8>>;

/// The symmetric encryption of a plaintext under a field-element key.
pub uninterp spec fn encrypt_of(pt: Seq<u8>, key: Seq<u8>) -> Seq<u8>;

/// The owner address declared by a record.
pub uninterp spec fn owner_of(rec: Seq<u8>) -> Seq<u8>;

/// The nonce group element of a record.
pub uninterp spec fn nonce_of(rec: Seq<u8>) -> Seq<u8>;

/// The commitment of a record under a program id, record-type name, and
/// record view key.
pub uninterp spec fn commitment_of(rec: Seq<u8>, pid: Seq<u8>, name: Seq<u8>, rvk: Seq<u8>) -> Seq<u8>;

/// The serial number derived from `gamma` and a commitment.
pub uninterp spec fn serial_number_of(gamma: Seq<u8>, commitment: Seq<u8>) -> Seq<u8>;

/// The function id of a program id and function name on this network:
/// the 1024-arity BHP hash of the network id and both identifiers.
pub uninterp spec fn function_id_of(pid: Seq<u8>, fname: Seq<u8>) -> Seq<u8>;

/// Whether the field encoding of a plaintext is delivered for these bytes:
/// the bytes decode and the console encoding accepts the value. Every
/// consumed call is a deterministic function of its arguments, so success
/// is one too.
pub uninterp spec fn plaintext_encodable(pt: Seq<u8>) -> bool;

/// Whether the field encoding of a record is delivered for these bytes.
pub uninterp spec fn record_encodable(rec: Seq<u8>) -> bool;

/// Whether the field encoding of a ciphertext is delivered for these bytes.
pub uninterp spec fn ciphertext_encodable(ct: Seq<u8>) -> bool;

/// Whether the symmetric encryption of a plaintext under a key is
/// delivered.
pub uninterp spec fn encryptable(pt: Seq<u8>, key: Seq<u8>) -> bool;

/// Whether the commitment of a record under a program id, record-type name
/// and record view key is delivered.
pub uninterp spec fn commitment_derivable(rec: Seq<u8>, pid: Seq<u8>, name: Seq<u8>, rvk: Seq<u8>) -> bool;

/// Whether the serial number of `gamma` and a commitment is delivered.
pub uninterp spec fn serial_number_derivable(gamma: Seq<u8>, commitment: Seq<u8>) -> bool;

/// Whether the function id of a program id and function name is delivered.
pub uninterp spec fn function_id_derivable(pid: Seq<u8>, fname: Seq<u8>) -> bool;

/// The field encoding of a value, by its variant.
pub open spec fn value_fields_of(v: ValueView) -> Seq<Seq<u8>> {
    match v {
        ValueView::Plaintext(pt) => plaintext_fields_of(pt),
        ValueView::Record(rec) => record_fields_of(rec),
    }
}

/// Whether the field encoding of a value is delivered, by its variant.
pub open spec fn value_encodable(v: ValueView) -> bool {
    match v {
        ValueView::Plaintext(pt) => plaintext_encodable(pt),
        ValueView::Record(rec) => record_encodable(rec),
    }
}

/// The byte encoding a value carries, regardless of its variant.
pub open spec fn payload_of(v: ValueView) -> Seq<u8> {
    match v {
        ValueView::Plaintext(pt) => pt,
        ValueView::Record(rec) => rec,
    }
}

/// The views of a sequence of values.
pub open spec fn views_of_values(s: Seq<Value>) -> Seq<ValueView> {
    s.map_values(|v: Value| v@)
}

/// The views of a sequence of declared input types.
pub open spec fn views_of_types(s: Seq<ValueType>) -> Seq<ValueTypeView> {
    s.map_values(|t: ValueType| t@)
}

/// Indexing into the views of a sequence of values.
pub broadcast proof fn lemma_value_views_index(s: Seq<Value>, i: int)
    requires
        0 <= i < s.len(),
    ensures
        #[trigger] views_of_values(s)[i] == s[i]@,
{
}

/// Indexing into the views of a sequence of declared input types.
pub broadcast proof fn lemma_type_views_index(s: Seq<ValueType>, i: int)
    requires
        0 <= i < s.len(),
    ensures
        #[trigger] views_of_types(s)[i] == s[i]@,
{
}

impl Ident {
    /// Relies on `Identifier::from_str`: parses a lowercase identifier of at
    /// most 31 characters, declining on malformed text.
    #[verifier::external_body]
    pub fn parse(text: &str) -> Option<Ident> {
        let Ok(ident) = Identifier::<MainnetV0>::from_str(text) else { return None };
        let Ok(repr) = ident.to_bytes_le() else { return None };
        Some(Ident { repr })
    }

    /// A copy of the identifier.
    pub fn duplicate(&self) -> (r: Ident)
        ensures
            r@ == self@,
    {
        Ident { repr: clone_bytes(&self.repr) }
    }

    /// Whether two identifiers are the same name.
    pub fn equals(&self, other: &Ident) -> (r: bool)
        ensures
            r == (self@ == other@),
    {
        eq_bytes(&self.repr, &other.repr)
    }
}

impl ProgId {
    /// Relies on `ProgramID::from_str`: parses a `name.network` program id,
    /// declining on malformed text.
    #[verifier::external_body]
    pub fn parse(text: &str) -> Option<ProgId> {
        let Ok(id) = ProgramID::<MainnetV0>::from_str(text) else { return None };
        let Ok(repr) = id.to_bytes_le() else { return None };
        Some(ProgId { repr })
    }

    /// A copy of the program id.
    pub fn duplicate(&self) -> (r: ProgId)
        ensures
            r@ == self@,
    {
        ProgId { repr: clone_bytes(&self.repr) }
    }

    /// Whether two program ids are the same.
    pub fn equals(&self, other: &ProgId) -> (r: bool)
        ensures
            r == (self@ == other@),
    {
        eq_bytes(&self.repr, &other.repr)
    }

    /// Relies on `compute_function_id`: the BHP-1024 hash of this network's
    /// id, the program id, and the function name. Whether the hash is
    /// delivered is a function of the two identifiers alone, named exactly.
    #[verifier::external_body]
    pub(crate) fn function_id(&self, fname: &Ident) -> (r: Option<FieldElem>)
        ensures
            r is Some <==> function_id_derivable(self@, fname@),
            r matches Some(f) ==> f@ == function_id_of(self@, fname@),
    {
        let Ok(pid) = ProgramID::<MainnetV0>::from_bytes_le(&self.repr) else { return None };
        let Ok(name) = Identifier::<MainnetV0>::from_bytes_le(&fname.repr) else { return None };
        let Ok(f) = compute_function_id(&U16::new(MainnetV0::ID), &pid, &name) else { return None };
        let mut repr = [0u8; 32];
        repr.copy_from_slice(&f.to_bytes_le().expect("field encoding"));
        Some(FieldElem::from_repr(&repr))
    }
}

impl PlainVal {
    /// Relies on `Plaintext::from_str`: parses a plaintext value, declining
    /// on malformed text.
    #[verifier::external_body]
    pub fn parse(text: &str) -> Option<PlainVal> {
        let Ok(pt) = Plaintext::<MainnetV0>::from_str(text) else { return None };
        let Ok(repr) = pt.to_bytes_le() else { return None };
        Some(PlainVal { repr })
    }

    /// A copy of the plaintext.
    pub fn duplicate(&self) -> (r: PlainVal)
        ensures
            r@ == self@,
    {
        PlainVal { repr: clone_bytes(&self.repr) }
    }

    /// Relies on `Plaintext::to_fields`: the field encoding of the value.
    /// Whether the encoding is delivered is a function of the bytes alone,
    /// named exactly.
    #[verifier::external_body]
    pub(crate) fn to_fields(&self) -> (r: Option<Vec<FieldElem>>)
        ensures
            r is Some <==> plaintext_encodable(self@),
            r matches Some(v) ==> views_of_fields(v@) == plaintext_fields_of(self@),
    {
        let Ok(pt) = Plaintext::<MainnetV0>::from_bytes_le(&self.repr) else { return None };
        let Ok(fields) = snarkvm_console_program::ToFields::to_fields(&pt) else { return None };
        let mut out: Vec<FieldElem> = Vec::with_capacity(fields.len());
        for f in fields.iter() {
            let mut repr = [0u8; 32];
            repr.copy_from_slice(&f.to_bytes_le().expect("field encoding"));
            out.push(FieldElem::from_repr(&repr));
        }
        Some(out)
    }

    /// Relies on `Plaintext::encrypt_symmetric`: the ciphertext of the value
    /// under a field-element view key. Whether the ciphertext is delivered
    /// is a function of the bytes and the key alone, named exactly.
    #[verifier::external_body]
    pub(crate) fn encrypt(&self, key: &FieldElem) -> (r: Option<CipherVal>)
        ensures
            r is Some <==> encryptable(self@, key@),
            r matches Some(c) ==> c@ == encrypt_of(self@, key@),
    {
        let Ok(pt) = Plaintext::<MainnetV0>::from_bytes_le(&self.repr) else { return None };
        let k = Field::<MainnetV0>::from_bytes_le(&key.to_bytes()).unwrap_or(Field::zero());
        let Ok(ct) = pt.encrypt_symmetric(k) else { return None };
        let Ok(repr) = ct.to_bytes_le() else { return None };
        Some(CipherVal { repr })
    }
}

impl RecordVal {
    /// Relies on `Record::from_str`: parses a plaintext record, declining on
    /// malformed text.
    #[verifier::external_body]
    pub fn parse(text: &str) -> Option<RecordVal> {
        let Ok(rec) = Record::<MainnetV0, Plaintext<MainnetV0>>::from_str(text) else { return None };
        let Ok(repr) = rec.to_bytes_le() else { return None };
        Some(RecordVal { repr })
    }

    /// A copy of the record.
    pub fn duplicate(&self) -> (r: RecordVal)
        ensures
            r@ == self@,
    {
        RecordVal { repr: clone_bytes(&self.repr) }
    }

    /// Relies on `Record::to_fields`: the field encoding of the record.
    /// Whether the encoding is delivered is a function of the bytes alone,
    /// named exactly.
    #[verifier::external_body]
    pub(crate) fn to_fields(&self) -> (r: Option<Vec<FieldElem>>)
        ensures
            r is Some <==> record_encodable(self@),
            r matches Some(v) ==> views_of_fields(v@) == record_fields_of(self@),
    {
        let Ok(rec) = Record::<MainnetV0, Plaintext<MainnetV0>>::from_bytes_le(&self.repr) else { return None };
        let Ok(fields) = snarkvm_console_program::ToFields::to_fields(&rec) else { return None };
        let mut out: Vec<FieldElem> = Vec::with_capacity(fields.len());
        for f in fields.iter() {
            let mut repr = [0u8; 32];
            repr.copy_from_slice(&f.to_bytes_le().expect("field encoding"));
            out.push(FieldElem::from_repr(&repr));
        }
        Some(out)
    }

    /// Relies on `Record::owner`: the owner address the record declares.
    #[verifier::external_body]
    pub(crate) fn owner(&self) -> (r: Addr)
        ensures
            r@ == owner_of(self@),
    {
        let mut repr = [0u8; 32];
        if let Ok(rec) = Record::<MainnetV0, Plaintext<MainnetV0>>::from_bytes_le(&self.repr) {
            let addr = **rec.owner();
            repr.copy_from_slice(&addr.to_bytes_le().expect("address encoding"));
        }
        Addr::from_repr(&repr)
    }

    /// Relies on `Record::nonce`: the nonce group element of the record.
    #[verifier::external_body]
    pub(crate) fn nonce(&self) -> (r: GroupElem)
        ensures
            r@ == nonce_of(self@),
    {
        let mut repr = [0u8; 32];
        if let Ok(rec) = Record::<MainnetV0, Plaintext<MainnetV0>>::from_bytes_le(&self.repr) {
            let nonce: Group<MainnetV0> = *rec.nonce();
            repr.copy_from_slice(&nonce.to_bytes_le().expect("group encoding"));
        }
        GroupElem::from_repr(&repr)
    }

    /// Relies on `Record::to_commitment`: the record's commitment under a
    /// program id, record-type name and record view key. Whether the
    /// commitment is delivered is a function of the four arguments alone,
    /// named exactly.
    #[verifier::external_body]
    pub(crate) fn to_commitment(&self, pid: &ProgId, name: &Ident, rvk: &FieldElem) -> (r: Option<
        FieldElem,
    >)
        ensures
            r is Some <==> commitment_derivable(self@, pid@, name@, rvk@),
            r matches Some(c) ==> c@ == commitment_of(self@, pid@, name@, rvk@),
    {
        let Ok(rec) = Record::<MainnetV0, Plaintext<MainnetV0>>::from_bytes_le(&self.repr) else { return None };
        let Ok(program_id) = ProgramID::<MainnetV0>::from_bytes_le(&pid.repr) else { return None };
        let Ok(record_name) = Identifier::<MainnetV0>::from_bytes_le(&name.repr) else { return None };
        let key = Field::<MainnetV0>::from_bytes_le(&rvk.to_bytes()).unwrap_or(Field::zero());
        let Ok(c) = rec.to_commitment(&program_id, &record_name, &key) else { return None };
        let mut repr = [0u8; 32];
        repr.copy_from_slice(&c.to_bytes_le().expect("field encoding"));
        Some(FieldElem::from_repr(&repr))
    }
}

impl CipherVal {
    /// Relies on `Ciphertext::to_fields`: the field elements of the
    /// ciphertext. Whether they are delivered is a function of the bytes
    /// alone, named exactly.
    #[verifier::external_body]
    pub(crate) fn to_fields(&self) -> (r: Option<Vec<FieldElem>>)
        ensures
            r is Some <==> ciphertext_encodable(self@),
            r matches Some(v) ==> views_of_fields(v@) == ciphertext_fields_of(self@),
    {
        let Ok(ct) = Ciphertext::<MainnetV0>::from_bytes_le(&self.repr) else { return None };
        let Ok(fields) = snarkvm_console_program::ToFields::to_fields(&ct) else { return None };
        let mut out: Vec<FieldElem> = Vec::with_capacity(fields.len());
        for f in fields.iter() {
            let mut repr = [0u8; 32];
            repr.copy_from_slice(&f.to_bytes_le().expect("field encoding"));
            out.push(FieldElem::from_repr(&repr));
        }
        Some(out)
    }
}

/// Relies on `Record::serial_number_from_gamma`: the serial number derived
/// from `gamma` and a commitment. Whether it is delivered is a function of
/// the two arguments alone, named exactly.
#[verifier::external_body]
pub(crate) fn serial_number_from_gamma(gamma: &GroupElem, commitment: &FieldElem) -> (r: Option<
    FieldElem,
>)
    ensures
        r is Some <==> serial_number_derivable(gamma@, commitment@),
        r matches Some(sn) ==> sn@ == serial_number_of(gamma@, commitment@),
{
    let g = Group::<MainnetV0>::from_bytes_le(&gamma.to_bytes()).unwrap_or(Group::zero());
    let c = Field::<MainnetV0>::from_bytes_le(&commitment.to_bytes()).unwrap_or(Field::zero());
    let Ok(sn) = Record::<MainnetV0, Plaintext<MainnetV0>>::serial_number_from_gamma(&g, c) else { return None };
    let mut repr = [0u8; 32];
    repr.copy_from_slice(&sn.to_bytes_le().expect("field encoding"));
    Some(FieldElem::from_repr(&repr))
}

impl Value {
    /// A copy of the value.
    pub fn duplicate(&self) -> (r: Value)
        ensures
            r@ == self@,
    {
        match self {
            Value::Plaintext(p) => Value::Plaintext(p.duplicate()),
            Value::Record(rec) => Value::Record(rec.duplicate()),
        }
    }

    /// The field encoding of the value, by its variant; delivered exactly
    /// when the variant's console encoding is.
    pub fn to_fields(&self) -> (r: Option<Vec<FieldElem>>)
        ensures
            r is Some <==> value_encodable(self@),
            r matches Some(v) ==> views_of_fields(v@) == value_fields_of(self@),
    {
        match self {
            Value::Plaintext(p) => p.to_fields(),
            Value::Record(rec) => rec.to_fields(),
        }
    }
}

impl ValueType {
    /// A copy of the value type.
    pub fn duplicate(&self) -> (r: ValueType)
        ensures
            r@ == self@,
    {
        match self {
            ValueType::Constant => ValueType::Constant,
            ValueType::Public => ValueType::Public,
            ValueType::Private => ValueType::Private,
            ValueType::Record(name) => ValueType::Record(name.duplicate()),
            ValueType::ExternalRecord => ValueType::ExternalRecord,
        }
    }
}

} // verus!

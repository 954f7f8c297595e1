//! The error surface of signing: arity mismatches are reported before any
//! cryptographic work, shape violations and ownership violations name the
//! offending index, and over-long input lists are rejected.

use request_auth::field::FieldElem;
use request_auth::keys::PrivKey;
use request_auth::program::Ident;
use request_auth::program::PlainVal;
use request_auth::program::ProgId;
use request_auth::program::RecordVal;
use request_auth::program::Value;
use request_auth::program::ValueType;
use request_auth::request::Request;
use request_auth::request::SignError;

const NONCE_GROUP: &str =
    "2293253577170800572742339369209137467208538700597121244293392265726446806023group";

fn call_target() -> (ProgId, Ident) {
    (
        ProgId::parse("token.aleo").expect("program id parses"),
        Ident::parse("transfer").expect("identifier parses"),
    )
}

#[test]
fn test_arity_mismatch() {
    let key = PrivKey::sample(23);
    let (program_id, function_name) = call_target();
    let inputs = vec![Value::Plaintext(PlainVal::parse("10u64").expect("plaintext parses"))];
    let types = vec![ValueType::Public, ValueType::Public];
    let nonce = FieldElem::from_u128(1);

    let result = Request::sign(&key, &program_id, &function_name, &inputs, &types, &nonce);
    assert!(matches!(result, Err(SignError::ArityMismatch { expected: 2, provided: 1 })));
}

#[test]
fn test_too_many_inputs() {
    let key = PrivKey::sample(29);
    let (program_id, function_name) = call_target();
    let plaintext = PlainVal::parse("10u64").expect("plaintext parses");
    let mut inputs = Vec::new();
    let mut types = Vec::new();
    for _ in 0..65536 {
        inputs.push(Value::Plaintext(plaintext.duplicate()));
        types.push(ValueType::Public);
    }
    let nonce = FieldElem::from_u128(2);

    let result = Request::sign(&key, &program_id, &function_name, &inputs, &types, &nonce);
    assert!(matches!(result, Err(SignError::TooManyInputs { provided: 65536 })));
}

#[test]
fn test_type_mismatch_reports_index() {
    let key = PrivKey::sample(31);
    let (program_id, function_name) = call_target();
    // A plaintext where a record is declared, at index 1.
    let inputs = vec![
        Value::Plaintext(PlainVal::parse("10u64").expect("plaintext parses")),
        Value::Plaintext(PlainVal::parse("11u64").expect("plaintext parses")),
    ];
    let types = vec![
        ValueType::Public,
        ValueType::Record(Ident::parse("token").expect("identifier parses")),
    ];
    let nonce = FieldElem::from_u128(3);

    let result = Request::sign(&key, &program_id, &function_name, &inputs, &types, &nonce);
    match result {
        Err(SignError::TypeMismatch { index, program_id: p, function_name: f }) => {
            assert_eq!(index, 1);
            assert!(p.equals(&program_id));
            assert!(f.equals(&function_name));
        }
        _ => panic!("expected a shape violation at index 1"),
    }
}

#[test]
fn test_record_where_plaintext_declared() {
    let key = PrivKey::sample(37);
    let (program_id, function_name) = call_target();
    let address = key.address().to_text();
    let record_text = format!(
        "{{ owner: {address}.private, token_amount: 9u64.private, _nonce: {NONCE_GROUP}.public }}"
    );
    let inputs = vec![Value::Record(RecordVal::parse(&record_text).expect("record parses"))];
    let types = vec![ValueType::Private];
    let nonce = FieldElem::from_u128(4);

    let result = Request::sign(&key, &program_id, &function_name, &inputs, &types, &nonce);
    assert!(matches!(result, Err(SignError::TypeMismatch { index: 0, .. })));
}

#[test]
fn test_ownership_mismatch() {
    let signer = PrivKey::sample(41);
    let stranger = PrivKey::sample(43);
    let (program_id, function_name) = call_target();
    let other_address = stranger.address().to_text();
    let record_text = format!(
        "{{ owner: {other_address}.private, token_amount: 9u64.private, _nonce: {NONCE_GROUP}.public }}"
    );
    let inputs = vec![
        Value::Plaintext(PlainVal::parse("10u64").expect("plaintext parses")),
        Value::Record(RecordVal::parse(&record_text).expect("record parses")),
    ];
    let types = vec![
        ValueType::Public,
        ValueType::Record(Ident::parse("token").expect("identifier parses")),
    ];
    let nonce = FieldElem::from_u128(5);

    let result = Request::sign(&signer, &program_id, &function_name, &inputs, &types, &nonce);
    assert!(matches!(result, Err(SignError::OwnershipMismatch { index: 1, .. })));
}

#[test]
fn test_verify_rejects_wrong_arity() {
    let key = PrivKey::sample(47);
    let (program_id, function_name) = call_target();
    let inputs = vec![Value::Plaintext(PlainVal::parse("10u64").expect("plaintext parses"))];
    let types = vec![ValueType::Public];
    let nonce = FieldElem::from_u128(6);

    let request = Request::sign(&key, &program_id, &function_name, &inputs, &types, &nonce)
        .expect("signing succeeds");
    let longer = vec![ValueType::Public, ValueType::Public];
    assert_eq!(request.verify(&longer), Some(false));
}

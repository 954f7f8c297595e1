//! End-to-end behaviour of the request-signing protocol: the scenario of a
//! public input beside a record input, the verifiability round trip, tamper
//! sensitivity, nonce freshness, determinism, and serial-number behaviour.

use request_auth::authorization::authorize;
use request_auth::field::FieldElem;
use request_auth::keys::PrivKey;
use request_auth::program::Ident;
use request_auth::program::PlainVal;
use request_auth::program::ProgId;
use request_auth::program::RecordVal;
use request_auth::program::Value;
use request_auth::program::ValueType;
use request_auth::request::InputID;
use request_auth::request::Request;

const NONCE_GROUP: &str =
    "2293253577170800572742339369209137467208538700597121244293392265726446806023group";

fn record_owned_by(key: &PrivKey, amount: &str) -> RecordVal {
    let address = key.address().to_text();
    let text = format!(
        "{{ owner: {address}.private, token_amount: {amount}.private, _nonce: {NONCE_GROUP}.public }}"
    );
    RecordVal::parse(&text).expect("record text parses")
}

fn scenario_inputs(key: &PrivKey) -> (Vec<Value>, Vec<ValueType>) {
    let inputs = vec![
        Value::Plaintext(PlainVal::parse("10u64").expect("plaintext parses")),
        Value::Record(record_owned_by(key, "100u64")),
    ];
    let types = vec![
        ValueType::Public,
        ValueType::Record(Ident::parse("token").expect("identifier parses")),
    ];
    (inputs, types)
}

#[test]
fn test_scenario_public_and_record() {
    let key = PrivKey::sample(42);
    let program_id = ProgId::parse("token.aleo").expect("program id parses");
    let function_name = Ident::parse("transfer").expect("identifier parses");
    let (inputs, types) = scenario_inputs(&key);
    let nonce = FieldElem::sample(rand::random());

    let request = Request::sign(&key, &program_id, &function_name, &inputs, &types, &nonce)
        .expect("signing succeeds");

    assert!(matches!(request.input_ids[0], InputID::Public(_)));
    assert!(matches!(request.input_ids[1], InputID::Record { .. }));
    // The transition commitment is a hash of the view key, not the view key.
    assert!(!request.tcm.equals(&request.tvk));
    assert_eq!(request.verify(&types), Some(true));

    // Re-supplying a different public value under the old signature must
    // fail verification.
    let mut tampered = request;
    tampered.inputs[0] = Value::Plaintext(PlainVal::parse("11u64").expect("plaintext parses"));
    assert_eq!(tampered.verify(&types), Some(false));
}

#[test]
fn test_all_visibility_classes_round_trip() {
    let key = PrivKey::sample(7);
    let program_id = ProgId::parse("token.aleo").expect("program id parses");
    let function_name = Ident::parse("transfer").expect("identifier parses");
    let inputs = vec![
        Value::Plaintext(PlainVal::parse("1field").expect("plaintext parses")),
        Value::Plaintext(PlainVal::parse("2u32").expect("plaintext parses")),
        Value::Plaintext(PlainVal::parse("true").expect("plaintext parses")),
        Value::Record(record_owned_by(&key, "5u64")),
        Value::Record(record_owned_by(&key, "6u64")),
    ];
    let types = vec![
        ValueType::Constant,
        ValueType::Public,
        ValueType::Private,
        ValueType::Record(Ident::parse("token").expect("identifier parses")),
        ValueType::ExternalRecord,
    ];
    let nonce = FieldElem::sample(rand::random());

    let request = Request::sign(&key, &program_id, &function_name, &inputs, &types, &nonce)
        .expect("signing succeeds");
    assert_eq!(request.input_ids.len(), 5);
    assert!(matches!(request.input_ids[0], InputID::Constant(_)));
    assert!(matches!(request.input_ids[2], InputID::Private(_)));
    assert!(matches!(request.input_ids[4], InputID::ExternalRecord(_)));
    assert_eq!(request.verify(&types), Some(true));
}

#[test]
fn test_determinism_same_nonce() {
    let key = PrivKey::sample(9);
    let program_id = ProgId::parse("token.aleo").expect("program id parses");
    let function_name = Ident::parse("transfer").expect("identifier parses");
    let (inputs_a, types) = scenario_inputs(&key);
    let (inputs_b, _) = scenario_inputs(&key);
    let nonce = FieldElem::from_u128(987_654_321);

    let a = Request::sign(&key, &program_id, &function_name, &inputs_a, &types, &nonce)
        .expect("signing succeeds");
    let b = Request::sign(&key, &program_id, &function_name, &inputs_b, &types, &nonce)
        .expect("signing succeeds");

    assert!(a.tvk.equals(&b.tvk));
    assert!(a.tcm.equals(&b.tcm));
    assert!(a.tsk.equals(&b.tsk));
    assert!(a.sk_tag.equals(&b.sk_tag));
    assert!(a.caller.equals(&b.caller));
    assert!(a.signature.challenge.equals(&b.signature.challenge));
    assert!(a.signature.response.equals(&b.signature.response));
}

#[test]
fn test_nonce_freshness() {
    let key = PrivKey::sample(11);
    let program_id = ProgId::parse("token.aleo").expect("program id parses");
    let function_name = Ident::parse("transfer").expect("identifier parses");
    let (inputs_a, types) = scenario_inputs(&key);
    let (inputs_b, _) = scenario_inputs(&key);

    let a = Request::sign(
        &key,
        &program_id,
        &function_name,
        &inputs_a,
        &types,
        &FieldElem::sample(rand::random()),
    )
    .expect("signing succeeds");
    let b = Request::sign(
        &key,
        &program_id,
        &function_name,
        &inputs_b,
        &types,
        &FieldElem::sample(rand::random()),
    )
    .expect("signing succeeds");

    assert!(!a.tsk.equals(&b.tsk));
    assert!(!a.tvk.equals(&b.tvk));
    assert!(!a.tcm.equals(&b.tcm));
    assert!(!a.signature.challenge.equals(&b.signature.challenge));
    assert!(!a.signature.response.equals(&b.signature.response));
}

#[test]
fn test_serial_number_behaviour() {
    let key = PrivKey::sample(13);
    let program_id = ProgId::parse("token.aleo").expect("program id parses");
    let function_name = Ident::parse("transfer").expect("identifier parses");
    let types = vec![ValueType::Record(Ident::parse("token").expect("identifier parses"))];

    let same_record = |nonce: u128| {
        let inputs = vec![Value::Record(record_owned_by(&key, "100u64"))];
        Request::sign(&key, &program_id, &function_name, &inputs, &types, &FieldElem::from_u128(nonce))
            .expect("signing succeeds")
    };
    let a = same_record(rand::random());
    let b = same_record(rand::random());
    let (sn_a, sn_b) = match (&a.input_ids[0], &b.input_ids[0]) {
        (
            InputID::Record { serial_number: sn_a, .. },
            InputID::Record { serial_number: sn_b, .. },
        ) => (*sn_a, *sn_b),
        _ => panic!("expected record input ids"),
    };
    // The same record under the same key always derives the same serial
    // number, whatever the nonce.
    assert!(sn_a.equals(&sn_b));

    // A record with a different commitment derives a different one.
    let inputs = vec![Value::Record(record_owned_by(&key, "333u64"))];
    let c = Request::sign(
        &key,
        &program_id,
        &function_name,
        &inputs,
        &types,
        &FieldElem::sample(rand::random()),
    )
    .expect("signing succeeds");
    let sn_c = match &c.input_ids[0] {
        InputID::Record { serial_number, .. } => *serial_number,
        _ => panic!("expected a record input id"),
    };
    assert!(!sn_a.equals(&sn_c));
}

#[test]
fn test_tamper_sensitivity() {
    let key = PrivKey::sample(17);
    let program_id = ProgId::parse("token.aleo").expect("program id parses");
    let function_name = Ident::parse("transfer").expect("identifier parses");
    let (inputs, types) = scenario_inputs(&key);
    let nonce = FieldElem::sample(rand::random());
    let request = Request::sign(&key, &program_id, &function_name, &inputs, &types, &nonce)
        .expect("signing succeeds");
    assert_eq!(request.verify(&types), Some(true));

    // Flip the transition view key.
    let mut t = request.duplicate();
    t.tvk = FieldElem::from_u128(999);
    assert_eq!(t.verify(&types), Some(false));

    // Flip the transition commitment.
    let mut t = request.duplicate();
    t.tcm = FieldElem::from_u128(999);
    assert_eq!(t.verify(&types), Some(false));

    // Flip a public input identifier.
    let mut t = request.duplicate();
    t.input_ids[0] = InputID::Public(FieldElem::from_u128(999));
    assert_eq!(t.verify(&types), Some(false));

    // Change the function name: the function id no longer matches.
    let t = request.duplicate();
    let other_name = Ident::parse("burn").expect("identifier parses");
    let renamed = Request {
        function_name: other_name,
        ..t
    };
    assert_eq!(renamed.verify(&types), Some(false));
}

#[test]
fn test_authorization_is_extended_whole_or_not_at_all() {
    let key = PrivKey::sample(53);
    let program_id = ProgId::parse("token.aleo").expect("program id parses");
    let function_name = Ident::parse("transfer").expect("identifier parses");
    let (inputs, types) = scenario_inputs(&key);
    let nonce = FieldElem::sample(rand::random());

    let (mut authorization, _) =
        authorize(&key, &program_id, &function_name, &inputs, &types, &nonce, 2)
            .expect("authorization succeeds");
    assert_eq!(authorization.len(), 1);

    // A nested call appends its request, in call order.
    let nested_name = Ident::parse("mint").expect("identifier parses");
    let nested_inputs = vec![Value::Plaintext(PlainVal::parse("5u64").expect("plaintext parses"))];
    let nested_types = vec![ValueType::Public];
    authorization
        .authorize_nested(
            &key,
            &program_id,
            &nested_name,
            &nested_inputs,
            &nested_types,
            &FieldElem::sample(rand::random()),
        )
        .expect("nested authorization succeeds");
    assert_eq!(authorization.len(), 2);
    assert_eq!(authorization.request_at(1).verify(&nested_types), Some(true));

    // A failing nested call leaves the authorization exactly as it was.
    let bad_types = vec![ValueType::Public, ValueType::Public];
    let result = authorization.authorize_nested(
        &key,
        &program_id,
        &nested_name,
        &nested_inputs,
        &bad_types,
        &FieldElem::sample(rand::random()),
    );
    assert!(result.is_err());
    assert_eq!(authorization.len(), 2);
}

#[test]
fn test_authorize_wraps_one_request() {
    let key = PrivKey::sample(19);
    let program_id = ProgId::parse("token.aleo").expect("program id parses");
    let function_name = Ident::parse("transfer").expect("identifier parses");
    let (inputs, types) = scenario_inputs(&key);
    let nonce = FieldElem::sample(rand::random());

    let (authorization, needs_nested) =
        authorize(&key, &program_id, &function_name, &inputs, &types, &nonce, 1)
            .expect("authorization succeeds");
    assert_eq!(authorization.len(), 1);
    assert!(!needs_nested);
    assert_eq!(authorization.request_at(0).verify(&types), Some(true));

    let (_, needs_nested) =
        authorize(&key, &program_id, &function_name, &inputs, &types, &nonce, 3)
            .expect("authorization succeeds");
    assert!(needs_nested);
}

//! The account key surface: parsing a private key from its textual form and
//! deriving the address agree with the console account types themselves.

use core::str::FromStr;

use request_auth::keys::PrivKey;

use snarkvm_console_account::Address;
use snarkvm_console_account::PrivateKey;
use snarkvm_console_network::MainnetV0;
use snarkvm_utilities::TestRng;

#[test]
fn test_parse_private_key_derives_same_address() {
    let rng = &mut TestRng::from_seed(123);
    let console_key = PrivateKey::<MainnetV0>::new(rng).expect("key sampling succeeds");
    let console_address = Address::try_from(&console_key).expect("address derivation succeeds");

    let parsed = PrivKey::parse(&console_key.to_string()).expect("the key text parses");
    assert_eq!(parsed.address().to_text(), console_address.to_string());
}

#[test]
fn test_parse_private_key_rejects_garbage() {
    assert!(PrivKey::parse("not a private key").is_none());
    assert!(PrivKey::parse("").is_none());
}

#[test]
fn test_sampled_keys_differ_by_seed() {
    let a = PrivKey::sample(1);
    let b = PrivKey::sample(2);
    assert!(!a.address().equals(&b.address()));
    assert_eq!(a.address().to_text(), PrivKey::sample(1).address().to_text());
}

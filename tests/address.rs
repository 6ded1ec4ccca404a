use cryptoballot_cli::address::{identifier_to_address, identifier_to_address_prefix, namespace_tag, AddressSpace};
use cryptoballot_cli::hex_text::to_hex_string;
use cryptoballot_cli::ident::{Identifier, TransactionType};

fn sample(election: u8, kind: TransactionType, unique: u8) -> Identifier {
    Identifier {
        election_id: [election; 15],
        transaction_type: kind,
        unique_id: Some([unique; 16]),
    }
}

#[test]
fn test_address_translation() {
    let identifier = Identifier::new_for_election();
    let address = identifier_to_address(identifier);

    assert!(address.len() == 70);
}

#[test]
fn hex_string_of_known_bytes() {
    assert_eq!(to_hex_string(&vec![0x00, 0x0f, 0xa5, 0xff]), "000fa5ff");
    assert_eq!(to_hex_string(&vec![]), "");
}

#[test]
fn namespace_tag_is_sha512_head_of_label() {
    assert_eq!(namespace_tag(), "51ec70");
}

#[test]
fn address_of_known_identifier() {
    let id = sample(0xab, TransactionType::Vote, 0x01);
    let expected = format!("51ec70{}02{}", "ab".repeat(15), "01".repeat(16));
    assert_eq!(identifier_to_address(id), expected);
}

#[test]
fn address_without_unique_part_pads_with_zeros() {
    let id = Identifier {
        election_id: [0x10; 15],
        transaction_type: TransactionType::Election,
        unique_id: None,
    };
    let expected = format!("51ec70{}01{}", "10".repeat(15), "00".repeat(16));
    assert_eq!(identifier_to_address(id), expected);
}

#[test]
fn address_is_deterministic() {
    let id = Identifier::new_for_election();
    assert_eq!(identifier_to_address(id), identifier_to_address(id));
}

#[test]
fn election_prefix_contains_addresses_of_its_transactions() {
    let election = sample(0x42, TransactionType::Election, 0x00);
    let vote = sample(0x42, TransactionType::Vote, 0x77);
    let decryption = sample(0x42, TransactionType::Decryption, 0x99);
    let prefix = identifier_to_address_prefix(election, None);
    assert_eq!(prefix, format!("51ec70{}", "42".repeat(15)));
    assert!(identifier_to_address(vote).starts_with(&prefix));
    assert!(identifier_to_address(decryption).starts_with(&prefix));

    let decryption_prefix = identifier_to_address_prefix(election, Some(TransactionType::Decryption));
    assert_eq!(decryption_prefix, format!("51ec70{}04", "42".repeat(15)));
    assert!(identifier_to_address(decryption).starts_with(&decryption_prefix));
    assert!(!identifier_to_address(vote).starts_with(&decryption_prefix));
}

#[test]
fn prefix_of_other_election_does_not_match() {
    let other = sample(0x43, TransactionType::Election, 0x00);
    let vote = sample(0x42, TransactionType::Vote, 0x77);
    assert!(!identifier_to_address(vote).starts_with(&identifier_to_address_prefix(other, None)));
}

#[test]
fn distinct_identifiers_have_distinct_addresses() {
    let a = sample(0x42, TransactionType::Vote, 0x01);
    let b = sample(0x42, TransactionType::Vote, 0x02);
    let c = sample(0x42, TransactionType::SecretShare, 0x01);
    assert_ne!(identifier_to_address(a), identifier_to_address(b));
    assert_ne!(identifier_to_address(a), identifier_to_address(c));
}

#[test]
fn identifier_bytes_layout() {
    let id = sample(0x05, TransactionType::SecretShare, 0x06);
    let bytes = id.to_bytes();
    assert_eq!(bytes.len(), 32);
    assert_eq!(&bytes[0..15], &[0x05; 15]);
    assert_eq!(bytes[15], 3);
    assert_eq!(&bytes[16..32], &[0x06; 16]);
}

#[test]
fn transaction_type_codes() {
    assert_eq!(TransactionType::Decryption.code(), 4);
    assert_eq!(TransactionType::from_code(2), Some(TransactionType::Vote));
    assert_eq!(TransactionType::from_code(0), None);
    assert_eq!(TransactionType::from_code(5), None);
}

#[test]
fn address_space_agrees_with_free_functions() {
    let space = AddressSpace::new();
    let id = sample(0x31, TransactionType::Decryption, 0x32);
    assert_eq!(space.address(id), identifier_to_address(id));
    assert_eq!(space.prefix(id, Some(TransactionType::Decryption)), identifier_to_address_prefix(id, Some(TransactionType::Decryption)));
    assert_eq!(space.prefix(id, None), identifier_to_address_prefix(id, None));
}

#[test]
fn generated_keypair_is_hex() {
    let (secret, public) = cryptoballot_cli::keys::generate_keypair_hex();
    assert_eq!(secret.len(), 64);
    assert_eq!(public.len(), 64);
    assert!(secret.chars().chain(public.chars()).all(|c| c.is_ascii_hexdigit() && !c.is_ascii_uppercase()));
    let secret_bytes = hex::decode(&secret).unwrap();
    let key = ed25519_dalek::SecretKey::from_bytes(&secret_bytes).unwrap();
    assert_eq!(hex::encode(ed25519_dalek::PublicKey::from(&key).to_bytes()), public);
}

use sol_dash::error::WalletError;
use sol_dash::keys::{Address, Keypair, SignedTransfer, ADDRESS_LENGTH, KEYPAIR_LENGTH};
use solana_sdk::pubkey::Pubkey;
use solana_sdk::signature::Keypair as SdkKeypair;
use solana_sdk::signer::keypair::write_keypair;
use solana_sdk::signer::Signer;

fn keypair_json(keypair: &SdkKeypair) -> Vec<u8> {
    let mut file: Vec<u8> = Vec::new();
    write_keypair(keypair, &mut file).unwrap();
    file
}

#[test]
fn lengths_are_those_of_the_sdk() {
    assert_eq!(ADDRESS_LENGTH, std::mem::size_of::<Pubkey>());
    assert_eq!(KEYPAIR_LENGTH, SdkKeypair::new().to_bytes().len());
}

#[test]
fn parse_accepts_the_system_program_address() {
    let address = Address::parse("11111111111111111111111111111111").unwrap();
    assert_eq!(address.bytes, [0u8; 32]);
}

#[test]
fn parse_agrees_with_the_sdk_on_a_random_key() {
    let key = Pubkey::new_unique();
    let address = Address::parse(&key.to_string()).unwrap();
    assert_eq!(address.bytes, key.to_bytes());
}

#[test]
fn parse_refuses_a_text_that_is_too_short() {
    match Address::parse("abc") {
        Err(WalletError::InvalidAddress { address, cause }) => {
            assert_eq!(address, "abc");
            assert_eq!(cause, "String is the wrong size");
        }
        other => panic!("unexpected: {:?}", other),
    }
}

#[test]
fn parse_refuses_the_empty_text() {
    assert!(matches!(Address::parse(""), Err(WalletError::InvalidAddress { .. })));
}

#[test]
fn parse_refuses_a_text_that_is_too_long() {
    let text = "1".repeat(45);
    match Address::parse(&text) {
        Err(WalletError::InvalidAddress { address, cause }) => {
            assert_eq!(address, text);
            assert_eq!(cause, "String is the wrong size");
        }
        other => panic!("unexpected: {:?}", other),
    }
}

#[test]
fn parse_refuses_characters_outside_base58() {
    let text = "0OIl0OIl0OIl0OIl0OIl0OIl0OIl0OIl";
    match Address::parse(text) {
        Err(WalletError::InvalidAddress { address, cause }) => {
            assert_eq!(address, text);
            assert_eq!(cause, "Invalid Base58 string");
        }
        other => panic!("unexpected: {:?}", other),
    }
}

#[test]
fn to_text_is_the_base58_text_of_the_sdk() {
    let key = Pubkey::new_unique();
    let address = Address { bytes: key.to_bytes() };
    assert_eq!(address.to_text(), key.to_string());
    assert_eq!(Address { bytes: [0u8; 32] }.to_text(), "11111111111111111111111111111111");
}

#[test]
fn to_text_parses_back_to_the_address() {
    let address = Address { bytes: SdkKeypair::new().pubkey().to_bytes() };
    assert_eq!(Address::parse(&address.to_text()).unwrap(), address);
}

#[test]
fn generate_gives_a_keypair_the_sdk_accepts() {
    let keypair = Keypair::generate();
    let sdk = SdkKeypair::from_bytes(&keypair.to_bytes()).unwrap();
    assert_eq!(keypair.address().bytes, sdk.pubkey().to_bytes());
}

#[test]
fn generate_gives_a_new_keypair_each_time() {
    assert_ne!(Keypair::generate().to_bytes(), Keypair::generate().to_bytes());
}

#[test]
fn address_is_the_second_half_of_the_keypair() {
    let keypair = Keypair::generate();
    let bytes = keypair.to_bytes();
    assert_eq!(&keypair.address().bytes[..], &bytes[32..]);
}

#[test]
fn from_bytes_accepts_a_keypair_of_the_sdk() {
    let sdk = SdkKeypair::new();
    let keypair = Keypair::from_bytes(sdk.to_bytes()).unwrap();
    assert_eq!(keypair.to_bytes(), sdk.to_bytes());
    assert_eq!(keypair.address().bytes, sdk.pubkey().to_bytes());
}

#[test]
fn from_bytes_refuses_bytes_that_are_no_keypair() {
    assert!(Keypair::from_bytes([0u8; 64]).is_none());
    let mut bytes = SdkKeypair::new().to_bytes();
    bytes[63] ^= 1;
    assert!(Keypair::from_bytes(bytes).is_none());
}

#[test]
fn read_takes_the_keypair_out_of_a_keypair_file() {
    let sdk = SdkKeypair::new();
    let keypair = Keypair::read(&keypair_json(&sdk)).unwrap();
    assert_eq!(keypair.to_bytes(), sdk.to_bytes());
}

#[test]
fn read_refuses_what_is_no_json() {
    let cause = Keypair::read(b"not a keypair").unwrap_err();
    assert!(!cause.is_empty());
    assert!(cause.contains("line 1"));
}

#[test]
fn read_refuses_a_list_that_is_too_short() {
    let cause = Keypair::read(b"[1, 2, 3]").unwrap_err();
    assert!(!cause.is_empty());
}

#[test]
fn read_refuses_an_empty_file() {
    assert!(Keypair::read(b"").is_err());
}

#[test]
fn sign_makes_one_signed_transfer() {
    let from = SdkKeypair::new();
    let to = Pubkey::new_unique();
    let blockhash = solana_sdk::hash::hash(b"abc");
    let keypair = Keypair::from_bytes(from.to_bytes()).unwrap();
    let signed =
        SignedTransfer::sign(&keypair, Address { bytes: to.to_bytes() }, 7, blockhash.to_bytes());
    assert_eq!(signed.from().bytes, from.pubkey().to_bytes());
    assert_eq!(signed.to().bytes, to.to_bytes());
    assert_eq!(signed.lamports(), 7);
    assert_eq!(signed.recent_blockhash(), blockhash.to_bytes());
    let expected = solana_sdk::transaction::Transaction::new_signed_with_payer(
        &[solana_program::system_instruction::transfer(&from.pubkey(), &to, 7)],
        Some(&from.pubkey()),
        &[&from],
        blockhash,
    );
    assert_eq!(signed.transaction(), &expected);
    assert!(signed.transaction().verify().is_ok());
}

#[test]
fn sign_allows_a_transfer_to_oneself() {
    let from = SdkKeypair::new();
    let keypair = Keypair::from_bytes(from.to_bytes()).unwrap();
    let signed = SignedTransfer::sign(&keypair, keypair.address(), 0, [9u8; 32]);
    assert!(signed.transaction().verify().is_ok());
    assert_eq!(signed.transaction().message.instructions.len(), 1);
}

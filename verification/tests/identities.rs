use sol_dash::error::WalletError;
use sol_dash::identity::{load_identity, read_json_keypair_file, Identity, KeypairFile};
use solana_sdk::pubkey::Pubkey;
use solana_sdk::signature::Keypair as SdkKeypair;
use solana_sdk::signer::keypair::write_keypair;
use solana_sdk::signer::Signer;

fn file_of(keypair: &SdkKeypair, path: &str) -> KeypairFile {
    let mut contents: Vec<u8> = Vec::new();
    write_keypair(keypair, &mut contents).unwrap();
    KeypairFile { path: path.to_string(), contents: Ok(contents) }
}

fn unreadable(path: &str) -> KeypairFile {
    KeypairFile {
        path: path.to_string(),
        contents: Err("No such file or directory (os error 2)".to_string()),
    }
}

#[test]
fn load_identity_needs_an_address_or_a_keypair() {
    assert!(matches!(load_identity(&None, &None), Err(WalletError::MissingIdentity)));
}

#[test]
fn load_identity_takes_an_address() {
    let key = Pubkey::new_unique();
    match load_identity(&Some(key.to_string()), &None) {
        Ok(Identity::Address(address)) => assert_eq!(address.bytes, key.to_bytes()),
        other => panic!("unexpected: {:?}", other),
    }
}

#[test]
fn load_identity_refuses_a_short_address() {
    match load_identity(&Some("short".to_string()), &None) {
        Err(WalletError::InvalidAddress { address, .. }) => assert_eq!(address, "short"),
        other => panic!("unexpected: {:?}", other),
    }
}

#[test]
fn load_identity_refuses_an_address_outside_base58() {
    let text = "!!!!!!!!!!!!!!!!!!!!!!!!!!!!!!!!".to_string();
    assert!(matches!(
        load_identity(&Some(text), &None),
        Err(WalletError::InvalidAddress { .. })
    ));
}

#[test]
fn load_identity_refuses_a_bad_address_whatever_the_keypair_file() {
    let good = file_of(&SdkKeypair::new(), "good.json");
    assert!(matches!(
        load_identity(&Some("bad".to_string()), &Some(good)),
        Err(WalletError::InvalidAddress { .. })
    ));
    assert!(matches!(
        load_identity(&Some("bad".to_string()), &Some(unreadable("gone.json"))),
        Err(WalletError::InvalidAddress { .. })
    ));
}

#[test]
fn load_identity_takes_a_keypair_file() {
    let sdk = SdkKeypair::new();
    match load_identity(&None, &Some(file_of(&sdk, "id.json"))) {
        Ok(Identity::Keypair(keypair)) => assert_eq!(keypair.to_bytes(), sdk.to_bytes()),
        other => panic!("unexpected: {:?}", other),
    }
}

#[test]
fn load_identity_keeps_both_sources() {
    let key = Pubkey::new_unique();
    let sdk = SdkKeypair::new();
    let identity = load_identity(&Some(key.to_string()), &Some(file_of(&sdk, "id.json"))).unwrap();
    assert_eq!(identity.first().bytes, key.to_bytes());
    assert_eq!(identity.second().unwrap().bytes, sdk.pubkey().to_bytes());
    assert!(matches!(identity, Identity::Both(_, _)));
}

#[test]
fn identity_of_one_source_has_one_account() {
    let key = Pubkey::new_unique();
    let by_address = load_identity(&Some(key.to_string()), &None).unwrap();
    assert_eq!(by_address.first().bytes, key.to_bytes());
    assert!(by_address.second().is_none());
    let sdk = SdkKeypair::new();
    let by_keypair = load_identity(&None, &Some(file_of(&sdk, "id.json"))).unwrap();
    assert_eq!(by_keypair.first().bytes, sdk.pubkey().to_bytes());
    assert!(by_keypair.second().is_none());
}

#[test]
fn load_identity_reports_a_file_that_could_not_be_read() {
    let key = Pubkey::new_unique();
    match load_identity(&Some(key.to_string()), &Some(unreadable("gone.json"))) {
        Err(WalletError::KeypairReadError { path, cause }) => {
            assert_eq!(path, "gone.json");
            assert_eq!(cause, "No such file or directory (os error 2)");
        }
        other => panic!("unexpected: {:?}", other),
    }
}

#[test]
fn read_json_keypair_file_reports_contents_that_are_no_keypair() {
    let file = KeypairFile { path: "junk.json".to_string(), contents: Ok(b"{}".to_vec()) };
    match read_json_keypair_file(&file) {
        Err(error) => {
            assert!(matches!(error, WalletError::KeypairReadError { .. }));
            assert!(error
                .message()
                .starts_with("Failed to read keypair from file `junk.json`: "));
        }
        other => panic!("unexpected: {:?}", other),
    }
}

#[test]
fn read_json_keypair_file_reports_a_keypair_whose_halves_do_not_match() {
    let mut bytes = SdkKeypair::new().to_bytes().to_vec();
    bytes[0] ^= 1;
    let file =
        KeypairFile { path: "forged.json".to_string(), contents: Ok(format!("{:?}", bytes).into_bytes()) };
    assert!(matches!(
        read_json_keypair_file(&file),
        Err(WalletError::KeypairReadError { .. })
    ));
}

#[test]
fn read_json_keypair_file_gives_the_keypair() {
    let sdk = SdkKeypair::new();
    let keypair = read_json_keypair_file(&file_of(&sdk, "id.json")).unwrap();
    assert_eq!(keypair.to_bytes(), sdk.to_bytes());
    assert_eq!(keypair.address().to_text(), sdk.pubkey().to_string());
}

#[test]
fn error_messages_are_fixed() {
    assert_eq!(
        WalletError::MissingIdentity.message(),
        "Either `address` or `keypair` must be provided."
    );
    assert_eq!(
        WalletError::AirdropNotSupported.message(),
        "You can only request for an airdrop on devnet or localnet at the moment"
    );
    let invalid = WalletError::InvalidAddress {
        address: "xyz".to_string(),
        cause: "String is the wrong size".to_string(),
    };
    assert_eq!(invalid.message(), "Invalid public key address: xyz");
    assert_eq!(invalid.source(), Some("String is the wrong size".to_string()));
    let read = WalletError::KeypairReadError { path: "a.json".to_string(), cause: "gone".to_string() };
    assert_eq!(read.message(), "Failed to read keypair from file `a.json`: gone");
    assert_eq!(read.source(), None);
    let write =
        WalletError::KeypairWriteError { path: "b.json".to_string(), cause: "denied".to_string() };
    assert_eq!(write.message(), "Failed to write keypair to file `b.json`: denied");
    let rpc = WalletError::RpcError { cause: "rate limited".to_string() };
    assert_eq!(rpc.message(), "rate limited");
    assert_eq!(rpc.source(), None);
}

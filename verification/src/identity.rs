//! Whose account a command concerns.
//!
//! An account is named by its address, or by the file of the keypair that
//! signs for it, or by both; naming none is an error. The file is read by the
//! caller: what the resolver takes is the outcome of that reading.

use vstd::prelude::*;
use crate::error::{WalletError, WalletErrorView};
use crate::keys::{
    spec_checked,
    spec_keypair_address,
    spec_parse_address,
    spec_read_keypair,
    Address,
    Keypair,
};

verus! {

/// A keypair file, as far as it could be read: its path, and its contents or
/// the message of the failure to read it.
#[derive(Debug)]
pub struct KeypairFile {
    pub path: String,
    pub contents: Result<Vec<u8>, String>,
}

/// A [`KeypairFile`] with its texts and bytes as sequences.
pub struct KeypairFileView {
    pub path: Seq<char>,
    pub contents: Result<Seq<u8>, Seq<char>>,
}

/// The outcome of reading a file, with its bytes or its message as a
/// sequence.
pub open spec fn spec_contents(contents: Result<Vec<u8>, String>) -> Result<Seq<u8>, Seq<char>> {
    match contents {
        Ok(bytes) => Ok(bytes@),
        Err(cause) => Err(cause@),
    }
}

impl View for KeypairFile {
    type V = KeypairFileView;

    open spec fn view(&self) -> KeypairFileView {
        KeypairFileView { path: self.path@, contents: spec_contents(self.contents) }
    }
}

/// The account, or the two accounts, that a command concerns.
#[derive(Debug)]
pub enum Identity {
    /// An account that is only known by its address.
    Address(Address),
    /// An account whose keypair is at hand.
    Keypair(Keypair),
    /// An account known by its address, and one whose keypair is at hand.
    Both(Address, Keypair),
}

/// An [`Identity`] with its addresses and keypairs as sequences of bytes.
pub enum IdentityView {
    Address(Seq<u8>),
    Keypair(Seq<u8>),
    Both(Seq<u8>, Seq<u8>),
}

impl View for Identity {
    type V = IdentityView;

    open spec fn view(&self) -> IdentityView {
        match self {
            Identity::Address(address) => IdentityView::Address(address@),
            Identity::Keypair(keypair) => IdentityView::Keypair(keypair@),
            Identity::Both(address, keypair) => IdentityView::Both(address@, keypair@),
        }
    }
}

impl IdentityView {
    /// The address of the first account: the one given by address, where one
    /// was, else the keypair's.
    pub open spec fn first(self) -> Seq<u8> {
        match self {
            IdentityView::Address(address) => address,
            IdentityView::Keypair(keypair) => spec_keypair_address(keypair),
            IdentityView::Both(address, keypair) => address,
        }
    }

    /// The address of the second account: the keypair's, where an address was
    /// given beside it.
    pub open spec fn second(self) -> Option<Seq<u8>> {
        match self {
            IdentityView::Both(address, keypair) => Some(spec_keypair_address(keypair)),
            _ => None,
        }
    }
}

/// An optional address, as its bytes.
pub open spec fn spec_optional_address(address: Option<Address>) -> Option<Seq<u8>> {
    match address {
        Some(address) => Some(address@),
        None => None,
    }
}

/// An optional text, as its characters.
pub open spec fn spec_optional_text(text: Option<String>) -> Option<Seq<char>> {
    match text {
        Some(text) => Some(text@),
        None => None,
    }
}

/// An optional keypair file, as its view.
pub open spec fn spec_optional_file(file: Option<KeypairFile>) -> Option<KeypairFileView> {
    match file {
        Some(file) => Some(file@),
        None => None,
    }
}

impl Identity {
    /// The address of the first account: the one given by address, where one
    /// was, else the keypair's.
    pub fn first(&self) -> (address: Address)
        ensures
            address@ == self@.first(),
    {
        match self {
            Identity::Address(address) => *address,
            Identity::Keypair(keypair) => keypair.address(),
            Identity::Both(address, keypair) => *address,
        }
    }

    /// The address of the second account: the keypair's, where an address was
    /// given beside it.
    pub fn second(&self) -> (address: Option<Address>)
        ensures
            spec_optional_address(address) == self@.second(),
    {
        match self {
            Identity::Both(address, keypair) => Some(keypair.address()),
            _ => None,
        }
    }
}

/// The keypair in a keypair file, or the error that names the file and says
/// why it gave none: it could not be read, or its contents are no keypair.
pub open spec fn spec_read_keypair_file(file: KeypairFileView) -> Result<
    Seq<u8>,
    WalletErrorView,
> {
    match file.contents {
        Ok(bytes) => match spec_read_keypair(bytes) {
            Ok(keypair) => Ok(keypair),
            Err(cause) => Err(WalletErrorView::KeypairReadError { path: file.path, cause }),
        },
        Err(cause) => Err(WalletErrorView::KeypairReadError { path: file.path, cause }),
    }
}

/// The identity that an optional address and an optional keypair file make.
/// The address is looked at first.
pub open spec fn spec_load_identity(
    address: Option<Seq<char>>,
    keypair: Option<KeypairFileView>,
) -> Result<IdentityView, WalletErrorView> {
    match address {
        Some(text) => match spec_parse_address(text) {
            Ok(address) => match keypair {
                Some(file) => match spec_read_keypair_file(file) {
                    Ok(keypair) => Ok(IdentityView::Both(address, keypair)),
                    Err(error) => Err(error),
                },
                None => Ok(IdentityView::Address(address)),
            },
            Err(error) => Err(error),
        },
        None => match keypair {
            Some(file) => match spec_read_keypair_file(file) {
                Ok(keypair) => Ok(IdentityView::Keypair(keypair)),
                Err(error) => Err(error),
            },
            None => Err(WalletErrorView::MissingIdentity),
        },
    }
}

/// Takes the keypair out of a keypair file that the caller has read. Where
/// the file could not be read, or its contents are no keypair, the error
/// names the file and gives the reason.
pub fn read_json_keypair_file(file: &KeypairFile) -> (keypair: Result<Keypair, WalletError>)
    ensures
        spec_checked(keypair) == spec_read_keypair_file(file@),
{
    match &file.contents {
        Ok(bytes) => match Keypair::read(bytes.as_slice()) {
            Ok(keypair) => Ok(keypair),
            Err(cause) => Err(WalletError::KeypairReadError { path: file.path.clone(), cause }),
        },
        Err(cause) => Err(
            WalletError::KeypairReadError { path: file.path.clone(), cause: cause.clone() },
        ),
    }
}

/// Resolves the account, or the two accounts, that a command concerns.
///
/// With neither an address nor a keypair file there is no identity. An
/// address that does not parse is refused, whatever the file holds; then a
/// file that gives no keypair is. Otherwise the identity holds what was
/// given.
pub fn load_identity(address: &Option<String>, keypair: &Option<KeypairFile>) -> (identity: Result<
    Identity,
    WalletError,
>)
    ensures
        spec_checked(identity) == spec_load_identity(
            spec_optional_text(*address),
            spec_optional_file(*keypair),
        ),
        (address is None && keypair is None) <==> (identity matches Err(
            WalletError::MissingIdentity,
        )),
        (address matches Some(text) && spec_parse_address(text@) is Err) <==> (identity matches Err(
            WalletError::InvalidAddress { .. },
        )),
        (address matches Some(text) && spec_parse_address(text@) is Ok && keypair is None)
            ==> identity is Ok,
{
    let given: Option<Address> = match address {
        Some(text) => match Address::parse(text.as_str()) {
            Ok(address) => Some(address),
            Err(error) => {
                return Err(error);
            },
        },
        None => None,
    };
    let signer: Option<Keypair> = match keypair {
        Some(file) => match read_json_keypair_file(file) {
            Ok(keypair) => Some(keypair),
            Err(error) => {
                return Err(error);
            },
        },
        None => None,
    };
    match given {
        Some(address) => match signer {
            Some(keypair) => Ok(Identity::Both(address, keypair)),
            None => Ok(Identity::Address(address)),
        },
        None => match signer {
            Some(keypair) => Ok(Identity::Keypair(keypair)),
            None => Err(WalletError::MissingIdentity),
        },
    }
}

} // verus!

//! What can go wrong.

use vstd::prelude::*;

verus! {

/// Why a command failed.
#[derive(Debug)]
pub enum WalletError {
    /// Neither an address nor a keypair file was given.
    MissingIdentity,
    /// A text that should be an address is none.
    InvalidAddress { address: String, cause: String },
    /// A keypair file could not be read, or holds no keypair.
    KeypairReadError { path: String, cause: String },
    /// A keypair file could not be written.
    KeypairWriteError { path: String, cause: String },
    /// An airdrop was asked of a network that gives none.
    AirdropNotSupported,
    /// The RPC node, or the way to it, failed.
    RpcError { cause: String },
}

/// A [`WalletError`] with its texts as sequences of characters.
pub enum WalletErrorView {
    MissingIdentity,
    InvalidAddress { address: Seq<char>, cause: Seq<char> },
    KeypairReadError { path: Seq<char>, cause: Seq<char> },
    KeypairWriteError { path: Seq<char>, cause: Seq<char> },
    AirdropNotSupported,
    RpcError { cause: Seq<char> },
}

impl View for WalletError {
    type V = WalletErrorView;

    open spec fn view(&self) -> WalletErrorView {
        match self {
            WalletError::MissingIdentity => WalletErrorView::MissingIdentity,
            WalletError::InvalidAddress { address, cause } => WalletErrorView::InvalidAddress {
                address: address@,
                cause: cause@,
            },
            WalletError::KeypairReadError { path, cause } => WalletErrorView::KeypairReadError {
                path: path@,
                cause: cause@,
            },
            WalletError::KeypairWriteError { path, cause } => WalletErrorView::KeypairWriteError {
                path: path@,
                cause: cause@,
            },
            WalletError::AirdropNotSupported => WalletErrorView::AirdropNotSupported,
            WalletError::RpcError { cause } => WalletErrorView::RpcError { cause: cause@ },
        }
    }
}

impl WalletErrorView {
    /// The message of the error.
    pub open spec fn spec_message(self) -> Seq<char> {
        match self {
            WalletErrorView::MissingIdentity => "Either `address` or `keypair` must be provided."@,
            WalletErrorView::InvalidAddress { address, cause } => "Invalid public key address: "@
                + address,
            WalletErrorView::KeypairReadError { path, cause } =>
                "Failed to read keypair from file `"@ + path + "`: "@ + cause,
            WalletErrorView::KeypairWriteError { path, cause } =>
                "Failed to write keypair to file `"@ + path + "`: "@ + cause,
            WalletErrorView::AirdropNotSupported =>
                "You can only request for an airdrop on devnet or localnet at the moment"@,
            WalletErrorView::RpcError { cause } => cause,
        }
    }

    /// The message of what lies behind the error, where the message of the
    /// error itself does not hold it.
    pub open spec fn spec_source(self) -> Option<Seq<char>> {
        match self {
            WalletErrorView::InvalidAddress { address, cause } => Some(cause),
            _ => None,
        }
    }
}

impl WalletError {
    /// The message of the error.
    pub fn message(&self) -> (text: String)
        ensures
            text@ == self@.spec_message(),
    {
        match self {
            WalletError::MissingIdentity => String::from_str(
                "Either `address` or `keypair` must be provided.",
            ),
            WalletError::InvalidAddress { address, cause } => {
                let mut text = String::from_str("Invalid public key address: ");
                text.append(address.as_str());
                text
            },
            WalletError::KeypairReadError { path, cause } => {
                let mut text = String::from_str("Failed to read keypair from file `");
                text.append(path.as_str());
                text.append("`: ");
                text.append(cause.as_str());
                text
            },
            WalletError::KeypairWriteError { path, cause } => {
                let mut text = String::from_str("Failed to write keypair to file `");
                text.append(path.as_str());
                text.append("`: ");
                text.append(cause.as_str());
                text
            },
            WalletError::AirdropNotSupported => String::from_str(
                "You can only request for an airdrop on devnet or localnet at the moment",
            ),
            WalletError::RpcError { cause } => cause.clone(),
        }
    }

    /// The message of what lies behind the error, where the message of the
    /// error itself does not hold it.
    pub fn source(&self) -> (text: Option<String>)
        ensures
            text is Some <==> self@.spec_source() is Some,
            text matches Some(t) ==> t@ == self@.spec_source().unwrap(),
    {
        match self {
            WalletError::InvalidAddress { address, cause } => Some(cause.clone()),
            _ => None,
        }
    }
}

} // verus!

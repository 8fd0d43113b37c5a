//! The commands and how each one starts.

use vstd::prelude::*;
use crate::amount::{whole_sol_to_lamports, LAMPORTS_PER_SOL};
use crate::error::{WalletError, WalletErrorView};
use crate::identity::{
    load_identity,
    spec_load_identity,
    spec_optional_text,
    spec_read_keypair_file,
    KeypairFileView,
};
use crate::keys::{spec_keypair_accepted, spec_parse_address, Address, Keypair, KEYPAIR_LENGTH};
use crate::network::{Network, RpcTarget, RpcTargetView};
use crate::output::{push_keypair_lines, spec_keypair_lines, spec_unsaved_line, Line};
use crate::session::{
    spec_errand,
    spec_keypair_read,
    spec_failed,
    spec_finished,
    spec_query_balances,
    spec_request_airdrops,
    KeypairRead,
    KeypairReadView,
    KeypairWrite,
    KeypairWriteView,
    Next,
    NextView,
    Purpose,
    PurposeView,
    Step,
    StepView,
};

verus! {

/// What `generate` takes: the file to save the new keypair to, if any.
#[derive(Clone, Debug)]
pub struct GenerateArgs {
    pub output_file: Option<String>,
}

/// What `balance` takes: the address of a wallet, the file of a keypair, or
/// both, and the network to ask.
#[derive(Clone, Debug)]
pub struct WalletArgs {
    pub address: Option<String>,
    pub keypair: Option<String>,
    pub network: Network,
}

/// What `airdrop` takes: the address of a wallet, the file of a keypair, or
/// both, the network to ask, and the amount in whole SOL.
#[derive(Clone, Debug)]
pub struct AirdropArgs {
    pub address: Option<String>,
    pub keypair: Option<String>,
    pub network: Network,
    pub value: u64,
}

/// What `transfer` takes: the file of the keypair of the wallet to transfer
/// from, the address of the wallet to transfer to, the network, and the
/// amount in lamports.
#[derive(Clone, Debug)]
pub struct TransferArgs {
    pub from: String,
    pub to: String,
    pub network: Network,
    pub lamports: u64,
}

/// A command with what it takes.
#[derive(Clone, Debug)]
pub enum Commands {
    /// Generate a keypair and save it to a file, if one is named.
    Generate(GenerateArgs),
    /// Show the balance of a wallet.
    Balance(WalletArgs),
    /// Request an airdrop.
    Airdrop(AirdropArgs),
    /// Transfer SOL.
    Transfer(TransferArgs),
}

/// What was given on the command line.
#[derive(Clone, Debug)]
pub struct Cli {
    pub command: Commands,
}

/// The error for an address that is given and is none.
pub open spec fn spec_address_error(address: Option<Seq<char>>) -> Option<WalletErrorView> {
    match address {
        Some(text) => match spec_parse_address(text) {
            Ok(_) => None,
            Err(error) => Some(error),
        },
        None => None,
    }
}

/// The first step towards the accounts of a command that takes an address, a
/// keypair file, or both.
///
/// Without a keypair file the identity is resolved at once, and `ready` says
/// what to do with it. With one, the address is looked at first, so that an
/// address that is none is refused before any file is read; then the file is
/// asked for, with `purpose` as the note of what to do once it is there.
pub open spec fn spec_identify(
    address: Option<Seq<char>>,
    keypair: Option<Seq<char>>,
    target: RpcTargetView,
    purpose: PurposeView,
    ready: spec_fn(crate::identity::IdentityView) -> StepView,
) -> StepView {
    match keypair {
        Some(path) => match spec_address_error(address) {
            Some(error) => spec_failed(error),
            None => spec_errand(
                NextView::ReadKeypairFile(KeypairReadView { target, path, purpose }),
            ),
        },
        None => match spec_load_identity(address, None) {
            Ok(identity) => ready(identity),
            Err(error) => spec_failed(error),
        },
    }
}

/// The first step of `balance` against the node at `target`.
pub open spec fn spec_wallet_balance(args: WalletArgs, target: RpcTargetView) -> StepView {
    let address = spec_optional_text(args.address);
    spec_identify(
        address,
        spec_optional_text(args.keypair),
        target,
        PurposeView::Balance { address },
        |identity: crate::identity::IdentityView| spec_query_balances(target, identity),
    )
}

/// The first step of `airdrop` against the node at `target`.
pub open spec fn spec_request_airdrop(args: AirdropArgs, target: RpcTargetView) -> StepView {
    let address = spec_optional_text(args.address);
    let lamports = (args.value * LAMPORTS_PER_SOL) as u64;
    spec_identify(
        address,
        spec_optional_text(args.keypair),
        target,
        PurposeView::Airdrop { address, value: args.value },
        |identity: crate::identity::IdentityView|
            spec_request_airdrops(target, identity, lamports),
    )
}

/// The first step of `airdrop`: a refusal on a network that gives none.
pub open spec fn spec_request_airdrop_handler(args: AirdropArgs) -> StepView {
    if args.network.spec_allows_airdrop() {
        spec_request_airdrop(args, args.network.spec_resolve())
    } else {
        spec_failed(WalletErrorView::AirdropNotSupported)
    }
}

/// The first step of `transfer` against the node at `target`: reading the
/// keypair file of the source.
pub open spec fn spec_transfer_sol(args: TransferArgs, target: RpcTargetView) -> StepView {
    spec_errand(
        NextView::ReadKeypairFile(
            KeypairReadView {
                target,
                path: args.from@,
                purpose: PurposeView::Transfer { to: args.to@, lamports: args.lamports },
            },
        ),
    )
}

/// The first step of `generate` with a new keypair: writing it to the file
/// that was named, or, where none was, showing it.
pub open spec fn spec_show_keypair(args: GenerateArgs, keypair: Seq<u8>) -> StepView {
    match args.output_file {
        Some(path) => spec_errand(
            NextView::WriteKeypairFile(KeypairWriteView { path: path@, keypair }),
        ),
        None => spec_finished(seq![spec_unsaved_line()] + spec_keypair_lines(keypair)),
    }
}

/// A copy of an optional text.
fn copy_optional_text(text: &Option<String>) -> (copy: Option<String>)
    ensures
        spec_optional_text(copy) == spec_optional_text(*text),
{
    match text {
        Some(text) => Some(text.clone()),
        None => None,
    }
}

/// Looks at an address that may have been given: an error where one was and
/// is none.
fn check_address(address: &Option<String>) -> (error: Option<WalletError>)
    ensures
        error is Some <==> spec_address_error(spec_optional_text(*address)) is Some,
        error matches Some(e) ==> spec_address_error(spec_optional_text(*address)) == Some(e@),
{
    match address {
        Some(text) => match Address::parse(text.as_str()) {
            Ok(_) => None,
            Err(error) => Some(error),
        },
        None => None,
    }
}

impl GenerateArgs {
    /// Starts `generate`: makes a new keypair at random, and goes on as
    /// [`GenerateArgs::show_keypair`] does with it.
    ///
    /// Without an output file nothing is asked of the caller: the step prints
    /// the keypair and ends the command.
    pub fn generate_keypair(&self) -> (step: Step)
        ensures
            exists|keypair: Seq<u8>|
                spec_keypair_accepted(keypair) && keypair.len() == KEYPAIR_LENGTH && step@
                    == #[trigger] spec_show_keypair(*self, keypair),
            self.output_file is None ==> !step@.is_errand(),
            self.output_file is Some ==> step@.next is WriteKeypairFile,
    {
        self.show_keypair(Keypair::generate())
    }

    /// Goes on with a new keypair. With an output file, the keypair is handed
    /// out to be written there, and nothing is printed yet. Without one, the
    /// step says so, prints the address, the bytes and the warning, and ends
    /// the command.
    pub fn show_keypair(&self, keypair: Keypair) -> (step: Step)
        ensures
            step@ == spec_show_keypair(*self, keypair@),
    {
        match &self.output_file {
            Some(path) => Step::errand(
                Next::WriteKeypairFile(KeypairWrite { path: path.clone(), keypair }),
            ),
            None => {
                let mut output: Vec<Line> = Vec::new();
                output.push(Line::unsaved());
                push_keypair_lines(&mut output, &keypair);
                let step = Step { output, next: Next::Finished };
                assert(step@.output =~= seq![spec_unsaved_line()] + spec_keypair_lines(keypair@));
                step
            },
        }
    }
}

impl WalletArgs {
    /// Starts `balance` on the network that was chosen.
    pub fn get_balance_handler(&self) -> (step: Step)
        ensures
            step@ == spec_wallet_balance(*self, self.network.spec_resolve()),
    {
        self.get_wallet_balance(self.network.resolve())
    }

    /// Starts `balance` against the node at `target`.
    ///
    /// With neither an address nor a keypair file the command fails for want
    /// of an identity; with an address that is none, for that. Both are found
    /// before anything is asked of the caller. Otherwise the keypair file is
    /// asked for, where one was named, or else the balance of the address.
    pub fn get_wallet_balance(&self, target: RpcTarget) -> (step: Step)
        ensures
            step@ == spec_wallet_balance(*self, target@),
    {
        match &self.keypair {
            Some(path) => match check_address(&self.address) {
                Some(error) => Step::failed(error),
                None => Step::errand(
                    Next::ReadKeypairFile(
                        KeypairRead {
                            target,
                            path: path.clone(),
                            purpose: Purpose::Balance { address: copy_optional_text(&self.address) },
                        },
                    ),
                ),
            },
            None => match load_identity(&self.address, &None) {
                Ok(identity) => Step::query_balances(target, &identity),
                Err(error) => Step::failed(error),
            },
        }
    }
}

impl AirdropArgs {
    /// Whether the amount, in lamports, fits in 64 bits.
    pub open spec fn spec_fits(&self) -> bool {
        self.value * LAMPORTS_PER_SOL <= u64::MAX
    }

    /// Whether the first step of `airdrop` needs the amount in lamports: it
    /// does where the identity is resolved at once, from an address alone.
    pub open spec fn spec_converts_at_once(&self) -> bool {
        self.keypair is None && spec_load_identity(spec_optional_text(self.address), None) is Ok
    }

    /// Whether `airdrop` can be started: where its first step needs the
    /// amount in lamports, the amount must fit in 64 bits.
    pub open spec fn spec_can_request(&self) -> bool {
        self.spec_converts_at_once() ==> self.spec_fits()
    }

    /// Whether `airdrop` can be started.
    pub fn can_request(&self) -> (possible: bool)
        ensures
            possible == self.spec_can_request(),
    {
        if self.lamports().is_some() {
            true
        } else {
            match &self.keypair {
                Some(_) => true,
                None => load_identity(&self.address, &None).is_err(),
            }
        }
    }

    /// The amount in lamports; `None` where it does not fit in 64 bits.
    pub fn lamports(&self) -> (lamports: Option<u64>)
        ensures
            lamports is Some <==> self.spec_fits(),
            lamports matches Some(n) ==> n == self.value * LAMPORTS_PER_SOL,
    {
        whole_sol_to_lamports(self.value)
    }

    /// Starts `airdrop` on the network that was chosen. The production
    /// network gives no airdrops: there the command fails at once, whatever
    /// else was given, and nothing is asked of the caller.
    pub fn request_airdrop_handler(&self) -> (step: Step)
        requires
            self.network.spec_allows_airdrop() ==> self.spec_can_request(),
        ensures
            step@ == spec_request_airdrop_handler(*self),
            self.network == Network::Mainnet ==> step@ == spec_failed(
                WalletErrorView::AirdropNotSupported,
            ),
    {
        if self.network.allows_airdrop() {
            self.request_airdrop(self.network.resolve())
        } else {
            Step::failed(WalletError::AirdropNotSupported)
        }
    }

    /// Starts `airdrop` against the node at `target`.
    ///
    /// The identity is looked for as `balance` does, and a missing or invalid
    /// one fails the command whatever the amount is. Once the identity is
    /// there, the amount is converted to lamports, and an airdrop of it is
    /// requested for each account.
    pub fn request_airdrop(&self, target: RpcTarget) -> (step: Step)
        requires
            self.spec_can_request(),
        ensures
            step@ == spec_request_airdrop(*self, target@),
    {
        match &self.keypair {
            Some(path) => match check_address(&self.address) {
                Some(error) => Step::failed(error),
                None => Step::errand(
                    Next::ReadKeypairFile(
                        KeypairRead {
                            target,
                            path: path.clone(),
                            purpose: Purpose::Airdrop {
                                address: copy_optional_text(&self.address),
                                value: self.value,
                            },
                        },
                    ),
                ),
            },
            None => match load_identity(&self.address, &None) {
                Ok(identity) => Step::request_airdrops(
                    target,
                    &identity,
                    self.value * LAMPORTS_PER_SOL,
                ),
                Err(error) => Step::failed(error),
            },
        }
    }
}

impl TransferArgs {
    /// Starts `transfer` on the network that was chosen.
    pub fn transfer_handler(&self) -> (step: Step)
        ensures
            step@ == spec_transfer_sol(*self, self.network.spec_resolve()),
    {
        self.transfer_sol(self.network.resolve())
    }

    /// Starts `transfer` against the node at `target`: asks for the keypair
    /// file of the source. Whatever else can fail is found once the keypair is
    /// there.
    pub fn transfer_sol(&self, target: RpcTarget) -> (step: Step)
        ensures
            step@ == spec_transfer_sol(*self, target@),
    {
        Step::errand(
            Next::ReadKeypairFile(
                KeypairRead {
                    target,
                    path: self.from.clone(),
                    purpose: Purpose::Transfer { to: self.to.clone(), lamports: self.lamports },
                },
            ),
        )
    }
}

/// With neither an address nor a keypair file, `balance` fails at its first
/// step for want of an identity, and asks nothing of the caller.
pub proof fn lemma_balance_needs_identity(args: WalletArgs, target: RpcTargetView)
    requires
        args.address is None,
        args.keypair is None,
    ensures
        spec_wallet_balance(args, target) == spec_failed(WalletErrorView::MissingIdentity),
        !spec_wallet_balance(args, target).is_errand(),
{
}

/// With neither an address nor a keypair file, `airdrop` fails at its first
/// step for want of an identity, and asks nothing of the caller.
pub proof fn lemma_airdrop_needs_identity(args: AirdropArgs, target: RpcTargetView)
    requires
        args.address is None,
        args.keypair is None,
    ensures
        spec_request_airdrop(args, target) == spec_failed(WalletErrorView::MissingIdentity),
        !spec_request_airdrop(args, target).is_errand(),
{
}

/// On the production network `airdrop` fails at its first step, whatever the
/// address, the keypair file and the amount are, and asks nothing of the
/// caller.
pub proof fn lemma_no_airdrop_in_production(args: AirdropArgs)
    requires
        args.network == Network::Mainnet,
    ensures
        spec_request_airdrop_handler(args) == spec_failed(WalletErrorView::AirdropNotSupported),
        !spec_request_airdrop_handler(args).is_errand(),
{
}

/// An address that is given and is none makes `balance` and `airdrop` fail at
/// their first step, before any file is read and before the node is asked
/// anything.
pub proof fn lemma_invalid_address_fails_first(
    balance: WalletArgs,
    airdrop: AirdropArgs,
    target: RpcTargetView,
)
    requires
        balance.address matches Some(text) && spec_parse_address(text@) is Err,
        airdrop.address matches Some(text) && spec_parse_address(text@) is Err,
    ensures
        spec_wallet_balance(balance, target).next matches NextView::Failed(
            WalletErrorView::InvalidAddress { .. },
        ),
        spec_request_airdrop(airdrop, target).next matches NextView::Failed(
            WalletErrorView::InvalidAddress { .. },
        ),
{
}

/// The first step of a command talks to the node only where the identity is
/// settled by then: an address was given, it is one, and no keypair file was
/// named.
pub proof fn lemma_first_call_has_identity(
    balance: WalletArgs,
    airdrop: AirdropArgs,
    transfer: TransferArgs,
    target: RpcTargetView,
)
    ensures
        spec_wallet_balance(balance, target).is_network_call() ==> balance.keypair is None
            && spec_load_identity(spec_optional_text(balance.address), None) is Ok,
        spec_request_airdrop(airdrop, target).is_network_call() ==> airdrop.keypair is None
            && spec_load_identity(spec_optional_text(airdrop.address), None) is Ok,
        !spec_transfer_sol(transfer, target).is_network_call(),
{
}

/// Once a keypair file was read, a command talks to the node only where the
/// file gave a keypair and every address that was given is one.
pub proof fn lemma_later_call_has_identity(
    errand: KeypairReadView,
    contents: Result<Seq<u8>, Seq<char>>,
)
    requires
        spec_keypair_read(errand, contents).is_network_call(),
    ensures
        spec_read_keypair_file(KeypairFileView { path: errand.path, contents }) is Ok,
        match errand.purpose {
            PurposeView::Balance { address } => spec_address_error(address) is None,
            PurposeView::Airdrop { address, value } => spec_address_error(address) is None,
            PurposeView::Transfer { to, lamports } => spec_parse_address(to) is Ok,
        },
{
}

} // verus!

//! A command in progress.
//!
//! A command runs as a series of steps. Each step gives the lines to print
//! now and what comes next: an errand for the caller (read a file, ask the RPC
//! node), the end, or a failure. An errand is a value that holds what the
//! command needs to go on; handing it the outcome of the errand gives the next
//! step. No step retries, and nothing is done after a failure.

use vstd::prelude::*;
use crate::amount::{whole_sol_to_lamports, LAMPORTS_PER_SOL};
use crate::error::{WalletError, WalletErrorView};
use crate::identity::{
    load_identity,
    read_json_keypair_file,
    spec_contents,
    spec_load_identity,
    spec_optional_address,
    spec_optional_text,
    spec_read_keypair_file,
    Identity,
    IdentityView,
    KeypairFile,
    KeypairFileView,
};
use crate::keys::{
    spec_keypair_address,
    spec_parse_address,
    spec_sign_transfer,
    Address,
    Keypair,
    SignedTransfer,
};
use crate::network::{RpcTarget, RpcTargetView};
use crate::output::{
    push_keypair_lines,
    spec_airdrop_line,
    spec_balance_line,
    spec_keypair_lines,
    spec_lines,
    spec_saved_line,
    spec_transfer_line,
    Line,
    LineView,
};

verus! {

/// What a keypair file is read for.
#[derive(Debug)]
pub enum Purpose {
    /// To ask for the balance of its account, after that of `address`.
    Balance { address: Option<String> },
    /// To request an airdrop of `value` SOL to its account, after one to
    /// `address`.
    Airdrop { address: Option<String>, value: u64 },
    /// To transfer `lamports` from its account to the one at `to`.
    Transfer { to: String, lamports: u64 },
}

/// A [`Purpose`] with its texts as sequences of characters.
pub enum PurposeView {
    Balance { address: Option<Seq<char>> },
    Airdrop { address: Option<Seq<char>>, value: u64 },
    Transfer { to: Seq<char>, lamports: u64 },
}

impl View for Purpose {
    type V = PurposeView;

    open spec fn view(&self) -> PurposeView {
        match self {
            Purpose::Balance { address } => PurposeView::Balance {
                address: spec_optional_text(*address),
            },
            Purpose::Airdrop { address, value } => PurposeView::Airdrop {
                address: spec_optional_text(*address),
                value: *value,
            },
            Purpose::Transfer { to, lamports } => PurposeView::Transfer {
                to: to@,
                lamports: *lamports,
            },
        }
    }
}

/// The errand of reading the keypair file at `path`.
#[derive(Debug)]
pub struct KeypairRead {
    pub target: RpcTarget,
    pub path: String,
    pub purpose: Purpose,
}

/// A [`KeypairRead`] as its view.
pub struct KeypairReadView {
    pub target: RpcTargetView,
    pub path: Seq<char>,
    pub purpose: PurposeView,
}

impl View for KeypairRead {
    type V = KeypairReadView;

    open spec fn view(&self) -> KeypairReadView {
        KeypairReadView { target: self.target@, path: self.path@, purpose: self.purpose@ }
    }
}

/// The errand of writing `keypair` to a keypair file at `path`.
#[derive(Debug)]
pub struct KeypairWrite {
    pub path: String,
    pub keypair: Keypair,
}

/// A [`KeypairWrite`] as its view.
pub struct KeypairWriteView {
    pub path: Seq<char>,
    pub keypair: Seq<u8>,
}

impl View for KeypairWrite {
    type V = KeypairWriteView;

    open spec fn view(&self) -> KeypairWriteView {
        KeypairWriteView { path: self.path@, keypair: self.keypair@ }
    }
}

/// The errand of asking the node at `target` for the balance of `address`;
/// `following` is the account to ask about after it.
#[derive(Debug)]
pub struct BalanceQuery {
    pub target: RpcTarget,
    pub address: Address,
    pub following: Option<Address>,
}

/// A [`BalanceQuery`] as its view.
pub struct BalanceQueryView {
    pub target: RpcTargetView,
    pub address: Seq<u8>,
    pub following: Option<Seq<u8>>,
}

impl View for BalanceQuery {
    type V = BalanceQueryView;

    open spec fn view(&self) -> BalanceQueryView {
        BalanceQueryView {
            target: self.target@,
            address: self.address@,
            following: spec_optional_address(self.following),
        }
    }
}

/// The errand of requesting from the node at `target` an airdrop of
/// `lamports` to `address`; `following` is the account to request one for after it.
#[derive(Debug)]
pub struct AirdropRequest {
    pub target: RpcTarget,
    pub address: Address,
    pub lamports: u64,
    pub following: Option<Address>,
}

/// An [`AirdropRequest`] as its view.
pub struct AirdropRequestView {
    pub target: RpcTargetView,
    pub address: Seq<u8>,
    pub lamports: u64,
    pub following: Option<Seq<u8>>,
}

impl View for AirdropRequest {
    type V = AirdropRequestView;

    open spec fn view(&self) -> AirdropRequestView {
        AirdropRequestView {
            target: self.target@,
            address: self.address@,
            lamports: self.lamports,
            following: spec_optional_address(self.following),
        }
    }
}

/// The errand of asking the node at `target` for its latest blockhash, for a
/// transfer of `lamports` from the account of `from` to `to`.
#[derive(Debug)]
pub struct BlockhashFetch {
    pub target: RpcTarget,
    pub from: Keypair,
    pub to: Address,
    pub lamports: u64,
}

/// A [`BlockhashFetch`] as its view.
pub struct BlockhashFetchView {
    pub target: RpcTargetView,
    pub from: Seq<u8>,
    pub to: Seq<u8>,
    pub lamports: u64,
}

impl View for BlockhashFetch {
    type V = BlockhashFetchView;

    open spec fn view(&self) -> BlockhashFetchView {
        BlockhashFetchView {
            target: self.target@,
            from: self.from@,
            to: self.to@,
            lamports: self.lamports,
        }
    }
}

/// The errand of sending a signed transfer to the node at `target` and
/// waiting for its confirmation.
#[derive(Debug)]
pub struct Submission {
    pub target: RpcTarget,
    pub transfer: SignedTransfer,
}

/// A [`Submission`] as its view: where it goes, what the transfer is of, and
/// the transaction that is sent.
pub struct SubmissionView {
    pub target: RpcTargetView,
    pub from: Seq<u8>,
    pub to: Seq<u8>,
    pub lamports: u64,
    pub recent_blockhash: Seq<u8>,
    pub transaction: solana_sdk::transaction::Transaction,
}

impl View for Submission {
    type V = SubmissionView;

    open spec fn view(&self) -> SubmissionView {
        SubmissionView {
            target: self.target@,
            from: self.transfer.spec_from(),
            to: self.transfer.spec_to(),
            lamports: self.transfer.spec_lamports(),
            recent_blockhash: self.transfer.spec_recent_blockhash(),
            transaction: self.transfer.spec_transaction(),
        }
    }
}

/// What comes after a step.
#[derive(Debug)]
pub enum Next {
    /// The caller reads a keypair file.
    ReadKeypairFile(KeypairRead),
    /// The caller writes a keypair file.
    WriteKeypairFile(KeypairWrite),
    /// The caller asks the node for a balance.
    GetBalance(BalanceQuery),
    /// The caller requests an airdrop from the node.
    RequestAirdrop(AirdropRequest),
    /// The caller asks the node for its latest blockhash.
    GetLatestBlockhash(BlockhashFetch),
    /// The caller sends a transaction to the node.
    SendTransaction(Submission),
    /// Nothing: the command is done.
    Finished,
    /// Nothing: the command has failed.
    Failed(WalletError),
}

/// A [`Next`] as its view.
pub enum NextView {
    ReadKeypairFile(KeypairReadView),
    WriteKeypairFile(KeypairWriteView),
    GetBalance(BalanceQueryView),
    RequestAirdrop(AirdropRequestView),
    GetLatestBlockhash(BlockhashFetchView),
    SendTransaction(SubmissionView),
    Finished,
    Failed(WalletErrorView),
}

impl View for Next {
    type V = NextView;

    open spec fn view(&self) -> NextView {
        match self {
            Next::ReadKeypairFile(errand) => NextView::ReadKeypairFile(errand@),
            Next::WriteKeypairFile(errand) => NextView::WriteKeypairFile(errand@),
            Next::GetBalance(errand) => NextView::GetBalance(errand@),
            Next::RequestAirdrop(errand) => NextView::RequestAirdrop(errand@),
            Next::GetLatestBlockhash(errand) => NextView::GetLatestBlockhash(errand@),
            Next::SendTransaction(errand) => NextView::SendTransaction(errand@),
            Next::Finished => NextView::Finished,
            Next::Failed(error) => NextView::Failed(error@),
        }
    }
}

/// A step of a command: the lines to print now, and what comes next.
#[derive(Debug)]
pub struct Step {
    pub output: Vec<Line>,
    pub next: Next,
}

/// A [`Step`] as its view.
pub struct StepView {
    pub output: Seq<LineView>,
    pub next: NextView,
}

impl View for Step {
    type V = StepView;

    open spec fn view(&self) -> StepView {
        StepView { output: spec_lines(self.output@), next: self.next@ }
    }
}

impl NextView {
    /// The most errands that can still follow, this one included.
    pub open spec fn spec_errands_left(self) -> nat {
        match self {
            NextView::ReadKeypairFile(errand) => 3,
            NextView::WriteKeypairFile(errand) => 1,
            NextView::GetBalance(errand) => if errand.following is Some {
                2
            } else {
                1
            },
            NextView::RequestAirdrop(errand) => if errand.following is Some {
                2
            } else {
                1
            },
            NextView::GetLatestBlockhash(errand) => 2,
            NextView::SendTransaction(errand) => 1,
            NextView::Finished => 0,
            NextView::Failed(error) => 0,
        }
    }
}

impl StepView {
    /// Whether the step asks the caller for anything.
    pub open spec fn is_errand(self) -> bool {
        !(self.next is Finished) && !(self.next is Failed)
    }

    /// Whether the step has the caller talk to the RPC node.
    pub open spec fn is_network_call(self) -> bool {
        self.next is GetBalance || self.next is RequestAirdrop || self.next is GetLatestBlockhash
            || self.next is SendTransaction
    }
}

/// The step that prints nothing and fails.
pub open spec fn spec_failed(error: WalletErrorView) -> StepView {
    StepView { output: Seq::<LineView>::empty(), next: NextView::Failed(error) }
}

/// The step that prints nothing and hands out an errand.
pub open spec fn spec_errand(next: NextView) -> StepView {
    StepView { output: Seq::<LineView>::empty(), next }
}

/// The step that prints `lines` and ends the command.
pub open spec fn spec_finished(lines: Seq<LineView>) -> StepView {
    StepView { output: lines, next: NextView::Finished }
}

/// The failure of the RPC node, with its message as it came.
pub open spec fn spec_rpc_failure(cause: Seq<char>) -> StepView {
    spec_failed(WalletErrorView::RpcError { cause })
}

/// What follows the account at `address`: asking about the one at `following`, or
/// the end.
pub open spec fn spec_next_balance(target: RpcTargetView, following: Option<Seq<u8>>) -> NextView {
    match following {
        Some(address) => NextView::GetBalance(
            BalanceQueryView { target, address, following: None },
        ),
        None => NextView::Finished,
    }
}

/// What follows an airdrop: requesting one for the account at `following`, or the
/// end.
pub open spec fn spec_next_airdrop(
    target: RpcTargetView,
    lamports: u64,
    following: Option<Seq<u8>>,
) -> NextView {
    match following {
        Some(address) => NextView::RequestAirdrop(
            AirdropRequestView { target, address, lamports, following: None },
        ),
        None => NextView::Finished,
    }
}

/// The step that starts asking for the balances of an identity's accounts.
pub open spec fn spec_query_balances(target: RpcTargetView, identity: IdentityView) -> StepView {
    spec_errand(
        NextView::GetBalance(
            BalanceQueryView { target, address: identity.first(), following: identity.second() },
        ),
    )
}

/// The step that starts requesting airdrops for an identity's accounts.
pub open spec fn spec_request_airdrops(
    target: RpcTargetView,
    identity: IdentityView,
    lamports: u64,
) -> StepView {
    spec_errand(
        NextView::RequestAirdrop(
            AirdropRequestView {
                target,
                address: identity.first(),
                lamports,
                following: identity.second(),
            },
        ),
    )
}

/// The step after a keypair file was read, or could not be.
///
/// For a balance or an airdrop, the identity is resolved from the address
/// and the file, and the first account is asked about; the amount of an
/// airdrop is converted to lamports once the identity is there. For a transfer, the
/// file must give the keypair of the source, then the destination must be an
/// address; the latest blockhash is asked for next.
pub open spec fn spec_keypair_read(
    errand: KeypairReadView,
    contents: Result<Seq<u8>, Seq<char>>,
) -> StepView {
    let file = KeypairFileView { path: errand.path, contents };
    match errand.purpose {
        PurposeView::Balance { address } => match spec_load_identity(address, Some(file)) {
            Ok(identity) => spec_query_balances(errand.target, identity),
            Err(error) => spec_failed(error),
        },
        PurposeView::Airdrop { address, value } => match spec_load_identity(
            address,
            Some(file),
        ) {
            Ok(identity) => spec_request_airdrops(
                errand.target,
                identity,
                (value * LAMPORTS_PER_SOL) as u64,
            ),
            Err(error) => spec_failed(error),
        },
        PurposeView::Transfer { to, lamports } => match spec_read_keypair_file(file) {
            Ok(from) => match spec_parse_address(to) {
                Ok(to) => spec_errand(
                    NextView::GetLatestBlockhash(
                        BlockhashFetchView { target: errand.target, from, to, lamports },
                    ),
                ),
                Err(error) => spec_failed(error),
            },
            Err(error) => spec_failed(error),
        },
    }
}

/// Whether a command can go on after its keypair file was read: an airdrop
/// whose identity is resolved must be of an amount that, in lamports, fits in
/// 64 bits.
pub open spec fn spec_can_resume(
    errand: KeypairReadView,
    contents: Result<Seq<u8>, Seq<char>>,
) -> bool {
    let file = KeypairFileView { path: errand.path, contents };
    errand.purpose matches PurposeView::Airdrop { address, value } ==> (spec_load_identity(
        address,
        Some(file),
    ) is Ok ==> value * LAMPORTS_PER_SOL <= u64::MAX)
}

/// The step after a keypair file was written, or could not be.
pub open spec fn spec_keypair_written(
    errand: KeypairWriteView,
    written: Result<(), Seq<char>>,
) -> StepView {
    match written {
        Ok(_) => spec_finished(
            seq![spec_saved_line(errand.path)] + spec_keypair_lines(errand.keypair),
        ),
        Err(cause) => spec_failed(
            WalletErrorView::KeypairWriteError { path: errand.path, cause },
        ),
    }
}

/// The step after the node has answered a balance query, or has failed to.
pub open spec fn spec_balance_answered(
    errand: BalanceQueryView,
    balance: Result<u64, Seq<char>>,
) -> StepView {
    match balance {
        Ok(lamports) => StepView {
            output: seq![spec_balance_line(lamports)],
            next: spec_next_balance(errand.target, errand.following),
        },
        Err(cause) => spec_rpc_failure(cause),
    }
}

/// The step after the node has answered an airdrop request, or has failed to.
pub open spec fn spec_airdrop_answered(
    errand: AirdropRequestView,
    signature: Result<Seq<char>, Seq<char>>,
) -> StepView {
    match signature {
        Ok(signature) => StepView {
            output: seq![spec_airdrop_line(signature)],
            next: spec_next_airdrop(errand.target, errand.lamports, errand.following),
        },
        Err(cause) => spec_rpc_failure(cause),
    }
}

/// The step after the node has given its latest blockhash, or has failed to:
/// the transfer is signed with that blockhash, and the transaction that the
/// SDK makes of it is handed out for sending.
pub open spec fn spec_blockhash_answered(
    errand: BlockhashFetchView,
    blockhash: Result<Seq<u8>, Seq<char>>,
) -> StepView {
    match blockhash {
        Ok(recent_blockhash) => spec_errand(
            NextView::SendTransaction(
                SubmissionView {
                    target: errand.target,
                    from: spec_keypair_address(errand.from),
                    to: errand.to,
                    lamports: errand.lamports,
                    recent_blockhash,
                    transaction: spec_sign_transfer(
                        errand.from,
                        errand.to,
                        errand.lamports,
                        recent_blockhash,
                    ),
                },
            ),
        ),
        Err(cause) => spec_rpc_failure(cause),
    }
}

/// The step after the node has confirmed a transaction, or has failed to.
pub open spec fn spec_transaction_answered(signature: Result<Seq<char>, Seq<char>>) -> StepView {
    match signature {
        Ok(signature) => spec_finished(seq![spec_transfer_line(signature)]),
        Err(cause) => spec_rpc_failure(cause),
    }
}

/// A text or a message, as sequences of characters.
pub open spec fn spec_answer(answer: Result<String, String>) -> Result<Seq<char>, Seq<char>> {
    match answer {
        Ok(text) => Ok(text@),
        Err(cause) => Err(cause@),
    }
}

/// A number or a message, the message as a sequence of characters.
pub open spec fn spec_count(answer: Result<u64, String>) -> Result<u64, Seq<char>> {
    match answer {
        Ok(count) => Ok(count),
        Err(cause) => Err(cause@),
    }
}

/// Success or a message, the message as a sequence of characters.
pub open spec fn spec_done(answer: Result<(), String>) -> Result<(), Seq<char>> {
    match answer {
        Ok(done) => Ok(done),
        Err(cause) => Err(cause@),
    }
}

/// A blockhash or a message, as sequences.
pub open spec fn spec_blockhash(answer: Result<[u8; 32], String>) -> Result<Seq<u8>, Seq<char>> {
    match answer {
        Ok(bytes) => Ok(bytes@),
        Err(cause) => Err(cause@),
    }
}

impl Step {
    /// The step that prints nothing and fails with `error`.
    pub fn failed(error: WalletError) -> (step: Step)
        ensures
            step@ == spec_failed(error@),
    {
        let step = Step { output: Vec::new(), next: Next::Failed(error) };
        assert(step@.output =~= Seq::<LineView>::empty());
        step
    }

    /// The step that prints nothing and fails with the message of the RPC
    /// node, as it came.
    pub fn rpc_failure(cause: String) -> (step: Step)
        ensures
            step@ == spec_rpc_failure(cause@),
    {
        Step::failed(WalletError::RpcError { cause })
    }

    /// The step that prints nothing and hands out an errand.
    pub fn errand(next: Next) -> (step: Step)
        ensures
            step@ == spec_errand(next@),
    {
        let step = Step { output: Vec::new(), next };
        assert(step@.output =~= Seq::<LineView>::empty());
        step
    }

    /// The step that starts asking for the balances of an identity's
    /// accounts: first the one given by address, then the keypair's.
    pub fn query_balances(target: RpcTarget, identity: &Identity) -> (step: Step)
        ensures
            step@ == spec_query_balances(target@, identity@),
    {
        Step::errand(
            Next::GetBalance(
                BalanceQuery { target, address: identity.first(), following: identity.second() },
            ),
        )
    }

    /// The step that starts requesting airdrops of `lamports` for an
    /// identity's accounts: first the one given by address, then the
    /// keypair's.
    pub fn request_airdrops(target: RpcTarget, identity: &Identity, lamports: u64) -> (step: Step)
        ensures
            step@ == spec_request_airdrops(target@, identity@, lamports),
    {
        Step::errand(
            Next::RequestAirdrop(
                AirdropRequest {
                    target,
                    address: identity.first(),
                    lamports,
                    following: identity.second(),
                },
            ),
        )
    }
}

/// A copy of what reading a file gave.
fn copy_contents(contents: &Result<Vec<u8>, String>) -> (copy: Result<Vec<u8>, String>)
    ensures
        spec_contents(copy) == spec_contents(*contents),
{
    match contents {
        Ok(bytes) => {
            let mut copy: Vec<u8> = Vec::new();
            let mut i: usize = 0;
            while i < bytes.len()
                invariant
                    i <= bytes.len(),
                    copy@ == bytes@.take(i as int),
                decreases bytes.len() - i,
            {
                copy.push(bytes[i]);
                assert(bytes@.take(i + 1) =~= bytes@.take(i as int).push(bytes@[i as int]));
                i = i + 1;
            }
            assert(bytes@.take(i as int) =~= bytes@);
            Ok(copy)
        },
        Err(cause) => Err(cause.clone()),
    }
}

impl KeypairRead {
    /// Whether the command can go on with this outcome of reading the keypair
    /// file.
    pub fn can_resume(&self, contents: &Result<Vec<u8>, String>) -> (possible: bool)
        ensures
            possible == spec_can_resume(self@, spec_contents(*contents)),
    {
        match &self.purpose {
            Purpose::Airdrop { address, value } => {
                if whole_sol_to_lamports(*value).is_some() {
                    true
                } else {
                    let file = KeypairFile {
                        path: self.path.clone(),
                        contents: copy_contents(contents),
                    };
                    load_identity(address, &Some(file)).is_err()
                }
            },
            _ => true,
        }
    }

    /// Goes on with the contents of the keypair file, or with the message of
    /// the failure to read it, where the command can go on: `None` for an
    /// airdrop whose amount, in lamports, does not fit in 64 bits.
    pub fn try_resume(self, contents: Result<Vec<u8>, String>) -> (step: Option<Step>)
        ensures
            step is Some <==> spec_can_resume(self@, spec_contents(contents)),
            step matches Some(next) ==> next@ == spec_keypair_read(
                self@,
                spec_contents(contents),
            ),
    {
        if self.can_resume(&contents) {
            Some(self.resume(contents))
        } else {
            None
        }
    }

    /// Goes on with the contents of the keypair file, or with the message of
    /// the failure to read it.
    pub fn resume(self, contents: Result<Vec<u8>, String>) -> (step: Step)
        requires
            spec_can_resume(self@, spec_contents(contents)),
        ensures
            step@ == spec_keypair_read(self@, spec_contents(contents)),
    {
        let target = self.target;
        let file = KeypairFile { path: self.path, contents };
        match self.purpose {
            Purpose::Balance { address } => match load_identity(&address, &Some(file)) {
                Ok(identity) => Step::query_balances(target, &identity),
                Err(error) => Step::failed(error),
            },
            Purpose::Airdrop { address, value } => match load_identity(&address, &Some(file)) {
                Ok(identity) => Step::request_airdrops(
                    target,
                    &identity,
                    value * LAMPORTS_PER_SOL,
                ),
                Err(error) => Step::failed(error),
            },
            Purpose::Transfer { to, lamports } => match read_json_keypair_file(&file) {
                Ok(from) => match Address::parse(to.as_str()) {
                    Ok(to) => Step::errand(
                        Next::GetLatestBlockhash(BlockhashFetch { target, from, to, lamports }),
                    ),
                    Err(error) => Step::failed(error),
                },
                Err(error) => Step::failed(error),
            },
        }
    }
}

impl KeypairWrite {
    /// Goes on after the keypair file was written, or with the message of the
    /// failure to write it.
    pub fn resume(self, written: Result<(), String>) -> (step: Step)
        ensures
            step@ == spec_keypair_written(self@, spec_done(written)),
    {
        match written {
            Ok(_) => {
                let mut output: Vec<Line> = Vec::new();
                output.push(Line::saved(self.path));
                push_keypair_lines(&mut output, &self.keypair);
                let step = Step { output, next: Next::Finished };
                assert(step@.output =~= seq![spec_saved_line(self.path@)] + spec_keypair_lines(
                    self.keypair@,
                ));
                step
            },
            Err(cause) => Step::failed(WalletError::KeypairWriteError { path: self.path, cause }),
        }
    }
}

impl BalanceQuery {
    /// Goes on with the balance in lamports, or with the message of the
    /// node's failure.
    pub fn resume(self, balance: Result<u64, String>) -> (step: Step)
        ensures
            step@ == spec_balance_answered(self@, spec_count(balance)),
    {
        match balance {
            Ok(lamports) => {
                let mut output: Vec<Line> = Vec::new();
                output.push(Line::balance(lamports));
                let next = match self.following {
                    Some(address) => Next::GetBalance(
                        BalanceQuery { target: self.target, address, following: None },
                    ),
                    None => Next::Finished,
                };
                let step = Step { output, next };
                assert(step@.output =~= seq![spec_balance_line(lamports)]);
                step
            },
            Err(cause) => Step::rpc_failure(cause),
        }
    }
}

impl AirdropRequest {
    /// Goes on with the signature of the airdrop's transaction, or with the
    /// message of the node's failure.
    pub fn resume(self, signature: Result<String, String>) -> (step: Step)
        ensures
            step@ == spec_airdrop_answered(self@, spec_answer(signature)),
    {
        match signature {
            Ok(signature) => {
                let ghost text = signature@;
                let mut output: Vec<Line> = Vec::new();
                output.push(Line::airdrop(signature));
                let next = match self.following {
                    Some(address) => Next::RequestAirdrop(
                        AirdropRequest {
                            target: self.target,
                            address,
                            lamports: self.lamports,
                            following: None,
                        },
                    ),
                    None => Next::Finished,
                };
                let step = Step { output, next };
                assert(step@.output =~= seq![spec_airdrop_line(text)]);
                step
            },
            Err(cause) => Step::rpc_failure(cause),
        }
    }
}

impl BlockhashFetch {
    /// Goes on with the node's latest blockhash, or with the message of the
    /// node's failure: signs the transfer with that blockhash and hands it out
    /// for sending.
    pub fn resume(self, blockhash: Result<[u8; 32], String>) -> (step: Step)
        ensures
            step@ == spec_blockhash_answered(self@, spec_blockhash(blockhash)),
    {
        match blockhash {
            Ok(recent_blockhash) => {
                let transfer = SignedTransfer::sign(
                    &self.from,
                    self.to,
                    self.lamports,
                    recent_blockhash,
                );
                Step::errand(Next::SendTransaction(Submission { target: self.target, transfer }))
            },
            Err(cause) => Step::rpc_failure(cause),
        }
    }
}

impl Submission {
    /// Goes on with the signature of the confirmed transaction, or with the
    /// message of the node's failure.
    pub fn resume(self, signature: Result<String, String>) -> (step: Step)
        ensures
            step@ == spec_transaction_answered(spec_answer(signature)),
    {
        match signature {
            Ok(signature) => {
                let ghost text = signature@;
                let mut output: Vec<Line> = Vec::new();
                output.push(Line::transfer(signature));
                let step = Step { output, next: Next::Finished };
                assert(step@.output =~= seq![spec_transfer_line(text)]);
                step
            },
            Err(cause) => Step::rpc_failure(cause),
        }
    }
}

/// The step after an errand, for every kind of errand and every outcome.
pub open spec fn spec_follows(errand: NextView, step: StepView) -> bool {
    match errand {
        NextView::ReadKeypairFile(errand) => exists|contents: Result<Seq<u8>, Seq<char>>|
            step == #[trigger] spec_keypair_read(errand, contents),
        NextView::WriteKeypairFile(errand) => exists|written: Result<(), Seq<char>>|
            step == #[trigger] spec_keypair_written(errand, written),
        NextView::GetBalance(errand) => exists|balance: Result<u64, Seq<char>>|
            step == #[trigger] spec_balance_answered(errand, balance),
        NextView::RequestAirdrop(errand) => exists|signature: Result<Seq<char>, Seq<char>>|
            step == #[trigger] spec_airdrop_answered(errand, signature),
        NextView::GetLatestBlockhash(errand) => exists|blockhash: Result<Seq<u8>, Seq<char>>|
            step == #[trigger] spec_blockhash_answered(errand, blockhash),
        NextView::SendTransaction(errand) => exists|signature: Result<Seq<char>, Seq<char>>|
            step == #[trigger] spec_transaction_answered(signature),
        NextView::Finished => false,
        NextView::Failed(error) => false,
    }
}

/// Every errand brings the command nearer its end: fewer errands can follow
/// the step after it than could follow the errand. So no command asks more
/// than three things of the caller, and none asks the same thing again.
pub proof fn lemma_errands_run_out(errand: NextView, step: StepView)
    requires
        spec_follows(errand, step),
    ensures
        step.next.spec_errands_left() < errand.spec_errands_left(),
        errand.spec_errands_left() <= 3,
{
}

/// A step that fails prints nothing.
pub proof fn lemma_failure_prints_nothing(errand: NextView, step: StepView)
    requires
        spec_follows(errand, step),
        step.next is Failed,
    ensures
        step.output.len() == 0,
{
}

/// After a keypair file was written or a transaction was sent, nothing more
/// is asked of the caller: a command does at most one of the two, and then
/// ends or fails.
pub proof fn lemma_nothing_follows_a_deed(errand: NextView, step: StepView)
    requires
        spec_follows(errand, step),
        errand is WriteKeypairFile || errand is SendTransaction,
    ensures
        !step.is_errand(),
{
}

/// The failure of the node is passed on as it came: the step after a call
/// that failed with `cause` fails with an RPC error of that message.
pub proof fn lemma_node_failure_is_passed_on(
    balance: BalanceQueryView,
    airdrop: AirdropRequestView,
    blockhash: BlockhashFetchView,
    cause: Seq<char>,
)
    ensures
        spec_balance_answered(balance, Err(cause)) == spec_rpc_failure(cause),
        spec_airdrop_answered(airdrop, Err(cause)) == spec_rpc_failure(cause),
        spec_blockhash_answered(blockhash, Err(cause)) == spec_rpc_failure(cause),
        spec_transaction_answered(Err(cause)) == spec_rpc_failure(cause),
{
}

/// With an address and a keypair file, the balance is asked for twice: first
/// of the address, then of the keypair's account, and each answer is printed
/// when it comes.
pub proof fn lemma_both_sources_are_asked(
    target: RpcTargetView,
    address: Seq<u8>,
    keypair: Seq<u8>,
    first: u64,
    second: u64,
)
    ensures
        ({
            let start = spec_query_balances(target, IdentityView::Both(address, keypair));
            let after = spec_balance_answered(start.next->GetBalance_0, Ok(first));
            let last = spec_balance_answered(after.next->GetBalance_0, Ok(second));
            &&& start.next is GetBalance
            &&& start.next->GetBalance_0.address == address
            &&& after.output == seq![spec_balance_line(first)]
            &&& after.next is GetBalance
            &&& after.next->GetBalance_0.address == spec_keypair_address(keypair)
            &&& last == spec_finished(seq![spec_balance_line(second)])
        }),
{
}

} // verus!

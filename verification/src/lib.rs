//! A command-line wallet for the Solana network, as a library.
//!
//! The library decides what a command does: which network it talks to, whose
//! account it concerns, how amounts convert, what is printed. Whatever touches
//! the outside world (files, the RPC node, the terminal) is handed to the
//! caller as an errand, and the outcome of the errand is handed back.

use vstd::prelude::*;

pub mod amount;
pub mod args;
pub mod error;
pub mod identity;
pub mod keys;
pub mod network;
pub mod output;
pub mod session;
pub mod text;

use crate::args::{
    spec_request_airdrop_handler,
    spec_show_keypair,
    spec_transfer_sol,
    spec_wallet_balance,
    Cli,
    Commands,
};
use crate::keys::{spec_keypair_accepted, KEYPAIR_LENGTH};
use crate::session::{Step, StepView};

verus! {

/// Whether the command can be started: an airdrop whose first step needs
/// the amount in lamports must be of an amount that fits in 64 bits.
pub open spec fn spec_can_run(cli: Cli) -> bool {
    cli.command matches Commands::Airdrop(args) ==> (args.network.spec_allows_airdrop()
        ==> args.spec_can_request())
}

/// Whether `step` is a first step of the command. The first step of
/// `generate` depends on the keypair that was made.
pub open spec fn spec_starts(cli: Cli, step: StepView) -> bool {
    match cli.command {
        Commands::Generate(args) => exists|keypair: Seq<u8>|
            spec_keypair_accepted(keypair) && keypair.len() == KEYPAIR_LENGTH && step
                == #[trigger] spec_show_keypair(args, keypair),
        Commands::Balance(args) => step == spec_wallet_balance(args, args.network.spec_resolve()),
        Commands::Airdrop(args) => step == spec_request_airdrop_handler(args),
        Commands::Transfer(args) => step == spec_transfer_sol(args, args.network.spec_resolve()),
    }
}

/// Whether the command can be started.
pub fn can_run(cli: &Cli) -> (possible: bool)
    ensures
        possible == spec_can_run(*cli),
{
    match &cli.command {
        Commands::Airdrop(args) => !args.network.allows_airdrop() || args.can_request(),
        _ => true,
    }
}

/// Starts the command that was given: its first step.
///
/// The caller prints the lines of a step, runs its errand and hands the
/// outcome to the errand's `resume`, which gives the next step, until a step
/// ends the command or fails.
pub fn run(cli: &Cli) -> (step: Step)
    requires
        spec_can_run(*cli),
    ensures
        spec_starts(*cli, step@),
{
    match &cli.command {
        Commands::Generate(args) => args.generate_keypair(),
        Commands::Balance(args) => args.get_balance_handler(),
        Commands::Airdrop(args) => args.request_airdrop_handler(),
        Commands::Transfer(args) => args.transfer_handler(),
    }
}

/// Starts the command that was given, where it can be started: `None` for an
/// airdrop whose first step needs the amount in lamports, where that does not
/// fit in 64 bits.
pub fn try_run(cli: &Cli) -> (step: Option<Step>)
    ensures
        step is Some <==> spec_can_run(*cli),
        step matches Some(first) ==> spec_starts(*cli, first@),
{
    if can_run(cli) {
        Some(run(cli))
    } else {
        None
    }
}

} // verus!

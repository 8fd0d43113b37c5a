//! The lines that a command prints.

use vstd::prelude::*;
use crate::amount::{format_sol, spec_format_sol};
use crate::keys::{spec_encode_pubkey, spec_keypair_address, Keypair};
use crate::text::{format_byte_list, spec_byte_list};

verus! {

/// How the value of a line is set off.
#[derive(Clone, Copy, Debug, PartialEq, Eq, Structural)]
pub enum Style {
    /// As the rest of the line.
    Plain,
    /// Bold and green: a result.
    Green,
    /// Bold and yellow: something to note.
    Yellow,
    /// Bold and blue: an address.
    Blue,
    /// Bold and red: a warning.
    Red,
}

/// A line of output: a label, and behind it a value that is set off.
#[derive(Debug)]
pub struct Line {
    pub label: String,
    pub value: String,
    pub style: Style,
}

/// A [`Line`] with its texts as sequences of characters.
pub struct LineView {
    pub label: Seq<char>,
    pub value: Seq<char>,
    pub style: Style,
}

impl View for Line {
    type V = LineView;

    open spec fn view(&self) -> LineView {
        LineView { label: self.label@, value: self.value@, style: self.style }
    }
}

/// The views of a list of lines.
pub open spec fn spec_lines(lines: Seq<Line>) -> Seq<LineView> {
    Seq::new(lines.len(), |i: int| lines[i]@)
}

/// The line that reports a balance.
pub open spec fn spec_balance_line(lamports: u64) -> LineView {
    LineView {
        label: "Your SOL balance is: "@,
        value: spec_format_sol(lamports),
        style: Style::Green,
    }
}

/// The line that reports a requested airdrop.
pub open spec fn spec_airdrop_line(signature: Seq<char>) -> LineView {
    LineView {
        label: "Airdrop requested successfully, signature: "@,
        value: signature,
        style: Style::Yellow,
    }
}

/// The line that reports a transfer.
pub open spec fn spec_transfer_line(signature: Seq<char>) -> LineView {
    LineView { label: "Transfer successful, signature: "@, value: signature, style: Style::Yellow }
}

/// The line that reports where a keypair was saved.
pub open spec fn spec_saved_line(path: Seq<char>) -> LineView {
    LineView { label: "Keypair saved to "@, value: path, style: Style::Green }
}

/// The line that reports that a keypair was not saved.
pub open spec fn spec_unsaved_line() -> LineView {
    LineView { label: ""@, value: "No output file specified"@, style: Style::Yellow }
}

/// The line that shows the address of a keypair.
pub open spec fn spec_address_line(keypair: Seq<u8>) -> LineView {
    LineView {
        label: "Wallet address: "@,
        value: spec_encode_pubkey(spec_keypair_address(keypair)),
        style: Style::Blue,
    }
}

/// The line that shows the bytes of a keypair.
pub open spec fn spec_keypair_line(keypair: Seq<u8>) -> LineView {
    LineView { label: "Keypair:\n"@, value: spec_byte_list(keypair), style: Style::Plain }
}

/// The line that warns against sharing a keypair.
pub open spec fn spec_warning_line() -> LineView {
    LineView {
        label: ""@,
        value: "DO NOT SHARE THIS KEYPAIR OR THE KEYPAIR FILE WITH ANYONE"@,
        style: Style::Red,
    }
}

/// The lines that show a keypair: its address, its bytes, and the warning.
pub open spec fn spec_keypair_lines(keypair: Seq<u8>) -> Seq<LineView> {
    seq![spec_address_line(keypair), spec_keypair_line(keypair), spec_warning_line()]
}

impl Line {
    /// The line as plain text: the label, then the value.
    pub open spec fn spec_text(line: LineView) -> Seq<char> {
        line.label + line.value
    }

    /// The line as plain text: the label, then the value.
    pub fn text(&self) -> (text: String)
        ensures
            text@ == Self::spec_text(self@),
    {
        let mut text = self.label.clone();
        text.append(self.value.as_str());
        text
    }

    /// The line that reports a balance of `lamports`, in SOL.
    pub fn balance(lamports: u64) -> (line: Line)
        ensures
            line@ == spec_balance_line(lamports),
    {
        Line {
            label: String::from_str("Your SOL balance is: "),
            value: format_sol(lamports),
            style: Style::Green,
        }
    }

    /// The line that reports a requested airdrop, with the signature of its
    /// transaction as it came.
    pub fn airdrop(signature: String) -> (line: Line)
        ensures
            line@ == spec_airdrop_line(signature@),
    {
        Line {
            label: String::from_str("Airdrop requested successfully, signature: "),
            value: signature,
            style: Style::Yellow,
        }
    }

    /// The line that reports a transfer, with the signature of its
    /// transaction as it came.
    pub fn transfer(signature: String) -> (line: Line)
        ensures
            line@ == spec_transfer_line(signature@),
    {
        Line {
            label: String::from_str("Transfer successful, signature: "),
            value: signature,
            style: Style::Yellow,
        }
    }

    /// The line that reports where a keypair was saved.
    pub fn saved(path: String) -> (line: Line)
        ensures
            line@ == spec_saved_line(path@),
    {
        Line { label: String::from_str("Keypair saved to "), value: path, style: Style::Green }
    }

    /// The line that reports that a keypair was not saved.
    pub fn unsaved() -> (line: Line)
        ensures
            line@ == spec_unsaved_line(),
    {
        Line {
            label: String::from_str(""),
            value: String::from_str("No output file specified"),
            style: Style::Yellow,
        }
    }

    /// The line that shows the address of a keypair.
    pub fn address(keypair: &Keypair) -> (line: Line)
        ensures
            line@ == spec_address_line(keypair@),
    {
        Line {
            label: String::from_str("Wallet address: "),
            value: keypair.address().to_text(),
            style: Style::Blue,
        }
    }

    /// The line that shows the bytes of a keypair.
    pub fn keypair(keypair: &Keypair) -> (line: Line)
        ensures
            line@ == spec_keypair_line(keypair@),
    {
        let bytes = keypair.to_bytes();
        Line {
            label: String::from_str("Keypair:\n"),
            value: format_byte_list(bytes.as_slice()),
            style: Style::Plain,
        }
    }

    /// The line that warns against sharing a keypair.
    pub fn warning() -> (line: Line)
        ensures
            line@ == spec_warning_line(),
    {
        Line {
            label: String::from_str(""),
            value: String::from_str("DO NOT SHARE THIS KEYPAIR OR THE KEYPAIR FILE WITH ANYONE"),
            style: Style::Red,
        }
    }
}

/// Appends to `lines` the lines that show a keypair.
pub fn push_keypair_lines(lines: &mut Vec<Line>, keypair: &Keypair)
    ensures
        spec_lines(final(lines)@) == spec_lines(old(lines)@) + spec_keypair_lines(keypair@),
{
    lines.push(Line::address(keypair));
    lines.push(Line::keypair(keypair));
    lines.push(Line::warning());
}

} // verus!

//! The record that every token movement is normalised into.

use vstd::prelude::*;
use crate::decimal::{decimal_digits, is_decimal};
use crate::hex::is_hex_text;
use crate::schema::Schema;

verus! {

/// One token movement, whatever standard its event followed.
#[derive(Clone, Debug, PartialEq, Eq)]
pub struct Transfer {
    /// Name of the standard: `erc20`, `erc721` or `erc1155`.
    pub schema: String,
    /// Hash of the transaction that emitted the event, in hexadecimal.
    pub trx_hash: String,
    /// Index of the log within its block; for an entry of a batch, that index,
    /// a slash and the entry's position in the batch.
    pub log_index: String,
    /// Address the tokens left, in hexadecimal.
    pub from: String,
    /// Address the tokens reached, in hexadecimal.
    pub to: String,
    /// Number of tokens moved, in decimal; `1` for an ERC-721 token.
    pub quantity: String,
    /// Address that initiated the transfer, in hexadecimal; empty unless the
    /// standard is ERC-1155.
    pub operator: String,
    /// Identifier of the token, in decimal; empty for ERC-20, where the
    /// contract is the token.
    pub token_id: String,
    /// Address of the contract that emitted the event, in hexadecimal.
    pub contract: String,
    /// Number of the block.
    pub block_number: u64,
    /// Time of the block, in seconds since the epoch.
    pub block_timestamp: u64,
}

/// A [`Transfer`] as a mathematical value: its texts as sequences of
/// characters.
pub struct TransferView {
    pub schema: Seq<char>,
    pub trx_hash: Seq<char>,
    pub log_index: Seq<char>,
    pub from: Seq<char>,
    pub to: Seq<char>,
    pub quantity: Seq<char>,
    pub operator: Seq<char>,
    pub token_id: Seq<char>,
    pub contract: Seq<char>,
    pub block_number: u64,
    pub block_timestamp: u64,
}

impl View for Transfer {
    type V = TransferView;

    open spec fn view(&self) -> TransferView {
        TransferView {
            schema: self.schema@,
            trx_hash: self.trx_hash@,
            log_index: self.log_index@,
            from: self.from@,
            to: self.to@,
            quantity: self.quantity@,
            operator: self.operator@,
            token_id: self.token_id@,
            contract: self.contract@,
            block_number: self.block_number,
            block_timestamp: self.block_timestamp,
        }
    }
}

/// The log index of entry `position` of a batch: the log's own index, a
/// slash and the position in decimal, counted from zero.
pub open spec fn batch_log_index(log_index: Seq<char>, position: nat) -> Seq<char> {
    log_index + seq!['/'] + decimal_digits(position)
}

/// Whether `text` is a log index: the decimal index of a log, alone or
/// followed by a slash and the decimal position of an entry of a batch.
pub open spec fn is_log_index(text: Seq<char>) -> bool {
    is_decimal(text) || exists|own: Seq<char>, position: nat|
        is_decimal(own) && text == #[trigger] batch_log_index(own, position)
}

impl TransferView {
    /// Whether the record is one that a transfer event can give. Its schema
    /// names one of the three standards. The transaction hash, the three
    /// addresses and the operator are hexadecimal texts, the quantity is a
    /// decimal text, and the log index is a log index. The token identifier
    /// is empty for ERC-20 and a decimal text otherwise; the operator is
    /// empty unless the standard is ERC-1155; the quantity is `1` for
    /// ERC-721.
    pub open spec fn well_formed(self) -> bool {
        &&& (self.schema == Schema::Erc20.name() || self.schema == Schema::Erc721.name()
            || self.schema == Schema::Erc1155.name())
        &&& is_hex_text(self.trx_hash)
        &&& is_log_index(self.log_index)
        &&& is_hex_text(self.from)
        &&& is_hex_text(self.to)
        &&& is_decimal(self.quantity)
        &&& is_hex_text(self.operator)
        &&& is_hex_text(self.contract)
        &&& (self.schema == Schema::Erc20.name() ==> self.token_id.len() == 0)
        &&& (self.schema != Schema::Erc20.name() ==> is_decimal(self.token_id))
        &&& (self.schema != Schema::Erc1155.name() ==> self.operator.len() == 0)
        &&& (self.schema == Schema::Erc721.name() ==> self.quantity == seq!['1'])
    }
}

/// The records of `transfers` as mathematical values, in the same order.
pub open spec fn transfer_views(transfers: Seq<Transfer>) -> Seq<TransferView> {
    transfers.map_values(|t: Transfer| t@)
}

/// The texts of `strings` as sequences of characters, in the same order.
pub open spec fn texts(strings: Seq<String>) -> Seq<Seq<char>> {
    strings.map_values(|s: String| s@)
}

/// The transfers of one block, in the order in which its logs emitted them.
#[derive(Clone, Debug, PartialEq, Eq)]
pub struct Transfers {
    pub transfers: Vec<Transfer>,
}

impl View for Transfers {
    type V = Seq<TransferView>;

    open spec fn view(&self) -> Seq<TransferView> {
        transfer_views(self.transfers@)
    }
}

/// Lines of text, one per record and without line ends.
#[derive(Clone, Debug, PartialEq, Eq)]
pub struct Lines {
    pub lines: Vec<String>,
}

impl View for Lines {
    type V = Seq<Seq<char>>;

    open spec fn view(&self) -> Seq<Seq<char>> {
        texts(self.lines@)
    }
}

/// The lines written one after the other with a line feed between
/// neighbours; the empty text for no lines.
pub open spec fn newline_joined(lines: Seq<Seq<char>>) -> Seq<char>
    decreases lines.len(),
{
    if lines.len() == 0 {
        Seq::empty()
    } else if lines.len() == 1 {
        lines[0]
    } else {
        newline_joined(lines.drop_last()) + seq!['\n'] + lines.last()
    }
}

impl Lines {
    /// The lines as one text, joined by line feeds.
    pub fn to_text(&self) -> (text: String)
        ensures
            text@ == newline_joined(self@),
    {
        let mut text = String::new();
        let mut i: usize = 0;
        while i < self.lines.len()
            invariant
                i <= self.lines.len(),
                text@ == newline_joined(self@.take(i as int)),
            decreases self.lines.len() - i,
        {
            proof {
                reveal_strlit("\n");
                assert(self@.take(i + 1).drop_last() =~= self@.take(i as int));
            }
            if i > 0 {
                text.append("\n");
            }
            text.append(self.lines[i].as_str());
            i += 1;
        }
        assert(self@.take(i as int) =~= self@);
        text
    }
}

} // verus!

//! Token-transfer extraction for Ethereum blocks.
//!
//! A block's logs are matched against the transfer events of the ERC-20,
//! ERC-721 and ERC-1155 standards, every matched event is normalised into one
//! record shape, [`Transfer`], and the records of a block are handed out as a
//! collection, as JSON lines, as JSON lines restricted to a list of contracts,
//! or as CSV lines.
//!
//! - [`block`] models the input: a block's number and time, and per log what
//!   the event matchers decoded.
//! - [`normalize`] maps one decoded event to its records, [`extract`] a whole
//!   block, in the order of its logs.
//! - [`output`] gives the four outputs; [`json`] and [`csv`] render one
//!   record as a line, and [`csv`] reads such a line back.
//! - [`laws`] states what holds of the records of every block.
//!
//! Three calls leave the verified code: bytes are written in hexadecimal by
//! `substreams::Hex`, big numbers in decimal by `substreams::scalar::BigInt`,
//! and JSON string literals by `serde_json`. Their contracts, in [`hex`],
//! [`uint`] and [`json`], are believed, not proved; so is the one of
//! `String::push` in [`csv`].

pub mod block;
pub mod csv;
pub mod decimal;
pub mod extract;
pub mod hex;
pub mod json;
pub mod laws;
pub mod normalize;
pub mod output;
pub mod schema;
pub mod transfer;
pub mod uint;

pub use block::{
    Block, BlockHeader, Erc1155TransferBatchEvent, Erc1155TransferSingleEvent,
    Erc20TransferEvent, Erc721TransferEvent, Log, Receipt, Timestamp,
};
pub use extract::get_transfers;
pub use output::{csv_out, jsonl_out, jsonl_out_with_filter, map_transfers};
pub use schema::{schema_to_string, Schema};
pub use transfer::{Lines, Transfer, Transfers};
pub use uint::BigUint;

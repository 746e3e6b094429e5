//! The part of a block that transfer extraction reads: its number and time,
//! and for each log of each receipt what the event matchers decoded from it.

use vstd::prelude::*;
use crate::uint::BigUint;

verus! {

/// A decoded ERC-20 `Transfer` event.
#[derive(Clone, Debug, PartialEq, Eq)]
pub struct Erc20TransferEvent {
    pub from: Vec<u8>,
    pub to: Vec<u8>,
    pub value: BigUint,
}

/// A decoded ERC-721 `Transfer` event.
#[derive(Clone, Debug, PartialEq, Eq)]
pub struct Erc721TransferEvent {
    pub from: Vec<u8>,
    pub to: Vec<u8>,
    pub token_id: BigUint,
}

/// A decoded ERC-1155 `TransferSingle` event.
#[derive(Clone, Debug, PartialEq, Eq)]
pub struct Erc1155TransferSingleEvent {
    pub operator: Vec<u8>,
    pub from: Vec<u8>,
    pub to: Vec<u8>,
    pub id: BigUint,
    pub value: BigUint,
}

/// A decoded ERC-1155 `TransferBatch` event. The standard asks for as many
/// values as identifiers; a decoded event may break that.
#[derive(Clone, Debug, PartialEq, Eq)]
pub struct Erc1155TransferBatchEvent {
    pub operator: Vec<u8>,
    pub from: Vec<u8>,
    pub to: Vec<u8>,
    pub ids: Vec<BigUint>,
    pub values: Vec<BigUint>,
}

/// One log of a receipt, with the outcome of each of the four event
/// matchers on it: the decoded event, or `None` where the matcher did not
/// recognise the log.
#[derive(Clone, Debug, PartialEq, Eq)]
pub struct Log {
    /// Address of the contract that emitted the log.
    pub address: Vec<u8>,
    /// Index of the log within its block.
    pub block_index: u32,
    /// What the matcher of the ERC-20 `Transfer` event decoded.
    pub erc20_transfer: Option<Erc20TransferEvent>,
    /// What the matcher of the ERC-721 `Transfer` event decoded.
    pub erc721_transfer: Option<Erc721TransferEvent>,
    /// What the matcher of the ERC-1155 `TransferSingle` event decoded.
    pub erc1155_transfer_single: Option<Erc1155TransferSingleEvent>,
    /// What the matcher of the ERC-1155 `TransferBatch` event decoded.
    pub erc1155_transfer_batch: Option<Erc1155TransferBatchEvent>,
}

/// The receipt of one transaction: the transaction's hash and its logs in
/// the order of their emission.
#[derive(Clone, Debug, PartialEq, Eq)]
pub struct Receipt {
    pub trx_hash: Vec<u8>,
    pub logs: Vec<Log>,
}

/// A point in time, in seconds since the epoch.
#[derive(Clone, Copy, Debug, PartialEq, Eq)]
pub struct Timestamp {
    pub seconds: i64,
}

/// The header of a block, as far as extraction reads it.
#[derive(Clone, Copy, Debug, PartialEq, Eq)]
pub struct BlockHeader {
    pub timestamp: Option<Timestamp>,
}

/// A block: its number, its header and its receipts in the order of their
/// transactions.
#[derive(Clone, Debug, PartialEq, Eq)]
pub struct Block {
    pub number: u64,
    pub header: Option<BlockHeader>,
    pub receipts: Vec<Receipt>,
}

/// An [`Erc20TransferEvent`] as a mathematical value.
pub struct Erc20TransferEventView {
    pub from: Seq<u8>,
    pub to: Seq<u8>,
    pub value: nat,
}

/// An [`Erc721TransferEvent`] as a mathematical value.
pub struct Erc721TransferEventView {
    pub from: Seq<u8>,
    pub to: Seq<u8>,
    pub token_id: nat,
}

/// An [`Erc1155TransferSingleEvent`] as a mathematical value.
pub struct Erc1155TransferSingleEventView {
    pub operator: Seq<u8>,
    pub from: Seq<u8>,
    pub to: Seq<u8>,
    pub id: nat,
    pub value: nat,
}

/// An [`Erc1155TransferBatchEvent`] as a mathematical value.
pub struct Erc1155TransferBatchEventView {
    pub operator: Seq<u8>,
    pub from: Seq<u8>,
    pub to: Seq<u8>,
    pub ids: Seq<nat>,
    pub values: Seq<nat>,
}

/// A [`Log`] as a mathematical value.
pub struct LogView {
    pub address: Seq<u8>,
    pub block_index: u32,
    pub erc20_transfer: Option<Erc20TransferEventView>,
    pub erc721_transfer: Option<Erc721TransferEventView>,
    pub erc1155_transfer_single: Option<Erc1155TransferSingleEventView>,
    pub erc1155_transfer_batch: Option<Erc1155TransferBatchEventView>,
}

/// A [`Receipt`] as a mathematical value.
pub struct ReceiptView {
    pub trx_hash: Seq<u8>,
    pub logs: Seq<LogView>,
}

/// A [`Block`] as a mathematical value.
pub struct BlockView {
    pub number: u64,
    pub header: Option<BlockHeader>,
    pub receipts: Seq<ReceiptView>,
}

impl View for Erc20TransferEvent {
    type V = Erc20TransferEventView;

    open spec fn view(&self) -> Erc20TransferEventView {
        Erc20TransferEventView { from: self.from@, to: self.to@, value: self.value@ }
    }
}

impl View for Erc721TransferEvent {
    type V = Erc721TransferEventView;

    open spec fn view(&self) -> Erc721TransferEventView {
        Erc721TransferEventView { from: self.from@, to: self.to@, token_id: self.token_id@ }
    }
}

impl View for Erc1155TransferSingleEvent {
    type V = Erc1155TransferSingleEventView;

    open spec fn view(&self) -> Erc1155TransferSingleEventView {
        Erc1155TransferSingleEventView {
            operator: self.operator@,
            from: self.from@,
            to: self.to@,
            id: self.id@,
            value: self.value@,
        }
    }
}

/// The numbers that `numbers` hold, in the same order.
pub open spec fn uint_values(numbers: Seq<BigUint>) -> Seq<nat> {
    numbers.map_values(|n: BigUint| n@)
}

impl View for Erc1155TransferBatchEvent {
    type V = Erc1155TransferBatchEventView;

    open spec fn view(&self) -> Erc1155TransferBatchEventView {
        Erc1155TransferBatchEventView {
            operator: self.operator@,
            from: self.from@,
            to: self.to@,
            ids: uint_values(self.ids@),
            values: uint_values(self.values@),
        }
    }
}

impl View for Log {
    type V = LogView;

    open spec fn view(&self) -> LogView {
        LogView {
            address: self.address@,
            block_index: self.block_index,
            erc20_transfer: match self.erc20_transfer {
                Some(event) => Some(event@),
                None => None,
            },
            erc721_transfer: match self.erc721_transfer {
                Some(event) => Some(event@),
                None => None,
            },
            erc1155_transfer_single: match self.erc1155_transfer_single {
                Some(event) => Some(event@),
                None => None,
            },
            erc1155_transfer_batch: match self.erc1155_transfer_batch {
                Some(event) => Some(event@),
                None => None,
            },
        }
    }
}

impl View for Receipt {
    type V = ReceiptView;

    open spec fn view(&self) -> ReceiptView {
        ReceiptView { trx_hash: self.trx_hash@, logs: self.logs@.map_values(|log: Log| log@) }
    }
}

impl View for Block {
    type V = BlockView;

    open spec fn view(&self) -> BlockView {
        BlockView {
            number: self.number,
            header: self.header,
            receipts: self.receipts@.map_values(|receipt: Receipt| receipt@),
        }
    }
}

impl BlockView {
    /// Whether the block has a header and the header a timestamp. Extraction
    /// is defined for such blocks only.
    pub open spec fn has_timestamp(self) -> bool {
        self.header is Some && self.header->0.timestamp is Some
    }

    /// The block's time in seconds, the header's signed count read as an
    /// unsigned one.
    pub open spec fn timestamp_seconds(self) -> u64
        recommends
            self.has_timestamp(),
    {
        self.header->0.timestamp->0.seconds as u64
    }
}

impl Block {
    /// Whether the block has a header and the header a timestamp.
    pub fn has_timestamp(&self) -> (present: bool)
        ensures
            present == self@.has_timestamp(),
    {
        match self.header {
            Some(header) => header.timestamp.is_some(),
            None => false,
        }
    }

    /// The block's time in seconds since the epoch.
    pub fn timestamp_seconds(&self) -> (seconds: u64)
        requires
            self@.has_timestamp(),
        ensures
            seconds == self@.timestamp_seconds(),
            self.header->0.timestamp->0.seconds >= 0 ==> seconds == self.header->0.timestamp->0.seconds,
    {
        let header = self.header.unwrap();
        let timestamp = header.timestamp.unwrap();
        #[verifier::truncate]
        (timestamp.seconds as u64)
    }
}

} // verus!

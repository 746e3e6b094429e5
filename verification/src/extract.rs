//! Extraction: from a block to its transfers, in the order of its receipts,
//! of the logs within a receipt and of the entries within a batch.

use vstd::prelude::*;
use crate::block::{Block, BlockView, Log, LogView, ReceiptView};
use crate::decimal::{decimal_digits, decimal_string, lemma_decimal_value_of_digits};
use crate::laws::{
    block_names_operators, lemma_block_record_shape, lemma_schema_invariant, record_shape,
};
use crate::normalize::{
    erc1155_batch_records, erc1155_single_record, erc20_record, erc721_record,
    new_erc1155_batch_transfer, new_erc1155_single_transfer, new_erc20_transfer,
    new_erc721_transfer,
};
use crate::schema::Schema;
use crate::transfer::{transfer_views, Transfer, TransferView};

verus! {

/// The records of one log. The matchers rank in the order ERC-20 transfer,
/// ERC-721 transfer, ERC-1155 single transfer, ERC-1155 batch transfer, and
/// the first that recognised the log decides its records alone. A log that
/// none recognised has no records.
pub open spec fn log_records(blk: BlockView, hash: Seq<u8>, log: LogView) -> Seq<TransferView> {
    let log_index = decimal_digits(log.block_index as nat);
    if let Some(event) = log.erc20_transfer {
        seq![erc20_record(blk, log.address, hash, log_index, event)]
    } else if let Some(event) = log.erc721_transfer {
        seq![erc721_record(blk, log.address, hash, log_index, event)]
    } else if let Some(event) = log.erc1155_transfer_single {
        seq![erc1155_single_record(blk, log.address, hash, log_index, event)]
    } else if let Some(event) = log.erc1155_transfer_batch {
        erc1155_batch_records(blk, log.address, hash, log_index, event)
    } else {
        Seq::empty()
    }
}

/// Where a batch event decides the records of `log` and holds another number
/// of values than of identifiers, so that the log is dropped: those two
/// numbers, the identifiers' first.
pub open spec fn dropped_batch(log: LogView) -> Option<(nat, nat)> {
    if log.erc20_transfer is Some || log.erc721_transfer is Some
        || log.erc1155_transfer_single is Some {
        None
    } else if let Some(event) = log.erc1155_transfer_batch {
        if event.ids.len() != event.values.len() {
            Some((event.ids.len(), event.values.len()))
        } else {
            None
        }
    } else {
        None
    }
}

/// The records of `logs`, all of one transaction: log after log.
pub open spec fn logs_records(blk: BlockView, hash: Seq<u8>, logs: Seq<LogView>) -> Seq<
    TransferView,
>
    decreases logs.len(),
{
    if logs.len() == 0 {
        Seq::empty()
    } else {
        logs_records(blk, hash, logs.drop_last()) + log_records(blk, hash, logs.last())
    }
}

/// The records of one receipt.
pub open spec fn receipt_records(blk: BlockView, receipt: ReceiptView) -> Seq<TransferView> {
    logs_records(blk, receipt.trx_hash, receipt.logs)
}

/// The records of `receipts`: receipt after receipt.
pub open spec fn receipts_records(blk: BlockView, receipts: Seq<ReceiptView>) -> Seq<
    TransferView,
>
    decreases receipts.len(),
{
    if receipts.len() == 0 {
        Seq::empty()
    } else {
        receipts_records(blk, receipts.drop_last()) + receipt_records(blk, receipts.last())
    }
}

/// The records of a block.
pub open spec fn block_records(blk: BlockView) -> Seq<TransferView> {
    receipts_records(blk, blk.receipts)
}

impl Log {
    /// Tells whether the log is dropped for a batch event of mismatched
    /// lengths, and if so with how many identifiers and how many values, so
    /// that a caller can report it.
    pub fn dropped_batch(&self) -> (counts: Option<(usize, usize)>)
        ensures
            match counts {
                Some((ids, values)) => dropped_batch(self@) == Some((ids as nat, values as nat)),
                None => dropped_batch(self@) is None,
            },
    {
        if self.erc20_transfer.is_some() || self.erc721_transfer.is_some()
            || self.erc1155_transfer_single.is_some() {
            return None;
        }
        match &self.erc1155_transfer_batch {
            Some(event) => {
                if event.ids.len() != event.values.len() {
                    Some((event.ids.len(), event.values.len()))
                } else {
                    None
                }
            },
            None => None,
        }
    }
}

/// The transfers that one log of the transaction with hash `hash` announces.
pub fn log_transfers(blk: &Block, hash: &[u8], log: &Log) -> (transfers: Vec<Transfer>)
    requires
        blk@.has_timestamp(),
    ensures
        transfer_views(transfers@) == log_records(blk@, hash@, log@),
        forall|i: int| 0 <= i < transfers@.len() ==> (#[trigger] transfers@[i])@.well_formed(),
{
    let contract = log.address.as_slice();
    let log_index = decimal_string(log.block_index as u64);
    proof {
        lemma_decimal_value_of_digits(log.block_index as nat);
    }
    let transfers = if let Some(event) = &log.erc20_transfer {
        vec![new_erc20_transfer(blk, contract, hash, log_index, event)]
    } else if let Some(event) = &log.erc721_transfer {
        vec![new_erc721_transfer(blk, contract, hash, log_index, event)]
    } else if let Some(event) = &log.erc1155_transfer_single {
        vec![new_erc1155_single_transfer(blk, contract, hash, log_index, event)]
    } else if let Some(event) = &log.erc1155_transfer_batch {
        new_erc1155_batch_transfer(blk, contract, hash, log_index, event)
    } else {
        Vec::new()
    };
    transfers
}

/// The transfers of a block, in the order of its receipts, of the logs
/// within a receipt and of the entries within a batch.
///
/// Every transfer is well formed and carries the block's number and time.
/// Its token identifier is empty exactly where its standard is ERC-20, its
/// operator is empty wherever its standard is not ERC-1155, and its quantity
/// is `1` wherever its standard is ERC-721. Where the block's ERC-1155
/// events name their operators, the operator is empty only where the
/// standard is not ERC-1155.
pub fn get_transfers(blk: &Block) -> (transfers: Vec<Transfer>)
    requires
        blk@.has_timestamp(),
    ensures
        transfer_views(transfers@) == block_records(blk@),
        forall|i: int| 0 <= i < transfers@.len() ==> (#[trigger] transfers@[i])@.well_formed(),
        forall|i: int|
            0 <= i < transfers@.len() ==> (#[trigger] transfers@[i]).block_number == blk.number
                && transfers@[i].block_timestamp == blk@.timestamp_seconds(),
        forall|i: int|
            0 <= i < transfers@.len() ==> ((#[trigger] transfers@[i]).token_id@.len() == 0
                <==> transfers@[i].schema@ == Schema::Erc20.name()),
        forall|i: int|
            0 <= i < transfers@.len() && (#[trigger] transfers@[i]).schema@
                != Schema::Erc1155.name() ==> transfers@[i].operator@.len() == 0,
        forall|i: int|
            0 <= i < transfers@.len() && (#[trigger] transfers@[i]).schema@
                == Schema::Erc721.name() ==> transfers@[i].quantity@ == seq!['1'],
        block_names_operators(blk@) ==> forall|i: int|
            0 <= i < transfers@.len() && (#[trigger] transfers@[i]).schema@
                == Schema::Erc1155.name() ==> transfers@[i].operator@.len() > 0,
{
    let mut transfers: Vec<Transfer> = Vec::new();
    let mut r: usize = 0;
    while r < blk.receipts.len()
        invariant
            blk@.has_timestamp(),
            r <= blk.receipts.len(),
            transfer_views(transfers@) == receipts_records(blk@, blk@.receipts.take(r as int)),
        decreases blk.receipts.len() - r,
    {
        let receipt = &blk.receipts[r];
        let hash = receipt.trx_hash.as_slice();
        let ghost before = transfers@;
        let mut l: usize = 0;
        while l < receipt.logs.len()
            invariant
                blk@.has_timestamp(),
                l <= receipt.logs.len(),
                hash@ == receipt@.trx_hash,
                transfer_views(transfers@) == transfer_views(before) + logs_records(
                    blk@,
                    receipt@.trx_hash,
                    receipt@.logs.take(l as int),
                ),
            decreases receipt.logs.len() - l,
        {
            let mut found = log_transfers(blk, hash, &receipt.logs[l]);
            let ghost so_far = transfers@;
            let ghost added = found@;
            transfers.append(&mut found);
            proof {
                let logs = receipt@.logs;
                assert(logs.take(l + 1).drop_last() =~= logs.take(l as int));
                assert(transfer_views(so_far + added) =~= transfer_views(so_far) + transfer_views(
                    added,
                ));
            }
            l += 1;
        }
        proof {
            let receipts = blk@.receipts;
            assert(receipt@.logs.take(l as int) =~= receipt@.logs);
            assert(receipts.take(r + 1).drop_last() =~= receipts.take(r as int));
        }
        r += 1;
    }
    proof {
        assert(blk@.receipts.take(r as int) =~= blk@.receipts);
        assert forall|i: int| 0 <= i < transfers@.len() implies record_shape(
            blk@,
            (#[trigger] transfers@[i])@,
        ) by {
            lemma_block_record_shape(blk@, i);
        }
        if block_names_operators(blk@) {
            assert forall|i: int|
                0 <= i < transfers@.len() && (#[trigger] transfers@[i]).schema@
                    == Schema::Erc1155.name() implies transfers@[i].operator@.len() > 0 by {
                lemma_schema_invariant(blk@, i);
            }
        }
    }
    transfers
}

} // verus!

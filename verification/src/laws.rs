//! What holds of the records of every block.

use vstd::prelude::*;
use crate::block::{Block, BlockView, LogView, ReceiptView};
use crate::csv::{csv_line, lemma_csv_round_trip, parse_csv_line, texts_comma_free};
use crate::decimal::{
    decimal_digits, is_decimal, lemma_decimal_digits_shape, lemma_decimal_value_of_digits,
};
use crate::extract::{
    block_records, dropped_batch, log_records, logs_records, receipts_records,
};
use crate::hex::lemma_lower_hex_shape;
use crate::normalize::{
    lemma_erc1155_batch_records_well_formed, lemma_erc1155_record_well_formed,
    lemma_erc20_record_well_formed, lemma_erc721_record_well_formed,
};
use crate::output::{csv_lines, json_lines, kept_records};
use crate::schema::{lemma_schema_names_distinct, Schema};
use crate::transfer::{batch_log_index, transfer_views, Transfer, TransferView};

verus! {

/// Whether the ERC-1155 records of `log`, if it has any, can name their
/// operator: the event that decides the log's records, where it is an
/// ERC-1155 event that yields a record, holds an operator of at least one
/// byte.
pub open spec fn log_names_operator(log: LogView) -> bool {
    if log.erc20_transfer is Some || log.erc721_transfer is Some {
        true
    } else if let Some(event) = log.erc1155_transfer_single {
        event.operator.len() > 0
    } else if let Some(event) = log.erc1155_transfer_batch {
        event.ids.len() == event.values.len() && event.ids.len() > 0 ==> event.operator.len() > 0
    } else {
        true
    }
}

/// Whether every log of the block meets [`log_names_operator`].
pub open spec fn block_names_operators(blk: BlockView) -> bool {
    forall|r: int, l: int|
        0 <= r < blk.receipts.len() && 0 <= l < blk.receipts[r].logs.len()
            ==> log_names_operator(#[trigger] blk.receipts[r].logs[l])
}

/// What holds of every record `t` of the block `blk`: it is well formed
/// and carries the block's number and time.
pub open spec fn record_shape(blk: BlockView, t: TransferView) -> bool {
    &&& t.well_formed()
    &&& t.block_number == blk.number
    &&& t.block_timestamp == blk.timestamp_seconds()
}

/// The number of records of the logs of `logs` before position `l`.
pub open spec fn records_before_log(blk: BlockView, hash: Seq<u8>, logs: Seq<LogView>, l: int) -> nat {
    logs_records(blk, hash, logs.take(l)).len()
}

/// The number of records of the receipts of `receipts` before position `r`.
pub open spec fn records_before_receipt(blk: BlockView, receipts: Seq<ReceiptView>, r: int) -> nat {
    receipts_records(blk, receipts.take(r)).len()
}

/// Where record `i` of `logs` stems from: the log's position and the
/// record's position among that log's records.
proof fn lemma_logs_record_origin(blk: BlockView, hash: Seq<u8>, logs: Seq<LogView>, i: int) -> (origin:
    (int, int))
    requires
        0 <= i < logs_records(blk, hash, logs).len(),
    ensures
        0 <= origin.0 < logs.len(),
        0 <= origin.1 < log_records(blk, hash, logs[origin.0]).len(),
        logs_records(blk, hash, logs)[i] == log_records(blk, hash, logs[origin.0])[origin.1],
        i == records_before_log(blk, hash, logs, origin.0) + origin.1,
    decreases logs.len(),
{
    let before = logs_records(blk, hash, logs.drop_last());
    if i < before.len() {
        let origin = lemma_logs_record_origin(blk, hash, logs.drop_last(), i);
        assert(logs.drop_last().take(origin.0) =~= logs.take(origin.0));
        origin
    } else {
        (logs.len() - 1, i - before.len())
    }
}

/// Where record `i` of `receipts` stems from: the receipt's position, the
/// log's position in that receipt and the record's position among that log's
/// records.
proof fn lemma_receipts_record_origin(blk: BlockView, receipts: Seq<ReceiptView>, i: int) -> (origin:
    (int, int, int))
    requires
        0 <= i < receipts_records(blk, receipts).len(),
    ensures
        0 <= origin.0 < receipts.len(),
        0 <= origin.1 < receipts[origin.0].logs.len(),
        0 <= origin.2 < log_records(
            blk,
            receipts[origin.0].trx_hash,
            receipts[origin.0].logs[origin.1],
        ).len(),
        receipts_records(blk, receipts)[i] == log_records(
            blk,
            receipts[origin.0].trx_hash,
            receipts[origin.0].logs[origin.1],
        )[origin.2],
        i == records_before_receipt(blk, receipts, origin.0) + records_before_log(
            blk,
            receipts[origin.0].trx_hash,
            receipts[origin.0].logs,
            origin.1,
        ) + origin.2,
    decreases receipts.len(),
{
    let before = receipts_records(blk, receipts.drop_last());
    if i < before.len() {
        let origin = lemma_receipts_record_origin(blk, receipts.drop_last(), i);
        assert(receipts.drop_last().take(origin.0) =~= receipts.take(origin.0));
        origin
    } else {
        let last = receipts.last();
        let (l, k) = lemma_logs_record_origin(blk, last.trx_hash, last.logs, i - before.len());
        (receipts.len() - 1, l, k)
    }
}

/// Every record of a block is a record of one of its logs. It stems from
/// the log at position `origin.1` of the receipt at position `origin.0`, of
/// whose records it is the one at position `origin.2`; and it stands in the
/// block's records behind the records of the receipts before that receipt
/// and of the logs before that log in the receipt.
pub proof fn lemma_record_origin(blk: BlockView, i: int) -> (origin: (int, int, int))
    requires
        0 <= i < block_records(blk).len(),
    ensures
        0 <= origin.0 < blk.receipts.len(),
        0 <= origin.1 < blk.receipts[origin.0].logs.len(),
        0 <= origin.2 < log_records(
            blk,
            blk.receipts[origin.0].trx_hash,
            blk.receipts[origin.0].logs[origin.1],
        ).len(),
        block_records(blk)[i] == log_records(
            blk,
            blk.receipts[origin.0].trx_hash,
            blk.receipts[origin.0].logs[origin.1],
        )[origin.2],
        i == records_before_receipt(blk, blk.receipts, origin.0) + records_before_log(
            blk,
            blk.receipts[origin.0].trx_hash,
            blk.receipts[origin.0].logs,
            origin.1,
        ) + origin.2,
{
    lemma_receipts_record_origin(blk, blk.receipts, i)
}

/// What holds of record `k` of one log.
proof fn lemma_log_record_shape(blk: BlockView, hash: Seq<u8>, log: LogView, k: int)
    requires
        0 <= k < log_records(blk, hash, log).len(),
    ensures
        record_shape(blk, log_records(blk, hash, log)[k]),
        log_records(blk, hash, log)[k].schema == Schema::Erc1155.name() && log_names_operator(log)
            ==> log_records(blk, hash, log)[k].operator.len() > 0,
{
    let own = decimal_digits(log.block_index as nat);
    lemma_decimal_value_of_digits(log.block_index as nat);
    lemma_schema_names_distinct(Schema::Erc20, Schema::Erc1155);
    lemma_schema_names_distinct(Schema::Erc721, Schema::Erc1155);
    if let Some(event) = log.erc20_transfer {
        lemma_erc20_record_well_formed(blk, log.address, hash, own, event);
    } else if let Some(event) = log.erc721_transfer {
        lemma_erc721_record_well_formed(blk, log.address, hash, own, event);
    } else if let Some(event) = log.erc1155_transfer_single {
        lemma_erc1155_record_well_formed(
            blk,
            log.address,
            hash,
            own,
            event.from,
            event.to,
            event.id,
            event.value,
            event.operator,
        );
        lemma_lower_hex_shape(event.operator);
    } else if let Some(event) = log.erc1155_transfer_batch {
        lemma_erc1155_batch_records_well_formed(blk, log.address, hash, own, event, k);
        lemma_lower_hex_shape(event.operator);
    }
}

/// The texts of a well-formed record hold no comma.
pub proof fn lemma_well_formed_comma_free(t: TransferView)
    requires
        t.well_formed(),
    ensures
        texts_comma_free(t),
{
    reveal_strlit("erc20");
    reveal_strlit("erc721");
    reveal_strlit("erc1155");
    if !is_decimal(t.log_index) {
        let (own, position) = choose|own: Seq<char>, position: nat|
            is_decimal(own) && t.log_index == #[trigger] batch_log_index(own, position);
        lemma_decimal_digits_shape(position);
    }
}

/// Every record of a block has the shape that [`record_shape`] describes.
pub proof fn lemma_block_record_shape(blk: BlockView, i: int)
    requires
        0 <= i < block_records(blk).len(),
    ensures
        record_shape(blk, block_records(blk)[i]),
{
    let (r, l, k) = lemma_record_origin(blk, i);
    lemma_log_record_shape(blk, blk.receipts[r].trx_hash, blk.receipts[r].logs[l], k);
}

/// Every record of a block carries the block's number and the block's time.
pub proof fn lemma_records_carry_block_number_and_time(blk: BlockView, i: int)
    requires
        0 <= i < block_records(blk).len(),
    ensures
        block_records(blk)[i].block_number == blk.number,
        block_records(blk)[i].block_timestamp == blk.timestamp_seconds(),
{
    lemma_block_record_shape(blk, i);
}

/// In a block whose ERC-1155 events name their operators, a record's
/// operator is empty exactly where the standard is not ERC-1155, and its
/// token identifier is empty exactly where the standard is ERC-20.
pub proof fn lemma_schema_invariant(blk: BlockView, i: int)
    requires
        0 <= i < block_records(blk).len(),
        block_names_operators(blk),
    ensures
        ({
            let t = block_records(blk)[i];
            &&& (t.token_id.len() == 0 <==> t.schema == Schema::Erc20.name())
            &&& (t.operator.len() == 0 <==> t.schema != Schema::Erc1155.name())
        }),
{
    let (r, l, k) = lemma_record_origin(blk, i);
    lemma_log_record_shape(blk, blk.receipts[r].trx_hash, blk.receipts[r].logs[l], k);
}

/// Every ERC-721 record of a block moves exactly one token.
pub proof fn lemma_erc721_quantity_is_one(blk: BlockView, i: int)
    requires
        0 <= i < block_records(blk).len(),
        block_records(blk)[i].schema == Schema::Erc721.name(),
    ensures
        block_records(blk)[i].quantity == seq!['1'],
{
    lemma_block_record_shape(blk, i);
}

/// Round trip of every record of a block: its CSV line writes the record
/// itself, field for field.
pub proof fn lemma_block_records_csv_round_trip(blk: BlockView, i: int)
    requires
        0 <= i < block_records(blk).len(),
    ensures
        texts_comma_free(block_records(blk)[i]),
        parse_csv_line(csv_line(block_records(blk)[i])) == Some(block_records(blk)[i]),
{
    lemma_block_record_shape(blk, i);
    lemma_well_formed_comma_free(block_records(blk)[i]);
    lemma_csv_round_trip(block_records(blk)[i]);
}

/// How many records a log has: one where one of the first three matchers
/// recognised it; where only the batch matcher did, one for each identifier
/// of the event, or none where the event is dropped for its mismatched
/// lengths; and none where no matcher recognised it.
pub proof fn lemma_log_record_count(blk: BlockView, hash: Seq<u8>, log: LogView)
    ensures
        log.erc20_transfer is Some || log.erc721_transfer is Some
            || log.erc1155_transfer_single is Some ==> log_records(blk, hash, log).len() == 1,
        log.erc20_transfer is None && log.erc721_transfer is None
            && log.erc1155_transfer_single is None && log.erc1155_transfer_batch is Some
            ==> log_records(blk, hash, log).len() == if dropped_batch(log) is Some {
            0
        } else {
            log.erc1155_transfer_batch->0.ids.len()
        },
        log.erc20_transfer is None && log.erc721_transfer is None
            && log.erc1155_transfer_single is None && log.erc1155_transfer_batch is None
            ==> log_records(blk, hash, log).len() == 0,
        dropped_batch(log) is Some ==> log_records(blk, hash, log).len() == 0,
{
}

/// Whether no two logs of the block carry the same block index.
pub open spec fn block_indices_distinct(blk: BlockView) -> bool {
    forall|r1: int, l1: int, r2: int, l2: int|
        0 <= r1 < blk.receipts.len() && 0 <= l1 < blk.receipts[r1].logs.len() && 0 <= r2
            < blk.receipts.len() && 0 <= l2 < blk.receipts[r2].logs.len() && (r1 != r2 || l1
            != l2) ==> (#[trigger] blk.receipts[r1].logs[l1]).block_index
            != (#[trigger] blk.receipts[r2].logs[l2]).block_index
}

/// Whether `tail` may follow a log's own index in a record's log index: it
/// is empty or begins with a slash.
spec fn is_index_tail(tail: Seq<char>) -> bool {
    tail.len() == 0 || tail[0] == '/'
}

/// The log index of record `k` of a log is the log's own index in decimal,
/// alone or followed by a slash and `k` in decimal.
proof fn lemma_log_record_index(blk: BlockView, hash: Seq<u8>, log: LogView, k: int)
    requires
        0 <= k < log_records(blk, hash, log).len(),
    ensures
        ({
            let own = decimal_digits(log.block_index as nat);
            let index = log_records(blk, hash, log)[k].log_index;
            (k == 0 && index == own) || index == batch_log_index(own, k as nat)
        }),
{
}

/// Two different numbers have different log indices, whatever tails follow.
proof fn lemma_indices_differ(a: nat, b: nat, tail_a: Seq<char>, tail_b: Seq<char>)
    requires
        a != b,
        is_index_tail(tail_a),
        is_index_tail(tail_b),
    ensures
        decimal_digits(a) + tail_a != decimal_digits(b) + tail_b,
{
    let x = decimal_digits(a);
    let y = decimal_digits(b);
    lemma_decimal_digits_shape(a);
    lemma_decimal_digits_shape(b);
    lemma_decimal_value_of_digits(a);
    lemma_decimal_value_of_digits(b);
    if x + tail_a == y + tail_b {
        if x.len() == y.len() {
            assert((x + tail_a).subrange(0, x.len() as int) =~= x);
            assert((y + tail_b).subrange(0, y.len() as int) =~= y);
        } else if x.len() < y.len() {
            assert((y + tail_b)[x.len() as int] == y[x.len() as int]);
        } else {
            assert((x + tail_a)[y.len() as int] == x[y.len() as int]);
        }
    }
}

/// Two different positions of a batch have different log indices.
proof fn lemma_batch_indices_differ(own: Seq<char>, j: nat, k: nat)
    requires
        j != k,
    ensures
        batch_log_index(own, j) != batch_log_index(own, k),
{
    let x = batch_log_index(own, j);
    let y = batch_log_index(own, k);
    lemma_decimal_value_of_digits(j);
    lemma_decimal_value_of_digits(k);
    if x == y {
        assert(x.subrange(own.len() as int + 1, x.len() as int) =~= decimal_digits(j));
        assert(y.subrange(own.len() as int + 1, y.len() as int) =~= decimal_digits(k));
    }
}

/// In a block whose logs carry different block indices, no two records have
/// the same log index.
pub proof fn lemma_log_indices_distinct(blk: BlockView, i: int, j: int)
    requires
        0 <= i < j < block_records(blk).len(),
        block_indices_distinct(blk),
    ensures
        block_records(blk)[i].log_index != block_records(blk)[j].log_index,
{
    let (r1, l1, k1) = lemma_record_origin(blk, i);
    let (r2, l2, k2) = lemma_record_origin(blk, j);
    let log1 = blk.receipts[r1].logs[l1];
    let log2 = blk.receipts[r2].logs[l2];
    let own1 = decimal_digits(log1.block_index as nat);
    let own2 = decimal_digits(log2.block_index as nat);
    lemma_log_record_index(blk, blk.receipts[r1].trx_hash, log1, k1);
    lemma_log_record_index(blk, blk.receipts[r2].trx_hash, log2, k2);
    let index1 = block_records(blk)[i].log_index;
    let index2 = block_records(blk)[j].log_index;
    let tail1 = if index1 == own1 {
        Seq::<char>::empty()
    } else {
        seq!['/'] + decimal_digits(k1 as nat)
    };
    let tail2 = if index2 == own2 {
        Seq::<char>::empty()
    } else {
        seq!['/'] + decimal_digits(k2 as nat)
    };
    assert(index1 =~= own1 + tail1);
    assert(index2 =~= own2 + tail2);
    if r1 == r2 && l1 == l2 {
        lemma_batch_indices_differ(own1, k1 as nat, k2 as nat);
    } else {
        lemma_indices_differ(log1.block_index as nat, log2.block_index as nat, tail1, tail2);
    }
}

/// The records of logs in a row are those of the first logs followed by
/// those of the rest: a record of an earlier log stands before every record
/// of a later log.
pub proof fn lemma_logs_records_concat(
    blk: BlockView,
    hash: Seq<u8>,
    first: Seq<LogView>,
    rest: Seq<LogView>,
)
    ensures
        logs_records(blk, hash, first + rest) == logs_records(blk, hash, first) + logs_records(
            blk,
            hash,
            rest,
        ),
    decreases rest.len(),
{
    if rest.len() > 0 {
        lemma_logs_records_concat(blk, hash, first, rest.drop_last());
        assert((first + rest).drop_last() =~= first + rest.drop_last());
    }
}

/// The records of receipts in a row are those of the first receipts
/// followed by those of the rest: a record of an earlier receipt stands
/// before every record of a later receipt.
pub proof fn lemma_receipts_records_concat(
    blk: BlockView,
    first: Seq<ReceiptView>,
    rest: Seq<ReceiptView>,
)
    ensures
        receipts_records(blk, first + rest) == receipts_records(blk, first) + receipts_records(
            blk,
            rest,
        ),
    decreases rest.len(),
{
    if rest.len() > 0 {
        lemma_receipts_records_concat(blk, first, rest.drop_last());
        assert((first + rest).drop_last() =~= first + rest.drop_last());
    }
}

/// Extraction is a function of the block's content: whatever two runs on
/// the same block return, they return the same records in the same order,
/// and so the same lines of every output.
pub proof fn lemma_extraction_repeatable(
    blk: Block,
    first: Vec<Transfer>,
    second: Vec<Transfer>,
    allowed: Seq<Seq<char>>,
)
    requires
        transfer_views(first@) == block_records(blk@),
        transfer_views(second@) == block_records(blk@),
    ensures
        transfer_views(first@) == transfer_views(second@),
        json_lines(transfer_views(first@)) == json_lines(transfer_views(second@)),
        json_lines(kept_records(transfer_views(first@), allowed)) == json_lines(
            kept_records(transfer_views(second@), allowed),
        ),
        csv_lines(transfer_views(first@)) == csv_lines(transfer_views(second@)),
{
}

} // verus!

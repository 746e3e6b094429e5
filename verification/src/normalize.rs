//! The mapping rules from decoded events to records, one per event shape.

use vstd::prelude::*;
use crate::block::{
    Block, BlockView, Erc1155TransferBatchEvent, Erc1155TransferBatchEventView,
    Erc1155TransferSingleEvent, Erc1155TransferSingleEventView, Erc20TransferEvent,
    Erc20TransferEventView, Erc721TransferEvent, Erc721TransferEventView,
};
use crate::decimal::{decimal_digits, decimal_string, is_decimal, lemma_decimal_value_of_digits};
use crate::hex::{hex_string, lemma_lower_hex_shape, lower_hex};
use crate::schema::{lemma_schema_names_distinct, schema_to_string, Schema};
use crate::transfer::{batch_log_index, is_log_index, transfer_views, Transfer, TransferView};
use crate::uint::BigUint;

verus! {

/// The record of an ERC-20 transfer: the value moved is the quantity, and
/// there is neither token identifier nor operator.
pub open spec fn erc20_record(
    blk: BlockView,
    contract: Seq<u8>,
    hash: Seq<u8>,
    log_index: Seq<char>,
    event: Erc20TransferEventView,
) -> TransferView {
    TransferView {
        schema: Schema::Erc20.name(),
        trx_hash: lower_hex(hash),
        log_index,
        from: lower_hex(event.from),
        to: lower_hex(event.to),
        quantity: decimal_digits(event.value),
        operator: Seq::empty(),
        token_id: Seq::empty(),
        contract: lower_hex(contract),
        block_number: blk.number,
        block_timestamp: blk.timestamp_seconds(),
    }
}

/// The record of an ERC-721 transfer: one token moves, the one that the
/// event identifies, and there is no operator.
pub open spec fn erc721_record(
    blk: BlockView,
    contract: Seq<u8>,
    hash: Seq<u8>,
    log_index: Seq<char>,
    event: Erc721TransferEventView,
) -> TransferView {
    TransferView {
        schema: Schema::Erc721.name(),
        trx_hash: lower_hex(hash),
        log_index,
        from: lower_hex(event.from),
        to: lower_hex(event.to),
        quantity: seq!['1'],
        operator: Seq::empty(),
        token_id: decimal_digits(event.token_id),
        contract: lower_hex(contract),
        block_number: blk.number,
        block_timestamp: blk.timestamp_seconds(),
    }
}

/// The record of one ERC-1155 movement: `quantity` tokens of kind
/// `token_id`, moved by `operator`.
pub open spec fn erc1155_record(
    blk: BlockView,
    contract: Seq<u8>,
    hash: Seq<u8>,
    log_index: Seq<char>,
    from: Seq<u8>,
    to: Seq<u8>,
    token_id: nat,
    quantity: nat,
    operator: Seq<u8>,
) -> TransferView {
    TransferView {
        schema: Schema::Erc1155.name(),
        trx_hash: lower_hex(hash),
        log_index,
        from: lower_hex(from),
        to: lower_hex(to),
        quantity: decimal_digits(quantity),
        operator: lower_hex(operator),
        token_id: decimal_digits(token_id),
        contract: lower_hex(contract),
        block_number: blk.number,
        block_timestamp: blk.timestamp_seconds(),
    }
}

/// The record of an ERC-1155 `TransferSingle` event.
pub open spec fn erc1155_single_record(
    blk: BlockView,
    contract: Seq<u8>,
    hash: Seq<u8>,
    log_index: Seq<char>,
    event: Erc1155TransferSingleEventView,
) -> TransferView {
    erc1155_record(
        blk,
        contract,
        hash,
        log_index,
        event.from,
        event.to,
        event.id,
        event.value,
        event.operator,
    )
}

/// The records of an ERC-1155 `TransferBatch` event: none where the event
/// holds another number of values than of identifiers; else one for each
/// identifier, in their order, with the value at the same position.
pub open spec fn erc1155_batch_records(
    blk: BlockView,
    contract: Seq<u8>,
    hash: Seq<u8>,
    log_index: Seq<char>,
    event: Erc1155TransferBatchEventView,
) -> Seq<TransferView> {
    if event.ids.len() != event.values.len() {
        Seq::empty()
    } else {
        Seq::new(
            event.ids.len(),
            |i: int|
                erc1155_record(
                    blk,
                    contract,
                    hash,
                    batch_log_index(log_index, i as nat),
                    event.from,
                    event.to,
                    event.ids[i],
                    event.values[i],
                    event.operator,
                ),
        )
    }
}

/// The record of an ERC-20 transfer is well formed where its log index is
/// one.
pub proof fn lemma_erc20_record_well_formed(
    blk: BlockView,
    contract: Seq<u8>,
    hash: Seq<u8>,
    log_index: Seq<char>,
    event: Erc20TransferEventView,
)
    requires
        is_log_index(log_index),
    ensures
        erc20_record(blk, contract, hash, log_index, event).well_formed(),
{
    lemma_lower_hex_shape(contract);
    lemma_lower_hex_shape(hash);
    lemma_lower_hex_shape(event.from);
    lemma_lower_hex_shape(event.to);
    lemma_lower_hex_shape(Seq::empty());
    lemma_decimal_value_of_digits(event.value);
    lemma_schema_names_distinct(Schema::Erc20, Schema::Erc721);
    lemma_schema_names_distinct(Schema::Erc20, Schema::Erc1155);
}

/// The record of an ERC-721 transfer is well formed where its log index is
/// one.
pub proof fn lemma_erc721_record_well_formed(
    blk: BlockView,
    contract: Seq<u8>,
    hash: Seq<u8>,
    log_index: Seq<char>,
    event: Erc721TransferEventView,
)
    requires
        is_log_index(log_index),
    ensures
        erc721_record(blk, contract, hash, log_index, event).well_formed(),
{
    lemma_lower_hex_shape(contract);
    lemma_lower_hex_shape(hash);
    lemma_lower_hex_shape(event.from);
    lemma_lower_hex_shape(event.to);
    lemma_lower_hex_shape(Seq::empty());
    lemma_decimal_value_of_digits(event.token_id);
    lemma_decimal_value_of_digits(1);
    assert(decimal_digits(1) =~= seq!['1']);
    lemma_schema_names_distinct(Schema::Erc721, Schema::Erc20);
    lemma_schema_names_distinct(Schema::Erc721, Schema::Erc1155);
}

/// The record of an ERC-1155 movement is well formed where its log index
/// is one.
pub proof fn lemma_erc1155_record_well_formed(
    blk: BlockView,
    contract: Seq<u8>,
    hash: Seq<u8>,
    log_index: Seq<char>,
    from: Seq<u8>,
    to: Seq<u8>,
    token_id: nat,
    quantity: nat,
    operator: Seq<u8>,
)
    requires
        is_log_index(log_index),
    ensures
        erc1155_record(
            blk,
            contract,
            hash,
            log_index,
            from,
            to,
            token_id,
            quantity,
            operator,
        ).well_formed(),
{
    lemma_lower_hex_shape(contract);
    lemma_lower_hex_shape(hash);
    lemma_lower_hex_shape(from);
    lemma_lower_hex_shape(to);
    lemma_lower_hex_shape(operator);
    lemma_decimal_value_of_digits(token_id);
    lemma_decimal_value_of_digits(quantity);
    lemma_schema_names_distinct(Schema::Erc1155, Schema::Erc20);
    lemma_schema_names_distinct(Schema::Erc1155, Schema::Erc721);
}

/// The records of an ERC-1155 batch are well formed where the log's own
/// index is a decimal text.
pub proof fn lemma_erc1155_batch_records_well_formed(
    blk: BlockView,
    contract: Seq<u8>,
    hash: Seq<u8>,
    log_index: Seq<char>,
    event: Erc1155TransferBatchEventView,
    i: int,
)
    requires
        is_decimal(log_index),
        0 <= i < erc1155_batch_records(blk, contract, hash, log_index, event).len(),
    ensures
        erc1155_batch_records(blk, contract, hash, log_index, event)[i].well_formed(),
{
    let entry_index = batch_log_index(log_index, i as nat);
    assert(is_log_index(entry_index));
    lemma_erc1155_record_well_formed(
        blk,
        contract,
        hash,
        entry_index,
        event.from,
        event.to,
        event.ids[i],
        event.values[i],
        event.operator,
    );
}

/// Builds the record of an ERC-20 transfer that the log at `log_index`,
/// emitted by `contract` in the transaction with hash `hash`, announced.
pub fn new_erc20_transfer(
    blk: &Block,
    contract: &[u8],
    hash: &[u8],
    log_index: String,
    event: &Erc20TransferEvent,
) -> (transfer: Transfer)
    requires
        blk@.has_timestamp(),
    ensures
        transfer@ == erc20_record(blk@, contract@, hash@, log_index@, event@),
        is_log_index(log_index@) ==> transfer@.well_formed(),
{
    proof {
        if is_log_index(log_index@) {
            lemma_erc20_record_well_formed(blk@, contract@, hash@, log_index@, event@);
        }
    }
    let timestamp = blk.timestamp_seconds();
    Transfer {
        schema: schema_to_string(Schema::Erc20),
        from: hex_string(event.from.as_slice()),
        to: hex_string(event.to.as_slice()),
        quantity: event.value.to_decimal(),
        trx_hash: hex_string(hash),
        log_index,
        operator: String::new(),
        token_id: String::new(),
        contract: hex_string(contract),
        block_number: blk.number,
        block_timestamp: timestamp,
    }
}

/// Builds the record of an ERC-721 transfer.
pub fn new_erc721_transfer(
    blk: &Block,
    contract: &[u8],
    hash: &[u8],
    log_index: String,
    event: &Erc721TransferEvent,
) -> (transfer: Transfer)
    requires
        blk@.has_timestamp(),
    ensures
        transfer@ == erc721_record(blk@, contract@, hash@, log_index@, event@),
        is_log_index(log_index@) ==> transfer@.well_formed(),
{
    proof {
        if is_log_index(log_index@) {
            lemma_erc721_record_well_formed(blk@, contract@, hash@, log_index@, event@);
        }
    }
    let timestamp = blk.timestamp_seconds();
    let quantity = "1".to_owned();
    proof {
        reveal_strlit("1");
        assert(quantity@ =~= seq!['1']);
    }
    Transfer {
        schema: schema_to_string(Schema::Erc721),
        from: hex_string(event.from.as_slice()),
        to: hex_string(event.to.as_slice()),
        quantity,
        trx_hash: hex_string(hash),
        log_index,
        token_id: event.token_id.to_decimal(),
        operator: String::new(),
        contract: hex_string(contract),
        block_number: blk.number,
        block_timestamp: timestamp,
    }
}

/// Builds the record of an ERC-1155 `TransferSingle` event.
pub fn new_erc1155_single_transfer(
    blk: &Block,
    contract: &[u8],
    hash: &[u8],
    log_index: String,
    event: &Erc1155TransferSingleEvent,
) -> (transfer: Transfer)
    requires
        blk@.has_timestamp(),
    ensures
        transfer@ == erc1155_single_record(blk@, contract@, hash@, log_index@, event@),
        is_log_index(log_index@) ==> transfer@.well_formed(),
{
    new_erc1155_transfer(
        blk,
        contract,
        hash,
        log_index,
        event.from.as_slice(),
        event.to.as_slice(),
        &event.id,
        &event.value,
        event.operator.as_slice(),
    )
}

/// Builds the records of an ERC-1155 `TransferBatch` event: one for each
/// identifier with the value at its position, or none at all where the
/// event holds another number of values than of identifiers.
pub fn new_erc1155_batch_transfer(
    blk: &Block,
    contract: &[u8],
    hash: &[u8],
    log_index: String,
    event: &Erc1155TransferBatchEvent,
) -> (transfers: Vec<Transfer>)
    requires
        blk@.has_timestamp(),
    ensures
        transfer_views(transfers@) == erc1155_batch_records(
            blk@,
            contract@,
            hash@,
            log_index@,
            event@,
        ),
        is_decimal(log_index@) ==> forall|i: int|
            0 <= i < transfers@.len() ==> (#[trigger] transfers@[i])@.well_formed(),
{
    let mut transfers: Vec<Transfer> = Vec::new();
    if event.ids.len() != event.values.len() {
        return transfers;
    }
    let mut i: usize = 0;
    while i < event.ids.len()
        invariant
            blk@.has_timestamp(),
            event.ids.len() == event.values.len(),
            i <= event.ids.len(),
            transfers@.len() == i,
            is_decimal(log_index@) ==> forall|k: int|
                0 <= k < i ==> (#[trigger] transfers@[k])@.well_formed(),
            forall|k: int|
                0 <= k < i ==> (#[trigger] transfers@[k])@ == erc1155_record(
                    blk@,
                    contract@,
                    hash@,
                    batch_log_index(log_index@, k as nat),
                    event@.from,
                    event@.to,
                    event@.ids[k],
                    event@.values[k],
                    event@.operator,
                ),
        decreases event.ids.len() - i,
    {
        let mut entry_index = log_index.clone();
        entry_index.append("/");
        let position = decimal_string(i as u64);
        entry_index.append(position.as_str());
        proof {
            reveal_strlit("/");
            assert(entry_index@ =~= batch_log_index(log_index@, i as nat));
            assert(is_decimal(log_index@) ==> is_log_index(entry_index@));
        }
        let transfer = new_erc1155_transfer(
            blk,
            contract,
            hash,
            entry_index,
            event.from.as_slice(),
            event.to.as_slice(),
            &event.ids[i],
            &event.values[i],
            event.operator.as_slice(),
        );
        transfers.push(transfer);
        i += 1;
    }
    assert(transfer_views(transfers@) =~= erc1155_batch_records(
        blk@,
        contract@,
        hash@,
        log_index@,
        event@,
    ));
    transfers
}

/// Builds the record of one ERC-1155 movement.
pub fn new_erc1155_transfer(
    blk: &Block,
    contract: &[u8],
    hash: &[u8],
    log_index: String,
    from: &[u8],
    to: &[u8],
    token_id: &BigUint,
    quantity: &BigUint,
    operator: &[u8],
) -> (transfer: Transfer)
    requires
        blk@.has_timestamp(),
    ensures
        transfer@ == erc1155_record(
            blk@,
            contract@,
            hash@,
            log_index@,
            from@,
            to@,
            token_id@,
            quantity@,
            operator@,
        ),
        is_log_index(log_index@) ==> transfer@.well_formed(),
{
    proof {
        if is_log_index(log_index@) {
            lemma_erc1155_record_well_formed(
                blk@,
                contract@,
                hash@,
                log_index@,
                from@,
                to@,
                token_id@,
                quantity@,
                operator@,
            );
        }
    }
    let timestamp = blk.timestamp_seconds();
    Transfer {
        schema: schema_to_string(Schema::Erc1155),
        from: hex_string(from),
        to: hex_string(to),
        quantity: quantity.to_decimal(),
        trx_hash: hex_string(hash),
        log_index,
        operator: hex_string(operator),
        token_id: token_id.to_decimal(),
        contract: hex_string(contract),
        block_number: blk.number,
        block_timestamp: timestamp,
    }
}

} // verus!

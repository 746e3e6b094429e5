//! A record as one line of JSON.

use vstd::prelude::*;
use crate::decimal::{decimal_digits, decimal_string};
use crate::transfer::{Transfer, TransferView};

verus! {

/// The JSON string literal that `serde_json` writes for `text`: the text
/// between double quotes, with the characters escaped that JSON does not
/// allow bare.
pub uninterp spec fn json_string(text: Seq<char>) -> Seq<char>;

/// The JSON object of a record on one line and without spaces: its members
/// are the record's fields under their names and in their order. The nine
/// texts stand as they are given, each meant to be a JSON string literal
/// already; the two numbers are written in decimal.
pub open spec fn json_object(
    schema: Seq<char>,
    trx_hash: Seq<char>,
    log_index: Seq<char>,
    from: Seq<char>,
    to: Seq<char>,
    quantity: Seq<char>,
    operator: Seq<char>,
    token_id: Seq<char>,
    contract: Seq<char>,
    block_number: u64,
    block_timestamp: u64,
) -> Seq<char> {
    "{\"schema\":"@ + schema
        + ",\"trx_hash\":"@ + trx_hash
        + ",\"log_index\":"@ + log_index
        + ",\"from\":"@ + from
        + ",\"to\":"@ + to
        + ",\"quantity\":"@ + quantity
        + ",\"operator\":"@ + operator
        + ",\"token_id\":"@ + token_id
        + ",\"contract\":"@ + contract
        + ",\"block_number\":"@ + decimal_digits(block_number as nat)
        + ",\"block_timestamp\":"@ + decimal_digits(block_timestamp as nat)
        + "}"@
}

/// The JSON line of a record: the object of [`json_object`] with each text
/// of the record as the JSON string literal that `serde_json` writes for it.
pub open spec fn json_line(t: TransferView) -> Seq<char> {
    json_object(
        json_string(t.schema),
        json_string(t.trx_hash),
        json_string(t.log_index),
        json_string(t.from),
        json_string(t.to),
        json_string(t.quantity),
        json_string(t.operator),
        json_string(t.token_id),
        json_string(t.contract),
        t.block_number,
        t.block_timestamp,
    )
}

/// Writes `text` as a JSON string literal.
///
/// Trusted: the literal is what `serde_json::to_string` returns for a string
/// slice. That call cannot fail: a string slice serialises itself by one call
/// that writes into a vector in memory, and the documented failures, a
/// `Serialize` impl that gives up and a map with a key that is no string, do
/// not arise.
#[verifier::external_body]
pub(crate) fn json_quote(text: &str) -> (literal: String)
    ensures
        literal@ == json_string(text@),
{
    serde_json::to_string(text).unwrap()
}

/// Writes the JSON object of a record from the JSON string literals of its
/// nine texts and from its two numbers.
pub fn json_object_line(
    schema: &str,
    trx_hash: &str,
    log_index: &str,
    from: &str,
    to: &str,
    quantity: &str,
    operator: &str,
    token_id: &str,
    contract: &str,
    block_number: u64,
    block_timestamp: u64,
) -> (line: String)
    ensures
        line@ == json_object(
            schema@,
            trx_hash@,
            log_index@,
            from@,
            to@,
            quantity@,
            operator@,
            token_id@,
            contract@,
            block_number,
            block_timestamp,
        ),
{
    let mut line = "{\"schema\":".to_owned();
    line.append(schema);
    line.append(",\"trx_hash\":");
    line.append(trx_hash);
    line.append(",\"log_index\":");
    line.append(log_index);
    line.append(",\"from\":");
    line.append(from);
    line.append(",\"to\":");
    line.append(to);
    line.append(",\"quantity\":");
    line.append(quantity);
    line.append(",\"operator\":");
    line.append(operator);
    line.append(",\"token_id\":");
    line.append(token_id);
    line.append(",\"contract\":");
    line.append(contract);
    line.append(",\"block_number\":");
    line.append(decimal_string(block_number).as_str());
    line.append(",\"block_timestamp\":");
    line.append(decimal_string(block_timestamp).as_str());
    line.append("}");
    line
}

impl Transfer {
    /// The record as one line of JSON.
    pub fn to_json(&self) -> (line: String)
        ensures
            line@ == json_line(self@),
    {
        let schema = json_quote(self.schema.as_str());
        let trx_hash = json_quote(self.trx_hash.as_str());
        let log_index = json_quote(self.log_index.as_str());
        let from = json_quote(self.from.as_str());
        let to = json_quote(self.to.as_str());
        let quantity = json_quote(self.quantity.as_str());
        let operator = json_quote(self.operator.as_str());
        let token_id = json_quote(self.token_id.as_str());
        let contract = json_quote(self.contract.as_str());
        json_object_line(
            schema.as_str(),
            trx_hash.as_str(),
            log_index.as_str(),
            from.as_str(),
            to.as_str(),
            quantity.as_str(),
            operator.as_str(),
            token_id.as_str(),
            contract.as_str(),
            self.block_number,
            self.block_timestamp,
        )
    }
}

} // verus!

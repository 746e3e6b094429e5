//! A record as one line of comma-separated values.

use vstd::prelude::*;
use vstd::std_specs::iter::IteratorSpec;
use crate::decimal::{
    decimal_digits, decimal_string, decimal_value, is_decimal, lemma_decimal_digits_shape,
    lemma_decimal_value_of_digits, lemma_digits_of_decimal_value, parse_decimal,
};
use crate::transfer::{texts, Transfer, TransferView};

verus! {

/// The CSV line of a record: its eleven fields in their order, the two
/// numbers in decimal, with a comma between neighbours. Nothing is quoted.
pub open spec fn csv_line(t: TransferView) -> Seq<char> {
    t.schema + seq![','] + t.trx_hash + seq![','] + t.log_index + seq![','] + t.from + seq![',']
        + t.to + seq![','] + t.quantity + seq![','] + t.operator + seq![','] + t.token_id
        + seq![','] + t.contract + seq![','] + decimal_digits(t.block_number as nat) + seq![',']
        + decimal_digits(t.block_timestamp as nat)
}

impl Transfer {
    /// The record as one line of comma-separated values.
    pub fn to_csv(&self) -> (line: String)
        ensures
            line@ == csv_line(self@),
    {
        proof {
            reveal_strlit(",");
        }
        let mut line = self.schema.clone();
        line.append(",");
        line.append(self.trx_hash.as_str());
        line.append(",");
        line.append(self.log_index.as_str());
        line.append(",");
        line.append(self.from.as_str());
        line.append(",");
        line.append(self.to.as_str());
        line.append(",");
        line.append(self.quantity.as_str());
        line.append(",");
        line.append(self.operator.as_str());
        line.append(",");
        line.append(self.token_id.as_str());
        line.append(",");
        line.append(self.contract.as_str());
        line.append(",");
        line.append(decimal_string(self.block_number).as_str());
        line.append(",");
        line.append(decimal_string(self.block_timestamp).as_str());
        line
    }
}

/// The fields of a line: the texts between its commas, in their order. A
/// line without a comma is one field, and so is the empty line.
pub open spec fn split_commas(line: Seq<char>) -> Seq<Seq<char>>
    decreases line.len(),
{
    if line.len() == 0 {
        seq![Seq::empty()]
    } else {
        let before = split_commas(line.drop_last());
        if line.last() == ',' {
            before.push(Seq::empty())
        } else {
            before.drop_last().push(before.last().push(line.last()))
        }
    }
}

/// The fields written one after the other with a comma between neighbours.
pub open spec fn join_commas(fields: Seq<Seq<char>>) -> Seq<char>
    decreases fields.len(),
{
    if fields.len() == 0 {
        Seq::empty()
    } else if fields.len() == 1 {
        fields[0]
    } else {
        join_commas(fields.drop_last()) + seq![','] + fields.last()
    }
}

/// Whether no character of `text` is a comma.
pub open spec fn comma_free(text: Seq<char>) -> bool {
    forall|i: int| 0 <= i < text.len() ==> #[trigger] text[i] != ','
}

/// Whether none of the record's texts holds a comma.
pub open spec fn texts_comma_free(t: TransferView) -> bool {
    &&& comma_free(t.schema)
    &&& comma_free(t.trx_hash)
    &&& comma_free(t.log_index)
    &&& comma_free(t.from)
    &&& comma_free(t.to)
    &&& comma_free(t.quantity)
    &&& comma_free(t.operator)
    &&& comma_free(t.token_id)
    &&& comma_free(t.contract)
}

/// Whether `text` is the decimal text of a number that a `u64` holds.
pub open spec fn is_u64_decimal(text: Seq<char>) -> bool {
    is_decimal(text) && decimal_value(text) <= u64::MAX
}

/// The record that a CSV line writes: the line has eleven fields, of which
/// the last two are decimal texts of numbers that a `u64` holds. Any other
/// line writes no record.
pub open spec fn parse_csv_line(line: Seq<char>) -> Option<TransferView> {
    let fields = split_commas(line);
    if fields.len() == 11 && is_u64_decimal(fields[9]) && is_u64_decimal(fields[10]) {
        Some(
            TransferView {
                schema: fields[0],
                trx_hash: fields[1],
                log_index: fields[2],
                from: fields[3],
                to: fields[4],
                quantity: fields[5],
                operator: fields[6],
                token_id: fields[7],
                contract: fields[8],
                block_number: decimal_value(fields[9]) as u64,
                block_timestamp: decimal_value(fields[10]) as u64,
            },
        )
    } else {
        None
    }
}

/// Appends one character to a string.
///
/// Trusted: `String::push`, which the standard library documents as
/// appending the given character to the end of the string.
pub assume_specification[ String::push ](text: &mut String, ch: char)
    ensures
        final(text)@ == old(text)@.push(ch),
;

/// Splits a line at its commas.
pub fn split_fields(line: &str) -> (fields: Vec<String>)
    ensures
        texts(fields@) == split_commas(line@),
{
    broadcast use vstd::string::group_string_axioms;

    let mut fields: Vec<String> = Vec::new();
    let mut current = String::new();
    let mut chars = line.chars();
    let ghost mut consumed: Seq<char> = Seq::empty();
    loop
        invariant
            consumed + chars.remaining() == line@,
            texts(fields@).push(current@) == split_commas(consumed),
        ensures
            consumed == line@,
        decreases line@.len() - consumed.len(),
    {
        let ghost rest = chars.remaining();
        match chars.next() {
            None => {
                break ;
            },
            Some(c) => {
                if c == ',' {
                    fields.push(current);
                    current = String::new();
                } else {
                    current.push(c);
                }
                proof {
                    assert(consumed.push(c).drop_last() =~= consumed);
                    consumed = consumed.push(c);
                }
            },
        }
    }
    fields.push(current);
    fields
}

/// Takes the last string out of a vector that has one.
fn take_last(strings: &mut Vec<String>) -> (last: String)
    requires
        old(strings)@.len() > 0,
    ensures
        last == old(strings)@.last(),
        final(strings)@ == old(strings)@.drop_last(),
{
    let last = strings.pop();
    last.unwrap()
}

impl Transfer {
    /// Reads a record from its CSV line; `None` for a line that writes none.
    pub fn from_csv(line: &str) -> (parsed: Option<Transfer>)
        ensures
            match parsed {
                Some(t) => parse_csv_line(line@) == Some(t@),
                None => parse_csv_line(line@) is None,
            },
    {
        let mut fields = split_fields(line);
        if fields.len() != 11 {
            return None;
        }
        let block_timestamp = parse_decimal(fields[10].as_str());
        let block_number = parse_decimal(fields[9].as_str());
        match (block_number, block_timestamp) {
            (Some(block_number), Some(block_timestamp)) => {
                let _ = take_last(&mut fields);
                let _ = take_last(&mut fields);
                let contract = take_last(&mut fields);
                let token_id = take_last(&mut fields);
                let operator = take_last(&mut fields);
                let quantity = take_last(&mut fields);
                let to = take_last(&mut fields);
                let from = take_last(&mut fields);
                let log_index = take_last(&mut fields);
                let trx_hash = take_last(&mut fields);
                let schema = take_last(&mut fields);
                Some(
                    Transfer {
                        schema,
                        trx_hash,
                        log_index,
                        from,
                        to,
                        quantity,
                        operator,
                        token_id,
                        contract,
                        block_number,
                        block_timestamp,
                    },
                )
            },
            _ => None,
        }
    }
}

/// A text without a comma is a line of one field, itself.
pub proof fn lemma_split_comma_free(field: Seq<char>)
    requires
        comma_free(field),
    ensures
        split_commas(field) == seq![field],
    decreases field.len(),
{
    if field.len() == 0 {
        assert(field =~= Seq::empty());
    } else {
        let init = field.drop_last();
        lemma_split_comma_free(init);
        assert(init.push(field.last()) =~= field);
    }
}

/// A comma and a text without a comma, written after a line, add one field
/// to the line: that text.
pub proof fn lemma_split_appended_field(line: Seq<char>, field: Seq<char>)
    requires
        comma_free(field),
    ensures
        split_commas(line + seq![','] + field) == split_commas(line).push(field),
    decreases field.len(),
{
    let whole = line + seq![','] + field;
    if field.len() == 0 {
        assert(whole.drop_last() =~= line);
        assert(field =~= Seq::empty());
    } else {
        let init = field.drop_last();
        lemma_split_appended_field(line, init);
        assert(whole.drop_last() =~= line + seq![','] + init);
        assert(init.push(field.last()) =~= field);
    }
}

/// The fields of a line hold no comma, and joined by commas they give the
/// line back.
pub proof fn lemma_join_of_split(line: Seq<char>)
    ensures
        split_commas(line).len() >= 1,
        forall|i: int| 0 <= i < split_commas(line).len() ==> comma_free(#[trigger] split_commas(line)[i]),
        join_commas(split_commas(line)) == line,
    decreases line.len(),
{
    if line.len() > 0 {
        let init = line.drop_last();
        let before = split_commas(init);
        lemma_join_of_split(init);
        if line.last() == ',' {
            let fields = before.push(Seq::empty());
            assert(fields.drop_last() =~= before);
        } else {
            let field = before.last().push(line.last());
            let fields = before.drop_last().push(field);
            assert(fields.drop_last() =~= before.drop_last());
            if before.len() > 1 {
                assert(join_commas(fields) =~= (join_commas(before.drop_last()) + seq![',']
                    + before.last()).push(line.last()));
            }
        }
    }
}

/// Joining the first fields and one more appends a comma and that field.
proof fn lemma_join_next(fields: Seq<Seq<char>>, k: int)
    requires
        1 <= k < fields.len(),
    ensures
        join_commas(fields.take(k + 1)) == join_commas(fields.take(k)) + seq![','] + fields[k],
{
    assert(fields.take(k + 1).drop_last() =~= fields.take(k));
}

/// Round trip: the CSV line of a record whose texts hold no comma writes
/// that record, field for field.
pub proof fn lemma_csv_round_trip(t: TransferView)
    requires
        texts_comma_free(t),
    ensures
        parse_csv_line(csv_line(t)) == Some(t),
{
    let number = decimal_digits(t.block_number as nat);
    let time = decimal_digits(t.block_timestamp as nat);
    lemma_decimal_digits_shape(t.block_number as nat);
    lemma_decimal_digits_shape(t.block_timestamp as nat);
    lemma_decimal_value_of_digits(t.block_number as nat);
    lemma_decimal_value_of_digits(t.block_timestamp as nat);
    let l0 = t.schema;
    let l1 = l0 + seq![','] + t.trx_hash;
    let l2 = l1 + seq![','] + t.log_index;
    let l3 = l2 + seq![','] + t.from;
    let l4 = l3 + seq![','] + t.to;
    let l5 = l4 + seq![','] + t.quantity;
    let l6 = l5 + seq![','] + t.operator;
    let l7 = l6 + seq![','] + t.token_id;
    let l8 = l7 + seq![','] + t.contract;
    let l9 = l8 + seq![','] + number;
    let l10 = l9 + seq![','] + time;
    lemma_split_comma_free(l0);
    lemma_split_appended_field(l0, t.trx_hash);
    lemma_split_appended_field(l1, t.log_index);
    lemma_split_appended_field(l2, t.from);
    lemma_split_appended_field(l3, t.to);
    lemma_split_appended_field(l4, t.quantity);
    lemma_split_appended_field(l5, t.operator);
    lemma_split_appended_field(l6, t.token_id);
    lemma_split_appended_field(l7, t.contract);
    lemma_split_appended_field(l8, number);
    lemma_split_appended_field(l9, time);
    let fields = split_commas(l10);
    assert(fields =~= seq![
        t.schema,
        t.trx_hash,
        t.log_index,
        t.from,
        t.to,
        t.quantity,
        t.operator,
        t.token_id,
        t.contract,
        number,
        time,
    ]);
}

/// The other way round: a line that writes a record is the CSV line of
/// that record, and the record's texts hold no comma. So no two lines write
/// the same record.
pub proof fn lemma_csv_line_of_parsed(line: Seq<char>)
    requires
        parse_csv_line(line) is Some,
    ensures
        texts_comma_free(parse_csv_line(line)->0),
        csv_line(parse_csv_line(line)->0) == line,
{
    let fields = split_commas(line);
    let t = parse_csv_line(line)->0;
    lemma_join_of_split(line);
    lemma_digits_of_decimal_value(fields[9]);
    lemma_digits_of_decimal_value(fields[10]);
    lemma_join_next(fields, 1);
    lemma_join_next(fields, 2);
    lemma_join_next(fields, 3);
    lemma_join_next(fields, 4);
    lemma_join_next(fields, 5);
    lemma_join_next(fields, 6);
    lemma_join_next(fields, 7);
    lemma_join_next(fields, 8);
    lemma_join_next(fields, 9);
    lemma_join_next(fields, 10);
}

} // verus!

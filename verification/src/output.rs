//! The four outputs of a block's transfers: the records themselves, JSON
//! lines, JSON lines of the listed contracts only, and CSV lines.

use vstd::prelude::*;
use crate::block::Block;
use crate::csv::csv_line;
use crate::extract::{block_records, get_transfers};
use crate::json::json_line;
use crate::transfer::{texts, transfer_views, Lines, Transfer, TransferView, Transfers};

verus! {

/// The contracts whose transfers the filtered output keeps, each as the
/// lower-case hexadecimal text of its address.
pub open spec fn allowed_contracts() -> Seq<Seq<char>> {
    seq![
        "06a6a7af298129e3a2ab396c9c06f91d3c54aba8"@,
        "3bf3d4e80b91d2731abcb154c21ad35abb417fd2"@,
        "552d72f86f04098a4eaeda6d7b665ac12f846ad2"@,
        "6966730b1435168880b35faa1e75de0988ee2e39"@,
        "71c118b00759b0851785642541ceb0f4ceea0bd5"@,
        "79986af15539de2db9a5086382daeda917a9cf0c"@,
        "abc7e6c01237e8eef355bba2bf925a730b714d5f"@,
        "c70be5b7c19529ef642d16c10dfe91c58b5c3bf0"@,
        "d6076efe1e577deec21afab6ed383b47e9d8dec6"@,
        "cc9a66acf8574141b0e025202dd57649765a4be7"@,
        "847342e826d943e0c7950d0a88882b75a1b19b9f"@,
        "ae36155a55f04a696b8362777620027882b31db5"@,
        "7907f43283202b0a821fea95157fecf0c751dcb5"@,
        "b5f1457d6fba1956fb8d31b0b7caca14bde0be4b"@,
        "0167e9bcc26d02bf71113bbd1b6ea8c9549cd52c"@,
        "15dd37a83564559927bbdcdbfcf85f60a2c6a419"@,
        "048aa6e69d5117bd665af4128383a6982b8367b3"@,
        "865ec58b06bf6305b886793aa20a2da31d034e68"@,
        "f81421fc15300c5a8cca9afe12f5cbad502fa756"@,
        "8b0fde007458ee153bd0f66cd448af5fb3d99b43"@,
        "efcb0688c679d99ee1b78876e11ebe5be2e4292b"@,
        "d084b83c305dafd76ae3e1b4e1f1fe2ecccb3988"@,
        "22c5543d1a35178cb03b33f929a959145e538532"@,
        "35a5cb585d51d836922b78a9bb1f5c04635c39b6"@,
        "8dc89f4716e027394bba225b82328c1ea2ea58bf"@,
        "f203ca1769ca8e9e8fe1da9d147db68b6c919817"@,
        "08f40811c7d6c013744166f3d4cb1a9a92d3d54e"@,
        "de4ce5447ce0c67920a1371605a39187cb6847c8"@,
        "73350fdf1bfd08555d6fe440d3ffa87104d1da19"@,
        "436da116249044e8b4464f0cf21dd93311d88190"@,
    ]
}

/// Those of `records` whose contract is one of `allowed`, in their order.
/// A contract is one of them where its text equals an entry character for
/// character.
pub open spec fn kept_records(records: Seq<TransferView>, allowed: Seq<Seq<char>>) -> Seq<
    TransferView,
> {
    records.filter(|t: TransferView| allowed.contains(t.contract))
}

/// The JSON lines of `records`, one for each and in their order.
pub open spec fn json_lines(records: Seq<TransferView>) -> Seq<Seq<char>> {
    records.map_values(|t: TransferView| json_line(t))
}

/// The CSV lines of `records`, one for each and in their order.
pub open spec fn csv_lines(records: Seq<TransferView>) -> Seq<Seq<char>> {
    records.map_values(|t: TransferView| csv_line(t))
}

/// The list of contracts that [`jsonl_out_with_filter`] keeps.
pub fn contract_allow_list() -> (list: Vec<String>)
    ensures
        texts(list@) == allowed_contracts(),
{
    let mut list: Vec<String> = Vec::new();
    list.push("06a6a7af298129e3a2ab396c9c06f91d3c54aba8".to_owned());
    list.push("3bf3d4e80b91d2731abcb154c21ad35abb417fd2".to_owned());
    list.push("552d72f86f04098a4eaeda6d7b665ac12f846ad2".to_owned());
    list.push("6966730b1435168880b35faa1e75de0988ee2e39".to_owned());
    list.push("71c118b00759b0851785642541ceb0f4ceea0bd5".to_owned());
    list.push("79986af15539de2db9a5086382daeda917a9cf0c".to_owned());
    list.push("abc7e6c01237e8eef355bba2bf925a730b714d5f".to_owned());
    list.push("c70be5b7c19529ef642d16c10dfe91c58b5c3bf0".to_owned());
    list.push("d6076efe1e577deec21afab6ed383b47e9d8dec6".to_owned());
    list.push("cc9a66acf8574141b0e025202dd57649765a4be7".to_owned());
    list.push("847342e826d943e0c7950d0a88882b75a1b19b9f".to_owned());
    list.push("ae36155a55f04a696b8362777620027882b31db5".to_owned());
    list.push("7907f43283202b0a821fea95157fecf0c751dcb5".to_owned());
    list.push("b5f1457d6fba1956fb8d31b0b7caca14bde0be4b".to_owned());
    list.push("0167e9bcc26d02bf71113bbd1b6ea8c9549cd52c".to_owned());
    list.push("15dd37a83564559927bbdcdbfcf85f60a2c6a419".to_owned());
    list.push("048aa6e69d5117bd665af4128383a6982b8367b3".to_owned());
    list.push("865ec58b06bf6305b886793aa20a2da31d034e68".to_owned());
    list.push("f81421fc15300c5a8cca9afe12f5cbad502fa756".to_owned());
    list.push("8b0fde007458ee153bd0f66cd448af5fb3d99b43".to_owned());
    list.push("efcb0688c679d99ee1b78876e11ebe5be2e4292b".to_owned());
    list.push("d084b83c305dafd76ae3e1b4e1f1fe2ecccb3988".to_owned());
    list.push("22c5543d1a35178cb03b33f929a959145e538532".to_owned());
    list.push("35a5cb585d51d836922b78a9bb1f5c04635c39b6".to_owned());
    list.push("8dc89f4716e027394bba225b82328c1ea2ea58bf".to_owned());
    list.push("f203ca1769ca8e9e8fe1da9d147db68b6c919817".to_owned());
    list.push("08f40811c7d6c013744166f3d4cb1a9a92d3d54e".to_owned());
    list.push("de4ce5447ce0c67920a1371605a39187cb6847c8".to_owned());
    list.push("73350fdf1bfd08555d6fe440d3ffa87104d1da19".to_owned());
    list.push("436da116249044e8b4464f0cf21dd93311d88190".to_owned());
    list
}

/// Whether `contract` is one of `allowed`.
pub fn is_allowed(contract: &String, allowed: &Vec<String>) -> (found: bool)
    ensures
        found == texts(allowed@).contains(contract@),
{
    let mut i: usize = 0;
    while i < allowed.len()
        invariant
            i <= allowed.len(),
            forall|k: int| 0 <= k < i ==> texts(allowed@)[k] != contract@,
        decreases allowed.len() - i,
    {
        if allowed[i] == *contract {
            assert(texts(allowed@)[i as int] == contract@);
            return true;
        }
        i += 1;
    }
    false
}

/// Renders each of `transfers` as a JSON line.
pub fn to_json_lines(transfers: &Vec<Transfer>) -> (out: Lines)
    ensures
        out@ == json_lines(transfer_views(transfers@)),
{
    let mut lines: Vec<String> = Vec::new();
    let mut i: usize = 0;
    while i < transfers.len()
        invariant
            i <= transfers.len(),
            lines@.len() == i,
            forall|k: int| 0 <= k < i ==> (#[trigger] lines@[k])@ == json_line(transfers@[k]@),
        decreases transfers.len() - i,
    {
        lines.push(transfers[i].to_json());
        i += 1;
    }
    Lines { lines }
}

/// Renders as JSON lines those of `transfers` whose contract is one of
/// `allowed`, and drops the others.
pub fn to_json_lines_filtered(transfers: &Vec<Transfer>, allowed: &Vec<String>) -> (out: Lines)
    ensures
        out@ == json_lines(kept_records(transfer_views(transfers@), texts(allowed@))),
{
    let mut lines: Vec<String> = Vec::new();
    let mut i: usize = 0;
    let ghost records = transfer_views(transfers@);
    while i < transfers.len()
        invariant
            i <= transfers.len(),
            records == transfer_views(transfers@),
            texts(lines@) == json_lines(kept_records(records.take(i as int), texts(allowed@))),
        decreases transfers.len() - i,
    {
        let ghost kept = kept_records(records.take(i as int), texts(allowed@));
        let ghost rendered = lines@;
        proof {
            reveal(Seq::filter);
            assert(records.take(i + 1).drop_last() =~= records.take(i as int));
        }
        if is_allowed(&transfers[i].contract, allowed) {
            lines.push(transfers[i].to_json());
            proof {
                let now = kept_records(records.take(i + 1), texts(allowed@));
                assert(texts(rendered).len() == json_lines(kept).len());
                assert forall|k: int| 0 <= k < now.len() implies texts(lines@)[k] == json_lines(
                    now,
                )[k] by {
                    if k < kept.len() {
                        assert(texts(rendered)[k] == json_lines(kept)[k]);
                    }
                }
            }
        }
        i += 1;
    }
    assert(records.take(i as int) =~= records);
    Lines { lines }
}

/// Renders each of `transfers` as a CSV line.
pub fn to_csv_lines(transfers: &Vec<Transfer>) -> (out: Lines)
    ensures
        out@ == csv_lines(transfer_views(transfers@)),
{
    let mut lines: Vec<String> = Vec::new();
    let mut i: usize = 0;
    while i < transfers.len()
        invariant
            i <= transfers.len(),
            lines@.len() == i,
            forall|k: int| 0 <= k < i ==> (#[trigger] lines@[k])@ == csv_line(transfers@[k]@),
        decreases transfers.len() - i,
    {
        lines.push(transfers[i].to_csv());
        i += 1;
    }
    Lines { lines }
}

/// The transfers of a block, as records.
pub fn map_transfers(blk: &Block) -> (out: Transfers)
    requires
        blk@.has_timestamp(),
    ensures
        out@ == block_records(blk@),
{
    Transfers { transfers: get_transfers(blk) }
}

/// The transfers of a block, as JSON lines.
pub fn jsonl_out(blk: &Block) -> (out: Lines)
    requires
        blk@.has_timestamp(),
    ensures
        out@ == json_lines(block_records(blk@)),
{
    let transfers = get_transfers(blk);
    to_json_lines(&transfers)
}

/// The transfers of a block that the contracts of [`contract_allow_list`]
/// emitted, as JSON lines.
pub fn jsonl_out_with_filter(blk: &Block) -> (out: Lines)
    requires
        blk@.has_timestamp(),
    ensures
        out@ == json_lines(kept_records(block_records(blk@), allowed_contracts())),
{
    let transfers = get_transfers(blk);
    let allowed = contract_allow_list();
    to_json_lines_filtered(&transfers, &allowed)
}

/// The transfers of a block, as CSV lines.
pub fn csv_out(blk: &Block) -> (out: Lines)
    requires
        blk@.has_timestamp(),
    ensures
        out@ == csv_lines(block_records(blk@)),
{
    let transfers = get_transfers(blk);
    to_csv_lines(&transfers)
}

} // verus!

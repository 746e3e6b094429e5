use eth_token_transfers::csv::split_fields;
use eth_token_transfers::decimal::{decimal_string, parse_decimal};
use eth_token_transfers::json::json_object_line;
use eth_token_transfers::output::{
    contract_allow_list, csv_out, is_allowed, jsonl_out, jsonl_out_with_filter, map_transfers,
    to_csv_lines, to_json_lines, to_json_lines_filtered,
};
use eth_token_transfers::{
    BigUint, Block, BlockHeader, Erc1155TransferBatchEvent, Erc20TransferEvent,
    Erc721TransferEvent, Lines, Log, Receipt, Timestamp, Transfer,
};
use serde::ser::{Serialize, SerializeStruct, Serializer};

fn uint(n: u64) -> BigUint {
    BigUint { bytes_be: n.to_be_bytes().to_vec() }
}

fn bytes_of(hex: &str) -> Vec<u8> {
    (0..hex.len() / 2).map(|i| u8::from_str_radix(&hex[2 * i..2 * i + 2], 16).unwrap()).collect()
}

fn unmatched_log(address: Vec<u8>, block_index: u32) -> Log {
    Log {
        address,
        block_index,
        erc20_transfer: None,
        erc721_transfer: None,
        erc1155_transfer_single: None,
        erc1155_transfer_batch: None,
    }
}

fn erc20_log(address: Vec<u8>, block_index: u32, value: u64) -> Log {
    Log {
        erc20_transfer: Some(Erc20TransferEvent {
            from: vec![0x11; 20],
            to: vec![0x22; 20],
            value: uint(value),
        }),
        ..unmatched_log(address, block_index)
    }
}

fn sample_block() -> Block {
    Block {
        number: 17_000_000,
        header: Some(BlockHeader { timestamp: Some(Timestamp { seconds: 1_700_000_000 }) }),
        receipts: vec![
            Receipt {
                trx_hash: vec![0xab, 0xcd],
                logs: vec![
                    erc20_log(bytes_of("06a6a7af298129e3a2ab396c9c06f91d3c54aba8"), 0, 1_000),
                    erc20_log(vec![0xbb; 20], 1, 5),
                    unmatched_log(bytes_of("06a6a7af298129e3a2ab396c9c06f91d3c54aba8"), 2),
                ],
            },
            Receipt {
                trx_hash: vec![0xef],
                logs: vec![
                    Log {
                        erc721_transfer: Some(Erc721TransferEvent {
                            from: vec![0x11; 20],
                            to: vec![0x22; 20],
                            token_id: uint(42),
                        }),
                        ..unmatched_log(bytes_of("436da116249044e8b4464f0cf21dd93311d88190"), 3)
                    },
                    Log {
                        erc1155_transfer_batch: Some(Erc1155TransferBatchEvent {
                            operator: vec![0x33; 20],
                            from: vec![0x11; 20],
                            to: vec![0x22; 20],
                            ids: vec![uint(5), uint(7)],
                            values: vec![uint(2), uint(3)],
                        }),
                        ..unmatched_log(vec![0xcc; 20], 4)
                    },
                ],
            },
        ],
    }
}

fn record(contract: &str, quantity: &str) -> Transfer {
    Transfer {
        schema: "erc20".to_string(),
        trx_hash: "abcd".to_string(),
        log_index: "0".to_string(),
        from: "11".repeat(20),
        to: "22".repeat(20),
        quantity: quantity.to_string(),
        operator: String::new(),
        token_id: String::new(),
        contract: contract.to_string(),
        block_number: 17_000_000,
        block_timestamp: 1_700_000_000,
    }
}

struct Mirror<'a>(&'a Transfer);

impl<'a> Serialize for Mirror<'a> {
    fn serialize<S: Serializer>(&self, serializer: S) -> Result<S::Ok, S::Error> {
        let t = self.0;
        let mut fields = serializer.serialize_struct("Transfer", 11)?;
        fields.serialize_field("schema", &t.schema)?;
        fields.serialize_field("trx_hash", &t.trx_hash)?;
        fields.serialize_field("log_index", &t.log_index)?;
        fields.serialize_field("from", &t.from)?;
        fields.serialize_field("to", &t.to)?;
        fields.serialize_field("quantity", &t.quantity)?;
        fields.serialize_field("operator", &t.operator)?;
        fields.serialize_field("token_id", &t.token_id)?;
        fields.serialize_field("contract", &t.contract)?;
        fields.serialize_field("block_number", &t.block_number)?;
        fields.serialize_field("block_timestamp", &t.block_timestamp)?;
        fields.end()
    }
}

#[test]
fn json_line_of_a_record() {
    let line = record(&"aa".repeat(20), "1000").to_json();
    assert_eq!(
        line,
        "{\"schema\":\"erc20\",\"trx_hash\":\"abcd\",\"log_index\":\"0\",\
         \"from\":\"1111111111111111111111111111111111111111\",\
         \"to\":\"2222222222222222222222222222222222222222\",\
         \"quantity\":\"1000\",\"operator\":\"\",\"token_id\":\"\",\
         \"contract\":\"aaaaaaaaaaaaaaaaaaaaaaaaaaaaaaaaaaaaaaaa\",\
         \"block_number\":17000000,\"block_timestamp\":1700000000}"
    );
}

#[test]
fn json_line_is_what_serde_json_writes_for_the_record() {
    let plain = record(&"aa".repeat(20), "1000");
    assert_eq!(plain.to_json(), serde_json::to_string(&Mirror(&plain)).unwrap());

    let odd = Transfer {
        schema: "say \"hi\"".to_string(),
        trx_hash: "back\\slash".to_string(),
        log_index: "line\nbreak\ttab\r".to_string(),
        from: "\u{0}\u{1}\u{8}\u{c}\u{1f}".to_string(),
        to: "caf\u{e9} \u{1f600}".to_string(),
        quantity: "a,b".to_string(),
        operator: "/".to_string(),
        token_id: "\u{7f}".to_string(),
        contract: String::new(),
        block_number: 0,
        block_timestamp: u64::MAX,
    };
    assert_eq!(odd.to_json(), serde_json::to_string(&Mirror(&odd)).unwrap());
}

#[test]
fn json_line_escapes_its_texts() {
    let mut t = record("c", "1");
    t.schema = "a\"b".to_string();
    t.trx_hash = "a\\b".to_string();
    let line = t.to_json();
    assert!(line.starts_with("{\"schema\":\"a\\\"b\",\"trx_hash\":\"a\\\\b\","));
}

#[test]
fn json_line_reads_back_to_the_record() {
    let blk = sample_block();
    let records = map_transfers(&blk).transfers;
    let lines = jsonl_out(&blk).lines;
    assert_eq!(records.len(), 5);
    assert_eq!(lines.len(), 5);
    for (t, line) in records.iter().zip(lines.iter()) {
        assert!(!line.contains('\n'));
        let value: serde_json::Value = serde_json::from_str(line).unwrap();
        let object = value.as_object().unwrap();
        assert_eq!(object.len(), 11);
        assert_eq!(object["schema"].as_str(), Some(t.schema.as_str()));
        assert_eq!(object["trx_hash"].as_str(), Some(t.trx_hash.as_str()));
        assert_eq!(object["log_index"].as_str(), Some(t.log_index.as_str()));
        assert_eq!(object["from"].as_str(), Some(t.from.as_str()));
        assert_eq!(object["to"].as_str(), Some(t.to.as_str()));
        assert_eq!(object["quantity"].as_str(), Some(t.quantity.as_str()));
        assert_eq!(object["operator"].as_str(), Some(t.operator.as_str()));
        assert_eq!(object["token_id"].as_str(), Some(t.token_id.as_str()));
        assert_eq!(object["contract"].as_str(), Some(t.contract.as_str()));
        assert_eq!(object["block_number"].as_u64(), Some(t.block_number));
        assert_eq!(object["block_timestamp"].as_u64(), Some(t.block_timestamp));
    }
}

#[test]
fn csv_line_of_a_record() {
    assert_eq!(
        record(&"aa".repeat(20), "1000").to_csv(),
        "erc20,abcd,0,1111111111111111111111111111111111111111,\
         2222222222222222222222222222222222222222,1000,,,\
         aaaaaaaaaaaaaaaaaaaaaaaaaaaaaaaaaaaaaaaa,17000000,1700000000"
    );
    let mut batch_entry = record("cc", "3");
    batch_entry.schema = "erc1155".to_string();
    batch_entry.log_index = "12/1".to_string();
    batch_entry.operator = "33".to_string();
    batch_entry.token_id = "7".to_string();
    batch_entry.block_number = 0;
    batch_entry.block_timestamp = u64::MAX;
    assert_eq!(
        batch_entry.to_csv(),
        "erc1155,abcd,12/1,1111111111111111111111111111111111111111,\
         2222222222222222222222222222222222222222,3,33,7,cc,0,18446744073709551615"
    );
}

#[test]
fn csv_line_reads_back_to_the_record() {
    let blk = sample_block();
    let records = map_transfers(&blk).transfers;
    let lines = csv_out(&blk).lines;
    assert_eq!(records.len(), 5);
    assert_eq!(lines.len(), 5);
    for (t, line) in records.iter().zip(lines.iter()) {
        assert_eq!(Transfer::from_csv(line), Some(t.clone()));
    }
    let empty_texts = Transfer {
        schema: String::new(),
        trx_hash: String::new(),
        log_index: String::new(),
        from: String::new(),
        to: String::new(),
        quantity: String::new(),
        operator: String::new(),
        token_id: String::new(),
        contract: String::new(),
        block_number: 0,
        block_timestamp: 0,
    };
    assert_eq!(empty_texts.to_csv(), ",,,,,,,,,0,0");
    assert_eq!(Transfer::from_csv(",,,,,,,,,0,0"), Some(empty_texts));
    let wide = Transfer { to: "caf\u{e9} \u{1f600}".to_string(), ..record("c", "q") };
    assert_eq!(Transfer::from_csv(&wide.to_csv()), Some(wide));
}

#[test]
fn csv_line_with_a_comma_in_a_text_does_not_read_back() {
    let t = record("c", "1,5");
    let line = t.to_csv();
    assert_eq!(Transfer::from_csv(&line), None);
    let shifted = Transfer { to: "a,b".to_string(), block_timestamp: 7, ..record("c", "1") };
    assert_ne!(Transfer::from_csv(&shifted.to_csv()), Some(shifted));
}

#[test]
fn csv_parser_rejects_lines_that_write_no_record() {
    assert_eq!(Transfer::from_csv(""), None);
    assert_eq!(Transfer::from_csv("erc20,ab,0,11,22,5,,,cc,1"), None);
    assert_eq!(Transfer::from_csv("erc20,ab,0,11,22,5,,,cc,1,2,3"), None);
    assert_eq!(Transfer::from_csv("erc20,ab,0,11,22,5,,,cc,1,"), None);
    assert_eq!(Transfer::from_csv("erc20,ab,0,11,22,5,,,cc,,2"), None);
    assert_eq!(Transfer::from_csv("erc20,ab,0,11,22,5,,,cc,01,2"), None);
    assert_eq!(Transfer::from_csv("erc20,ab,0,11,22,5,,,cc,1,-2"), None);
    assert_eq!(Transfer::from_csv("erc20,ab,0,11,22,5,,,cc,1,2x"), None);
    assert_eq!(Transfer::from_csv("erc20,ab,0,11,22,5,,,cc,1,18446744073709551616"), None);
    assert_eq!(
        Transfer::from_csv("erc20,ab,0,11,22,5,,,cc,1,18446744073709551615"),
        Some(Transfer {
            schema: "erc20".to_string(),
            trx_hash: "ab".to_string(),
            log_index: "0".to_string(),
            from: "11".to_string(),
            to: "22".to_string(),
            quantity: "5".to_string(),
            operator: String::new(),
            token_id: String::new(),
            contract: "cc".to_string(),
            block_number: 1,
            block_timestamp: u64::MAX,
        })
    );
}

#[test]
fn lines_split_at_every_comma() {
    assert_eq!(split_fields(""), vec![String::new()]);
    assert_eq!(split_fields("abc"), vec!["abc".to_string()]);
    assert_eq!(split_fields(","), vec![String::new(), String::new()]);
    assert_eq!(split_fields("a,,b,"), vec!["a", "", "b", ""]);
    assert_eq!(split_fields(",\u{e9},"), vec!["", "\u{e9}", ""]);
}

#[test]
fn decimal_texts() {
    assert_eq!(decimal_string(0), "0");
    assert_eq!(decimal_string(9), "9");
    assert_eq!(decimal_string(10), "10");
    assert_eq!(decimal_string(1_234_567_890), "1234567890");
    assert_eq!(decimal_string(u64::MAX), "18446744073709551615");
    assert_eq!(parse_decimal("0"), Some(0));
    assert_eq!(parse_decimal("7"), Some(7));
    assert_eq!(parse_decimal("1234567890"), Some(1_234_567_890));
    assert_eq!(parse_decimal("18446744073709551615"), Some(u64::MAX));
    assert_eq!(parse_decimal("18446744073709551616"), None);
    assert_eq!(parse_decimal("99999999999999999999999"), None);
    assert_eq!(parse_decimal(""), None);
    assert_eq!(parse_decimal("00"), None);
    assert_eq!(parse_decimal("012"), None);
    assert_eq!(parse_decimal("+1"), None);
    assert_eq!(parse_decimal("1 "), None);
    assert_eq!(parse_decimal("12a"), None);
    assert_eq!(parse_decimal("\u{663}"), None);
    for n in [0u64, 1, 9, 10, 99, 100, 4_294_967_295, 4_294_967_296, u64::MAX - 1] {
        assert_eq!(parse_decimal(&decimal_string(n)), Some(n));
    }
}

#[test]
fn filter_keeps_the_listed_contracts_only() {
    let x = record(&"aa".repeat(20), "1");
    let y = record(&"bb".repeat(20), "2");
    let allowed = vec!["aa".repeat(20)];
    let transfers = vec![x.clone(), y.clone()];
    let out = to_json_lines_filtered(&transfers, &allowed);
    assert_eq!(out.lines, vec![x.to_json()]);

    let transfers = vec![y.clone(), x.clone(), y.clone(), x.clone()];
    let out = to_json_lines_filtered(&transfers, &allowed);
    assert_eq!(out.lines, vec![x.to_json(), x.to_json()]);

    assert!(to_json_lines_filtered(&transfers, &vec![]).lines.is_empty());
    let both = vec!["bb".repeat(20), "aa".repeat(20)];
    assert_eq!(to_json_lines_filtered(&transfers, &both).lines, to_json_lines(&transfers).lines);
}

#[test]
fn filter_compares_contracts_character_for_character() {
    let allowed = vec!["aa".repeat(20)];
    assert!(is_allowed(&"aa".repeat(20), &allowed));
    assert!(!is_allowed(&"AA".repeat(20), &allowed));
    assert!(!is_allowed(&"aa".repeat(19), &allowed));
    assert!(!is_allowed(&format!("0x{}", "aa".repeat(20)), &allowed));
    assert!(!is_allowed(&String::new(), &allowed));
    assert!(!is_allowed(&"aa".repeat(20), &vec![]));
}

#[test]
fn compiled_in_allow_list() {
    let list = contract_allow_list();
    assert_eq!(list.len(), 30);
    assert_eq!(list[0], "06a6a7af298129e3a2ab396c9c06f91d3c54aba8");
    assert_eq!(list[9], "cc9a66acf8574141b0e025202dd57649765a4be7");
    assert_eq!(list[10], "847342e826d943e0c7950d0a88882b75a1b19b9f");
    assert_eq!(list[29], "436da116249044e8b4464f0cf21dd93311d88190");
    for entry in &list {
        assert_eq!(entry.len(), 40);
        assert!(entry.chars().all(|c| c.is_ascii_digit() || ('a'..='f').contains(&c)));
    }
    assert!(is_allowed(&"d084b83c305dafd76ae3e1b4e1f1fe2ecccb3988".to_string(), &list));
    assert!(!is_allowed(&"d084b83c305dafd76ae3e1b4e1f1fe2ecccb3989".to_string(), &list));
}

#[test]
fn outputs_of_a_block() {
    let blk = sample_block();
    let records = map_transfers(&blk).transfers;
    let contracts: Vec<&str> = records.iter().map(|t| t.contract.as_str()).collect();
    assert_eq!(
        contracts,
        vec![
            "06a6a7af298129e3a2ab396c9c06f91d3c54aba8",
            "bbbbbbbbbbbbbbbbbbbbbbbbbbbbbbbbbbbbbbbb",
            "436da116249044e8b4464f0cf21dd93311d88190",
            "cccccccccccccccccccccccccccccccccccccccc",
            "cccccccccccccccccccccccccccccccccccccccc",
        ]
    );
    assert_eq!(jsonl_out(&blk).lines, to_json_lines(&records).lines);
    assert_eq!(csv_out(&blk).lines, to_csv_lines(&records).lines);
    assert_eq!(
        jsonl_out_with_filter(&blk).lines,
        vec![records[0].to_json(), records[2].to_json()]
    );
    assert_eq!(
        csv_out(&blk).lines[4],
        "erc1155,ef,4/1,1111111111111111111111111111111111111111,\
         2222222222222222222222222222222222222222,3,\
         3333333333333333333333333333333333333333,7,\
         cccccccccccccccccccccccccccccccccccccccc,17000000,1700000000"
    );
}

#[test]
fn outputs_are_repeatable() {
    let blk = sample_block();
    assert_eq!(map_transfers(&blk), map_transfers(&blk));
    assert_eq!(jsonl_out(&blk), jsonl_out(&blk));
    assert_eq!(jsonl_out_with_filter(&blk), jsonl_out_with_filter(&blk));
    assert_eq!(csv_out(&blk), csv_out(&blk));
}

#[test]
fn block_without_transfers_has_empty_outputs() {
    let blk = Block {
        number: 1,
        header: Some(BlockHeader { timestamp: Some(Timestamp { seconds: 1 }) }),
        receipts: vec![],
    };
    assert!(map_transfers(&blk).transfers.is_empty());
    assert!(jsonl_out(&blk).lines.is_empty());
    assert!(jsonl_out_with_filter(&blk).lines.is_empty());
    assert!(csv_out(&blk).lines.is_empty());
}

#[test]
fn lines_join_with_line_feeds() {
    assert_eq!(Lines { lines: vec![] }.to_text(), "");
    assert_eq!(Lines { lines: vec!["a".to_string()] }.to_text(), "a");
    assert_eq!(Lines { lines: vec![String::new()] }.to_text(), "");
    assert_eq!(
        Lines { lines: vec!["a".to_string(), String::new(), "bc".to_string()] }.to_text(),
        "a\n\nbc"
    );
    let blk = sample_block();
    let text = csv_out(&blk).to_text();
    assert_eq!(text.lines().count(), 5);
    assert!(!text.ends_with('\n'));
    let parsed: Vec<Option<Transfer>> = text.lines().map(Transfer::from_csv).collect();
    let records: Vec<Option<Transfer>> =
        map_transfers(&blk).transfers.into_iter().map(Some).collect();
    assert_eq!(parsed, records);
}

#[test]
fn json_object_frames_the_given_literals() {
    let line = json_object_line(
        "\"erc721\"",
        "\"ab\"",
        "\"3\"",
        "\"11\"",
        "\"22\"",
        "\"1\"",
        "\"\"",
        "\"42\"",
        "\"cc\"",
        7,
        8,
    );
    assert_eq!(
        line,
        "{\"schema\":\"erc721\",\"trx_hash\":\"ab\",\"log_index\":\"3\",\"from\":\"11\",\
         \"to\":\"22\",\"quantity\":\"1\",\"operator\":\"\",\"token_id\":\"42\",\
         \"contract\":\"cc\",\"block_number\":7,\"block_timestamp\":8}"
    );
    assert_eq!(
        json_object_line("a", "b", "c", "d", "e", "f", "g", "h", "i", 0, u64::MAX),
        "{\"schema\":a,\"trx_hash\":b,\"log_index\":c,\"from\":d,\"to\":e,\"quantity\":f,\
         \"operator\":g,\"token_id\":h,\"contract\":i,\"block_number\":0,\
         \"block_timestamp\":18446744073709551615}"
    );
}

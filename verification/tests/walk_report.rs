use tx_enricher::enrich::{Action, Event};
use tx_enricher::report::{entry_line, header_line, record_line, report};
use tx_enricher::table::{SignatureEntry, SignatureTable};
use tx_enricher::types::{
    Address, BlockHeader, EnrichedRecord, Hash256, Outcome, SkipReason, Transaction,
};
use tx_enricher::uint::Uint256;
use tx_enricher::walk::{BlockWalk, Entry, Reply, Request};

fn address(fill: u8) -> Address {
    Address { bytes: [fill; 20] }
}

fn hash(fill: u8) -> Hash256 {
    Hash256 { bytes: [fill; 32] }
}

fn transaction(index: u64, recipient: Option<Address>, input: Vec<u8>) -> Transaction {
    Transaction {
        hash: hash(index as u8),
        index,
        sender: Some(address(0x11)),
        recipient,
        value: Uint256::from_u128(1_000_000_000_000_000_000),
        gas_limit: Uint256::from_u64(90000),
        gas_price: Uint256::from_u64(30),
        input,
    }
}

fn table() -> SignatureTable {
    SignatureTable::from_entries(&vec![SignatureEntry {
        selector: "a9059cbb".to_string(),
        signatures: vec!["transfer(address,uint256)".to_string()],
    }])
}

fn header() -> BlockHeader {
    BlockHeader {
        number: 13_000_000,
        parent_hash: Hash256 { bytes: [0xab; 32] },
        timestamp: 1_431_648_000,
        transaction_count: 2,
        gas_used: Uint256::from_u64(12_345_678),
        gas_limit: Uint256::from_u64(30_000_000),
        base_fee: Some(Uint256::from_u64(45_000_000_000)),
        difficulty: Uint256::from_u64(7_000_000_000_000_000),
        total_difficulty: Some(Uint256::from_u128(30_000_000_000_000_000_000_000)),
    }
}

fn record() -> EnrichedRecord {
    EnrichedRecord {
        index: 4,
        token_name: "Dai Stablecoin".to_string(),
        signature: "[\"transfer(address,uint256)\"]".to_string(),
        sender: address(0x11),
        recipient: address(0x22),
        value: Uint256::from_u128(2_500_000_000_000_000_000),
        display_value: "2.5".to_string(),
        gas_limit: Uint256::from_u64(21000),
        gas_price: Uint256::from_u64(1_000_000_000),
    }
}

#[test]
fn header_line_names_every_field() {
    assert_eq!(
        header_line(&header()),
        Some(
            "[2015-05-15 00:00:00] block num 13000000, parent 0xabab\u{2026}abab, \
             transactions: 2, gas used 12345678, gas limit 30000000, base fee 45000000000, \
             difficulty 7000000000000000, total difficulty 30000000000000000000000"
                .to_string()
        )
    );
}

#[test]
fn header_line_marks_absent_fields() {
    let mut header = header();
    header.base_fee = None;
    header.total_difficulty = None;
    header.timestamp = 0;
    assert_eq!(
        header_line(&header),
        Some(
            "[1970-01-01 00:00:00] block num 13000000, parent 0xabab\u{2026}abab, \
             transactions: 2, gas used 12345678, gas limit 30000000, base fee n/a, \
             difficulty 7000000000000000, total difficulty n/a"
                .to_string()
        )
    );
}

#[test]
fn header_line_reaches_the_end_of_the_year_9999() {
    let mut header = header();
    header.timestamp = 253_402_300_799;
    let line = header_line(&header).unwrap();
    assert!(line.starts_with("[9999-12-31 23:59:59] block num 13000000"));
}

#[test]
fn header_without_calendar_time_has_no_line() {
    let mut header = header();
    header.timestamp = u64::MAX;
    assert_eq!(header_line(&header), None);
    header.timestamp = i64::MAX as u64;
    assert_eq!(header_line(&header), None);
    assert_eq!(report(&header, &vec![]), None);
}

#[test]
fn record_line_names_every_field() {
    assert_eq!(
        record_line(&record()),
        "[4] (Dai Stablecoin -> [\"transfer(address,uint256)\"]) from \
         \"0x1111111111111111111111111111111111111111\", to \
         \"0x2222222222222222222222222222222222222222\", value 2.5, gas 21000, \
         gas price 1000000000"
    );
}

#[test]
fn skipped_line_names_the_reason() {
    assert_eq!(
        entry_line(&Entry::Skipped { index: 0, reason: SkipReason::NotAContract }),
        "[0] skipped: NotAContract"
    );
    assert_eq!(
        entry_line(&Entry::Skipped { index: 17, reason: SkipReason::CallDataTooShort }),
        "[17] skipped: CallDataTooShort"
    );
}

#[test]
fn unavailable_line_names_the_hash() {
    assert_eq!(
        entry_line(&Entry::Unavailable { hash: hash(0x5c) }),
        "[0x5c5c\u{2026}5c5c] transaction unavailable"
    );
}

#[test]
fn enriched_line_is_the_record_line() {
    assert_eq!(entry_line(&Entry::Enriched(record())), record_line(&record()));
}

#[test]
fn entry_is_made_from_an_outcome() {
    assert_eq!(
        Entry::from_outcome(9, Outcome::Skipped(SkipReason::NameQueryFailed)),
        Entry::Skipped { index: 9, reason: SkipReason::NameQueryFailed }
    );
    assert_eq!(
        Entry::from_outcome(9, Outcome::Enriched(record())),
        Entry::Enriched(record())
    );
}

#[test]
fn report_has_the_header_and_one_line_for_each_entry() {
    let entries = vec![
        Entry::Skipped { index: 0, reason: SkipReason::NoRecipient },
        Entry::Enriched(record()),
        Entry::Unavailable { hash: hash(0x07) },
    ];
    let lines = report(&header(), &entries).unwrap();
    assert_eq!(lines.len(), 4);
    assert_eq!(Some(lines[0].clone()), header_line(&header()));
    assert_eq!(lines[1], "[0] skipped: NoRecipient");
    assert_eq!(lines[2], record_line(&record()));
    assert_eq!(lines[3], "[0x0707\u{2026}0707] transaction unavailable");
}

#[test]
fn report_of_an_empty_block_is_the_header_alone() {
    let lines = report(&header(), &vec![]).unwrap();
    assert_eq!(lines.len(), 1);
}

#[test]
fn walk_through_an_empty_block_is_finished() {
    let walk = BlockWalk::start(vec![]);
    assert!(walk.is_finished());
    assert_eq!(walk.pending_request(), Request::Done);
    assert_eq!(walk.into_entries(), vec![]);
}

#[test]
fn walk_asks_for_each_transaction_in_turn() {
    let table = table();
    let walk = BlockWalk::start(vec![hash(1), hash(2)]);
    assert!(!walk.is_finished());
    assert_eq!(walk.pending_request(), Request::Transaction(hash(1)));
    let walk = walk.advance(Reply::Transaction(None), &table);
    assert_eq!(walk.pending_request(), Request::Transaction(hash(2)));
    assert_eq!(walk.entries(), &vec![Entry::Unavailable { hash: hash(1) }]);
    let walk = walk.advance(Reply::Transaction(None), &table);
    assert!(walk.is_finished());
    assert_eq!(walk.pending_request(), Request::Done);
}

#[test]
fn transaction_with_empty_code_is_reported_and_nothing_more_is_asked() {
    let table = table();
    let walk = BlockWalk::start(vec![hash(0)]);
    let walk = walk.advance(
        Reply::Transaction(Some(transaction(0, Some(address(0x22)), vec![0xa9, 0x05, 0x9c, 0xbb]))),
        &table,
    );
    assert_eq!(
        walk.pending_request(),
        Request::Enrichment(Action::FetchCode(address(0x22)))
    );
    let walk = walk.advance(Reply::Enrichment(Event::Code(Some(vec![]))), &table);
    assert!(walk.is_finished());
    assert_eq!(walk.pending_request(), Request::Done);
    let entries = walk.into_entries();
    assert_eq!(entries, vec![Entry::Skipped { index: 0, reason: SkipReason::NotAContract }]);
    let lines = report(&header(), &entries).unwrap();
    assert_eq!(lines[1], "[0] skipped: NotAContract");
}

#[test]
fn entries_follow_the_block_whatever_fails() {
    let table = table();
    let mut walk = BlockWalk::start(vec![hash(0), hash(1), hash(2), hash(3), hash(4)]);
    let replies = vec![
        // 0: contract creation
        Reply::Transaction(Some(transaction(0, None, vec![]))),
        // 1: not to be had
        Reply::Transaction(None),
        // 2: enriched
        Reply::Transaction(Some(transaction(2, Some(address(0x22)), vec![0xa9, 0x05, 0x9c, 0xbb, 0x00]))),
        Reply::Enrichment(Event::Code(Some(vec![0x60]))),
        Reply::Enrichment(Event::Contract(true)),
        Reply::Enrichment(Event::Name(Some("Wrapped Ether".to_string()))),
        Reply::Enrichment(Event::Display("1".to_string())),
        // 3: the name query reverts
        Reply::Transaction(Some(transaction(3, Some(address(0x33)), vec![0xa9, 0x05, 0x9c, 0xbb]))),
        Reply::Enrichment(Event::Code(Some(vec![0x60]))),
        Reply::Enrichment(Event::Contract(true)),
        Reply::Enrichment(Event::Name(None)),
        // 4: call data too short
        Reply::Transaction(Some(transaction(4, Some(address(0x44)), vec![0xa9]))),
        Reply::Enrichment(Event::Code(Some(vec![0x60]))),
        Reply::Enrichment(Event::Contract(true)),
        Reply::Enrichment(Event::Name(Some("Short".to_string()))),
    ];
    for reply in replies {
        assert!(!walk.is_finished());
        walk = walk.advance(reply, &table);
    }
    assert!(walk.is_finished());
    let entries = walk.into_entries();
    assert_eq!(entries.len(), 5);
    assert_eq!(entries[0], Entry::Skipped { index: 0, reason: SkipReason::NoRecipient });
    assert_eq!(entries[1], Entry::Unavailable { hash: hash(1) });
    assert_eq!(
        entries[2],
        Entry::Enriched(EnrichedRecord {
            index: 2,
            token_name: "Wrapped Ether".to_string(),
            signature: "[\"transfer(address,uint256)\"]".to_string(),
            sender: address(0x11),
            recipient: address(0x22),
            value: Uint256::from_u128(1_000_000_000_000_000_000),
            display_value: "1".to_string(),
            gas_limit: Uint256::from_u64(90000),
            gas_price: Uint256::from_u64(30),
        })
    );
    assert_eq!(entries[3], Entry::Skipped { index: 3, reason: SkipReason::NameQueryFailed });
    assert_eq!(entries[4], Entry::Skipped { index: 4, reason: SkipReason::CallDataTooShort });
    let lines = report(&header(), &entries).unwrap();
    assert_eq!(lines.len(), 6);
    assert_eq!(lines[1], "[0] skipped: NoRecipient");
    assert_eq!(lines[2], "[0x0101\u{2026}0101] transaction unavailable");
    assert_eq!(
        lines[3],
        "[2] (Wrapped Ether -> [\"transfer(address,uint256)\"]) from \
         \"0x1111111111111111111111111111111111111111\", to \
         \"0x2222222222222222222222222222222222222222\", value 1, gas 90000, gas price 30"
    );
    assert_eq!(lines[4], "[3] skipped: NameQueryFailed");
    assert_eq!(lines[5], "[4] skipped: CallDataTooShort");
}

#[test]
fn reply_to_another_request_changes_nothing() {
    let table = table();
    let walk = BlockWalk::start(vec![hash(1)]);
    let walk = walk.advance(Reply::Enrichment(Event::Contract(true)), &table);
    assert_eq!(walk.pending_request(), Request::Transaction(hash(1)));
    assert_eq!(walk.entries().len(), 0);
    let walk = walk.advance(
        Reply::Transaction(Some(transaction(0, Some(address(0x22)), vec![]))),
        &table,
    );
    let walk = walk.advance(Reply::Transaction(None), &table);
    assert_eq!(
        walk.pending_request(),
        Request::Enrichment(Action::FetchCode(address(0x22)))
    );
    assert_eq!(walk.entries().len(), 0);
}

#[test]
fn replies_after_the_end_change_nothing() {
    let table = table();
    let walk = BlockWalk::start(vec![hash(1)]);
    let walk = walk.advance(Reply::Transaction(None), &table);
    let walk = walk.advance(Reply::Transaction(None), &table);
    let walk = walk.advance(Reply::Enrichment(Event::Code(None)), &table);
    assert!(walk.is_finished());
    assert_eq!(walk.into_entries(), vec![Entry::Unavailable { hash: hash(1) }]);
}

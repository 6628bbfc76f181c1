use tx_enricher::enrich::{Action, Enrichment, Event};
use tx_enricher::selector::Selector;
use tx_enricher::table::{SignatureEntry, SignatureTable};
use tx_enricher::types::{
    Address, EnrichedRecord, Hash256, Outcome, SkipReason, Transaction,
};
use tx_enricher::uint::Uint256;

fn address(fill: u8) -> Address {
    Address { bytes: [fill; 20] }
}

fn transfer_call() -> Vec<u8> {
    let mut data = vec![0xa9, 0x05, 0x9c, 0xbb];
    data.extend(std::iter::repeat(0x00).take(64));
    data
}

fn transaction(recipient: Option<Address>, input: Vec<u8>) -> Transaction {
    Transaction {
        hash: Hash256 { bytes: [0x42; 32] },
        index: 3,
        sender: Some(address(0x11)),
        recipient,
        value: Uint256::from_u128(2_500_000_000_000_000_000),
        gas_limit: Uint256::from_u64(21000),
        gas_price: Uint256::from_u64(1_000_000_000),
        input,
    }
}

fn table() -> SignatureTable {
    SignatureTable::from_entries(&vec![SignatureEntry {
        selector: "a9059cbb".to_string(),
        signatures: vec!["transfer(address,uint256)".to_string()],
    }])
}

fn code() -> Event {
    Event::Code(Some(vec![0x60, 0x80, 0x60, 0x40]))
}

fn name() -> Event {
    Event::Name(Some("Tether USD".to_string()))
}

fn display() -> Event {
    Event::Display("2.5".to_string())
}

fn run(tx: Transaction, events: Vec<Event>, table: &SignatureTable) -> Enrichment {
    let mut state = Enrichment::start(tx);
    for event in events {
        state = state.advance(event, table);
    }
    state
}

#[test]
fn contract_creation_is_skipped_at_once() {
    let state = Enrichment::start(transaction(None, transfer_call()));
    assert!(state.is_done());
    assert_eq!(state.pending_action(), Action::Finish);
    assert_eq!(state.outcome(), Some(&Outcome::Skipped(SkipReason::NoRecipient)));
}

#[test]
fn missing_recipient_is_no_empty_code() {
    let table = table();
    let state = run(transaction(None, vec![]), vec![Event::Code(Some(vec![]))], &table);
    assert_eq!(state.outcome(), Some(&Outcome::Skipped(SkipReason::NoRecipient)));
}

#[test]
fn enrichment_asks_for_the_code_first() {
    let state = Enrichment::start(transaction(Some(address(0x22)), transfer_call()));
    assert!(!state.is_done());
    assert_eq!(state.outcome(), None);
    assert_eq!(state.pending_action(), Action::FetchCode(address(0x22)));
    assert_eq!(state.transaction().index, 3);
}

#[test]
fn failed_code_fetch_is_skipped() {
    let table = table();
    let state = run(
        transaction(Some(address(0x22)), transfer_call()),
        vec![Event::Code(None)],
        &table,
    );
    assert_eq!(state.outcome(), Some(&Outcome::Skipped(SkipReason::CodeFetchFailed)));
    assert_eq!(state.pending_action(), Action::Finish);
}

#[test]
fn empty_code_is_not_a_contract() {
    let table = table();
    let state = run(
        transaction(Some(address(0x22)), transfer_call()),
        vec![Event::Code(Some(vec![]))],
        &table,
    );
    assert_eq!(state.outcome(), Some(&Outcome::Skipped(SkipReason::NotAContract)));
    assert_eq!(state.pending_action(), Action::Finish);
}

#[test]
fn contract_handle_is_asked_for_after_the_code() {
    let table = table();
    let state = run(transaction(Some(address(0x22)), transfer_call()), vec![code()], &table);
    assert_eq!(state.pending_action(), Action::BuildContract(address(0x22)));
    assert_eq!(state.outcome(), None);
}

#[test]
fn failed_contract_handle_is_skipped() {
    let table = table();
    let state = run(
        transaction(Some(address(0x22)), transfer_call()),
        vec![code(), Event::Contract(false)],
        &table,
    );
    assert_eq!(state.outcome(), Some(&Outcome::Skipped(SkipReason::ContractInitFailed)));
}

#[test]
fn name_is_asked_for_after_the_handle() {
    let table = table();
    let state = run(
        transaction(Some(address(0x22)), transfer_call()),
        vec![code(), Event::Contract(true)],
        &table,
    );
    assert_eq!(state.pending_action(), Action::QueryName(address(0x22)));
}

#[test]
fn reverted_name_query_is_skipped_whatever_the_selector() {
    let table = table();
    let state = run(
        transaction(Some(address(0x22)), transfer_call()),
        vec![code(), Event::Contract(true), Event::Name(None)],
        &table,
    );
    assert_eq!(state.outcome(), Some(&Outcome::Skipped(SkipReason::NameQueryFailed)));
}

#[test]
fn reverted_name_query_comes_before_short_call_data() {
    let table = table();
    let state = run(
        transaction(Some(address(0x22)), vec![0xa9]),
        vec![code(), Event::Contract(true), Event::Name(None)],
        &table,
    );
    assert_eq!(state.outcome(), Some(&Outcome::Skipped(SkipReason::NameQueryFailed)));
}

#[test]
fn short_call_data_is_skipped() {
    let table = table();
    for input in [vec![], vec![0xa9], vec![0xa9, 0x05], vec![0xa9, 0x05, 0x9c]] {
        let state = run(
            transaction(Some(address(0x22)), input),
            vec![code(), Event::Contract(true), name()],
            &table,
        );
        assert_eq!(state.outcome(), Some(&Outcome::Skipped(SkipReason::CallDataTooShort)));
        assert_eq!(state.pending_action(), Action::Finish);
    }
}

#[test]
fn call_data_of_five_digits_is_too_short() {
    // five hexadecimal digits are two whole bytes and a half
    let table = table();
    let state = run(
        transaction(Some(address(0x22)), vec![0xa9, 0x05]),
        vec![code(), Event::Contract(true), name()],
        &table,
    );
    assert_eq!(state.outcome(), Some(&Outcome::Skipped(SkipReason::CallDataTooShort)));
}

#[test]
fn conversion_is_asked_for_last() {
    let table = table();
    let state = run(
        transaction(Some(address(0x22)), transfer_call()),
        vec![code(), Event::Contract(true), name()],
        &table,
    );
    assert_eq!(
        state.pending_action(),
        Action::ConvertValue(Uint256::from_u128(2_500_000_000_000_000_000))
    );
    assert_eq!(state.outcome(), None);
}

#[test]
fn known_selector_resolves_to_its_signatures() {
    let table = table();
    let state = run(
        transaction(Some(address(0x22)), transfer_call()),
        vec![code(), Event::Contract(true), name(), display()],
        &table,
    );
    let expected = EnrichedRecord {
        index: 3,
        token_name: "Tether USD".to_string(),
        signature: "[\"transfer(address,uint256)\"]".to_string(),
        sender: address(0x11),
        recipient: address(0x22),
        value: Uint256::from_u128(2_500_000_000_000_000_000),
        display_value: "2.5".to_string(),
        gas_limit: Uint256::from_u64(21000),
        gas_price: Uint256::from_u64(1_000_000_000),
    };
    assert!(state.is_done());
    assert_eq!(state.outcome(), Some(&Outcome::Enriched(expected)));
}

#[test]
fn several_signatures_are_listed_in_order() {
    let table = SignatureTable::from_entries(&vec![SignatureEntry {
        selector: "a9059cbb".to_string(),
        signatures: vec![
            "transfer(address,uint256)".to_string(),
            "many_msg_babbage(bytes1)".to_string(),
        ],
    }]);
    let state = run(
        transaction(Some(address(0x22)), transfer_call()),
        vec![code(), Event::Contract(true), name(), display()],
        &table,
    );
    match state.outcome() {
        Some(Outcome::Enriched(record)) => assert_eq!(
            record.signature,
            "[\"transfer(address,uint256)\", \"many_msg_babbage(bytes1)\"]"
        ),
        other => panic!("not enriched: {:?}", other),
    }
}

#[test]
fn selector_of_exactly_four_bytes_is_enough() {
    let table = table();
    let state = run(
        transaction(Some(address(0x22)), vec![0xa9, 0x05, 0x9c, 0xbb]),
        vec![code(), Event::Contract(true), name(), display()],
        &table,
    );
    match state.outcome() {
        Some(Outcome::Enriched(record)) => {
            assert_eq!(record.signature, "[\"transfer(address,uint256)\"]")
        }
        other => panic!("not enriched: {:?}", other),
    }
}

#[test]
fn unknown_selector_still_gives_a_record() {
    let table = table();
    let mut input = vec![0xde, 0xad, 0xbe, 0xef];
    input.extend(std::iter::repeat(0x01).take(32));
    let state = run(
        transaction(Some(address(0x22)), input),
        vec![code(), Event::Contract(true), name(), display()],
        &table,
    );
    match state.outcome() {
        Some(Outcome::Enriched(record)) => {
            assert_eq!(record.signature, "[unknown]");
            assert_eq!(record.token_name, "Tether USD");
        }
        other => panic!("not enriched: {:?}", other),
    }
}

#[test]
fn absent_sender_becomes_the_zero_address() {
    let table = table();
    let mut tx = transaction(Some(address(0x22)), transfer_call());
    tx.sender = None;
    let state = run(tx, vec![code(), Event::Contract(true), name(), display()], &table);
    match state.outcome() {
        Some(Outcome::Enriched(record)) => {
            assert_eq!(record.sender, Address::zero());
            assert_eq!(record.recipient, address(0x22));
        }
        other => panic!("not enriched: {:?}", other),
    }
}

#[test]
fn answer_to_another_action_changes_nothing() {
    let table = table();
    let state = run(
        transaction(Some(address(0x22)), transfer_call()),
        vec![name(), display(), Event::Contract(true)],
        &table,
    );
    assert_eq!(state.pending_action(), Action::FetchCode(address(0x22)));
    let state = state.advance(code(), &table).advance(code(), &table);
    assert_eq!(state.pending_action(), Action::BuildContract(address(0x22)));
}

#[test]
fn answers_after_the_end_change_nothing() {
    let table = table();
    let state = run(
        transaction(Some(address(0x22)), transfer_call()),
        vec![Event::Code(Some(vec![])), code(), Event::Contract(true), name(), display()],
        &table,
    );
    assert_eq!(state.outcome(), Some(&Outcome::Skipped(SkipReason::NotAContract)));
}

#[test]
fn enriching_twice_gives_the_same_outcome() {
    let table = table();
    let events = || vec![code(), Event::Contract(true), name(), display()];
    let first = run(transaction(Some(address(0x22)), transfer_call()), events(), &table);
    let second = run(transaction(Some(address(0x22)), transfer_call()), events(), &table);
    assert!(first.outcome().is_some());
    assert_eq!(first.outcome(), second.outcome());
}

#[test]
fn outcome_is_handed_over_at_the_end_only() {
    let table = table();
    let state = Enrichment::start(transaction(Some(address(0x22)), transfer_call()));
    let state = match state.into_outcome() {
        Ok(outcome) => panic!("ended too early: {:?}", outcome),
        Err(state) => state,
    };
    assert_eq!(state.pending_action(), Action::FetchCode(address(0x22)));
    let state = state.advance(Event::Code(None), &table);
    match state.into_outcome() {
        Ok(outcome) => assert_eq!(outcome, Outcome::Skipped(SkipReason::CodeFetchFailed)),
        Err(_) => panic!("not ended"),
    }
}

#[test]
fn selector_used_for_the_lookup_is_the_head_of_the_call_data() {
    let table = table();
    let data = transfer_call();
    let selector = Selector::from_call_data(&data).unwrap();
    assert_eq!(
        table.lookup_selector(&selector),
        Some(&vec!["transfer(address,uint256)".to_string()])
    );
}

fn responses(code: Option<Vec<u8>>, built: bool, name: Option<&str>) -> tx_enricher::enrich::Responses {
    tx_enricher::enrich::Responses {
        code,
        contract_built: built,
        token_name: name.map(|text| text.to_string()),
        display_value: "2.5".to_string(),
    }
}

#[test]
fn enrich_with_answers_at_hand_goes_through_every_check() {
    let table = table();
    let enrich = tx_enricher::enrich::enrich;
    assert_eq!(
        enrich(transaction(None, transfer_call()), &table, responses(Some(vec![1]), true, Some("T"))),
        Outcome::Skipped(SkipReason::NoRecipient)
    );
    assert_eq!(
        enrich(transaction(Some(address(2)), transfer_call()), &table, responses(None, true, Some("T"))),
        Outcome::Skipped(SkipReason::CodeFetchFailed)
    );
    assert_eq!(
        enrich(transaction(Some(address(2)), transfer_call()), &table, responses(Some(vec![]), true, Some("T"))),
        Outcome::Skipped(SkipReason::NotAContract)
    );
    assert_eq!(
        enrich(transaction(Some(address(2)), transfer_call()), &table, responses(Some(vec![1]), false, Some("T"))),
        Outcome::Skipped(SkipReason::ContractInitFailed)
    );
    assert_eq!(
        enrich(transaction(Some(address(2)), transfer_call()), &table, responses(Some(vec![1]), true, None)),
        Outcome::Skipped(SkipReason::NameQueryFailed)
    );
    assert_eq!(
        enrich(transaction(Some(address(2)), vec![1, 2, 3]), &table, responses(Some(vec![1]), true, Some("T"))),
        Outcome::Skipped(SkipReason::CallDataTooShort)
    );
}

#[test]
fn enrich_with_answers_at_hand_gives_the_record() {
    let table = table();
    let outcome = tx_enricher::enrich::enrich(
        transaction(Some(address(0x22)), transfer_call()),
        &table,
        responses(Some(vec![0x60, 0x80]), true, Some("Tether USD")),
    );
    assert_eq!(
        outcome,
        Outcome::Enriched(EnrichedRecord {
            index: 3,
            token_name: "Tether USD".to_string(),
            signature: "[\"transfer(address,uint256)\"]".to_string(),
            sender: address(0x11),
            recipient: address(0x22),
            value: Uint256::from_u128(2_500_000_000_000_000_000),
            display_value: "2.5".to_string(),
            gas_limit: Uint256::from_u64(21000),
            gas_price: Uint256::from_u64(1_000_000_000),
        })
    );
}

#[test]
fn short_call_data_gives_the_same_skip_under_every_table() {
    let empty = SignatureTable::new();
    let full = table();
    let run_with = |table: &SignatureTable| {
        tx_enricher::enrich::enrich(
            transaction(Some(address(0x22)), vec![0xa9, 0x05, 0x9c]),
            table,
            responses(Some(vec![0x60]), true, Some("T")),
        )
    };
    assert_eq!(run_with(&empty), run_with(&full));
    assert_eq!(run_with(&full), Outcome::Skipped(SkipReason::CallDataTooShort));
}

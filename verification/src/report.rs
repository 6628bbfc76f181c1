//! The report of one block: a line for its header and a line for each of
//! its transactions, in the block's order.

use vstd::prelude::*;
use crate::outside::{
    address_text, hash_text, utc_calendar_string, utc_calendar_text, LAST_FOUR_DIGIT_SECOND,
};
use crate::types::{quantity_view, reason_name, BlockHeader, EnrichedRecord, RecordView};
use crate::uint::{decimal_text, Uint256};
use crate::walk::{
    begin_walk, entry_views, expected_entry, finished, finished_walk_holds_expected_entries,
    walk_faithful, walk_replay, BlockAnswers, Entry, EntryView, ReplyView,
};

verus! {

/// A quantity that may be absent, in decimal; `n/a` where it is absent.
pub open spec fn optional_decimal_text(quantity: Option<nat>) -> Seq<char> {
    match quantity {
        Some(n) => decimal_text(n),
        None => "n/a"@,
    }
}

/// The calendar time of a block's timestamp; `None` where the calendar
/// cannot hold it.
pub open spec fn calendar_text(timestamp: u64) -> Option<Seq<char>> {
    if timestamp <= i64::MAX {
        utc_calendar_text(timestamp as i64)
    } else {
        None
    }
}

/// The header line for a block whose time is written `time`.
pub open spec fn header_text_at(time: Seq<char>, header: BlockHeader) -> Seq<char> {
    "["@ + time + "] block num "@ + decimal_text(header.number as nat) + ", parent "@ + hash_text(
        header.parent_hash@,
    ) + ", transactions: "@ + decimal_text(header.transaction_count as nat) + ", gas used "@
        + decimal_text(header.gas_used@) + ", gas limit "@ + decimal_text(header.gas_limit@)
        + ", base fee "@ + optional_decimal_text(quantity_view(header.base_fee))
        + ", difficulty "@ + decimal_text(header.difficulty@) + ", total difficulty "@
        + optional_decimal_text(quantity_view(header.total_difficulty))
}

/// The header line of a block; `None` where its timestamp has no calendar time.
pub open spec fn header_text(header: BlockHeader) -> Option<Seq<char>> {
    match calendar_text(header.timestamp) {
        Some(time) => Some(header_text_at(time, header)),
        None => None,
    }
}

/// The line of an enriched transaction.
pub open spec fn record_text(record: RecordView) -> Seq<char> {
    "["@ + decimal_text(record.index as nat) + "] ("@ + record.token_name + " -> "@
        + record.signature + ") from "@ + address_text(record.sender) + ", to "@ + address_text(
        record.recipient,
    ) + ", value "@ + record.display_value + ", gas "@ + decimal_text(record.gas_limit)
        + ", gas price "@ + decimal_text(record.gas_price)
}

/// The line of one entry. A skipped transaction's line names the reason.
pub open spec fn entry_text(entry: EntryView) -> Seq<char> {
    match entry {
        EntryView::Unavailable { hash } => "["@ + hash_text(hash) + "] transaction unavailable"@,
        EntryView::Skipped { index, reason } => "["@ + decimal_text(index as nat) + "] skipped: "@
            + reason_name(reason),
        EntryView::Enriched(record) => record_text(record),
    }
}

/// The lines of a block's report: the header's, then one for each entry, in
/// the entries' order.
pub open spec fn report_text(header: BlockHeader, entries: Seq<EntryView>) -> Option<
    Seq<Seq<char>>,
> {
    match header_text(header) {
        Some(first) => Some(seq![first] + entries.map_values(|entry: EntryView| entry_text(entry))),
        None => None,
    }
}

/// Lines as contracts speak of them.
pub open spec fn line_views(lines: Seq<String>) -> Seq<Seq<char>> {
    lines.map_values(|line: String| line@)
}

/// The decimal text of a quantity that may be absent.
fn optional_decimal(quantity: &Option<Uint256>) -> (s: String)
    ensures
        s@ == optional_decimal_text(quantity_view(*quantity)),
{
    match quantity {
        Some(q) => q.to_decimal(),
        None => String::from_str("n/a"),
    }
}

/// The header line of a block. There is one for every timestamp through the
/// year 9999.
pub fn header_line(header: &BlockHeader) -> (r: Option<String>)
    ensures
        match r {
            Some(line) => header_text(*header) == Some(line@),
            None => header_text(*header) is None,
        },
        header.timestamp <= LAST_FOUR_DIGIT_SECOND ==> r is Some,
{
    if header.timestamp > 0x7fff_ffff_ffff_ffff {
        return None;
    }
    let time = match utc_calendar_string(header.timestamp as i64) {
        Some(time) => time,
        None => {
            return None;
        },
    };
    let mut line = String::from_str("[");
    line.append(time.as_str());
    line.append("] block num ");
    line.append(Uint256::from_u64(header.number).to_decimal().as_str());
    line.append(", parent ");
    line.append(header.parent_hash.to_text().as_str());
    line.append(", transactions: ");
    line.append(Uint256::from_u64(header.transaction_count).to_decimal().as_str());
    line.append(", gas used ");
    line.append(header.gas_used.to_decimal().as_str());
    line.append(", gas limit ");
    line.append(header.gas_limit.to_decimal().as_str());
    line.append(", base fee ");
    line.append(optional_decimal(&header.base_fee).as_str());
    line.append(", difficulty ");
    line.append(header.difficulty.to_decimal().as_str());
    line.append(", total difficulty ");
    line.append(optional_decimal(&header.total_difficulty).as_str());
    Some(line)
}

/// The line of an enriched transaction.
pub fn record_line(record: &EnrichedRecord) -> (s: String)
    ensures
        s@ == record_text(record@),
{
    let mut line = String::from_str("[");
    line.append(Uint256::from_u64(record.index).to_decimal().as_str());
    line.append("] (");
    line.append(record.token_name.as_str());
    line.append(" -> ");
    line.append(record.signature.as_str());
    line.append(") from ");
    line.append(record.sender.to_text().as_str());
    line.append(", to ");
    line.append(record.recipient.to_text().as_str());
    line.append(", value ");
    line.append(record.display_value.as_str());
    line.append(", gas ");
    line.append(record.gas_limit.to_decimal().as_str());
    line.append(", gas price ");
    line.append(record.gas_price.to_decimal().as_str());
    line
}

/// The line of one entry.
pub fn entry_line(entry: &Entry) -> (s: String)
    ensures
        s@ == entry_text(entry@),
{
    match entry {
        Entry::Unavailable { hash } => {
            let mut line = String::from_str("[");
            line.append(hash.to_text().as_str());
            line.append("] transaction unavailable");
            line
        },
        Entry::Skipped { index, reason } => {
            let mut line = String::from_str("[");
            line.append(Uint256::from_u64(*index).to_decimal().as_str());
            line.append("] skipped: ");
            line.append(reason.name());
            line
        },
        Entry::Enriched(record) => record_line(record),
    }
}

/// The lines of a block's report: the header's, then one for each entry, in
/// the entries' order. There is none where the header has no line.
pub fn report(header: &BlockHeader, entries: &Vec<Entry>) -> (r: Option<Vec<String>>)
    ensures
        match r {
            Some(lines) => {
                &&& report_text(*header, entry_views(entries@)) == Some(line_views(lines@))
                &&& lines@.len() == entries@.len() + 1
                &&& Some(lines@[0]@) == header_text(*header)
                &&& forall|i: int|
                    0 <= i < entries@.len() ==> (#[trigger] lines@[i + 1])@ == entry_text(
                        entries@[i]@,
                    )
            },
            None => header_text(*header) is None,
        },
        header.timestamp <= LAST_FOUR_DIGIT_SECOND ==> r is Some,
{
    let first = match header_line(header) {
        Some(first) => first,
        None => {
            return None;
        },
    };
    let ghost first_text = first@;
    let mut lines: Vec<String> = Vec::new();
    lines.push(first);
    let mut i: usize = 0;
    while i < entries.len()
        invariant
            0 <= i <= entries.len(),
            lines@.len() == i + 1,
            lines@[0]@ == first_text,
            forall|j: int| 0 <= j < i ==> (#[trigger] lines@[j + 1])@ == entry_text(entries@[j]@),
        decreases entries.len() - i,
    {
        let line = entry_line(&entries[i]);
        lines.push(line);
        i += 1;
    }
    proof {
        let expected = seq![first_text] + entry_views(entries@).map_values(
            |entry: EntryView| entry_text(entry),
        );
        let got = line_views(lines@);
        assert(got.len() == expected.len());
        assert forall|k: int| 0 <= k < got.len() implies got[k] == expected[k] by {
            if k > 0 {
                assert(lines@[(k - 1) + 1]@ == entry_text(entries@[k - 1]@));
            }
        }
        assert(got =~= expected);
    }
    Some(lines)
}

/// A report has one line for the header and one for each entry, and line
/// `i + 1` is the line of entry `i`.
pub proof fn report_keeps_entry_order(header: BlockHeader, entries: Seq<EntryView>)
    requires
        header_text(header) is Some,
    ensures
        report_text(header, entries) is Some,
        report_text(header, entries).unwrap().len() == entries.len() + 1,
        report_text(header, entries).unwrap()[0] == header_text(header).unwrap(),
        forall|i: int|
            0 <= i < entries.len() ==> #[trigger] report_text(header, entries).unwrap()[i + 1]
                == entry_text(entries[i]),
{
}

/// The report of a walk that has come to its end follows the block's order,
/// whatever failed on the way: after the header's line, line `i + 1` is the
/// line that the block's transaction `i` is owed.
pub proof fn report_follows_block_order(
    header: BlockHeader,
    hashes: Seq<Seq<u8>>,
    table: Map<u32, Seq<Seq<char>>>,
    block: BlockAnswers,
    replies: Seq<ReplyView>,
)
    requires
        header_text(header) is Some,
        walk_faithful(begin_walk(hashes), replies, table, block),
        finished(walk_replay(begin_walk(hashes), replies, table)),
    ensures
        report_text(header, walk_replay(begin_walk(hashes), replies, table).entries) is Some,
        report_text(
            header,
            walk_replay(begin_walk(hashes), replies, table).entries,
        ).unwrap().len() == hashes.len() + 1,
        forall|i: int|
            0 <= i < hashes.len() ==> #[trigger] report_text(
                header,
                walk_replay(begin_walk(hashes), replies, table).entries,
            ).unwrap()[i + 1] == entry_text(
                expected_entry(hashes[i], block.transactions[i], table, block.answers[i]),
            ),
{
    finished_walk_holds_expected_entries(hashes, table, block, replies);
    report_keeps_entry_order(header, walk_replay(begin_walk(hashes), replies, table).entries);
}

} // verus!

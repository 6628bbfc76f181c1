//! The walk through one block: its transactions are fetched and enriched one
//! after the other, and each leaves one entry, in the block's order.

use vstd::prelude::*;
use crate::enrich::{
    answers_action, answers_left, begin, begin_is_on_track, enrichment, on_track, outcome_of,
    pending, step, step_stays_on_track, Action, ActionView, Answers, Enrichment, EnrichmentView,
    Event, EventView, Stage,
};
use crate::table::SignatureTable;
use crate::types::{
    EnrichedRecord, Hash256, Outcome, OutcomeView, RecordView, SkipReason, Transaction,
    TransactionView,
};

verus! {

/// What a block's report holds for one of its transactions.
#[derive(Clone, Debug, PartialEq, Eq)]
pub enum Entry {
    /// The transaction with this hash could not be fetched.
    Unavailable { hash: Hash256 },
    /// The transaction at this index was skipped.
    Skipped { index: u64, reason: SkipReason },
    /// The transaction was enriched.
    Enriched(EnrichedRecord),
}

/// An entry as contracts speak of it.
pub enum EntryView {
    Unavailable { hash: Seq<u8> },
    Skipped { index: u64, reason: SkipReason },
    Enriched(RecordView),
}

impl View for Entry {
    type V = EntryView;

    open spec fn view(&self) -> EntryView {
        match self {
            Entry::Unavailable { hash } => EntryView::Unavailable { hash: hash@ },
            Entry::Skipped { index, reason } => EntryView::Skipped {
                index: *index,
                reason: *reason,
            },
            Entry::Enriched(record) => EntryView::Enriched(record@),
        }
    }
}

/// The entry that the outcome of the transaction at `index` leaves.
pub open spec fn entry_of(index: u64, outcome: OutcomeView) -> EntryView {
    match outcome {
        OutcomeView::Enriched(record) => EntryView::Enriched(record),
        OutcomeView::Skipped(reason) => EntryView::Skipped { index, reason },
    }
}

impl Entry {
    /// The entry that the outcome of the transaction at `index` leaves.
    pub fn from_outcome(index: u64, outcome: Outcome) -> (e: Entry)
        ensures
            e@ == entry_of(index, outcome@),
    {
        match outcome {
            Outcome::Enriched(record) => Entry::Enriched(record),
            Outcome::Skipped(reason) => Entry::Skipped { index, reason },
        }
    }
}

/// What a walk asks its caller to do next.
#[derive(Clone, Copy, Debug, PartialEq, Eq)]
pub enum Request {
    /// Fetch the transaction with this hash.
    Transaction(Hash256),
    /// Perform this action for the transaction that is being enriched.
    Enrichment(Action),
    /// Nothing: every transaction has its entry.
    Done,
}

/// A request as contracts speak of it.
pub enum RequestView {
    Transaction(Seq<u8>),
    Enrichment(ActionView),
    Done,
}

impl View for Request {
    type V = RequestView;

    open spec fn view(&self) -> RequestView {
        match self {
            Request::Transaction(hash) => RequestView::Transaction(hash@),
            Request::Enrichment(action) => RequestView::Enrichment(action@),
            Request::Done => RequestView::Done,
        }
    }
}

/// The answer to a request.
#[derive(Clone, Debug, PartialEq, Eq)]
pub enum Reply {
    /// The transaction that was fetched; `None` where there is none or the
    /// fetch failed.
    Transaction(Option<Transaction>),
    /// The answer to an enrichment's action.
    Enrichment(Event),
}

/// A reply as contracts speak of it.
pub enum ReplyView {
    Transaction(Option<TransactionView>),
    Enrichment(EventView),
}

impl View for Reply {
    type V = ReplyView;

    open spec fn view(&self) -> ReplyView {
        match self {
            Reply::Transaction(tx) => ReplyView::Transaction(
                match tx {
                    Some(tx) => Some(tx@),
                    None => None,
                },
            ),
            Reply::Enrichment(event) => ReplyView::Enrichment(event@),
        }
    }
}

/// The hashes of a block as contracts speak of them.
pub open spec fn hash_views(hashes: Seq<Hash256>) -> Seq<Seq<u8>> {
    hashes.map_values(|hash: Hash256| hash@)
}

/// Entries as contracts speak of them.
pub open spec fn entry_views(entries: Seq<Entry>) -> Seq<EntryView> {
    entries.map_values(|entry: Entry| entry@)
}

/// A walk as contracts speak of it.
pub struct WalkView {
    /// The block's transaction hashes, in the block's order.
    pub hashes: Seq<Seq<u8>>,
    /// The entries so far: one for each transaction that is dealt with.
    pub entries: Seq<EntryView>,
    /// The enrichment under way, if one is.
    pub current: Option<EnrichmentView>,
}

/// The state in which the walk through `hashes` begins.
pub open spec fn begin_walk(hashes: Seq<Seq<u8>>) -> WalkView {
    WalkView { hashes, entries: Seq::empty(), current: None }
}

/// Whether every transaction has its entry.
pub open spec fn finished(walk: WalkView) -> bool {
    walk.entries.len() >= walk.hashes.len()
}

/// The request that `walk` waits for.
pub open spec fn pending_request(walk: WalkView) -> RequestView {
    if finished(walk) {
        RequestView::Done
    } else {
        match walk.current {
            None => RequestView::Transaction(walk.hashes[walk.entries.len() as int]),
            Some(state) => RequestView::Enrichment(pending(state)),
        }
    }
}

/// The walk after its current transaction's enrichment has come to `state`:
/// an enrichment that has ended leaves its entry, another stays current.
pub open spec fn settle(walk: WalkView, state: EnrichmentView) -> WalkView {
    match outcome_of(state) {
        Some(outcome) => WalkView {
            hashes: walk.hashes,
            entries: walk.entries.push(entry_of(state.tx.index, outcome)),
            current: None,
        },
        None => WalkView { hashes: walk.hashes, entries: walk.entries, current: Some(state) },
    }
}

/// The walk that follows `walk` on `reply`. A reply that does not answer the
/// pending request changes nothing.
pub open spec fn walk_step(
    walk: WalkView,
    reply: ReplyView,
    table: Map<u32, Seq<Seq<char>>>,
) -> WalkView {
    if finished(walk) {
        walk
    } else {
        match (walk.current, reply) {
            (None, ReplyView::Transaction(None)) => WalkView {
                hashes: walk.hashes,
                entries: walk.entries.push(
                    EntryView::Unavailable { hash: walk.hashes[walk.entries.len() as int] },
                ),
                current: None,
            },
            (None, ReplyView::Transaction(Some(tx))) => settle(walk, begin(tx)),
            (Some(state), ReplyView::Enrichment(event)) => settle(
                walk,
                step(state, event, table),
            ),
            _ => walk,
        }
    }
}

/// The walk through the transactions of one block.
pub struct BlockWalk {
    hashes: Vec<Hash256>,
    entries: Vec<Entry>,
    current: Option<Enrichment>,
}

impl View for BlockWalk {
    type V = WalkView;

    closed spec fn view(&self) -> WalkView {
        WalkView {
            hashes: hash_views(self.hashes@),
            entries: entry_views(self.entries@),
            current: match self.current {
                Some(state) => Some(state@),
                None => None,
            },
        }
    }
}

impl BlockWalk {
    /// No walk holds more entries than its block has transactions, and an
    /// enrichment is current only while it is under way.
    #[verifier::type_invariant]
    spec fn well_formed(self) -> bool {
        &&& self.entries@.len() <= self.hashes@.len()
        &&& self.current matches Some(state) ==> {
            &&& self.entries@.len() < self.hashes@.len()
            &&& outcome_of(state@) is None
        }
    }

    /// Begins the walk through the transactions with these hashes.
    pub fn start(hashes: Vec<Hash256>) -> (r: BlockWalk)
        ensures
            r@ == begin_walk(hash_views(hashes@)),
    {
        let r = BlockWalk { hashes, entries: Vec::new(), current: None };
        assert(r@.entries =~= Seq::empty());
        r
    }

    /// Whether every transaction has its entry.
    pub fn is_finished(&self) -> (r: bool)
        ensures
            r == finished(self@),
    {
        self.entries.len() >= self.hashes.len()
    }

    /// The request that the walk waits for.
    pub fn pending_request(&self) -> (r: Request)
        ensures
            r@ == pending_request(self@),
    {
        proof {
            use_type_invariant(self);
        }
        if self.entries.len() >= self.hashes.len() {
            Request::Done
        } else {
            match &self.current {
                None => Request::Transaction(self.hashes[self.entries.len()]),
                Some(state) => Request::Enrichment(state.pending_action()),
            }
        }
    }

    /// The entries so far, in the block's order.
    pub fn entries(&self) -> (r: &Vec<Entry>)
        ensures
            entry_views(r@) == self@.entries,
            r@.len() == self@.entries.len(),
            forall|i: int| 0 <= i < r@.len() ==> (#[trigger] r@[i])@ == self@.entries[i],
    {
        &self.entries
    }

    /// Gives up the walk for its entries.
    pub fn into_entries(self) -> (r: Vec<Entry>)
        ensures
            entry_views(r@) == self@.entries,
            r@.len() == self@.entries.len(),
            forall|i: int| 0 <= i < r@.len() ==> (#[trigger] r@[i])@ == self@.entries[i],
    {
        self.entries
    }

    /// The walk after its current transaction's enrichment has come to `state`.
    fn settled(hashes: Vec<Hash256>, entries: Vec<Entry>, state: Enrichment) -> (r: BlockWalk)
        requires
            entries@.len() < hashes@.len(),
        ensures
            r@ == settle(
                WalkView {
                    hashes: hash_views(hashes@),
                    entries: entry_views(entries@),
                    current: None,
                },
                state@,
            ),
    {
        let mut entries = entries;
        let ghost before = entries@;
        let index = state.transaction().index;
        match state.into_outcome() {
            Ok(outcome) => {
                let entry = Entry::from_outcome(index, outcome);
                entries.push(entry);
                let r = BlockWalk { hashes, entries, current: None };
                assert(r@.entries =~= entry_views(before).push(entry@));
                r
            },
            Err(state) => BlockWalk { hashes, entries, current: Some(state) },
        }
    }

    /// Takes the answer to the pending request and moves on.
    pub fn advance(self, reply: Reply, table: &SignatureTable) -> (r: BlockWalk)
        ensures
            r@ == walk_step(self@, reply@, table@),
    {
        proof {
            use_type_invariant(&self);
        }
        let BlockWalk { hashes, entries, current } = self;
        if entries.len() >= hashes.len() {
            return BlockWalk { hashes, entries, current };
        }
        match (current, reply) {
            (None, Reply::Transaction(None)) => {
                let mut entries = entries;
                let ghost before = entries@;
                let entry = Entry::Unavailable { hash: hashes[entries.len()] };
                entries.push(entry);
                let r = BlockWalk { hashes, entries, current: None };
                assert(r@.entries =~= entry_views(before).push(entry@));
                r
            },
            (None, Reply::Transaction(Some(tx))) => Self::settled(
                hashes,
                entries,
                Enrichment::start(tx),
            ),
            (Some(state), Reply::Enrichment(event)) => Self::settled(
                hashes,
                entries,
                state.advance(event, table),
            ),
            (current, _) => BlockWalk { hashes, entries, current },
        }
    }
}

/// What a node and the caller answer during the walk through one block: at
/// each position the transaction, where it can be fetched, and the answers
/// for its enrichment.
pub struct BlockAnswers {
    pub transactions: Seq<Option<TransactionView>>,
    pub answers: Seq<Answers>,
}

/// Whether `reply` is what `block` holds for the request that `walk` waits for.
pub open spec fn answers_request(walk: WalkView, reply: ReplyView, block: BlockAnswers) -> bool {
    let position = walk.entries.len() as int;
    match pending_request(walk) {
        RequestView::Transaction(_) => reply == ReplyView::Transaction(
            block.transactions[position],
        ),
        RequestView::Enrichment(action) => reply matches ReplyView::Enrichment(event)
            && answers_action(action, event, block.answers[position]),
        RequestView::Done => true,
    }
}

/// The walk that `walk` reaches on `replies`, taken in order.
pub open spec fn walk_replay(
    walk: WalkView,
    replies: Seq<ReplyView>,
    table: Map<u32, Seq<Seq<char>>>,
) -> WalkView
    decreases replies.len(),
{
    if replies.len() == 0 {
        walk
    } else {
        walk_step(walk_replay(walk, replies.drop_last(), table), replies.last(), table)
    }
}

/// Whether each of `replies` is what `block` holds for the request that was
/// pending when it arrived.
pub open spec fn walk_faithful(
    walk: WalkView,
    replies: Seq<ReplyView>,
    table: Map<u32, Seq<Seq<char>>>,
    block: BlockAnswers,
) -> bool
    decreases replies.len(),
{
    replies.len() == 0 || {
        &&& walk_faithful(walk, replies.drop_last(), table, block)
        &&& answers_request(walk_replay(walk, replies.drop_last(), table), replies.last(), block)
    }
}

/// The entry that the transaction with hash `hash` is owed.
pub open spec fn expected_entry(
    hash: Seq<u8>,
    tx: Option<TransactionView>,
    table: Map<u32, Seq<Seq<char>>>,
    answers: Answers,
) -> EntryView {
    match tx {
        None => EntryView::Unavailable { hash },
        Some(tx) => entry_of(tx.index, enrichment(tx, table, answers)),
    }
}

/// The entries that the block with these hashes is owed, in its order.
pub open spec fn expected_entries(
    hashes: Seq<Seq<u8>>,
    table: Map<u32, Seq<Seq<char>>>,
    block: BlockAnswers,
) -> Seq<EntryView> {
    Seq::new(
        hashes.len(),
        |i: int| expected_entry(hashes[i], block.transactions[i], table, block.answers[i]),
    )
}

/// Whether `walk` is one that the walk through `hashes` passes through when
/// the answers are `block`.
spec fn walk_on_track(
    walk: WalkView,
    hashes: Seq<Seq<u8>>,
    table: Map<u32, Seq<Seq<char>>>,
    block: BlockAnswers,
) -> bool {
    &&& walk.hashes == hashes
    &&& walk.entries.len() <= hashes.len()
    &&& forall|i: int|
        0 <= i < walk.entries.len() ==> #[trigger] walk.entries[i] == expected_entry(
            hashes[i],
            block.transactions[i],
            table,
            block.answers[i],
        )
    &&& walk.current matches Some(state) ==> {
        &&& walk.entries.len() < hashes.len()
        &&& outcome_of(state) is None
        &&& block.transactions[walk.entries.len() as int] matches Some(tx)
        &&& on_track(state, tx, table, block.answers[walk.entries.len() as int])
    }
}

/// An upper bound on the replies that `walk` may still take: five for each
/// transaction that has no entry yet, less those that the current
/// enrichment has had.
spec fn replies_left(walk: WalkView) -> int {
    5 * (walk.hashes.len() - walk.entries.len()) - match walk.current {
        Some(state) => 5 - answers_left(state.stage),
        None => 0,
    }
}

proof fn walk_step_stays_on_track(
    walk: WalkView,
    reply: ReplyView,
    hashes: Seq<Seq<u8>>,
    table: Map<u32, Seq<Seq<char>>>,
    block: BlockAnswers,
)
    requires
        walk_on_track(walk, hashes, table, block),
        answers_request(walk, reply, block),
    ensures
        walk_on_track(walk_step(walk, reply, table), hashes, table, block),
        !finished(walk) ==> replies_left(walk_step(walk, reply, table)) < replies_left(walk),
{
    let position = walk.entries.len() as int;
    let next = walk_step(walk, reply, table);
    if !finished(walk) {
        match walk.current {
            None => {
                match block.transactions[position] {
                    None => {},
                    Some(tx) => {
                        begin_is_on_track(tx, table, block.answers[position]);
                    },
                }
            },
            Some(state) => {
                let tx = block.transactions[position].unwrap();
                let event = reply->Enrichment_0;
                step_stays_on_track(state, event, tx, table, block.answers[position]);
            },
        }
        assert forall|i: int| 0 <= i < next.entries.len() implies #[trigger] next.entries[i]
            == expected_entry(hashes[i], block.transactions[i], table, block.answers[i]) by {
            if i < walk.entries.len() {
                assert(next.entries[i] == walk.entries[i]);
            }
        }
    }
}

proof fn faithful_walk_stays_on_track(
    hashes: Seq<Seq<u8>>,
    table: Map<u32, Seq<Seq<char>>>,
    block: BlockAnswers,
    replies: Seq<ReplyView>,
)
    requires
        walk_faithful(begin_walk(hashes), replies, table, block),
    ensures
        walk_on_track(walk_replay(begin_walk(hashes), replies, table), hashes, table, block),
        finished(walk_replay(begin_walk(hashes), replies, table)) || replies_left(
            walk_replay(begin_walk(hashes), replies, table),
        ) + replies.len() <= 5 * hashes.len(),
    decreases replies.len(),
{
    if replies.len() > 0 {
        let before = walk_replay(begin_walk(hashes), replies.drop_last(), table);
        faithful_walk_stays_on_track(hashes, table, block, replies.drop_last());
        walk_step_stays_on_track(before, replies.last(), hashes, table, block);
    }
}

/// The entries follow the block's order, whatever fails: at every moment
/// of a walk that is given the answers in `block`, entry `i` is the entry
/// that the block's transaction `i` is owed.
pub proof fn entries_follow_block_order(
    hashes: Seq<Seq<u8>>,
    table: Map<u32, Seq<Seq<char>>>,
    block: BlockAnswers,
    replies: Seq<ReplyView>,
)
    requires
        walk_faithful(begin_walk(hashes), replies, table, block),
    ensures
        walk_replay(begin_walk(hashes), replies, table).hashes == hashes,
        walk_replay(begin_walk(hashes), replies, table).entries.len() <= hashes.len(),
        forall|i: int|
            0 <= i < walk_replay(begin_walk(hashes), replies, table).entries.len()
                ==> #[trigger] walk_replay(begin_walk(hashes), replies, table).entries[i]
                == expected_entry(hashes[i], block.transactions[i], table, block.answers[i]),
{
    faithful_walk_stays_on_track(hashes, table, block, replies);
}

/// A walk that has come to its end holds exactly the entries that the block
/// is owed: one for each transaction, in the block's order.
pub proof fn finished_walk_holds_expected_entries(
    hashes: Seq<Seq<u8>>,
    table: Map<u32, Seq<Seq<char>>>,
    block: BlockAnswers,
    replies: Seq<ReplyView>,
)
    requires
        walk_faithful(begin_walk(hashes), replies, table, block),
        finished(walk_replay(begin_walk(hashes), replies, table)),
    ensures
        walk_replay(begin_walk(hashes), replies, table).entries == expected_entries(
            hashes,
            table,
            block,
        ),
{
    faithful_walk_stays_on_track(hashes, table, block, replies);
    assert(walk_replay(begin_walk(hashes), replies, table).entries =~= expected_entries(
        hashes,
        table,
        block,
    ));
}

/// Five replies for each transaction are enough: after them the walk has
/// come to its end, so no failure holds it up.
pub proof fn walk_comes_to_its_end(
    hashes: Seq<Seq<u8>>,
    table: Map<u32, Seq<Seq<char>>>,
    block: BlockAnswers,
    replies: Seq<ReplyView>,
)
    requires
        walk_faithful(begin_walk(hashes), replies, table, block),
        replies.len() >= 5 * hashes.len(),
    ensures
        finished(walk_replay(begin_walk(hashes), replies, table)),
{
    faithful_walk_stays_on_track(hashes, table, block, replies);
    let end = walk_replay(begin_walk(hashes), replies, table);
    if !finished(end) {
        assert(replies_left(end) > 0);
    }
}

} // verus!

//! The enrichment of one transaction.
//!
//! Enrichment needs answers that only a node can give: the recipient's
//! bytecode, whether a contract handle can be built, the token's name. It
//! also needs the transferred value in display units, which is floating-point
//! work. None of that happens here. An [`Enrichment`] says which action it
//! waits for, takes the answer as an [`Event`], and after at most four answers
//! holds the [`Outcome`]. What the outcome is, for every transaction, table and
//! set of answers, is written down once, in [`enrichment`].

use vstd::prelude::*;
use crate::outside::{debug_list_string, debug_list_text};
use crate::selector::{selector_of, Selector, SELECTOR_LEN};
use crate::table::{signatures_of, SignatureTable};
use crate::types::{
    zero_address, Address, EnrichedRecord, Outcome, OutcomeView, RecordView, SkipReason,
    Transaction, TransactionView,
};
use crate::uint::Uint256;

verus! {

/// The signature that stands in for a selector that the table does not hold.
pub open spec fn unknown_signature() -> Seq<char> {
    "[unknown]"@
}

/// What a node and the caller answer while one transaction is enriched.
pub struct Answers {
    /// The bytecode at the recipient; `None` where it cannot be fetched.
    pub code: Option<Seq<u8>>,
    /// Whether a contract handle can be built for the recipient.
    pub contract_built: bool,
    /// The recipient's token name; `None` where the query fails.
    pub token_name: Option<Seq<char>>,
    /// The transferred value in display units, as text.
    pub display_value: Seq<char>,
}

/// The signature text that the call data `input` resolves to: the table's
/// signatures for its selector as a list, or the marker for an unknown
/// selector. `input` has at least four bytes.
pub open spec fn resolved_signature(table: Map<u32, Seq<Seq<char>>>, input: Seq<u8>) -> Seq<char> {
    match signatures_of(table, input.subrange(0, SELECTOR_LEN as int)) {
        Some(signatures) => debug_list_text(signatures),
        None => unknown_signature(),
    }
}

/// The sender that a record names: the transaction's, or the zero address.
pub open spec fn sender_or_zero(sender: Option<Seq<u8>>) -> Seq<u8> {
    match sender {
        Some(bytes) => bytes,
        None => zero_address(),
    }
}

/// The record of a transaction that passed every check.
pub open spec fn record_of(
    tx: TransactionView,
    token_name: Seq<char>,
    signature: Seq<char>,
    display_value: Seq<char>,
) -> RecordView {
    RecordView {
        index: tx.index,
        token_name,
        signature,
        sender: sender_or_zero(tx.sender),
        recipient: tx.recipient.unwrap(),
        value: tx.value,
        display_value,
        gas_limit: tx.gas_limit,
        gas_price: tx.gas_price,
    }
}

/// How the enrichment of `tx` ends, given the table and the answers. The
/// checks come in a fixed order and the first that fails decides.
pub open spec fn enrichment(
    tx: TransactionView,
    table: Map<u32, Seq<Seq<char>>>,
    answers: Answers,
) -> OutcomeView {
    if tx.recipient is None {
        OutcomeView::Skipped(SkipReason::NoRecipient)
    } else if answers.code is None {
        OutcomeView::Skipped(SkipReason::CodeFetchFailed)
    } else if answers.code.unwrap().len() == 0 {
        OutcomeView::Skipped(SkipReason::NotAContract)
    } else if !answers.contract_built {
        OutcomeView::Skipped(SkipReason::ContractInitFailed)
    } else if answers.token_name is None {
        OutcomeView::Skipped(SkipReason::NameQueryFailed)
    } else if tx.input.len() < SELECTOR_LEN {
        OutcomeView::Skipped(SkipReason::CallDataTooShort)
    } else {
        OutcomeView::Enriched(
            record_of(
                tx,
                answers.token_name.unwrap(),
                resolved_signature(table, tx.input),
                answers.display_value,
            ),
        )
    }
}

/// What an enrichment asks its caller to do next.
#[derive(Clone, Copy, Debug, PartialEq, Eq)]
pub enum Action {
    /// Fetch the bytecode at this address.
    FetchCode(Address),
    /// Build a contract handle for this address.
    BuildContract(Address),
    /// Ask the contract at this address for its token name.
    QueryName(Address),
    /// Convert this value from base units to display units.
    ConvertValue(Uint256),
    /// Nothing: the outcome is there.
    Finish,
}

/// An action as contracts speak of it.
pub enum ActionView {
    FetchCode(Seq<u8>),
    BuildContract(Seq<u8>),
    QueryName(Seq<u8>),
    ConvertValue(nat),
    Finish,
}

impl View for Action {
    type V = ActionView;

    open spec fn view(&self) -> ActionView {
        match self {
            Action::FetchCode(address) => ActionView::FetchCode(address@),
            Action::BuildContract(address) => ActionView::BuildContract(address@),
            Action::QueryName(address) => ActionView::QueryName(address@),
            Action::ConvertValue(value) => ActionView::ConvertValue(value@),
            Action::Finish => ActionView::Finish,
        }
    }
}

/// The answer to an action.
#[derive(Clone, Debug, PartialEq, Eq)]
pub enum Event {
    /// The bytecode that was fetched; `None` where the fetch failed.
    Code(Option<Vec<u8>>),
    /// Whether the contract handle was built.
    Contract(bool),
    /// The token name; `None` where the query failed.
    Name(Option<String>),
    /// The value in display units, as text.
    Display(String),
}

/// An event as contracts speak of it.
pub enum EventView {
    Code(Option<Seq<u8>>),
    Contract(bool),
    Name(Option<Seq<char>>),
    Display(Seq<char>),
}

impl View for Event {
    type V = EventView;

    open spec fn view(&self) -> EventView {
        match self {
            Event::Code(code) => EventView::Code(
                match code {
                    Some(bytes) => Some(bytes@),
                    None => None,
                },
            ),
            Event::Contract(built) => EventView::Contract(*built),
            Event::Name(name) => EventView::Name(
                match name {
                    Some(text) => Some(text@),
                    None => None,
                },
            ),
            Event::Display(text) => EventView::Display(text@),
        }
    }
}

/// How far an enrichment has come.
pub enum Stage {
    /// The recipient's bytecode is awaited.
    AwaitCode,
    /// The contract handle is awaited.
    AwaitContract,
    /// The token name is awaited.
    AwaitName,
    /// The display value is awaited; name and signature are settled.
    AwaitDisplay { token_name: Seq<char>, signature: Seq<char> },
    /// The enrichment has ended.
    Done(OutcomeView),
}

/// An enrichment as contracts speak of it.
pub struct EnrichmentView {
    pub tx: TransactionView,
    pub stage: Stage,
}

/// The state in which the enrichment of `tx` begins.
pub open spec fn begin(tx: TransactionView) -> EnrichmentView {
    EnrichmentView {
        tx,
        stage: if tx.recipient is None {
            Stage::Done(OutcomeView::Skipped(SkipReason::NoRecipient))
        } else {
            Stage::AwaitCode
        },
    }
}

/// The action that `state` waits for.
pub open spec fn pending(state: EnrichmentView) -> ActionView {
    match state.stage {
        Stage::AwaitCode => ActionView::FetchCode(state.tx.recipient.unwrap()),
        Stage::AwaitContract => ActionView::BuildContract(state.tx.recipient.unwrap()),
        Stage::AwaitName => ActionView::QueryName(state.tx.recipient.unwrap()),
        Stage::AwaitDisplay { .. } => ActionView::ConvertValue(state.tx.value),
        Stage::Done(_) => ActionView::Finish,
    }
}

/// The stage that follows `state` on `event`. An event that does not answer
/// the pending action changes nothing.
pub open spec fn next_stage(
    state: EnrichmentView,
    event: EventView,
    table: Map<u32, Seq<Seq<char>>>,
) -> Stage {
    match (state.stage, event) {
        (Stage::AwaitCode, EventView::Code(None)) => Stage::Done(
            OutcomeView::Skipped(SkipReason::CodeFetchFailed),
        ),
        (Stage::AwaitCode, EventView::Code(Some(bytes))) => if bytes.len() == 0 {
            Stage::Done(OutcomeView::Skipped(SkipReason::NotAContract))
        } else {
            Stage::AwaitContract
        },
        (Stage::AwaitContract, EventView::Contract(built)) => if built {
            Stage::AwaitName
        } else {
            Stage::Done(OutcomeView::Skipped(SkipReason::ContractInitFailed))
        },
        (Stage::AwaitName, EventView::Name(None)) => Stage::Done(
            OutcomeView::Skipped(SkipReason::NameQueryFailed),
        ),
        (Stage::AwaitName, EventView::Name(Some(token_name))) => if state.tx.input.len()
            < SELECTOR_LEN {
            Stage::Done(OutcomeView::Skipped(SkipReason::CallDataTooShort))
        } else {
            Stage::AwaitDisplay {
                token_name,
                signature: resolved_signature(table, state.tx.input),
            }
        },
        (Stage::AwaitDisplay { token_name, signature }, EventView::Display(text)) => Stage::Done(
            OutcomeView::Enriched(record_of(state.tx, token_name, signature, text)),
        ),
        (stage, _) => stage,
    }
}

/// The state that follows `state` on `event`.
pub open spec fn step(
    state: EnrichmentView,
    event: EventView,
    table: Map<u32, Seq<Seq<char>>>,
) -> EnrichmentView {
    EnrichmentView { tx: state.tx, stage: next_stage(state, event, table) }
}

/// The outcome that `state` holds, once it has ended.
pub open spec fn outcome_of(state: EnrichmentView) -> Option<OutcomeView> {
    match state.stage {
        Stage::Done(outcome) => Some(outcome),
        _ => None,
    }
}

/// Where an enrichment stands, as the running code holds it.
enum Progress {
    AwaitCode,
    AwaitContract,
    AwaitName,
    AwaitDisplay { token_name: String, signature: String },
    Done(Outcome),
}

/// The enrichment of one transaction, under way or ended.
pub struct Enrichment {
    tx: Transaction,
    progress: Progress,
}

impl View for Enrichment {
    type V = EnrichmentView;

    closed spec fn view(&self) -> EnrichmentView {
        EnrichmentView {
            tx: self.tx@,
            stage: match self.progress {
                Progress::AwaitCode => Stage::AwaitCode,
                Progress::AwaitContract => Stage::AwaitContract,
                Progress::AwaitName => Stage::AwaitName,
                Progress::AwaitDisplay { token_name, signature } => Stage::AwaitDisplay {
                    token_name: token_name@,
                    signature: signature@,
                },
                Progress::Done(outcome) => Stage::Done(outcome@),
            },
        }
    }
}

impl Enrichment {
    /// While an answer is awaited, the transaction has a recipient.
    #[verifier::type_invariant]
    spec fn well_formed(self) -> bool {
        !(self.progress is Done) ==> self.tx.recipient is Some
    }

    /// Begins the enrichment of `tx`. A transaction without recipient is
    /// skipped at once.
    pub fn start(tx: Transaction) -> (r: Enrichment)
        ensures
            r@ == begin(tx@),
    {
        if tx.recipient.is_none() {
            Enrichment { tx, progress: Progress::Done(Outcome::Skipped(SkipReason::NoRecipient)) }
        } else {
            Enrichment { tx, progress: Progress::AwaitCode }
        }
    }

    /// The action that the enrichment waits for.
    pub fn pending_action(&self) -> (a: Action)
        ensures
            a@ == pending(self@),
    {
        proof {
            use_type_invariant(self);
        }
        match &self.progress {
            Progress::AwaitCode => Action::FetchCode(self.tx.recipient.unwrap()),
            Progress::AwaitContract => Action::BuildContract(self.tx.recipient.unwrap()),
            Progress::AwaitName => Action::QueryName(self.tx.recipient.unwrap()),
            Progress::AwaitDisplay { .. } => Action::ConvertValue(self.tx.value),
            Progress::Done(_) => Action::Finish,
        }
    }

    /// Whether the enrichment has ended.
    pub fn is_done(&self) -> (r: bool)
        ensures
            r == outcome_of(self@).is_some(),
    {
        match &self.progress {
            Progress::Done(_) => true,
            _ => false,
        }
    }

    /// The outcome, once the enrichment has ended.
    pub fn outcome(&self) -> (r: Option<&Outcome>)
        ensures
            match r {
                Some(outcome) => outcome_of(self@) == Some(outcome@),
                None => outcome_of(self@) is None,
            },
    {
        match &self.progress {
            Progress::Done(outcome) => Some(outcome),
            _ => None,
        }
    }

    /// The transaction that is being enriched.
    pub fn transaction(&self) -> (tx: &Transaction)
        ensures
            tx@ == self@.tx,
    {
        &self.tx
    }

    /// Gives up an enrichment that has ended for its outcome; one that is
    /// under way comes back as it is.
    pub fn into_outcome(self) -> (r: Result<Outcome, Enrichment>)
        ensures
            match r {
                Ok(outcome) => outcome_of(self@) == Some(outcome@),
                Err(same) => outcome_of(self@) is None && same@ == self@,
            },
    {
        proof {
            use_type_invariant(&self);
        }
        let Enrichment { tx, progress } = self;
        match progress {
            Progress::Done(outcome) => Ok(outcome),
            progress => Err(Enrichment { tx, progress }),
        }
    }

    /// The signature text for the selector at the head of the call data.
    fn resolve(table: &SignatureTable, selector: &Selector) -> (s: String)
        ensures
            s@ == match signatures_of(table@, selector@) {
                Some(signatures) => debug_list_text(signatures),
                None => unknown_signature(),
            },
    {
        match table.lookup_selector(selector) {
            Some(signatures) => debug_list_string(signatures),
            None => String::from_str("[unknown]"),
        }
    }

    /// Takes the answer to the pending action and moves on.
    pub fn advance(self, event: Event, table: &SignatureTable) -> (r: Enrichment)
        ensures
            r@ == step(self@, event@, table@),
    {
        proof {
            use_type_invariant(&self);
        }
        let Enrichment { tx, progress } = self;
        let next = match (progress, event) {
            (Progress::AwaitCode, Event::Code(None)) => Progress::Done(
                Outcome::Skipped(SkipReason::CodeFetchFailed),
            ),
            (Progress::AwaitCode, Event::Code(Some(bytes))) => if bytes.len() == 0 {
                Progress::Done(Outcome::Skipped(SkipReason::NotAContract))
            } else {
                Progress::AwaitContract
            },
            (Progress::AwaitContract, Event::Contract(built)) => if built {
                Progress::AwaitName
            } else {
                Progress::Done(Outcome::Skipped(SkipReason::ContractInitFailed))
            },
            (Progress::AwaitName, Event::Name(None)) => Progress::Done(
                Outcome::Skipped(SkipReason::NameQueryFailed),
            ),
            (Progress::AwaitName, Event::Name(Some(token_name))) => {
                match Selector::from_call_data(&tx.input) {
                    None => Progress::Done(Outcome::Skipped(SkipReason::CallDataTooShort)),
                    Some(selector) => Progress::AwaitDisplay {
                        token_name,
                        signature: Self::resolve(table, &selector),
                    },
                }
            },
            (Progress::AwaitDisplay { token_name, signature }, Event::Display(text)) => {
                let sender = match tx.sender {
                    Some(address) => address,
                    None => Address::zero(),
                };
                Progress::Done(
                    Outcome::Enriched(
                        EnrichedRecord {
                            index: tx.index,
                            token_name,
                            signature,
                            sender,
                            recipient: tx.recipient.unwrap(),
                            value: tx.value,
                            display_value: text,
                            gas_limit: tx.gas_limit,
                            gas_price: tx.gas_price,
                        },
                    ),
                )
            },
            (progress, _) => progress,
        };
        Enrichment { tx, progress: next }
    }
}

/// The answers for one transaction, all at hand.
#[derive(Clone, Debug, PartialEq, Eq)]
pub struct Responses {
    /// The bytecode at the recipient; `None` where it cannot be fetched.
    pub code: Option<Vec<u8>>,
    /// Whether a contract handle can be built for the recipient.
    pub contract_built: bool,
    /// The recipient's token name; `None` where the query fails.
    pub token_name: Option<String>,
    /// The transferred value in display units, as text.
    pub display_value: String,
}

impl View for Responses {
    type V = Answers;

    open spec fn view(&self) -> Answers {
        Answers {
            code: match self.code {
                Some(bytes) => Some(bytes@),
                None => None,
            },
            contract_built: self.contract_built,
            token_name: match self.token_name {
                Some(text) => Some(text@),
                None => None,
            },
            display_value: self.display_value@,
        }
    }
}

/// Enriches `tx` with answers that are all at hand: the enrichment is begun
/// and given each answer in turn, and its outcome is the one that
/// [`enrichment`] names.
pub fn enrich(tx: Transaction, table: &SignatureTable, responses: Responses) -> (outcome: Outcome)
    ensures
        outcome@ == enrichment(tx@, table@, responses@),
{
    let Responses { code, contract_built, token_name, display_value } = responses;
    let state = Enrichment::start(tx);
    let state = state.advance(Event::Code(code), table);
    let state = state.advance(Event::Contract(contract_built), table);
    let state = state.advance(Event::Name(token_name), table);
    let state = state.advance(Event::Display(display_value), table);
    match state.into_outcome() {
        Ok(outcome) => outcome,
        Err(_) => vstd::pervasive::unreached(),
    }
}

/// Whether `event` is what `answers` hold for `action`.
pub open spec fn answers_action(action: ActionView, event: EventView, answers: Answers) -> bool {
    match action {
        ActionView::FetchCode(_) => event == EventView::Code(answers.code),
        ActionView::BuildContract(_) => event == EventView::Contract(answers.contract_built),
        ActionView::QueryName(_) => event == EventView::Name(answers.token_name),
        ActionView::ConvertValue(_) => event == EventView::Display(answers.display_value),
        ActionView::Finish => true,
    }
}

/// The state that `state` reaches on `events`, taken in order.
pub open spec fn replay(
    state: EnrichmentView,
    events: Seq<EventView>,
    table: Map<u32, Seq<Seq<char>>>,
) -> EnrichmentView
    decreases events.len(),
{
    if events.len() == 0 {
        state
    } else {
        step(replay(state, events.drop_last(), table), events.last(), table)
    }
}

/// Whether each of `events` is what `answers` hold for the action that was
/// pending when it arrived.
pub open spec fn faithful(
    state: EnrichmentView,
    events: Seq<EventView>,
    table: Map<u32, Seq<Seq<char>>>,
    answers: Answers,
) -> bool
    decreases events.len(),
{
    events.len() == 0 || {
        &&& faithful(state, events.drop_last(), table, answers)
        &&& answers_action(
            pending(replay(state, events.drop_last(), table)),
            events.last(),
            answers,
        )
    }
}

/// Whether `state` is one that the enrichment of `tx` passes through when
/// the answers are `answers`: what it has settled agrees with them, and
/// where it has ended, it has ended in `enrichment(tx, table, answers)`.
pub open spec fn on_track(
    state: EnrichmentView,
    tx: TransactionView,
    table: Map<u32, Seq<Seq<char>>>,
    answers: Answers,
) -> bool {
    &&& state.tx == tx
    &&& match state.stage {
        Stage::AwaitCode => tx.recipient is Some,
        Stage::AwaitContract => {
            &&& tx.recipient is Some
            &&& answers.code is Some
            &&& answers.code.unwrap().len() > 0
        },
        Stage::AwaitName => {
            &&& tx.recipient is Some
            &&& answers.code is Some
            &&& answers.code.unwrap().len() > 0
            &&& answers.contract_built
        },
        Stage::AwaitDisplay { token_name, signature } => {
            &&& tx.recipient is Some
            &&& answers.code is Some
            &&& answers.code.unwrap().len() > 0
            &&& answers.contract_built
            &&& answers.token_name == Some(token_name)
            &&& tx.input.len() >= SELECTOR_LEN
            &&& signature == resolved_signature(table, tx.input)
        },
        Stage::Done(outcome) => outcome == enrichment(tx, table, answers),
    }
}

/// The number of answers that `stage` may still take.
pub open spec fn answers_left(stage: Stage) -> nat {
    match stage {
        Stage::AwaitCode => 4,
        Stage::AwaitContract => 3,
        Stage::AwaitName => 2,
        Stage::AwaitDisplay { .. } => 1,
        Stage::Done(_) => 0,
    }
}

/// An enrichment begins on track.
pub proof fn begin_is_on_track(
    tx: TransactionView,
    table: Map<u32, Seq<Seq<char>>>,
    answers: Answers,
)
    ensures
        on_track(begin(tx), tx, table, answers),
{
}

/// An answer that is what `answers` hold keeps an enrichment on track, and
/// brings one that is under way closer to its end.
pub proof fn step_stays_on_track(
    state: EnrichmentView,
    event: EventView,
    tx: TransactionView,
    table: Map<u32, Seq<Seq<char>>>,
    answers: Answers,
)
    requires
        on_track(state, tx, table, answers),
        answers_action(pending(state), event, answers),
    ensures
        on_track(step(state, event, table), tx, table, answers),
        !(state.stage is Done) ==> answers_left(step(state, event, table).stage) < answers_left(
            state.stage,
        ),
{
}

proof fn faithful_replay_stays_on_track(
    tx: TransactionView,
    table: Map<u32, Seq<Seq<char>>>,
    answers: Answers,
    events: Seq<EventView>,
)
    requires
        faithful(begin(tx), events, table, answers),
    ensures
        on_track(replay(begin(tx), events, table), tx, table, answers),
        answers_left(replay(begin(tx), events, table).stage) + events.len() <= 4
            || replay(begin(tx), events, table).stage is Done,
    decreases events.len(),
{
    if events.len() > 0 {
        faithful_replay_stays_on_track(tx, table, answers, events.drop_last());
    }
}

/// An enrichment that is given the answers in `answers`, one for each action
/// it asks for, ends in `enrichment(tx, table, answers)` and in nothing else.
pub proof fn faithful_run_ends_in_enrichment(
    tx: TransactionView,
    table: Map<u32, Seq<Seq<char>>>,
    answers: Answers,
    events: Seq<EventView>,
)
    requires
        faithful(begin(tx), events, table, answers),
        outcome_of(replay(begin(tx), events, table)) is Some,
    ensures
        outcome_of(replay(begin(tx), events, table)) == Some(enrichment(tx, table, answers)),
{
    faithful_replay_stays_on_track(tx, table, answers, events);
}

/// Four answers are enough: after them every enrichment has ended.
pub proof fn four_answers_suffice(
    tx: TransactionView,
    table: Map<u32, Seq<Seq<char>>>,
    answers: Answers,
    events: Seq<EventView>,
)
    requires
        faithful(begin(tx), events, table, answers),
        events.len() >= 4,
    ensures
        outcome_of(replay(begin(tx), events, table)) is Some,
{
    faithful_replay_stays_on_track(tx, table, answers, events);
}

/// Enriching the same transaction twice against the same table and the same
/// answers gives the same outcome, however the two runs were driven.
pub proof fn enrichment_is_idempotent(
    tx: TransactionView,
    table: Map<u32, Seq<Seq<char>>>,
    answers: Answers,
    first: Seq<EventView>,
    second: Seq<EventView>,
)
    requires
        faithful(begin(tx), first, table, answers),
        faithful(begin(tx), second, table, answers),
        outcome_of(replay(begin(tx), first, table)) is Some,
        outcome_of(replay(begin(tx), second, table)) is Some,
    ensures
        outcome_of(replay(begin(tx), first, table)) == outcome_of(
            replay(begin(tx), second, table),
        ),
{
    faithful_run_ends_in_enrichment(tx, table, answers, first);
    faithful_run_ends_in_enrichment(tx, table, answers, second);
}

/// Whether every check before the selector is passed: there is a recipient,
/// it has bytecode, a handle was built and the token gave its name.
pub open spec fn reaches_selector(tx: TransactionView, answers: Answers) -> bool {
    &&& tx.recipient is Some
    &&& answers.code is Some
    &&& answers.code.unwrap().len() > 0
    &&& answers.contract_built
    &&& answers.token_name is Some
}

/// Call data of fewer than four bytes never enriches and never consults the
/// table: the outcome is a skip, and the same skip under every table.
pub proof fn short_call_data_never_reaches_table(
    tx: TransactionView,
    answers: Answers,
    table: Map<u32, Seq<Seq<char>>>,
    other: Map<u32, Seq<Seq<char>>>,
)
    requires
        tx.input.len() < SELECTOR_LEN,
    ensures
        enrichment(tx, table, answers) is Skipped,
        enrichment(tx, table, answers) == enrichment(tx, other, answers),
{
}

/// Where every earlier check is passed, call data of fewer than four bytes
/// is skipped as too short.
pub proof fn short_call_data_is_too_short(
    tx: TransactionView,
    answers: Answers,
    table: Map<u32, Seq<Seq<char>>>,
)
    requires
        reaches_selector(tx, answers),
        tx.input.len() < SELECTOR_LEN,
    ensures
        enrichment(tx, table, answers) == OutcomeView::Skipped(SkipReason::CallDataTooShort),
{
}

/// The selector is the first four bytes and nothing else: call data that
/// agrees on them resolves to the same signature, whatever follows.
pub proof fn signature_depends_on_first_four_bytes(
    table: Map<u32, Seq<Seq<char>>>,
    input: Seq<u8>,
    other: Seq<u8>,
)
    requires
        input.len() >= SELECTOR_LEN,
        other.len() >= SELECTOR_LEN,
        forall|i: int| 0 <= i < SELECTOR_LEN ==> input[i] == other[i],
    ensures
        selector_of(input) == Some(input.subrange(0, SELECTOR_LEN as int)),
        selector_of(input) == selector_of(other),
        resolved_signature(table, input) == resolved_signature(table, other),
{
    assert(input.subrange(0, SELECTOR_LEN as int) =~= other.subrange(0, SELECTOR_LEN as int));
}

/// A selector that the table does not hold still yields a record, with the
/// marker for an unknown signature.
pub proof fn unknown_selector_still_enriches(
    tx: TransactionView,
    answers: Answers,
    table: Map<u32, Seq<Seq<char>>>,
)
    requires
        reaches_selector(tx, answers),
        tx.input.len() >= SELECTOR_LEN,
        signatures_of(table, selector_of(tx.input).unwrap()) is None,
    ensures
        enrichment(tx, table, answers) matches OutcomeView::Enriched(record)
            && record.signature == unknown_signature(),
{
}

/// A recipient without bytecode is no contract.
pub proof fn empty_code_is_not_a_contract(
    tx: TransactionView,
    answers: Answers,
    table: Map<u32, Seq<Seq<char>>>,
)
    requires
        tx.recipient is Some,
        answers.code is Some,
        answers.code.unwrap().len() == 0,
    ensures
        enrichment(tx, table, answers) == OutcomeView::Skipped(SkipReason::NotAContract),
{
}

/// A transaction without recipient is skipped for that, whatever the
/// answers would have been: the recipient is looked at first.
pub proof fn missing_recipient_comes_first(
    tx: TransactionView,
    answers: Answers,
    table: Map<u32, Seq<Seq<char>>>,
)
    requires
        tx.recipient is None,
    ensures
        enrichment(tx, table, answers) == OutcomeView::Skipped(SkipReason::NoRecipient),
        outcome_of(begin(tx)) == Some(OutcomeView::Skipped(SkipReason::NoRecipient)),
{
}

/// A token that does not give its name is skipped for that, whatever the
/// call data and the table hold.
pub proof fn failed_name_query_comes_before_selector(
    tx: TransactionView,
    answers: Answers,
    table: Map<u32, Seq<Seq<char>>>,
)
    requires
        tx.recipient is Some,
        answers.code is Some,
        answers.code.unwrap().len() > 0,
        answers.contract_built,
        answers.token_name is None,
    ensures
        enrichment(tx, table, answers) == OutcomeView::Skipped(SkipReason::NameQueryFailed),
{
}

} // verus!

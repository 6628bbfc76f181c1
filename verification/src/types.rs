//! The plain data that enrichment reads and produces.

use vstd::prelude::*;
use crate::outside::{address_string, address_text, hash_string, hash_text};
use crate::uint::Uint256;

verus! {

/// A 20-byte account or contract address.
#[derive(Clone, Copy, Debug, PartialEq, Eq)]
pub struct Address {
    pub bytes: [u8; 20],
}

/// The address of all zero bytes, which stands in for an absent sender.
pub open spec fn zero_address() -> Seq<u8> {
    Seq::new(20, |i: int| 0u8)
}

impl Address {
    /// The address's bytes.
    pub open spec fn view(&self) -> Seq<u8> {
        self.bytes@
    }

    /// The address of all zero bytes.
    pub fn zero() -> (r: Address)
        ensures
            r@ == zero_address(),
    {
        let r = Address { bytes: [0u8; 20] };
        assert(r@ =~= zero_address());
        r
    }

    /// The address as reports print it.
    pub fn to_text(&self) -> (s: String)
        ensures
            s@ == address_text(self@),
    {
        address_string(&self.bytes)
    }
}

/// A 32-byte block or transaction hash.
#[derive(Clone, Copy, Debug, PartialEq, Eq)]
pub struct Hash256 {
    pub bytes: [u8; 32],
}

impl Hash256 {
    /// The hash's bytes.
    pub open spec fn view(&self) -> Seq<u8> {
        self.bytes@
    }

    /// The hash as reports print it, shortened to its ends.
    pub fn to_text(&self) -> (s: String)
        ensures
            s@ == hash_text(self@),
    {
        hash_string(&self.bytes)
    }
}

/// The bytes of an address that may be absent.
pub open spec fn address_view(a: Option<Address>) -> Option<Seq<u8>> {
    match a {
        Some(a) => Some(a@),
        None => None,
    }
}

/// The number of a quantity that may be absent.
pub open spec fn quantity_view(q: Option<Uint256>) -> Option<nat> {
    match q {
        Some(q) => Some(q@),
        None => None,
    }
}

/// Why a transaction was not enriched.
#[derive(Clone, Copy, Debug, PartialEq, Eq, Structural)]
pub enum SkipReason {
    /// The transaction creates a contract: it has no recipient.
    NoRecipient,
    /// The recipient's bytecode could not be fetched.
    CodeFetchFailed,
    /// The recipient has no bytecode: it is a plain account.
    NotAContract,
    /// No contract handle could be built for the recipient.
    ContractInitFailed,
    /// The recipient did not answer the query for its token name.
    NameQueryFailed,
    /// The call data is too short to hold a selector.
    CallDataTooShort,
}

/// The name under which a reason appears in reports.
pub open spec fn reason_name(reason: SkipReason) -> Seq<char> {
    match reason {
        SkipReason::NoRecipient => "NoRecipient"@,
        SkipReason::CodeFetchFailed => "CodeFetchFailed"@,
        SkipReason::NotAContract => "NotAContract"@,
        SkipReason::ContractInitFailed => "ContractInitFailed"@,
        SkipReason::NameQueryFailed => "NameQueryFailed"@,
        SkipReason::CallDataTooShort => "CallDataTooShort"@,
    }
}

impl SkipReason {
    /// The name under which the reason appears in reports.
    pub fn name(&self) -> (s: &'static str)
        ensures
            s@ == reason_name(*self),
    {
        match self {
            SkipReason::NoRecipient => "NoRecipient",
            SkipReason::CodeFetchFailed => "CodeFetchFailed",
            SkipReason::NotAContract => "NotAContract",
            SkipReason::ContractInitFailed => "ContractInitFailed",
            SkipReason::NameQueryFailed => "NameQueryFailed",
            SkipReason::CallDataTooShort => "CallDataTooShort",
        }
    }
}

/// One transaction of a block.
#[derive(Clone, Debug, PartialEq, Eq)]
pub struct Transaction {
    pub hash: Hash256,
    /// Position within the block.
    pub index: u64,
    pub sender: Option<Address>,
    /// Absent where the transaction creates a contract.
    pub recipient: Option<Address>,
    /// Transferred value, in base units.
    pub value: Uint256,
    pub gas_limit: Uint256,
    pub gas_price: Uint256,
    /// Call data.
    pub input: Vec<u8>,
}

/// A transaction as contracts speak of it.
pub struct TransactionView {
    pub hash: Seq<u8>,
    pub index: u64,
    pub sender: Option<Seq<u8>>,
    pub recipient: Option<Seq<u8>>,
    pub value: nat,
    pub gas_limit: nat,
    pub gas_price: nat,
    pub input: Seq<u8>,
}

impl View for Transaction {
    type V = TransactionView;

    open spec fn view(&self) -> TransactionView {
        TransactionView {
            hash: self.hash@,
            index: self.index,
            sender: address_view(self.sender),
            recipient: address_view(self.recipient),
            value: self.value@,
            gas_limit: self.gas_limit@,
            gas_price: self.gas_price@,
            input: self.input@,
        }
    }
}

/// What enrichment makes of a call to a token contract.
#[derive(Clone, Debug, PartialEq, Eq)]
pub struct EnrichedRecord {
    /// Position of the transaction within its block.
    pub index: u64,
    /// Name that the recipient contract gives itself.
    pub token_name: String,
    /// The signatures that the call's selector resolves to, or the marker for none.
    pub signature: String,
    /// The sender, or the zero address where the transaction names none.
    pub sender: Address,
    pub recipient: Address,
    /// Transferred value, in base units.
    pub value: Uint256,
    /// Transferred value in display units, as text.
    pub display_value: String,
    pub gas_limit: Uint256,
    pub gas_price: Uint256,
}

/// A record as contracts speak of it.
pub struct RecordView {
    pub index: u64,
    pub token_name: Seq<char>,
    pub signature: Seq<char>,
    pub sender: Seq<u8>,
    pub recipient: Seq<u8>,
    pub value: nat,
    pub display_value: Seq<char>,
    pub gas_limit: nat,
    pub gas_price: nat,
}

impl View for EnrichedRecord {
    type V = RecordView;

    open spec fn view(&self) -> RecordView {
        RecordView {
            index: self.index,
            token_name: self.token_name@,
            signature: self.signature@,
            sender: self.sender@,
            recipient: self.recipient@,
            value: self.value@,
            display_value: self.display_value@,
            gas_limit: self.gas_limit@,
            gas_price: self.gas_price@,
        }
    }
}

/// How the enrichment of one transaction ended.
#[derive(Clone, Debug, PartialEq, Eq)]
pub enum Outcome {
    Enriched(EnrichedRecord),
    Skipped(SkipReason),
}

/// An outcome as contracts speak of it.
pub enum OutcomeView {
    Enriched(RecordView),
    Skipped(SkipReason),
}

impl View for Outcome {
    type V = OutcomeView;

    open spec fn view(&self) -> OutcomeView {
        match self {
            Outcome::Enriched(record) => OutcomeView::Enriched(record@),
            Outcome::Skipped(reason) => OutcomeView::Skipped(*reason),
        }
    }
}

/// The summary of one block.
#[derive(Clone, Copy, Debug, PartialEq, Eq)]
pub struct BlockHeader {
    pub number: u64,
    pub parent_hash: Hash256,
    /// Seconds since 1970, as the chain counts them.
    pub timestamp: u64,
    pub transaction_count: u64,
    pub gas_used: Uint256,
    pub gas_limit: Uint256,
    /// Absent in blocks from before the fee market.
    pub base_fee: Option<Uint256>,
    pub difficulty: Uint256,
    pub total_difficulty: Option<Uint256>,
}

} // verus!

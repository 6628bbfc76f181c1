//! The table from selectors to the function signatures that hash to them.

use std::collections::BTreeMap;
use vstd::prelude::*;
use crate::outside::{json_error_string, json_signature_entries, parse_signature_json};
use crate::hex::hex_text;
use crate::selector::{parse_of_hex_text, parse_selector, selector_key, Selector};

verus! {

/// One entry of a table as it is written down: a selector in eight
/// lower-case hexadecimal digits, and the signatures known for it.
#[derive(Clone, Debug, PartialEq, Eq)]
pub struct SignatureEntry {
    pub selector: String,
    pub signatures: Vec<String>,
}

impl DeepView for SignatureEntry {
    type V = (Seq<char>, Seq<Seq<char>>);

    open spec fn deep_view(&self) -> (Seq<char>, Seq<Seq<char>>) {
        (self.selector@, self.signatures.deep_view())
    }
}

/// The table that a list of entries makes: each entry whose key is a selector
/// in writing is filed under that selector, a later entry replacing an
/// earlier one; an entry under any other key can never be asked for and is
/// left out.
pub open spec fn table_of(entries: Seq<(Seq<char>, Seq<Seq<char>>)>) -> Map<u32, Seq<Seq<char>>>
    decreases entries.len(),
{
    if entries.len() == 0 {
        Map::empty()
    } else {
        let rest = table_of(entries.drop_last());
        match parse_selector(entries.last().0) {
            Some(bytes) => rest.insert(selector_key(bytes), entries.last().1),
            None => rest,
        }
    }
}

/// The signatures that `table` holds for the selector `bytes`.
pub open spec fn signatures_of(table: Map<u32, Seq<Seq<char>>>, bytes: Seq<u8>) -> Option<
    Seq<Seq<char>>,
> {
    if table.contains_key(selector_key(bytes)) {
        Some(table[selector_key(bytes)])
    } else {
        None
    }
}

/// The signatures that `table` holds for a selector in writing; none for
/// text that is no selector.
pub open spec fn signatures_of_text(table: Map<u32, Seq<Seq<char>>>, text: Seq<char>) -> Option<
    Seq<Seq<char>>,
> {
    match parse_selector(text) {
        Some(bytes) => signatures_of(table, bytes),
        None => None,
    }
}

/// The signatures of a lookup's result.
pub open spec fn found_view(found: Option<&Vec<String>>) -> Option<Seq<Seq<char>>> {
    match found {
        Some(signatures) => Some(signatures.deep_view()),
        None => None,
    }
}

/// A copy of a list of strings.
pub fn copy_strings(items: &Vec<String>) -> (r: Vec<String>)
    ensures
        r.deep_view() == items.deep_view(),
{
    let mut r: Vec<String> = Vec::new();
    let mut i: usize = 0;
    while i < items.len()
        invariant
            0 <= i <= items.len(),
            r.len() == i,
            forall|j: int| 0 <= j < i ==> r[j]@ == items[j]@,
        decreases items.len() - i,
    {
        r.push(items[i].clone());
        i += 1;
    }
    assert(r.deep_view() =~= items.deep_view());
    r
}

/// Why a table could not be loaded.
#[derive(Clone, Debug, PartialEq, Eq)]
pub enum LoadError {
    /// The text is not a JSON object from keys to lists of strings; the
    /// parser's complaint comes with it.
    Malformed { complaint: String },
}

/// An index from selectors to signatures, keyed by the selector read as a
/// number. It is built once and only read afterwards.
pub struct SignatureTable {
    entries: BTreeMap<u32, Vec<String>>,
}

impl View for SignatureTable {
    type V = Map<u32, Seq<Seq<char>>>;

    closed spec fn view(&self) -> Map<u32, Seq<Seq<char>>> {
        self.entries@.map_values(|signatures: Vec<String>| signatures.deep_view())
    }
}

impl SignatureTable {
    /// The table without entries.
    pub fn new() -> (r: SignatureTable)
        ensures
            r@ == Map::<u32, Seq<Seq<char>>>::empty(),
    {
        let r = SignatureTable { entries: BTreeMap::new() };
        assert(r@ =~= Map::<u32, Seq<Seq<char>>>::empty());
        r
    }

    /// Files `signatures` under `selector`, in place of what was filed there.
    pub fn insert(&mut self, selector: Selector, signatures: Vec<String>)
        ensures
            final(self)@ == old(self)@.insert(selector_key(selector@), signatures.deep_view()),
    {
        broadcast use vstd::std_specs::btree::group_btree_axioms;
        broadcast use vstd::laws_cmp::group_laws_cmp;

        let ghost before = self.entries@;
        let ghost added = signatures;
        let key = selector.key();
        self.entries.insert(key, signatures);
        assert(self.entries@ == before.insert(key, added));
        assert(self@ =~= old(self)@.insert(key, added.deep_view()));
    }

    /// The table that `entries` make.
    pub fn from_entries(entries: &Vec<SignatureEntry>) -> (r: SignatureTable)
        ensures
            r@ == table_of(entries.deep_view()),
    {
        let mut table = SignatureTable::new();
        let mut i: usize = 0;
        assert(entries.deep_view().take(0) =~= Seq::empty());
        while i < entries.len()
            invariant
                0 <= i <= entries.len(),
                table@ == table_of(entries.deep_view().take(i as int)),
            decreases entries.len() - i,
        {
            let ghost done = entries.deep_view().take(i as int);
            let ghost next = entries.deep_view().take(i + 1);
            assert(next.drop_last() =~= done);
            assert(next.last() == entries[i as int].deep_view());
            match Selector::from_hex(entries[i].selector.as_str()) {
                Some(selector) => {
                    table.insert(selector, copy_strings(&entries[i].signatures));
                },
                None => {},
            }
            i += 1;
        }
        assert(entries.deep_view().take(entries.len() as int) =~= entries.deep_view());
        table
    }

    /// The table that `text` writes down as a JSON object from selectors to
    /// lists of signatures. Text that is no such object is refused.
    pub fn from_json(text: &str) -> (r: Result<SignatureTable, LoadError>)
        ensures
            match r {
                Ok(table) => json_signature_entries(text@) matches Some(entries) && table@
                    == table_of(entries),
                Err(_) => json_signature_entries(text@) is None,
            },
    {
        match parse_signature_json(text) {
            Ok(entries) => Ok(SignatureTable::from_entries(&entries)),
            Err(error) => Err(LoadError::Malformed { complaint: json_error_string(&error) }),
        }
    }

    /// The signatures filed under `selector`.
    pub fn lookup_selector(&self, selector: &Selector) -> (r: Option<&Vec<String>>)
        ensures
            found_view(r) == signatures_of(self@, selector@),
    {
        broadcast use vstd::std_specs::btree::group_btree_axioms;
        broadcast use vstd::laws_cmp::group_laws_cmp;

        let key = selector.key();
        self.entries.get(&key)
    }

    /// The signatures filed under the selector that `text` writes out; none
    /// where `text` is not eight lower-case hexadecimal digits.
    pub fn lookup(&self, text: &str) -> (r: Option<&Vec<String>>)
        ensures
            found_view(r) == signatures_of_text(self@, text@),
    {
        match Selector::from_hex(text) {
            Some(selector) => self.lookup_selector(&selector),
            None => None,
        }
    }
}

/// Looking a selector up by its bytes and by the eight digits that write
/// them out finds the same.
pub proof fn lookup_by_text_agrees(table: Map<u32, Seq<Seq<char>>>, bytes: Seq<u8>)
    requires
        bytes.len() == 4,
    ensures
        signatures_of_text(table, hex_text(bytes)) == signatures_of(table, bytes),
{
    parse_of_hex_text(bytes);
}

/// The last entry that is written under a selector is the one that is found
/// there.
pub proof fn last_entry_is_found(
    entries: Seq<(Seq<char>, Seq<Seq<char>>)>,
    selector: Seq<char>,
    signatures: Seq<Seq<char>>,
)
    requires
        parse_selector(selector) is Some,
    ensures
        signatures_of_text(table_of(entries.push((selector, signatures))), selector) == Some(
            signatures,
        ),
{
    let all = entries.push((selector, signatures));
    assert(all.drop_last() =~= entries);
    assert(all.last() == (selector, signatures));
}

} // verus!

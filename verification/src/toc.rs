//! The table of contents: parsing it, listing it, and finding an entry by its
//! short identifier.

use vstd::prelude::*;
use vstd::utf8::{encode_utf8, valid_utf8};
use crate::archive::data_to_string;
use crate::error::{ErrorKind, Failure};
use crate::item::{short_id, Entry, TocItem};
use crate::parse::{catalog_of, entries_of, items_of_tokens};
use crate::text::same_text;
use crate::xml::{tokenize, xml_tokens, Token};

verus! {

/// Table of contents of current laws: its entries in document order. Titles
/// and links may occur more than once.
#[derive(Debug, Clone)]
pub struct Toc {
    /// List of items.
    pub items: Vec<TocItem>,
}

impl View for Toc {
    type V = Seq<Entry>;

    open spec fn view(&self) -> Seq<Entry> {
        entries_of(self.items@)
    }
}

/// The entries of a document, given what the XML reader made of it: the
/// entries that its pieces spell, and `Err(None)` where the reader failed.
pub open spec fn document_catalog(tokens: Option<Seq<Token>>) -> Result<Seq<Entry>, Option<usize>> {
    match tokens {
        Some(tokens) => catalog_of(tokens),
        None => Err(None),
    }
}

/// The entries of the document with the text `text`, or
/// `MalformedCatalogError`.
pub open spec fn text_catalog(text: Seq<char>) -> Result<Seq<Entry>, Failure> {
    match document_catalog(xml_tokens(encode_utf8(text))) {
        Ok(entries) => Ok(entries),
        Err(fault) => Err(Failure::MalformedCatalogError(fault)),
    }
}

/// The entries of the document with the bytes `data`: `EncodingError` where
/// they are not UTF-8, else what their text gives.
pub open spec fn bytes_catalog(data: Seq<u8>) -> Result<Seq<Entry>, Failure> {
    if valid_utf8(data) {
        match document_catalog(xml_tokens(data)) {
            Ok(entries) => Ok(entries),
            Err(fault) => Err(Failure::MalformedCatalogError(fault)),
        }
    } else {
        Err(Failure::EncodingError)
    }
}

/// A table of contents or a failure, as plain values.
pub open spec fn catalog_outcome(r: Result<Toc, ErrorKind>) -> Result<Seq<Entry>, Failure> {
    match r {
        Ok(toc) => Ok(toc@),
        Err(e) => Err(e@),
    }
}

/// What stands in a line of the listing for an entry without short
/// identifier.
pub const NO_SHORT_ID: &'static str = "???";

/// What a line of the listing starts with.
pub const LINE_OPEN: &'static str = "[";

/// What stands between the identifier and the title in a line of the listing.
pub const LINE_CLOSE: &'static str = "] ";

/// The identifier that the listing shows for an entry.
pub open spec fn label_of(entry: Entry) -> Seq<char> {
    match short_id(entry.link) {
        Some(id) => id,
        None => NO_SHORT_ID@,
    }
}

/// The line of the listing for an entry: its identifier in square brackets,
/// a space, and its title.
pub open spec fn line_of(entry: Entry) -> Seq<char> {
    LINE_OPEN@ + label_of(entry) + LINE_CLOSE@ + entry.title
}

/// Whether the entry at `index` is the first one with the short identifier
/// `id`.
pub open spec fn is_first_match(entries: Seq<Entry>, id: Seq<char>, index: int) -> bool {
    &&& 0 <= index < entries.len()
    &&& short_id(entries[index].link) == Some(id)
    &&& forall|j: int| 0 <= j < index ==> short_id(#[trigger] entries[j].link) != Some(id)
}

/// Whether no entry has the short identifier `id`.
pub open spec fn no_match(entries: Seq<Entry>, id: Seq<char>) -> bool {
    forall|j: int| 0 <= j < entries.len() ==> short_id(#[trigger] entries[j].link) != Some(id)
}

/// Where two entries carry the same short identifier, a lookup of it gives
/// neither the second of them nor anything behind the first.
pub proof fn lookup_prefers_first(
    entries: Seq<Entry>,
    id: Seq<char>,
    first: int,
    second: int,
    found: int,
)
    requires
        0 <= first < second < entries.len(),
        short_id(entries[first].link) == Some(id),
        short_id(entries[second].link) == Some(id),
        is_first_match(entries, id, found),
    ensures
        found <= first,
        found != second,
{
}

/// A lookup has one answer: two first matches are the same entry, and where
/// there is one, `no_match` does not hold.
pub proof fn lookup_is_unique(entries: Seq<Entry>, id: Seq<char>, a: int, b: int)
    requires
        is_first_match(entries, id, a),
        is_first_match(entries, id, b),
    ensures
        a == b,
        !no_match(entries, id),
{
}

impl Toc {
    /// Creates a table of contents from its entries.
    pub fn new(items: Vec<TocItem>) -> (toc: Toc)
        ensures
            toc.items == items,
            toc@ == entries_of(items@),
    {
        Toc { items }
    }

    /// Loads the table of contents from the text of its XML document.
    ///
    /// Fails with `MalformedCatalogError`: with the index of the first item
    /// that is malformed, and without an index where the XML is not well
    /// formed. A document without items gives an empty table.
    pub fn from_str(input: &str) -> (r: Result<Toc, ErrorKind>)
        ensures
            catalog_outcome(r) == text_catalog(input@),
    {
        match tokenize(input.as_bytes()) {
            Ok(tokens) => match items_of_tokens(&tokens) {
                Ok(items) => Ok(Toc { items }),
                Err(e) => Err(e),
            },
            Err(_) => Err(ErrorKind::MalformedCatalogError(None)),
        }
    }

    /// Loads the table of contents from the bytes of its XML document, which
    /// must be UTF-8, else `EncodingError`; then as `from_str`.
    pub fn from_bytes(data: Vec<u8>) -> (r: Result<Toc, ErrorKind>)
        ensures
            catalog_outcome(r) == bytes_catalog(data@),
    {
        proof {
            if valid_utf8(data@) {
                vstd::utf8::decode_utf8_encode_utf8(data@);
            }
        }
        match data_to_string(data) {
            Ok(text) => Toc::from_str(text.as_str()),
            Err(e) => Err(e),
        }
    }

    /// The lines of the listing, one for each entry, in catalog order.
    pub fn list_lines(&self) -> (lines: Vec<String>)
        ensures
            lines@.len() == self@.len(),
            forall|i: int| 0 <= i < lines@.len() ==> (#[trigger] lines@[i])@ == line_of(self@[i]),
    {
        let mut lines: Vec<String> = Vec::new();
        let mut i: usize = 0;
        while i < self.items.len()
            invariant
                i <= self.items.len(),
                lines@.len() == i,
                forall|k: int| 0 <= k < i ==> (#[trigger] lines@[k])@ == line_of(self@[k]),
            decreases self.items.len() - i,
        {
            lines.push(self.items[i].list_line());
            i += 1;
        }
        lines
    }

    /// The index of the first entry whose short identifier is `id`.
    pub fn position(&self, id: &str) -> (r: Option<usize>)
        ensures
            match r {
                Some(index) => is_first_match(self@, id@, index as int),
                None => no_match(self@, id@),
            },
    {
        let mut i: usize = 0;
        while i < self.items.len()
            invariant
                i <= self.items.len(),
                forall|j: int| 0 <= j < i ==> short_id(#[trigger] self@[j].link) != Some(id@),
            decreases self.items.len() - i,
        {
            let found = match self.items[i].short() {
                Some(short) => same_text(short, id),
                None => false,
            };
            if found {
                return Some(i);
            }
            i += 1;
        }
        None
    }

    /// The first entry, in catalog order, whose short identifier is `id`;
    /// `IdentifierNotFound` where no entry has it.
    pub fn item_find(&self, id: &str) -> (r: Result<&TocItem, ErrorKind>)
        ensures
            match r {
                Ok(item) => exists|index: int|
                    is_first_match(self@, id@, index) && *item == #[trigger] self.items@[index],
                Err(e) => no_match(self@, id@) && e@ == Failure::IdentifierNotFound(id@),
            },
    {
        match self.position(id) {
            Some(index) => Ok(&self.items[index]),
            None => Err(ErrorKind::IdentifierNotFound(id.to_owned())),
        }
    }
}

impl TocItem {
    /// The line of the listing for this entry.
    pub fn list_line(&self) -> (line: String)
        ensures
            line@ == line_of(self@),
    {
        let label = match self.short() {
            Some(id) => id,
            None => NO_SHORT_ID,
        };
        let mut line = LINE_OPEN.to_owned();
        line.append(label);
        line.append(LINE_CLOSE);
        line.append(self.title.as_str());
        line
    }
}

impl PartialEq for Toc {
    /// Two tables are equal where they hold equal entries in the same order.
    fn eq(&self, other: &Self) -> (r: bool) {
        if self.items.len() != other.items.len() {
            assert(self@.len() != other@.len());
            return false;
        }
        let mut i: usize = 0;
        while i < self.items.len()
            invariant
                i <= self.items.len() == other.items.len(),
                forall|k: int| 0 <= k < i ==> self@[k] == other@[k],
            decreases self.items.len() - i,
        {
            if self.items[i] != other.items[i] {
                assert(self@[i as int] != other@[i as int]);
                return false;
            }
            i += 1;
        }
        assert(self@ =~= other@);
        true
    }
}

impl vstd::std_specs::cmp::PartialEqSpecImpl for Toc {
    open spec fn obeys_eq_spec() -> bool {
        true
    }

    open spec fn eq_spec(&self, other: &Self) -> bool {
        self@ == other@
    }
}

impl Default for Toc {
    /// The table without entries.
    fn default() -> (toc: Toc)
        ensures
            toc@ == Seq::<Entry>::empty(),
    {
        let toc = Toc { items: Vec::new() };
        assert(toc@ =~= Seq::<Entry>::empty());
        toc
    }
}

/// The entries of a table of contents, in its order.
pub fn toc_get_items(toc: Toc) -> (items: Vec<TocItem>)
    ensures
        items == toc.items,
{
    toc.items
}

} // verus!

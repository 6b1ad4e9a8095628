//! What holds of every catalog document: how many entries it gives, and that
//! a well-formed catalog gives the entries of its items in document order.

use vstd::prelude::*;
use crate::item::Entry;
use crate::parse::{
    catalog_of, moved, scan_all, scan_from, scan_start, scan_step, Place, Scan, ITEM_TAG,
    LINK_TAG, TITLE_TAG,
};
use crate::text::trimmed;
use crate::xml::Token;

verus! {

/// By how much a piece changes the number of open elements.
pub open spec fn depth_change(token: Token) -> int {
    match token {
        Token::Open(_) => 1,
        Token::Close => -1,
        _ => 0,
    }
}

/// The number of elements that are open after `tokens`.
pub open spec fn depth_after(tokens: Seq<Token>) -> int
    decreases tokens.len(),
{
    if tokens.len() == 0 {
        0
    } else {
        depth_after(tokens.drop_last()) + depth_change(tokens.last())
    }
}

/// The number of elements named `item` in `tokens` that are children of the
/// root element.
pub open spec fn item_count(tokens: Seq<Token>) -> nat
    decreases tokens.len(),
{
    if tokens.len() == 0 {
        0
    } else {
        let before = tokens.drop_last();
        if tokens.last() == Token::Open(ITEM_TAG@) && depth_after(before) == 1 {
            item_count(before) + 1
        } else {
            item_count(before)
        }
    }
}

/// What the reader's place says of the pieces read so far: how deep it stands,
/// and how many items have begun.
spec fn agrees(scan: Scan, tokens: Seq<Token>) -> bool {
    let depth = depth_after(tokens);
    let begun = item_count(tokens);
    match scan.place {
        Place::Prolog => depth == 0 && begun == 0 && scan.done.len() == 0,
        Place::Root => depth == 1 && begun == scan.done.len(),
        Place::Item => depth == 2 && begun == scan.done.len() + 1,
        Place::Title => depth == 3 && begun == scan.done.len() + 1,
        Place::Link => depth == 3 && begun == scan.done.len() + 1,
        Place::Skip { depth: skipped, in_item } => skipped >= 1 && if in_item {
            depth == 2 + skipped && begun == scan.done.len() + 1
        } else {
            depth == 1 + skipped && begun == scan.done.len()
        },
        Place::Epilog => depth == 0 && begun == scan.done.len(),
    }
}

proof fn lemma_scan_agrees(tokens: Seq<Token>)
    ensures
        scan_all(tokens) matches Ok(scan) ==> agrees(scan, tokens),
    decreases tokens.len(),
{
    if tokens.len() > 0 {
        lemma_scan_agrees(tokens.drop_last());
    }
}

/// A document that is read without a fault gives as many entries as its root
/// element has children named `item`; so a document without such children
/// gives an empty table.
pub proof fn entries_match_items(tokens: Seq<Token>)
    ensures
        catalog_of(tokens) matches Ok(entries) ==> entries.len() == item_count(tokens),
{
    lemma_scan_agrees(tokens);
}

/// Whether `run` holds only text, comments and the like: no tag.
pub open spec fn is_run(run: Seq<Token>) -> bool {
    forall|i: int| 0 <= i < run.len() ==> (#[trigger] run[i] is Text || run[i] is Other)
}

/// The text that a run spells: its pieces of text, one after the other.
pub open spec fn run_text(run: Seq<Token>) -> Seq<char>
    decreases run.len(),
{
    if run.len() == 0 {
        Seq::empty()
    } else {
        run_text(run.drop_last()) + match run.last() {
            Token::Text(text) => text,
            _ => Seq::empty(),
        }
    }
}

/// Whether a start tag names an element that the grammar reads at this
/// place: `item` in the root, `title` and `link` in an item.
pub open spec fn is_read(token: Token, in_item: bool) -> bool {
    token matches Token::Open(name) && if in_item {
        name == TITLE_TAG@ || name == LINK_TAG@
    } else {
        name == ITEM_TAG@
    }
}

/// Whether `filler` is what the grammar passes over between the elements it
/// reads, in an item or in the root: text and the like, and whole elements of
/// other names with all they hold.
pub open spec fn is_filler(filler: Seq<Token>, in_item: bool) -> bool {
    &&& depth_after(filler) == 0
    &&& forall|i: int| 0 <= i <= filler.len() ==> depth_after(#[trigger] filler.take(i)) >= 0
    &&& forall|i: int|
        0 <= i < filler.len() && depth_after(filler.take(i)) == 0 ==> !is_read(
            #[trigger] filler[i],
            in_item,
        )
}

/// One item of a well-formed catalog, piece by piece.
pub struct ItemShape {
    /// What stands in the root before the item.
    pub lead: Seq<Token>,
    /// What stands in the item before its first field.
    pub first: Seq<Token>,
    /// What the title holds.
    pub title: Seq<Token>,
    /// What stands between the two fields.
    pub middle: Seq<Token>,
    /// What the link holds.
    pub link: Seq<Token>,
    /// What stands in the item behind its second field.
    pub last: Seq<Token>,
    /// Whether the link stands before the title.
    pub link_first: bool,
}

/// Whether the pieces of an item are what they are named.
pub open spec fn is_item_shape(shape: ItemShape) -> bool {
    &&& is_filler(shape.lead, false)
    &&& is_filler(shape.first, true)
    &&& is_run(shape.title)
    &&& is_filler(shape.middle, true)
    &&& is_run(shape.link)
    &&& is_filler(shape.last, true)
}

/// The pieces of a field: its start tag, what it holds, its end tag.
pub open spec fn field_tokens(name: Seq<char>, run: Seq<Token>) -> Seq<Token> {
    seq![Token::Open(name)] + run + seq![Token::Close]
}

/// The pieces of one item, from its start tag to its end tag.
#[verifier::opaque]
pub open spec fn item_tokens(shape: ItemShape) -> Seq<Token> {
    let title = field_tokens(TITLE_TAG@, shape.title);
    let link = field_tokens(LINK_TAG@, shape.link);
    seq![Token::Open(ITEM_TAG@)] + shape.first + (if shape.link_first {
        link
    } else {
        title
    }) + shape.middle + (if shape.link_first {
        title
    } else {
        link
    }) + shape.last + seq![Token::Close]
}

/// The pieces of the items of `shapes`, each with what stands before it.
pub open spec fn items_tokens(shapes: Seq<ItemShape>) -> Seq<Token>
    decreases shapes.len(),
{
    if shapes.len() == 0 {
        Seq::empty()
    } else {
        items_tokens(shapes.drop_last()) + shapes.last().lead + item_tokens(shapes.last())
    }
}

/// A well-formed catalog, piece by piece.
pub struct DocumentShape {
    /// What stands before the root element.
    pub prolog: Seq<Token>,
    /// The name of the root element.
    pub root: Seq<char>,
    /// The items, in document order.
    pub items: Seq<ItemShape>,
    /// What stands in the root behind the last item.
    pub tail: Seq<Token>,
    /// What stands behind the root element.
    pub epilog: Seq<Token>,
}

/// Whether `shape` is a well-formed catalog: a root element of any name that
/// holds any number of items, each with one title and one link in either
/// order, which hold nothing but text; and between them anything but
/// elements of these names.
pub open spec fn is_document_shape(shape: DocumentShape) -> bool {
    &&& is_run(shape.prolog)
    &&& forall|i: int| 0 <= i < shape.items.len() ==> is_item_shape(#[trigger] shape.items[i])
    &&& is_filler(shape.tail, false)
    &&& is_run(shape.epilog)
}

/// The pieces of a well-formed catalog.
pub open spec fn document_tokens(shape: DocumentShape) -> Seq<Token> {
    shape.prolog + seq![Token::Open(shape.root)] + items_tokens(shape.items) + shape.tail + seq![
        Token::Close,
    ] + shape.epilog
}

/// The entry of an item: the text of its title and of its link, each without
/// the white space around it.
pub open spec fn entry_of(shape: ItemShape) -> Entry {
    Entry { title: trimmed(run_text(shape.title)), link: trimmed(run_text(shape.link)) }
}

/// The reader in the root element, between two items.
spec fn between_items(done: Seq<Entry>) -> Scan {
    Scan { place: Place::Root, done, title: None, link: None, text: Seq::empty() }
}

proof fn lemma_scan_push(scan: Scan, tokens: Seq<Token>, token: Token)
    ensures
        scan_from(scan, tokens.push(token)) == match scan_from(scan, tokens) {
            Ok(before) => scan_step(before, token),
            Err(fault) => Err(fault),
        },
{
    assert(tokens.push(token).drop_last() =~= tokens);
}

proof fn lemma_scan_one(scan: Scan, token: Token)
    ensures
        scan_from(scan, seq![token]) == scan_step(scan, token),
{
    lemma_scan_push(scan, Seq::empty(), token);
    assert(Seq::<Token>::empty().push(token) =~= seq![token]);
}

proof fn lemma_scan_concat(scan: Scan, first: Seq<Token>, second: Seq<Token>)
    ensures
        scan_from(scan, first + second) == match scan_from(scan, first) {
            Ok(middle) => scan_from(middle, second),
            Err(fault) => Err(fault),
        },
    decreases second.len(),
{
    if second.len() == 0 {
        assert(first + second =~= first);
    } else {
        assert((first + second).drop_last() =~= first + second.drop_last());
        lemma_scan_concat(scan, first, second.drop_last());
    }
}

proof fn lemma_run_is_passed(scan: Scan, run: Seq<Token>)
    requires
        is_run(run),
        !(scan.place is Title),
        !(scan.place is Link),
    ensures
        scan_from(scan, run) == Ok::<Scan, Option<usize>>(scan),
    decreases run.len(),
{
    if run.len() > 0 {
        assert(is_run(run.drop_last()));
        lemma_run_is_passed(scan, run.drop_last());
        assert(run.last() == run[run.len() - 1]);
    }
}

proof fn lemma_run_is_collected(scan: Scan, run: Seq<Token>)
    requires
        is_run(run),
        scan.place is Title || scan.place is Link,
    ensures
        scan_from(scan, run) == Ok::<Scan, Option<usize>>(
            Scan { text: scan.text + run_text(run), ..scan },
        ),
    decreases run.len(),
{
    if run.len() == 0 {
        assert(scan.text + run_text(run) =~= scan.text);
    } else {
        assert(is_run(run.drop_last()));
        lemma_run_is_collected(scan, run.drop_last());
        assert(run.last() == run[run.len() - 1]);
        let before = run_text(run.drop_last());
        match run.last() {
            Token::Text(text) => {
                assert((scan.text + before) + text =~= scan.text + (before + text));
            },
            _ => {
                assert(before + Seq::<char>::empty() =~= before);
            },
        }
    }
}

/// The reader after the first `upto` pieces of a filler: where it was, or in
/// what it passes over.
proof fn lemma_filler_prefix(scan: Scan, filler: Seq<Token>, in_item: bool, upto: int)
    requires
        is_filler(filler, in_item),
        0 <= upto <= filler.len(),
        scan.place == (if in_item {
            Place::Item
        } else {
            Place::Root
        }),
    ensures
        scan_from(scan, filler.take(upto)) == Ok::<Scan, Option<usize>>(
            if depth_after(filler.take(upto)) == 0 {
                scan
            } else {
                moved(
                    scan,
                    Place::Skip { depth: depth_after(filler.take(upto)) as nat, in_item },
                )
            },
        ),
    decreases upto,
{
    if upto > 0 {
        lemma_filler_prefix(scan, filler, in_item, upto - 1);
        let part = filler.take(upto);
        assert(part.drop_last() =~= filler.take(upto - 1));
        assert(part.last() == filler[upto - 1]);
        assert(depth_after(filler.take(upto - 1)) >= 0);
        assert(depth_after(part) >= 0);
        if depth_after(filler.take(upto - 1)) == 0 {
            assert(!is_read(filler[upto - 1], in_item));
        }
    } else {
        assert(filler.take(0) =~= Seq::<Token>::empty());
    }
}

proof fn lemma_filler_is_passed(scan: Scan, filler: Seq<Token>, in_item: bool)
    requires
        is_filler(filler, in_item),
        scan.place == (if in_item {
            Place::Item
        } else {
            Place::Root
        }),
    ensures
        scan_from(scan, filler) == Ok::<Scan, Option<usize>>(scan),
{
    lemma_filler_prefix(scan, filler, in_item, filler.len() as int);
    assert(filler.take(filler.len() as int) =~= filler);
}

proof fn lemma_tags_differ()
    ensures
        ITEM_TAG@ != TITLE_TAG@,
        ITEM_TAG@ != LINK_TAG@,
        TITLE_TAG@ != LINK_TAG@,
{
    reveal_strlit("item");
    reveal_strlit("title");
    reveal_strlit("link");
    assert(ITEM_TAG@[0] == 'i');
    assert(TITLE_TAG@[0] == 't');
    assert(LINK_TAG@[0] == 'l');
}

proof fn lemma_field_is_read(scan: Scan, in_title: bool, run: Seq<Token>)
    requires
        is_run(run),
        scan.place is Item,
        in_title ==> scan.title is None,
        !in_title ==> scan.link is None,
    ensures
        scan_from(
            scan,
            field_tokens(
                if in_title {
                    TITLE_TAG@
                } else {
                    LINK_TAG@
                },
                run,
            ),
        ) == Ok::<Scan, Option<usize>>(
            if in_title {
                Scan { title: Some(trimmed(run_text(run))), text: Seq::empty(), ..scan }
            } else {
                Scan { link: Some(trimmed(run_text(run))), text: Seq::empty(), ..scan }
            },
        ),
{
    lemma_tags_differ();
    let name = if in_title {
        TITLE_TAG@
    } else {
        LINK_TAG@
    };
    let inside = Scan {
        place: if in_title {
            Place::Title
        } else {
            Place::Link
        },
        text: Seq::empty(),
        ..scan
    };
    lemma_scan_one(scan, Token::Open(name));
    lemma_run_is_collected(inside, run);
    lemma_scan_concat(scan, seq![Token::Open(name)], run);
    let full = Scan { text: run_text(run), ..inside };
    assert(Seq::<char>::empty() + run_text(run) =~= run_text(run));
    lemma_scan_one(full, Token::Close);
    lemma_scan_concat(scan, seq![Token::Open(name)] + run, seq![Token::Close]);
}

proof fn lemma_item_is_read(done: Seq<Entry>, shape: ItemShape)
    requires
        is_item_shape(shape),
    ensures
        scan_from(between_items(done), shape.lead + item_tokens(shape)) == Ok::<
            Scan,
            Option<usize>,
        >(between_items(done.push(entry_of(shape)))),
{
    reveal(item_tokens);
    let start = between_items(done);
    let opened = Scan { place: Place::Item, ..start };
    let entry = entry_of(shape);
    let one = if shape.link_first {
        Scan { link: Some(entry.link), ..opened }
    } else {
        Scan { title: Some(entry.title), ..opened }
    };
    let both = Scan { title: Some(entry.title), link: Some(entry.link), ..opened };
    let closed = between_items(done.push(entry));
    let a = seq![Token::Open(ITEM_TAG@)];
    let b = if shape.link_first {
        field_tokens(LINK_TAG@, shape.link)
    } else {
        field_tokens(TITLE_TAG@, shape.title)
    };
    let c = if shape.link_first {
        field_tokens(TITLE_TAG@, shape.title)
    } else {
        field_tokens(LINK_TAG@, shape.link)
    };
    let d = seq![Token::Close];

    lemma_filler_is_passed(start, shape.lead, false);
    lemma_scan_one(start, Token::Open(ITEM_TAG@));
    lemma_filler_is_passed(opened, shape.first, true);
    lemma_scan_concat(start, a, shape.first);
    if shape.link_first {
        lemma_field_is_read(opened, false, shape.link);
        lemma_field_is_read(one, true, shape.title);
    } else {
        lemma_field_is_read(opened, true, shape.title);
        lemma_field_is_read(one, false, shape.link);
    }
    lemma_scan_concat(start, a + shape.first, b);
    lemma_filler_is_passed(one, shape.middle, true);
    lemma_scan_concat(start, a + shape.first + b, shape.middle);
    lemma_scan_concat(start, a + shape.first + b + shape.middle, c);
    lemma_filler_is_passed(both, shape.last, true);
    lemma_scan_concat(start, a + shape.first + b + shape.middle + c, shape.last);
    lemma_scan_one(both, Token::Close);
    lemma_scan_concat(start, a + shape.first + b + shape.middle + c + shape.last, d);
    assert(a + shape.first + b + shape.middle + c + shape.last + d == item_tokens(shape));
    lemma_scan_concat(start, shape.lead, item_tokens(shape));
}

proof fn lemma_items_are_read(shapes: Seq<ItemShape>)
    requires
        forall|i: int| 0 <= i < shapes.len() ==> is_item_shape(#[trigger] shapes[i]),
    ensures
        scan_from(between_items(Seq::empty()), items_tokens(shapes)) == Ok::<
            Scan,
            Option<usize>,
        >(between_items(shapes.map_values(|shape: ItemShape| entry_of(shape)))),
    decreases shapes.len(),
{
    let start = between_items(Seq::empty());
    let entries = shapes.map_values(|shape: ItemShape| entry_of(shape));
    if shapes.len() == 0 {
        assert(entries =~= Seq::empty());
    } else {
        let front = shapes.drop_last();
        let last = shapes.last();
        let front_entries = front.map_values(|shape: ItemShape| entry_of(shape));
        assert forall|i: int| 0 <= i < front.len() implies is_item_shape(#[trigger] front[i]) by {
            assert(front[i] == shapes[i]);
        }
        lemma_items_are_read(front);
        assert(is_item_shape(last)) by {
            assert(last == shapes[shapes.len() - 1]);
        }
        lemma_item_is_read(front_entries, last);
        lemma_scan_concat(start, items_tokens(front), last.lead + item_tokens(last));
        assert(items_tokens(front) + (last.lead + item_tokens(last)) =~= items_tokens(shapes));
        assert(front_entries.push(entry_of(last)) =~= entries);
    }
}

/// Every well-formed catalog gives exactly the entries of its items, in
/// document order: for each item the text of its title and of its link,
/// without the white space around it. A catalog without items gives the
/// empty table.
pub proof fn well_formed_document_is_read(shape: DocumentShape)
    requires
        is_document_shape(shape),
    ensures
        catalog_of(document_tokens(shape)) == Ok::<Seq<Entry>, Option<usize>>(
            shape.items.map_values(|item: ItemShape| entry_of(item)),
        ),
{
    let entries = shape.items.map_values(|item: ItemShape| entry_of(item));
    let open = seq![Token::Open(shape.root)];
    let close = seq![Token::Close];
    let inside = between_items(Seq::empty());
    let at_end = between_items(entries);
    let behind = Scan { place: Place::Epilog, ..at_end };
    lemma_run_is_passed(scan_start(), shape.prolog);
    lemma_scan_one(scan_start(), Token::Open(shape.root));
    lemma_scan_concat(scan_start(), shape.prolog, open);
    lemma_items_are_read(shape.items);
    lemma_scan_concat(scan_start(), shape.prolog + open, items_tokens(shape.items));
    lemma_filler_is_passed(at_end, shape.tail, false);
    lemma_scan_concat(
        scan_start(),
        shape.prolog + open + items_tokens(shape.items),
        shape.tail,
    );
    lemma_scan_one(at_end, Token::Close);
    lemma_scan_concat(
        scan_start(),
        shape.prolog + open + items_tokens(shape.items) + shape.tail,
        close,
    );
    lemma_run_is_passed(behind, shape.epilog);
    lemma_scan_concat(
        scan_start(),
        shape.prolog + open + items_tokens(shape.items) + shape.tail + close,
        shape.epilog,
    );
}

} // verus!

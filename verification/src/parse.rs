//! The grammar of the catalog document, read off the pieces of its XML.
//!
//! The document is one root element of any name. Each child of the root that
//! is named `item` is an entry; it holds one child `title` and one child
//! `link`, each with nothing but text, which is taken without the white space
//! around it. Other elements are passed over with all they contain, and so is
//! text between elements.

use vstd::prelude::*;
use crate::error::{ErrorKind, Failure};
use crate::item::{Entry, TocItem};
use crate::text::{same_text, trim, trimmed};
use crate::xml::{token_views, Token, XmlToken};

verus! {

/// The name of the element that holds one entry.
pub const ITEM_TAG: &'static str = "item";

/// The name of the element that holds an entry's title.
pub const TITLE_TAG: &'static str = "title";

/// The name of the element that holds an entry's link.
pub const LINK_TAG: &'static str = "link";

/// Where in the document the reader stands.
pub enum Place {
    /// Before the root element.
    Prolog,
    /// In the root element, outside its children.
    Root,
    /// In an item, outside its children.
    Item,
    /// In the title of an item.
    Title,
    /// In the link of an item.
    Link,
    /// In an element that is passed over, `depth` elements deep in what is
    /// passed over; `in_item` says whether that lies in an item or in the root.
    Skip { depth: nat, in_item: bool },
    /// Behind the root element.
    Epilog,
}

/// What the reader knows after a part of the document.
pub struct Scan {
    /// Where it stands.
    pub place: Place,
    /// The entries that are complete, in document order.
    pub done: Seq<Entry>,
    /// The title of the item it stands in, once read.
    pub title: Option<Seq<char>>,
    /// The link of the item it stands in, once read.
    pub link: Option<Seq<char>>,
    /// The text of the title or link it stands in, as far as read.
    pub text: Seq<char>,
}

/// The reader before the first piece.
pub open spec fn scan_start() -> Scan {
    Scan { place: Place::Prolog, done: Seq::empty(), title: None, link: None, text: Seq::empty() }
}

/// The reader at another place, with all else as it was.
pub open spec fn moved(scan: Scan, place: Place) -> Scan {
    Scan { place, ..scan }
}

/// The failure of the item that the reader stands in.
pub open spec fn item_fault(scan: Scan) -> Option<usize> {
    Some(scan.done.len() as usize)
}

/// The reader after one more piece, or the index of the item that this piece
/// shows to be malformed (`None` where the fault lies in no item).
pub open spec fn scan_step(scan: Scan, token: Token) -> Result<Scan, Option<usize>> {
    match scan.place {
        Place::Prolog => match token {
            Token::Open(_) => Ok(moved(scan, Place::Root)),
            Token::Close => Err(None),
            _ => Ok(scan),
        },
        Place::Root => match token {
            Token::Open(name) => if name == ITEM_TAG@ {
                Ok(Scan { place: Place::Item, title: None, link: None, ..scan })
            } else {
                Ok(moved(scan, Place::Skip { depth: 1, in_item: false }))
            },
            Token::Close => Ok(moved(scan, Place::Epilog)),
            _ => Ok(scan),
        },
        Place::Item => match token {
            Token::Open(name) => if name == TITLE_TAG@ {
                if scan.title is Some {
                    Err(item_fault(scan))
                } else {
                    Ok(Scan { place: Place::Title, text: Seq::empty(), ..scan })
                }
            } else if name == LINK_TAG@ {
                if scan.link is Some {
                    Err(item_fault(scan))
                } else {
                    Ok(Scan { place: Place::Link, text: Seq::empty(), ..scan })
                }
            } else {
                Ok(moved(scan, Place::Skip { depth: 1, in_item: true }))
            },
            Token::Close => if scan.title is Some && scan.link is Some {
                Ok(
                    Scan {
                        place: Place::Root,
                        done: scan.done.push(
                            Entry { title: scan.title.unwrap(), link: scan.link.unwrap() },
                        ),
                        title: None,
                        link: None,
                        ..scan
                    },
                )
            } else {
                Err(item_fault(scan))
            },
            _ => Ok(scan),
        },
        Place::Title => match token {
            Token::Open(_) => Err(item_fault(scan)),
            Token::Close => Ok(
                Scan {
                    place: Place::Item,
                    title: Some(trimmed(scan.text)),
                    text: Seq::empty(),
                    ..scan
                },
            ),
            Token::Text(text) => Ok(Scan { text: scan.text + text, ..scan }),
            Token::Other => Ok(scan),
        },
        Place::Link => match token {
            Token::Open(_) => Err(item_fault(scan)),
            Token::Close => Ok(
                Scan {
                    place: Place::Item,
                    link: Some(trimmed(scan.text)),
                    text: Seq::empty(),
                    ..scan
                },
            ),
            Token::Text(text) => Ok(Scan { text: scan.text + text, ..scan }),
            Token::Other => Ok(scan),
        },
        Place::Skip { depth, in_item } => match token {
            Token::Open(_) => Ok(moved(scan, Place::Skip { depth: depth + 1, in_item })),
            Token::Close => if depth > 1 {
                Ok(moved(scan, Place::Skip { depth: (depth - 1) as nat, in_item }))
            } else if in_item {
                Ok(moved(scan, Place::Item))
            } else {
                Ok(moved(scan, Place::Root))
            },
            _ => Ok(scan),
        },
        Place::Epilog => match token {
            Token::Open(_) => Err(None),
            Token::Close => Err(None),
            _ => Ok(scan),
        },
    }
}

/// The reader that starts as `scan` and then reads all of `tokens`, or the
/// first fault.
pub open spec fn scan_from(scan: Scan, tokens: Seq<Token>) -> Result<Scan, Option<usize>>
    decreases tokens.len(),
{
    if tokens.len() == 0 {
        Ok(scan)
    } else {
        match scan_from(scan, tokens.drop_last()) {
            Ok(before) => scan_step(before, tokens.last()),
            Err(fault) => Err(fault),
        }
    }
}

/// The reader after all of `tokens`, or the first fault.
pub open spec fn scan_all(tokens: Seq<Token>) -> Result<Scan, Option<usize>> {
    scan_from(scan_start(), tokens)
}

/// The entries of the document that is made of `tokens`, in document order;
/// or the index of the first malformed item; or `Err(None)` where the
/// document has no root element or does not close it.
pub open spec fn catalog_of(tokens: Seq<Token>) -> Result<Seq<Entry>, Option<usize>> {
    match scan_all(tokens) {
        Ok(scan) => if scan.place is Epilog {
            Ok(scan.done)
        } else {
            Err(None)
        },
        Err(fault) => Err(fault),
    }
}

/// The entries that a vector of items stands for.
pub open spec fn entries_of(items: Seq<TocItem>) -> Seq<Entry> {
    items.map_values(|item: TocItem| item@)
}

/// Where the reader stands, as the program holds it.
enum Spot {
    Prolog,
    Root,
    Item,
    Title,
    Link,
    Skip { depth: usize, in_item: bool },
    Epilog,
}

impl View for Spot {
    type V = Place;

    closed spec fn view(&self) -> Place {
        match *self {
            Spot::Prolog => Place::Prolog,
            Spot::Root => Place::Root,
            Spot::Item => Place::Item,
            Spot::Title => Place::Title,
            Spot::Link => Place::Link,
            Spot::Skip { depth, in_item } => Place::Skip { depth: depth as nat, in_item },
            Spot::Epilog => Place::Epilog,
        }
    }
}

/// The reader, as the program holds it.
struct Scanner {
    spot: Spot,
    done: Vec<TocItem>,
    title: Option<String>,
    link: Option<String>,
    text: String,
}

/// The characters of a text that may be missing.
spec fn text_view(text: Option<String>) -> Option<Seq<char>> {
    match text {
        Some(text) => Some(text@),
        None => None,
    }
}

impl View for Scanner {
    type V = Scan;

    closed spec fn view(&self) -> Scan {
        Scan {
            place: self.spot@,
            done: entries_of(self.done@),
            title: text_view(self.title),
            link: text_view(self.link),
            text: self.text@,
        }
    }
}

impl Scanner {
    /// No count in the reader is above `seen`, the number of pieces read.
    spec fn within(&self, seen: nat) -> bool {
        &&& self.done@.len() <= seen
        &&& self.spot matches Spot::Skip { depth, .. } ==> depth <= seen
    }

    fn start() -> (scanner: Scanner)
        ensures
            scanner@ == scan_start(),
            scanner.within(0),
    {
        let scanner = Scanner {
            spot: Spot::Prolog,
            done: Vec::new(),
            title: None,
            link: None,
            text: String::new(),
        };
        assert(entries_of(scanner.done@) =~= Seq::empty());
        scanner
    }

    /// The failure of the item that the reader stands in.
    fn fault(&self) -> (e: ErrorKind)
        requires
            self.done@.len() <= usize::MAX,
        ensures
            e@ == Failure::MalformedCatalogError(item_fault(self@)),
    {
        ErrorKind::MalformedCatalogError(Some(self.done.len()))
    }

    /// Reads one more piece.
    fn feed(self, token: &XmlToken, Ghost(seen): Ghost<nat>) -> (r: Result<Scanner, ErrorKind>)
        requires
            self.within(seen),
            seen < usize::MAX,
        ensures
            match r {
                Ok(next) => scan_step(self@, token@) == Ok::<Scan, Option<usize>>(next@)
                    && next.within(seen + 1),
                Err(e) => scan_step(self@, token@) matches Err(fault) && e@
                    == Failure::MalformedCatalogError(fault),
            },
    {
        let Scanner { spot, mut done, title, link, mut text } = self;
        match spot {
            Spot::Prolog => match token {
                XmlToken::Open(_) => Ok(Scanner { spot: Spot::Root, done, title, link, text }),
                XmlToken::Close => Err(ErrorKind::MalformedCatalogError(None)),
                _ => Ok(Scanner { spot: Spot::Prolog, done, title, link, text }),
            },
            Spot::Root => match token {
                XmlToken::Open(name) => if same_text(name.as_str(), ITEM_TAG) {
                    Ok(Scanner { spot: Spot::Item, done, title: None, link: None, text })
                } else {
                    Ok(
                        Scanner {
                            spot: Spot::Skip { depth: 1, in_item: false },
                            done,
                            title,
                            link,
                            text,
                        },
                    )
                },
                XmlToken::Close => Ok(Scanner { spot: Spot::Epilog, done, title, link, text }),
                _ => Ok(Scanner { spot: Spot::Root, done, title, link, text }),
            },
            Spot::Item => match token {
                XmlToken::Open(name) => if same_text(name.as_str(), TITLE_TAG) {
                    if title.is_some() {
                        Err(ErrorKind::MalformedCatalogError(Some(done.len())))
                    } else {
                        Ok(Scanner { spot: Spot::Title, done, title, link, text: String::new() })
                    }
                } else if same_text(name.as_str(), LINK_TAG) {
                    if link.is_some() {
                        Err(ErrorKind::MalformedCatalogError(Some(done.len())))
                    } else {
                        Ok(Scanner { spot: Spot::Link, done, title, link, text: String::new() })
                    }
                } else {
                    Ok(
                        Scanner {
                            spot: Spot::Skip { depth: 1, in_item: true },
                            done,
                            title,
                            link,
                            text,
                        },
                    )
                },
                XmlToken::Close => match (title, link) {
                    (Some(title), Some(link)) => {
                        let ghost before = done@;
                        done.push(TocItem::new(title, link));
                        assert(entries_of(done@) =~= entries_of(before).push(
                            Entry { title: title@, link: link@ },
                        ));
                        Ok(Scanner { spot: Spot::Root, done, title: None, link: None, text })
                    },
                    _ => Err(ErrorKind::MalformedCatalogError(Some(done.len()))),
                },
                _ => Ok(Scanner { spot: Spot::Item, done, title, link, text }),
            },
            Spot::Title => match token {
                XmlToken::Open(_) => Err(ErrorKind::MalformedCatalogError(Some(done.len()))),
                XmlToken::Close => {
                    let title = trim(text.as_str()).to_owned();
                    Ok(
                        Scanner {
                            spot: Spot::Item,
                            done,
                            title: Some(title),
                            link,
                            text: String::new(),
                        },
                    )
                },
                XmlToken::Text(more) => {
                    text.append(more.as_str());
                    Ok(Scanner { spot: Spot::Title, done, title, link, text })
                },
                XmlToken::Other => Ok(Scanner { spot: Spot::Title, done, title, link, text }),
            },
            Spot::Link => match token {
                XmlToken::Open(_) => Err(ErrorKind::MalformedCatalogError(Some(done.len()))),
                XmlToken::Close => {
                    let link = trim(text.as_str()).to_owned();
                    Ok(
                        Scanner {
                            spot: Spot::Item,
                            done,
                            title,
                            link: Some(link),
                            text: String::new(),
                        },
                    )
                },
                XmlToken::Text(more) => {
                    text.append(more.as_str());
                    Ok(Scanner { spot: Spot::Link, done, title, link, text })
                },
                XmlToken::Other => Ok(Scanner { spot: Spot::Link, done, title, link, text }),
            },
            Spot::Skip { depth, in_item } => match token {
                XmlToken::Open(_) => Ok(
                    Scanner { spot: Spot::Skip { depth: depth + 1, in_item }, done, title, link, text },
                ),
                XmlToken::Close => if depth > 1 {
                    Ok(
                        Scanner {
                            spot: Spot::Skip { depth: depth - 1, in_item },
                            done,
                            title,
                            link,
                            text,
                        },
                    )
                } else if in_item {
                    Ok(Scanner { spot: Spot::Item, done, title, link, text })
                } else {
                    Ok(Scanner { spot: Spot::Root, done, title, link, text })
                },
                _ => Ok(Scanner { spot: Spot::Skip { depth, in_item }, done, title, link, text }),
            },
            Spot::Epilog => match token {
                XmlToken::Open(_) => Err(ErrorKind::MalformedCatalogError(None)),
                XmlToken::Close => Err(ErrorKind::MalformedCatalogError(None)),
                _ => Ok(Scanner { spot: Spot::Epilog, done, title, link, text }),
            },
        }
    }
}

/// Reads the entries off the pieces of a catalog document.
///
/// Gives the entries in document order; `MalformedCatalogError` with the index
/// of the first item that lacks its title or link, has one of them twice, or
/// has an element inside one of them; and `MalformedCatalogError(None)` where
/// the pieces hold no root element or do not close it.
pub fn items_of_tokens(tokens: &Vec<XmlToken>) -> (r: Result<Vec<TocItem>, ErrorKind>)
    ensures
        match r {
            Ok(items) => catalog_of(token_views(tokens@)) == Ok::<Seq<Entry>, Option<usize>>(
                entries_of(items@),
            ),
            Err(e) => catalog_of(token_views(tokens@)) matches Err(fault) && e@
                == Failure::MalformedCatalogError(fault),
        },
{
    let ghost all = token_views(tokens@);
    let mut scanner = Scanner::start();
    let mut i: usize = 0;
    assert(all.take(0) =~= Seq::<Token>::empty());
    while i < tokens.len()
        invariant
            i <= tokens.len(),
            all == token_views(tokens@),
            scanner.within(i as nat),
            scan_all(all.take(i as int)) == Ok::<Scan, Option<usize>>(scanner@),
        decreases tokens.len() - i,
    {
        proof {
            assert(all.take(i + 1).drop_last() =~= all.take(i as int));
            assert(all.take(i + 1).last() == tokens@[i as int]@);
            lemma_fault_stays(all.take(i + 1), all);
        }
        match scanner.feed(&tokens[i], Ghost(i as nat)) {
            Ok(next) => {
                scanner = next;
            },
            Err(e) => {
                return Err(e);
            },
        }
        i += 1;
    }
    assert(all.take(i as int) =~= all);
    match scanner.spot {
        Spot::Epilog => Ok(scanner.done),
        _ => Err(ErrorKind::MalformedCatalogError(None)),
    }
}

/// A fault after a part of the pieces is the fault after all of them.
pub proof fn lemma_fault_stays(part: Seq<Token>, all: Seq<Token>)
    requires
        part.is_prefix_of(all),
    ensures
        scan_all(part) is Err ==> scan_all(all) == scan_all(part),
    decreases all.len() - part.len(),
{
    if part.len() < all.len() {
        let longer = all.take(part.len() as int + 1);
        assert(longer.drop_last() =~= part);
        lemma_fault_stays(longer, all);
    } else {
        assert(part =~= all);
    }
}

} // verus!

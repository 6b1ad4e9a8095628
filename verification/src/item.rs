//! One entry of the table of contents, and the short identifier that its
//! link carries.

use vstd::prelude::*;
use crate::text::{chars_of, occurs_between, stands_at};

verus! {

/// Every link of the catalog that carries a short identifier starts so.
pub const LINK_PREFIX: &'static str = "http://www.gesetze-im-internet.de/";

/// Every link of the catalog that carries a short identifier ends so.
pub const LINK_SUFFIX: &'static str = "/xml.zip";

/// What an entry of the catalog holds, as plain sequences of characters.
pub struct Entry {
    pub title: Seq<char>,
    pub link: Seq<char>,
}

/// Entry in the table of contents of current laws.
#[derive(Debug, Clone)]
pub struct TocItem {
    /// The title of the law.
    pub title: String,
    /// Link to the archive with the text of the law.
    pub link: String,
}

impl View for TocItem {
    type V = Entry;

    open spec fn view(&self) -> Entry {
        Entry { title: self.title@, link: self.link@ }
    }
}

/// Whether `id` can be a short identifier: one segment of a path, so it is
/// not empty and holds no slash; it holds no line feed either.
pub open spec fn is_short_id(id: Seq<char>) -> bool {
    id.len() > 0 && !id.contains('/') && !id.contains('\n')
}

/// The short identifier of a link: what stands between `LINK_PREFIX` and
/// `LINK_SUFFIX`, where the link is made of exactly these three parts. The
/// whole link is matched, with upper and lower case told apart.
pub open spec fn short_id(link: Seq<char>) -> Option<Seq<char>> {
    let start = LINK_PREFIX@.len() as int;
    let end = link.len() - LINK_SUFFIX@.len();
    if start < end && link.subrange(0, start) == LINK_PREFIX@ && link.subrange(
        end,
        link.len() as int,
    ) == LINK_SUFFIX@ && is_short_id(link.subrange(start, end)) {
        Some(link.subrange(start, end))
    } else {
        None
    }
}

/// A link has the short identifier `id` exactly if it is the prefix, then
/// `id`, then the suffix, and `id` can be an identifier. So a link that only
/// contains such a text, with anything before or after it, has none.
pub proof fn short_id_is_anchored(link: Seq<char>, id: Seq<char>)
    ensures
        short_id(link) == Some(id) <==> is_short_id(id) && link == LINK_PREFIX@ + id
            + LINK_SUFFIX@,
{
    let start = LINK_PREFIX@.len() as int;
    let end = link.len() - LINK_SUFFIX@.len();
    if short_id(link) == Some(id) {
        assert(link =~= link.subrange(0, start) + link.subrange(start, end) + link.subrange(
            end,
            link.len() as int,
        ));
    }
    if is_short_id(id) && link == LINK_PREFIX@ + id + LINK_SUFFIX@ {
        assert(link.subrange(0, start) =~= LINK_PREFIX@);
        assert(link.subrange(start, end) =~= id);
        assert(link.subrange(end, link.len() as int) =~= LINK_SUFFIX@);
    }
}

/// Each link has at most one short identifier, and building a link from an
/// identifier and reading it back gives the identifier.
pub proof fn short_id_of_built_link(id: Seq<char>)
    requires
        is_short_id(id),
    ensures
        short_id(LINK_PREFIX@ + id + LINK_SUFFIX@) == Some(id),
{
    short_id_is_anchored(LINK_PREFIX@ + id + LINK_SUFFIX@, id);
}

impl TocItem {
    /// Creates an entry with the given title and link.
    pub fn new(title: String, link: String) -> (item: TocItem)
        ensures
            item.title == title,
            item.link == link,
            item@ == (Entry { title: title@, link: link@ }),
    {
        TocItem { title, link }
    }

    /// The short identifier of this entry, taken from its link; `None` where
    /// the link has not the shape of a catalog link.
    pub fn short(&self) -> (id: Option<&str>)
        ensures
            match id {
                Some(text) => short_id(self.link@) == Some(text@),
                None => short_id(self.link@) is None,
            },
    {
        let link = self.link.as_str();
        let chars = chars_of(link);
        let prefix = chars_of(LINK_PREFIX);
        let suffix = chars_of(LINK_SUFFIX);
        if chars.len() < prefix.len() || chars.len() - prefix.len() <= suffix.len() {
            return None;
        }
        let end = chars.len() - suffix.len();
        if !stands_at(&chars, 0, &prefix) || !stands_at(&chars, end, &suffix) {
            return None;
        }
        if occurs_between(&chars, prefix.len(), end, '/') || occurs_between(
            &chars,
            prefix.len(),
            end,
            '\n',
        ) {
            return None;
        }
        Some(link.substring_char(prefix.len(), end))
    }
}

impl PartialEq for TocItem {
    /// Two entries are equal where their titles and their links are.
    fn eq(&self, other: &Self) -> (r: bool) {
        self.title == other.title && self.link == other.link
    }
}

impl vstd::std_specs::cmp::PartialEqSpecImpl for TocItem {
    open spec fn obeys_eq_spec() -> bool {
        true
    }

    open spec fn eq_spec(&self, other: &Self) -> bool {
        self@ == other@
    }
}

} // verus!

//! The entries whose titles match a regular expression.

use regex::Regex;
use vstd::prelude::*;
use crate::item::Entry;
use crate::toc::Toc;

verus! {

/// `regex::Error`: why a pattern was refused. Nothing is read off it.
#[verifier::external_type_specification]
#[verifier::external_body]
pub struct ExRegexError(regex::Error);

/// Whether `pattern`, read as a regular expression by the crate `regex`,
/// matches anywhere in `text`; `None` where the crate refuses `pattern`.
pub uninterp spec fn regex_match(pattern: Seq<char>, text: Seq<char>) -> Option<bool>;

/// `regex::Regex::new` on `pattern`, then `Regex::is_match` on `text`. The
/// result depends on `pattern` and `text` alone.
#[verifier::external_body]
fn is_match(pattern: &str, text: &str) -> (r: Result<bool, regex::Error>)
    ensures
        match r {
            Ok(found) => regex_match(pattern@, text@) == Some(found),
            Err(_) => regex_match(pattern@, text@) is None,
        },
{
    Regex::new(pattern).map(|expression| expression.is_match(text))
}

/// Whether a search for `pattern` keeps an entry: its title matches, or the
/// pattern is refused, in which case every entry is kept.
pub open spec fn is_kept(pattern: Seq<char>, entry: Entry) -> bool {
    regex_match(pattern, entry.title) != Some(false)
}

impl Toc {
    /// The indices of the entries that a search for `pattern` keeps, in
    /// rising order.
    pub fn titles_matching(&self, pattern: &str) -> (found: Vec<usize>)
        ensures
            forall|k: int|
                0 <= k < found@.len() ==> (#[trigger] found@[k]) < self@.len() && is_kept(
                    pattern@,
                    self@[found@[k] as int],
                ),
            forall|j: int, k: int| 0 <= j < k < found@.len() ==> found@[j] < found@[k],
            forall|i: int|
                0 <= i < self@.len() && is_kept(pattern@, #[trigger] self@[i]) ==> found@.contains(
                    i as usize,
                ),
    {
        let mut found: Vec<usize> = Vec::new();
        let mut index: usize = 0;
        while index < self.items.len()
            invariant
                index <= self.items.len(),
                forall|k: int|
                    0 <= k < found@.len() ==> (#[trigger] found@[k]) < index && is_kept(
                        pattern@,
                        self@[found@[k] as int],
                    ),
                forall|j: int, k: int| 0 <= j < k < found@.len() ==> found@[j] < found@[k],
                forall|i: int|
                    0 <= i < index && is_kept(pattern@, #[trigger] self@[i]) ==> found@.contains(
                        i as usize,
                    ),
            decreases self.items.len() - index,
        {
            let keep = match is_match(pattern, self.items[index].title.as_str()) {
                Ok(matched) => matched,
                Err(_) => true,
            };
            if keep {
                let ghost before = found@;
                found.push(index);
                proof {
                    assert(found@[before.len() as int] == index);
                    assert forall|i: int|
                        0 <= i < index + 1 && is_kept(
                            pattern@,
                            #[trigger] self@[i],
                        ) implies found@.contains(i as usize) by {
                        if i < index {
                            let k = choose|k: int| 0 <= k < before.len() && before[k] == i as usize;
                            assert(found@[k] == i as usize);
                        }
                    }
                }
            }
            index += 1;
        }
        found
    }
}

} // verus!

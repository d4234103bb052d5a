use vstd::assert_by_contradiction;
use vstd::prelude::*;
use vstd::string::{StrSliceExecFns, StringExecFns};

verus! {

// ---------------------------------------------------------------------------
// Project discovery: synthesize a missing trailing argument from marker
// files found in the working directory (or in a conventional `src`
// subdirectory). The filesystem scan itself happens outside the library;
// what arrives here is the plain list of entry names.
// ---------------------------------------------------------------------------

/// `s` ends with `suffix`.
pub open spec fn ends_with(s: Seq<char>, suffix: Seq<char>) -> bool {
    &&& suffix.len() <= s.len()
    &&& s.skip(s.len() - suffix.len()) == suffix
}

/// Character-exact suffix test on string slices.
pub fn str_ends_with(s: &str, suffix: &str) -> (r: bool)
    ensures
        r == ends_with(s@, suffix@),
{
    let n: usize = s.unicode_len();
    let m: usize = suffix.unicode_len();
    if m > n {
        return false;
    }
    let mut i: usize = 0;
    while i < m
        invariant
            m <= n,
            i <= m,
            n == s@.len(),
            m == suffix@.len(),
            forall|j: int| 0 <= j < i ==> s@[n - m + j] == suffix@[j],
        decreases m - i,
    {
        let c1 = s.get_char(n - m + i);
        let c2 = suffix.get_char(i);
        if c1 != c2 {
            proof {
                let sk = s@.skip(n - m);
                assert(sk[i as int] == s@[n - m + i]);
                assert_by_contradiction!(sk != suffix@, {
                    assert(sk[i as int] == suffix@[i as int]);
                });
            }
            return false;
        }
        i += 1;
    }
    proof {
        assert(s@.skip(n - m) =~= suffix@);
    }
    true
}

/// The first entry of the list that carries the given suffix, if any.
/// "First" is first in the order the entries were handed over: the
/// scan order of the directory, which is not necessarily sorted.
pub open spec fn first_with_suffix(entries: Seq<Seq<char>>, suffix: Seq<char>) -> Option<Seq<char>>
    decreases entries.len(),
{
    if entries.len() == 0 {
        None
    } else if ends_with(entries[0], suffix) {
        Some(entries[0])
    } else {
        first_with_suffix(entries.skip(1), suffix)
    }
}

/// Entries before position `i` that carry no match do not change the
/// outcome of the scan: it equals the scan of the remaining entries.
pub proof fn lemma_first_with_suffix_skip(entries: Seq<Seq<char>>, suffix: Seq<char>, i: int)
    requires
        0 <= i <= entries.len(),
        forall|j: int| 0 <= j < i ==> !ends_with(entries[j], suffix),
    ensures
        first_with_suffix(entries, suffix) == first_with_suffix(entries.skip(i), suffix),
    decreases i,
{
    if i > 0 {
        assert(!ends_with(entries[0], suffix));
        assert forall|j: int| 0 <= j < i - 1 implies !ends_with(entries.skip(1)[j], suffix) by {
            assert(entries.skip(1)[j] == entries[j + 1]);
        }
        lemma_first_with_suffix_skip(entries.skip(1), suffix, i - 1);
        assert(entries.skip(1).skip(i - 1) =~= entries.skip(i));
    } else {
        assert(entries.skip(0) =~= entries);
    }
}

/// A list with no matching entry yields no candidate.
pub proof fn lemma_no_suffix_match(entries: Seq<Seq<char>>, suffix: Seq<char>)
    requires
        forall|j: int| 0 <= j < entries.len() ==> !ends_with(entries[j], suffix),
    ensures
        first_with_suffix(entries, suffix) is None,
{
    lemma_first_with_suffix_skip(entries, suffix, entries.len() as int);
}

/// What the scan hands back always carries the suffix it looked for.
pub proof fn lemma_first_with_suffix_matches(entries: Seq<Seq<char>>, suffix: Seq<char>)
    ensures
        first_with_suffix(entries, suffix) matches Some(s) ==> ends_with(s, suffix),
    decreases entries.len(),
{
    if entries.len() > 0 && !ends_with(entries[0], suffix) {
        lemma_first_with_suffix_matches(entries.skip(1), suffix);
    }
}

/// Walks the entries in order and clones the first one that carries
/// the suffix.
pub fn find_first_with_suffix(entries: &Vec<String>, suffix: &str) -> (r: Option<String>)
    ensures
        r is Some <==> first_with_suffix(entries.deep_view(), suffix@) is Some,
        r matches Some(s) ==> Some(s@) == first_with_suffix(entries.deep_view(), suffix@),
{
    let ghost all = entries.deep_view();
    let mut i: usize = 0;
    while i < entries.len()
        invariant
            i <= entries.len(),
            all == entries.deep_view(),
            forall|j: int| 0 <= j < i ==> !ends_with(all[j], suffix@),
        decreases entries.len() - i,
    {
        let e: &String = &entries[i];
        if str_ends_with(e.as_str(), suffix) {
            proof {
                lemma_first_with_suffix_skip(all, suffix@, i as int);
                assert(all.skip(i as int)[0] == all[i as int]);
            }
            return Some(e.clone());
        }
        i += 1;
    }
    proof {
        lemma_no_suffix_match(all, suffix@);
    }
    None
}

/// The discovery policies the launcher knows. Each one says which
/// marker files complete which kind of command spec.
#[derive(Clone, Copy, PartialEq, Eq, Debug, Structural)]
pub enum DiscoveryRule {
    /// A project-descriptor file (`.opam`) in the working directory;
    /// the completed argument is its name without the extension.
    OcamlProject,
    /// A source file (`.rkt`) in the working directory, or failing
    /// that in the `src` subdirectory; the completed argument is its
    /// path.
    RacketSource,
}

/// The names found in the working directory and in its `src`
/// subdirectory (empty when that subdirectory does not exist).
pub struct DirListing {
    pub entries: Vec<String>,
    pub src_entries: Vec<String>,
}

/// Mathematical image of `DirListing`.
pub ghost struct ListingModel {
    pub entries: Seq<Seq<char>>,
    pub src_entries: Seq<Seq<char>>,
}

impl View for DirListing {
    type V = ListingModel;

    open spec fn view(&self) -> ListingModel {
        ListingModel {
            entries: self.entries.deep_view(),
            src_entries: self.src_entries.deep_view(),
        }
    }
}

/// The argument one discovery rule synthesizes from a listing, if any.
pub open spec fn discovered_model(rule: DiscoveryRule, listing: ListingModel) -> Option<Seq<char>> {
    match rule {
        DiscoveryRule::OcamlProject => match first_with_suffix(listing.entries, ".opam"@) {
            Some(name) => Some(name.take(name.len() - ".opam"@.len())),
            None => None,
        },
        DiscoveryRule::RacketSource => match first_with_suffix(listing.entries, ".rkt"@) {
            Some(name) => Some(name),
            None => match first_with_suffix(listing.src_entries, ".rkt"@) {
                Some(name) => Some("src/"@ + name),
                None => None,
            },
        },
    }
}

/// Runs one discovery rule over a listing.
pub fn discover(rule: DiscoveryRule, listing: &DirListing) -> (r: Option<String>)
    ensures
        r is Some <==> discovered_model(rule, listing@) is Some,
        r matches Some(s) ==> Some(s@) == discovered_model(rule, listing@),
{
    match rule {
        DiscoveryRule::OcamlProject => match find_first_with_suffix(&listing.entries, ".opam") {
            Some(name) => {
                proof {
                    lemma_first_with_suffix_matches(listing@.entries, ".opam"@);
                }
                let n: usize = name.as_str().unicode_len();
                let m: usize = ".opam".unicode_len();
                let stem = String::from_str(name.as_str().substring_char(0, n - m));
                Some(stem)
            },
            None => None,
        },
        DiscoveryRule::RacketSource => match find_first_with_suffix(&listing.entries, ".rkt") {
            Some(name) => Some(name),
            None => match find_first_with_suffix(&listing.src_entries, ".rkt") {
                Some(name) => Some(String::from_str("src/").concat(name.as_str())),
                None => None,
            },
        },
    }
}

} // verus!

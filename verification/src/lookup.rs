//! The upward search for the directory that holds a `Gemfile`.
//!
//! The search starts in one directory and climbs from parent to parent. It
//! ends at the first directory that cannot be read, at the first that holds a
//! `Gemfile`, or at the directory without a parent. Listing a directory and
//! finding its parent are the caller's part; [`lookup_step`] decides after
//! each listing how the search goes on.
use crate::errors::BWErrors;
use vstd::prelude::*;

verus! {

/// The file whose presence marks a directory as the home of a bundle.
pub const GEMFILE: &'static str = "Gemfile";

/// The characters of [`GEMFILE`].
pub open spec fn gemfile_name() -> Seq<char> {
    seq!['G', 'e', 'm', 'f', 'i', 'l', 'e']
}

/// What an attempt to list a directory gave.
#[derive(Debug, PartialEq, Eq)]
pub enum DirListing {
    /// The directory could not be read, or is not there.
    Unreadable,
    /// The names of the directory's entries.
    Entries(Vec<String>),
}

impl View for DirListing {
    type V = Option<Seq<Seq<char>>>;

    open spec fn view(&self) -> Option<Seq<Seq<char>>> {
        match self {
            DirListing::Unreadable => None,
            DirListing::Entries(names) => Some(names.deep_view()),
        }
    }
}

/// How the search goes on after one directory was listed.
#[derive(Debug, Clone, Copy, PartialEq, Eq, Structural)]
pub enum LookupStep {
    /// The directory holds a `Gemfile`: it is the result.
    Found,
    /// The directory holds none: its parent is listed next.
    Ascend,
    /// The search is over without a result.
    Failed(BWErrors),
}

/// Whether one of `names` is exactly `Gemfile`.
pub open spec fn holds_gemfile(names: Seq<Seq<char>>) -> bool {
    exists|i: int| 0 <= i < names.len() && names[i] == gemfile_name()
}

/// The step that follows a listing, `has_parent` telling whether the listed
/// directory has a parent.
pub open spec fn step_after(listing: Option<Seq<Seq<char>>>, has_parent: bool) -> LookupStep {
    match listing {
        None => LookupStep::Failed(BWErrors::FsNotFound),
        Some(names) => if holds_gemfile(names) {
            LookupStep::Found
        } else if has_parent {
            LookupStep::Ascend
        } else {
            LookupStep::Failed(BWErrors::FsRoot)
        },
    }
}

/// The result of the search over `chain` from position `depth` on.
///
/// `chain[0]` is the listing of the directory the search starts in, each
/// further element that of the parent of the one before, and the last that of
/// the directory without a parent. `Ok(k)` names the directory `k` levels
/// above the start.
pub open spec fn search_from(chain: Seq<Option<Seq<Seq<char>>>>, depth: int) -> Result<
    int,
    BWErrors,
>
    decreases chain.len() - depth,
{
    if depth < 0 || depth >= chain.len() {
        Err(BWErrors::FsRoot)
    } else {
        match step_after(chain[depth], depth + 1 < chain.len()) {
            LookupStep::Found => Ok(depth),
            LookupStep::Ascend => search_from(chain, depth + 1),
            LookupStep::Failed(e) => Err(e),
        }
    }
}

/// The result of the search over the whole of `chain`.
pub open spec fn search(chain: Seq<Option<Seq<Seq<char>>>>) -> Result<int, BWErrors> {
    search_from(chain, 0)
}

/// Whether the directories of `chain` below position `depth` can all be read
/// and hold no `Gemfile`.
pub open spec fn passed_over(chain: Seq<Option<Seq<Seq<char>>>>, depth: int) -> bool {
    forall|j: int|
        0 <= j < depth ==> (#[trigger] chain[j]) is Some && !holds_gemfile(chain[j]->Some_0)
}

/// Whether one of `names` is exactly `Gemfile`.
pub fn has_gemfile(names: &Vec<String>) -> (found: bool)
    ensures
        found == holds_gemfile(names.deep_view()),
{
    proof {
        reveal_strlit("Gemfile");
        assert(GEMFILE@ =~= gemfile_name());
    }
    let gemfile = GEMFILE.to_owned();
    let mut i: usize = 0;
    while i < names.len()
        invariant
            i <= names.len(),
            gemfile@ == gemfile_name(),
            forall|k: int| 0 <= k < i ==> names@[k]@ != gemfile_name(),
        decreases names.len() - i,
    {
        if names[i] == gemfile {
            assert(names.deep_view()[i as int] == gemfile_name());
            return true;
        }
        i += 1;
    }
    false
}

/// Decides how the search goes on after a directory was listed.
/// `has_parent` tells whether that directory has a parent.
pub fn lookup_step(listing: &DirListing, has_parent: bool) -> (step: LookupStep)
    ensures
        step == step_after(listing@, has_parent),
{
    match listing {
        DirListing::Unreadable => LookupStep::Failed(BWErrors::FsNotFound),
        DirListing::Entries(names) => {
            if has_gemfile(names) {
                LookupStep::Found
            } else if has_parent {
                LookupStep::Ascend
            } else {
                LookupStep::Failed(BWErrors::FsRoot)
            }
        },
    }
}

/// The views of `listings`, one for one.
pub open spec fn chain_of(listings: Seq<DirListing>) -> Seq<Option<Seq<Seq<char>>>> {
    Seq::new(listings.len(), |i: int| listings[i]@)
}

/// Runs the search over listings that were gathered beforehand: `ancestors[0]`
/// is the listing of the start directory, each further one that of the parent
/// of the one before, the last that of the directory without a parent.
/// `Ok(k)` names the directory `k` levels above the start.
pub fn lookup_gemfile_in_ancestors(ancestors: &Vec<DirListing>) -> (found: Result<usize, BWErrors>)
    ensures
        match found {
            Ok(k) => search(chain_of(ancestors@)) == Ok::<int, BWErrors>(k as int),
            Err(e) => search(chain_of(ancestors@)) == Err::<int, BWErrors>(e),
        },
{
    let ghost chain = chain_of(ancestors@);
    let mut depth: usize = 0;
    while depth < ancestors.len()
        invariant
            depth <= ancestors.len(),
            chain == chain_of(ancestors@),
            search(chain) == search_from(chain, depth as int),
        decreases ancestors.len() - depth,
    {
        let has_parent = depth + 1 < ancestors.len();
        match lookup_step(&ancestors[depth], has_parent) {
            LookupStep::Found => {
                return Ok(depth);
            },
            LookupStep::Failed(e) => {
                return Err(e);
            },
            LookupStep::Ascend => {
                depth += 1;
            },
        }
    }
    Err(BWErrors::FsRoot)
}

/// A `Gemfile` in the start directory makes that directory the result,
/// whatever lies above it.
pub proof fn lemma_gemfile_in_start_directory(chain: Seq<Option<Seq<Seq<char>>>>)
    requires
        chain.len() > 0,
        chain[0] is Some,
        holds_gemfile(chain[0]->Some_0),
    ensures
        search(chain) == Ok::<int, BWErrors>(0),
{
}

/// The search stops at the nearest directory that holds a `Gemfile`: where the
/// directories below level `k` can be read and hold none, and the one at level
/// `k` holds one, the result is level `k`, whether or not a directory further
/// up holds one too.
pub proof fn lemma_nearest_gemfile_wins(chain: Seq<Option<Seq<Seq<char>>>>, k: int)
    requires
        0 <= k < chain.len(),
        passed_over(chain, k),
        chain[k] is Some,
        holds_gemfile(chain[k]->Some_0),
    ensures
        search(chain) == Ok::<int, BWErrors>(k),
{
    lemma_search_skips(chain, k, 0);
}

/// A result `Ok(k)` names a directory that holds a `Gemfile`, above
/// directories that can all be read and hold none.
pub proof fn lemma_found_is_nearest(chain: Seq<Option<Seq<Seq<char>>>>, k: int)
    requires
        search(chain) == Ok::<int, BWErrors>(k),
    ensures
        0 <= k < chain.len(),
        chain[k] is Some,
        holds_gemfile(chain[k]->Some_0),
        passed_over(chain, k),
{
    lemma_search_result(chain, 0);
}

/// From the directory without a parent, read and found without a `Gemfile`,
/// the search fails with `FsRoot`.
pub proof fn lemma_root_without_gemfile(chain: Seq<Option<Seq<Seq<char>>>>)
    requires
        chain.len() == 1,
        chain[0] is Some,
        !holds_gemfile(chain[0]->Some_0),
    ensures
        search(chain) == Err::<int, BWErrors>(BWErrors::FsRoot),
{
    assert(search_from(chain, 1) == Err::<int, BWErrors>(BWErrors::FsRoot));
}

/// The search fails with `FsRoot` exactly where every directory of the chain
/// can be read and none holds a `Gemfile`.
pub proof fn lemma_root_reached(chain: Seq<Option<Seq<Seq<char>>>>)
    ensures
        search(chain) == Err::<int, BWErrors>(BWErrors::FsRoot) <==> passed_over(
            chain,
            chain.len() as int,
        ),
{
    lemma_search_result(chain, 0);
    if passed_over(chain, chain.len() as int) {
        lemma_search_skips(chain, chain.len() as int, 0);
    }
}

/// From a start directory that cannot be read the search fails with
/// `FsNotFound`.
pub proof fn lemma_unreadable_start(chain: Seq<Option<Seq<Seq<char>>>>)
    requires
        chain.len() > 0,
        chain[0] is None,
    ensures
        search(chain) == Err::<int, BWErrors>(BWErrors::FsNotFound),
{
}

/// The search fails with `FsNotFound` exactly where a directory that cannot be
/// read comes before any that holds a `Gemfile`.
pub proof fn lemma_unreadable_ancestor(chain: Seq<Option<Seq<Seq<char>>>>)
    ensures
        search(chain) == Err::<int, BWErrors>(BWErrors::FsNotFound) <==> exists|k: int|
            0 <= k < chain.len() && passed_over(chain, k) && (#[trigger] chain[k]) is None,
{
    lemma_search_result(chain, 0);
    if exists|k: int| 0 <= k < chain.len() && passed_over(chain, k) && (#[trigger] chain[k]) is None {
        let k = choose|k: int|
            0 <= k < chain.len() && passed_over(chain, k) && (#[trigger] chain[k]) is None;
        lemma_search_skips(chain, k, 0);
    }
}

/// Directories that can be read and hold no `Gemfile` are passed over: the
/// search from `depth` equals the search from any level up to which only such
/// directories lie.
proof fn lemma_search_skips(chain: Seq<Option<Seq<Seq<char>>>>, upto: int, depth: int)
    requires
        0 <= depth <= upto <= chain.len(),
        passed_over(chain, upto),
    ensures
        search_from(chain, depth) == search_from(chain, upto),
    decreases upto - depth,
{
    if depth < upto {
        assert(chain[depth] is Some);
        lemma_search_skips(chain, upto, depth + 1);
    }
}

/// What each result of the search from `depth` says of the chain, given that
/// the directories below `depth` were passed over.
proof fn lemma_search_result(chain: Seq<Option<Seq<Seq<char>>>>, depth: int)
    requires
        0 <= depth,
        passed_over(chain, depth),
    ensures
        match search_from(chain, depth) {
            Ok(k) => depth <= k < chain.len() && chain[k] is Some && holds_gemfile(
                chain[k]->Some_0,
            ) && passed_over(chain, k),
            Err(BWErrors::FsNotFound) => exists|k: int|
                0 <= k < chain.len() && passed_over(chain, k) && (#[trigger] chain[k]) is None,
            Err(BWErrors::FsRoot) => passed_over(chain, chain.len() as int),
        },
    decreases chain.len() - depth,
{
    if depth < chain.len() {
        match step_after(chain[depth], depth + 1 < chain.len()) {
            LookupStep::Ascend => {
                lemma_search_result(chain, depth + 1);
            },
            LookupStep::Found => {},
            LookupStep::Failed(e) => {},
        }
    }
}

} // verus!

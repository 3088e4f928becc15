//! The branch-commit index: for each branch name, the latest commit hash that
//! is known for it. Entries are added or overwritten, never removed.

use vstd::hash_map::StringHashMap;
use vstd::prelude::*;

verus! {

/// Latest known commit per branch.
pub struct BranchCommitIndex {
    entries: StringHashMap<String>,
}

impl View for BranchCommitIndex {
    type V = Map<Seq<char>, Seq<char>>;

    closed spec fn view(&self) -> Map<Seq<char>, Seq<char>> {
        self.entries@.map_values(|commit: String| commit@)
    }
}

impl BranchCommitIndex {
    /// An index that knows no branch.
    pub fn new() -> (index: BranchCommitIndex)
        ensures
            index@ == Map::<Seq<char>, Seq<char>>::empty(),
    {
        let index = BranchCommitIndex { entries: StringHashMap::new() };
        proof {
            assert(index@ =~= Map::<Seq<char>, Seq<char>>::empty());
        }
        index
    }

    /// Records `commit` as the latest commit of `branch`, in place of whatever
    /// was known for that branch. Every other entry stays as it is.
    pub fn record(&mut self, branch: String, commit: String)
        ensures
            final(self)@ == old(self)@.insert(branch@, commit@),
    {
        self.entries.insert(branch, commit);
        proof {
            assert(self@ =~= old(self)@.insert(branch@, commit@));
        }
    }

    /// The latest known commit of `branch`, if the branch is known.
    pub fn latest(&self, branch: &str) -> (found: Option<&String>)
        ensures
            found is Some <==> self@.contains_key(branch@),
            found matches Some(commit) ==> commit@ == self@[branch@],
    {
        self.entries.get(branch)
    }

    /// How many branches are known.
    pub fn len(&self) -> (n: usize)
        ensures
            n == self@.len(),
    {
        broadcast use vstd::hash_map::group_hash_map_axioms;

        proof {
            assert(self@.dom() =~= self.entries@.dom());
        }
        self.entries.len()
    }
}

/// Recording the same commit for the same branch a second time changes
/// nothing.
pub proof fn lemma_record_twice(index: Map<Seq<char>, Seq<char>>, branch: Seq<char>, commit: Seq<char>)
    ensures
        index.insert(branch, commit).insert(branch, commit) == index.insert(branch, commit),
{
    assert(index.insert(branch, commit).insert(branch, commit) =~= index.insert(branch, commit));
}

/// Recording never forgets a branch.
pub proof fn lemma_record_grows(
    index: Map<Seq<char>, Seq<char>>,
    branch: Seq<char>,
    commit: Seq<char>,
)
    ensures
        index.dom().subset_of(index.insert(branch, commit).dom()),
        index.insert(branch, commit).contains_key(branch),
{
}

} // verus!

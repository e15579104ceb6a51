//! Selecting the branches of one author.

use vstd::prelude::*;
use crate::branch::{BranchInfo, BranchInfoView};

verus! {

/// The test that a branch was authored under exactly `email`: the two are
/// compared character by character, with no folding of case and no partial
/// match.
pub open spec fn by_author(email: Seq<char>) -> spec_fn(BranchInfoView) -> bool {
    |b: BranchInfoView| b.author_email == email
}

/// The branches authored under `email`, in the order of the listing.
pub open spec fn authored_by(branches: Seq<BranchInfoView>, email: Seq<char>) -> Seq<
    BranchInfoView,
> {
    branches.filter(by_author(email))
}

/// The displayed names of `branches`, in order.
pub open spec fn names_of(branches: Seq<BranchInfoView>) -> Seq<Seq<char>> {
    branches.map_values(|b: BranchInfoView| b.branch_name)
}

/// The displayed names of the branches authored under `email`, in the order
/// of the listing.
pub open spec fn matching_names(branches: Seq<BranchInfoView>, email: Seq<char>) -> Seq<Seq<char>> {
    names_of(authored_by(branches, email))
}

/// Taking one more branch into account adds it to an author's branches if
/// it is that author's, and changes nothing otherwise.
pub proof fn lemma_authored_by_push(branches: Seq<BranchInfoView>, b: BranchInfoView, email: Seq<char>)
    ensures
        authored_by(branches.push(b), email) == if b.author_email == email {
            authored_by(branches, email).push(b)
        } else {
            authored_by(branches, email)
        },
{
    branches.lemma_filter_push(b, by_author(email));
}

/// Taking one more branch into account adds its name to the matching names
/// if it was authored under `email`, and changes nothing otherwise.
pub proof fn lemma_matching_names_push(
    branches: Seq<BranchInfoView>,
    b: BranchInfoView,
    email: Seq<char>,
)
    ensures
        matching_names(branches.push(b), email) == if b.author_email == email {
            matching_names(branches, email).push(b.branch_name)
        } else {
            matching_names(branches, email)
        },
{
    lemma_authored_by_push(branches, b, email);
}

/// Returns the names of the branches authored under `filter_email`, one per
/// line of output, in the order in which the listing holds them.
pub fn list(branches: &Vec<BranchInfo>, filter_email: &str) -> (names: Vec<String>)
    ensures
        names.deep_view() == matching_names(branches.deep_view(), filter_email@),
{
    let wanted: String = filter_email.to_owned();
    let mut names: Vec<String> = Vec::new();
    let mut i: usize = 0;
    while i < branches.len()
        invariant
            i <= branches.len(),
            wanted@ == filter_email@,
            names.deep_view() == matching_names(branches.deep_view().take(i as int), filter_email@),
        decreases branches.len() - i,
    {
        let ghost seen = branches.deep_view().take(i as int);
        let ghost current = branches[i as int]@;
        proof {
            assert(branches.deep_view().take(i + 1) =~= seen.push(current));
            lemma_matching_names_push(seen, current, filter_email@);
        }
        if branches[i].author_email == wanted {
            let name: String = branches[i].branch_name.clone();
            names.push(name);
        }
        i = i + 1;
    }
    assert(branches.deep_view().take(i as int) =~= branches.deep_view());
    names
}

} // verus!

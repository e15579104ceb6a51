//! How many remote branches each author has.

use vstd::prelude::*;
use crate::branch::{BranchInfo, BranchInfoView};
use crate::listing::{authored_by, by_author, lemma_authored_by_push, matching_names};
use crate::text::{decimal, push_decimal};

verus! {

/// An author, known by email, and the number of branches of that author.
#[derive(Debug, PartialEq, Eq)]
pub struct AuthorCount {
    pub email: String,
    pub count: usize,
}

/// The content of an [`AuthorCount`] as plain values.
pub struct AuthorCountView {
    pub email: Seq<char>,
    pub count: nat,
}

impl View for AuthorCount {
    type V = AuthorCountView;

    open spec fn view(&self) -> AuthorCountView {
        AuthorCountView { email: self.email@, count: self.count as nat }
    }
}

impl DeepView for AuthorCount {
    type V = AuthorCountView;

    open spec fn deep_view(&self) -> AuthorCountView {
        self@
    }
}

/// The branch statistics of a repository: one entry per author, and the
/// number of branches in all.
#[derive(Debug, PartialEq, Eq)]
pub struct StatsReport {
    pub per_author: Vec<AuthorCount>,
    pub total: usize,
}

/// The content of a [`StatsReport`] as plain values.
pub struct StatsReportView {
    pub per_author: Seq<AuthorCountView>,
    pub total: nat,
}

impl View for StatsReport {
    type V = StatsReportView;

    open spec fn view(&self) -> StatsReportView {
        StatsReportView { per_author: self.per_author.deep_view(), total: self.total as nat }
    }
}

/// The author emails of a listing, each once, in the order in which they
/// first appear.
pub open spec fn authors(branches: Seq<BranchInfoView>) -> Seq<Seq<char>>
    decreases branches.len(),
{
    if branches.len() == 0 {
        Seq::empty()
    } else {
        let earlier = authors(branches.drop_last());
        let email = branches.last().author_email;
        if earlier.contains(email) {
            earlier
        } else {
            earlier.push(email)
        }
    }
}

/// The number of branches authored under `email`.
pub open spec fn branch_count(branches: Seq<BranchInfoView>, email: Seq<char>) -> nat {
    authored_by(branches, email).len()
}

/// Each of `emails` with the number of its branches in the listing.
pub open spec fn counted(branches: Seq<BranchInfoView>, emails: Seq<Seq<char>>) -> Seq<
    AuthorCountView,
> {
    emails.map_values(
        |email: Seq<char>| AuthorCountView { email, count: branch_count(branches, email) },
    )
}

/// The statistics of a listing: every author in order of first appearance
/// with the number of that author's branches, and the length of the listing.
pub open spec fn report(branches: Seq<BranchInfoView>) -> StatsReportView {
    StatsReportView { per_author: counted(branches, authors(branches)), total: branches.len() }
}

/// The sum of the counts of `entries`.
pub open spec fn sum_of_counts(entries: Seq<AuthorCountView>) -> nat
    decreases entries.len(),
{
    if entries.len() == 0 {
        0
    } else {
        sum_of_counts(entries.drop_last()) + entries.last().count
    }
}

/// One more branch adds its author to the authors, unless that author is
/// among them already.
pub proof fn lemma_authors_push(branches: Seq<BranchInfoView>, b: BranchInfoView)
    ensures
        authors(branches.push(b)) == if authors(branches).contains(b.author_email) {
            authors(branches)
        } else {
            authors(branches).push(b.author_email)
        },
{
    assert(branches.push(b).drop_last() =~= branches);
}

/// One more branch raises the count of its author by one and leaves every
/// other count as it was.
pub proof fn lemma_branch_count_push(
    branches: Seq<BranchInfoView>,
    b: BranchInfoView,
    email: Seq<char>,
)
    ensures
        branch_count(branches.push(b), email) == branch_count(branches, email) + if b.author_email
            == email {
            1nat
        } else {
            0nat
        },
{
    lemma_authored_by_push(branches, b, email);
}

/// No author has more branches than the listing holds.
pub proof fn lemma_branch_count_bound(branches: Seq<BranchInfoView>, email: Seq<char>)
    ensures
        branch_count(branches, email) <= branches.len(),
{
    branches.lemma_filter_len(by_author(email));
}

/// The count of an author is the number of names listed for that author.
pub proof fn lemma_branch_count_is_number_listed(branches: Seq<BranchInfoView>, email: Seq<char>)
    ensures
        branch_count(branches, email) == matching_names(branches, email).len(),
{
}

/// No author is reported twice.
pub proof fn lemma_authors_distinct(branches: Seq<BranchInfoView>)
    ensures
        authors(branches).no_duplicates(),
    decreases branches.len(),
{
    if branches.len() > 0 {
        lemma_authors_distinct(branches.drop_last());
    }
}

/// The reported authors are exactly the emails under which the listing
/// holds at least one branch.
pub proof fn lemma_author_has_branches(branches: Seq<BranchInfoView>, email: Seq<char>)
    ensures
        authors(branches).contains(email) <==> branch_count(branches, email) > 0,
    decreases branches.len(),
{
    if branches.len() == 0 {
        assert(authored_by(branches, email).len() == 0) by {
            branches.lemma_filter_len(by_author(email));
        }
    } else {
        let earlier = branches.drop_last();
        let b = branches.last();
        assert(earlier.push(b) =~= branches);
        lemma_author_has_branches(earlier, email);
        lemma_branch_count_push(earlier, b, email);
        lemma_authors_push(earlier, b);
        if !authors(earlier).contains(b.author_email) {
            let grown = authors(earlier).push(b.author_email);
            assert(grown[grown.len() - 1] == b.author_email);
            if authors(earlier).contains(email) {
                let k = choose|k: int| 0 <= k < authors(earlier).len() && authors(earlier)[k] == email;
                assert(grown[k] == email);
            }
        }
    }
}

/// Among authors that are listed once each, one more branch raises the sum
/// of the counts by one if its author is among them, and not at all
/// otherwise.
proof fn lemma_sum_push(emails: Seq<Seq<char>>, branches: Seq<BranchInfoView>, b: BranchInfoView)
    requires
        emails.no_duplicates(),
    ensures
        sum_of_counts(counted(branches.push(b), emails)) == sum_of_counts(counted(branches, emails))
            + if emails.contains(b.author_email) {
            1nat
        } else {
            0nat
        },
    decreases emails.len(),
{
    if emails.len() > 0 {
        let rest = emails.drop_last();
        let last = emails.last();
        lemma_sum_push(rest, branches, b);
        lemma_branch_count_push(branches, b, last);
        assert(counted(branches.push(b), emails).drop_last() =~= counted(branches.push(b), rest));
        assert(counted(branches, emails).drop_last() =~= counted(branches, rest));
        if !rest.contains(b.author_email) && last != b.author_email && emails.contains(
            b.author_email,
        ) {
            let k = choose|k: int| 0 <= k < emails.len() && emails[k] == b.author_email;
            assert(rest[k] == b.author_email);
        }
    }
}

/// The sum over one more author is the sum so far plus that author's count.
proof fn lemma_sum_more_authors(emails: Seq<Seq<char>>, email: Seq<char>, branches: Seq<BranchInfoView>)
    ensures
        sum_of_counts(counted(branches, emails.push(email))) == sum_of_counts(
            counted(branches, emails),
        ) + branch_count(branches, email),
{
    assert(counted(branches, emails.push(email)).drop_last() =~= counted(branches, emails));
}

/// The total of a report is the sum of its per-author counts.
pub proof fn lemma_total_is_sum_of_counts(branches: Seq<BranchInfoView>)
    ensures
        sum_of_counts(report(branches).per_author) == report(branches).total,
    decreases branches.len(),
{
    if branches.len() > 0 {
        let earlier = branches.drop_last();
        let b = branches.last();
        assert(earlier.push(b) =~= branches);
        lemma_total_is_sum_of_counts(earlier);
        lemma_authors_push(earlier, b);
        lemma_authors_distinct(earlier);
        lemma_sum_push(authors(earlier), earlier, b);
        if !authors(earlier).contains(b.author_email) {
            lemma_sum_more_authors(authors(earlier), b.author_email, branches);
            lemma_author_has_branches(earlier, b.author_email);
            lemma_branch_count_push(earlier, b, b.author_email);
        }
    }
}

/// Counts the branches of each author.
///
/// The report has one entry for each email under which the listing holds a
/// branch, in the order in which the emails first appear, and the number of
/// branches in all, which is the sum of the entries' counts.
pub fn stats(branches: &Vec<BranchInfo>) -> (result: StatsReport)
    ensures
        result@ == report(branches.deep_view()),
        sum_of_counts(result@.per_author) == result@.total,
{
    let mut per_author: Vec<AuthorCount> = Vec::new();
    let mut i: usize = 0;
    while i < branches.len()
        invariant
            i <= branches.len(),
            per_author.deep_view() == report(branches.deep_view().take(i as int)).per_author,
        decreases branches.len() - i,
    {
        let ghost seen = branches.deep_view().take(i as int);
        let ghost current = branches[i as int]@;
        let ghost before = per_author.deep_view();
        let ghost old_entries = per_author@;
        proof {
            assert(branches.deep_view().take(i + 1) =~= seen.push(current));
            lemma_authors_push(seen, current);
            lemma_authors_distinct(seen);
            assert(before.len() == authors(seen).len());
        }
        let mut j: usize = 0;
        while j < per_author.len() && per_author[j].email != branches[i].author_email
            invariant
                i < branches.len(),
                j <= per_author.len(),
                current == branches[i as int]@,
                forall|k: int| 0 <= k < j ==> per_author[k].email@ != current.author_email,
            decreases per_author.len() - j,
        {
            j = j + 1;
        }
        if j < per_author.len() {
            proof {
                assert(before[j as int] == per_author[j as int]@);
                lemma_branch_count_bound(seen, current.author_email);
            }
            let count: usize = per_author[j].count + 1;
            let email: String = per_author[j].email.clone();
            per_author.set(j, AuthorCount { email, count });
            proof {
                let after = counted(seen.push(current), authors(seen));
                assert forall|k: int| 0 <= k < after.len() implies per_author.deep_view()[k]
                    == after[k] by {
                    lemma_branch_count_push(seen, current, authors(seen)[k]);
                    if k != j {
                        assert(before[k] == old_entries[k]@);
                    }
                }
            }
        } else {
            proof {
                if authors(seen).contains(current.author_email) {
                    let k = choose|k: int|
                        0 <= k < authors(seen).len() && authors(seen)[k] == current.author_email;
                    assert(before[k].email == current.author_email);
                }
                lemma_author_has_branches(seen, current.author_email);
            }
            per_author.push(AuthorCount { email: branches[i].author_email.clone(), count: 1 });
            proof {
                let after = counted(seen.push(current), authors(seen).push(current.author_email));
                assert forall|k: int| 0 <= k < after.len() implies per_author.deep_view()[k]
                    == after[k] by {
                    if k < old_entries.len() {
                        lemma_branch_count_push(seen, current, authors(seen)[k]);
                        assert(before[k] == old_entries[k]@);
                    } else {
                        lemma_branch_count_push(seen, current, current.author_email);
                    }
                }
            }
        }
        i = i + 1;
    }
    proof {
        assert(branches.deep_view().take(i as int) =~= branches.deep_view());
        lemma_total_is_sum_of_counts(branches.deep_view());
    }
    StatsReport { per_author, total: branches.len() }
}

/// The line that reports one author: the email, a colon, a space and the count.
pub open spec fn author_line(entry: AuthorCountView) -> Seq<char> {
    entry.email + ": "@ + decimal(entry.count)
}

/// The line that reports the number of branches in all.
pub open spec fn total_line(total: nat) -> Seq<char> {
    " Total Remote Branches: "@ + decimal(total)
}

/// The summary as it is printed, line by line: a heading, one line per
/// author in the order of the report, a rule, and the total.
pub open spec fn report_lines(report: StatsReportView) -> Seq<Seq<char>> {
    seq!["Branches per user:"@] + report.per_author.map_values(
        |entry: AuthorCountView| author_line(entry),
    ) + seq!["========================="@, total_line(report.total)]
}

impl StatsReport {
    /// Renders the summary, one string per line of output.
    pub fn lines(&self) -> (lines: Vec<String>)
        ensures
            lines.deep_view() == report_lines(self@),
    {
        let mut lines: Vec<String> = Vec::new();
        lines.push("Branches per user:".to_owned());
        let mut i: usize = 0;
        while i < self.per_author.len()
            invariant
                i <= self.per_author.len(),
                lines.deep_view() == seq!["Branches per user:"@] + self.per_author.deep_view().take(
                    i as int,
                ).map_values(|entry: AuthorCountView| author_line(entry)),
            decreases self.per_author.len() - i,
        {
            let ghost before = lines.deep_view();
            let entry = &self.per_author[i];
            let mut line: String = entry.email.clone();
            line.append(": ");
            push_decimal(&mut line, entry.count);
            lines.push(line);
            assert(lines.deep_view() =~= before.push(author_line(entry@)));
            i = i + 1;
        }
        assert(self.per_author.deep_view().take(i as int) =~= self.per_author.deep_view());
        let ghost listed = lines.deep_view();
        lines.push("=========================".to_owned());
        let mut last: String = " Total Remote Branches: ".to_owned();
        push_decimal(&mut last, self.total);
        lines.push(last);
        assert(lines.deep_view() =~= listed + seq![
            "========================="@,
            total_line(self.total as nat),
        ]);
        lines
    }
}

} // verus!

//! Remote branches and the authors of their tip commits.

use vstd::prelude::*;

verus! {

/// A remote branch as it is shown to the user, with the author of its tip commit.
#[derive(Debug, PartialEq, Eq)]
pub struct BranchInfo {
    pub branch_name: String,
    pub author_name: String,
    pub author_email: String,
}

/// The content of a [`BranchInfo`] as plain character sequences.
pub struct BranchInfoView {
    pub branch_name: Seq<char>,
    pub author_name: Seq<char>,
    pub author_email: Seq<char>,
}

impl View for BranchInfo {
    type V = BranchInfoView;

    open spec fn view(&self) -> BranchInfoView {
        BranchInfoView {
            branch_name: self.branch_name@,
            author_name: self.author_name@,
            author_email: self.author_email@,
        }
    }
}

impl DeepView for BranchInfo {
    type V = BranchInfoView;

    open spec fn deep_view(&self) -> BranchInfoView {
        self@
    }
}

/// The path segment that names the remote in a remote-tracking branch.
pub open spec fn remote_prefix() -> Seq<char> {
    "origin/"@
}

/// The name under which a remote-tracking branch is shown: the part after
/// `origin/` where the name starts with it, the whole name otherwise.
pub open spec fn display_name(name: Seq<char>) -> Seq<char> {
    if remote_prefix().is_prefix_of(name) {
        name.skip(remote_prefix().len() as int)
    } else {
        name
    }
}

/// A name that starts with `origin/` is that prefix followed by the name it
/// is shown under; any other name is shown as it is.
pub proof fn lemma_display_name(name: Seq<char>)
    ensures
        remote_prefix().is_prefix_of(name) ==> remote_prefix() + display_name(name) == name,
        !remote_prefix().is_prefix_of(name) ==> display_name(name) == name,
{
    if remote_prefix().is_prefix_of(name) {
        assert(remote_prefix() + name.skip(remote_prefix().len() as int) =~= name);
    }
}

/// Strips the leading `origin/` from a remote-tracking branch name.
pub fn strip_remote(name: &str) -> (shown: String)
    ensures
        shown@ == display_name(name@),
{
    let prefix: &str = "origin/";
    let n: usize = name.unicode_len();
    let p: usize = prefix.unicode_len();
    if n < p {
        return name.to_owned();
    }
    let mut i: usize = 0;
    while i < p
        invariant
            i <= p <= n,
            p == prefix@.len(),
            n == name@.len(),
            prefix@ == remote_prefix(),
            forall|j: int| 0 <= j < i ==> name@[j] == prefix@[j],
        decreases p - i,
    {
        if name.get_char(i) != prefix.get_char(i) {
            return name.to_owned();
        }
        i = i + 1;
    }
    name.substring_char(p, n).to_owned()
}

/// One remote-tracking reference as a repository yields it.
#[derive(Debug, PartialEq, Eq)]
pub enum RawBranch {
    /// A reference whose name does not decode as text. Nothing more is read of it.
    Unreadable,
    /// A reference with its short name and the author of its tip commit;
    /// the author's name and email are present only where they decode as text.
    Readable { name: String, author_name: Option<String>, author_email: Option<String> },
}

/// The content of a [`RawBranch`] as plain character sequences.
pub enum RawBranchView {
    Unreadable,
    Readable { name: Seq<char>, author_name: Option<Seq<char>>, author_email: Option<Seq<char>> },
}

impl View for RawBranch {
    type V = RawBranchView;

    open spec fn view(&self) -> RawBranchView {
        match self {
            RawBranch::Unreadable => RawBranchView::Unreadable,
            RawBranch::Readable { name, author_name, author_email } => RawBranchView::Readable {
                name: name@,
                author_name: author_name.deep_view(),
                author_email: author_email.deep_view(),
            },
        }
    }
}

impl DeepView for RawBranch {
    type V = RawBranchView;

    open spec fn deep_view(&self) -> RawBranchView {
        self@
    }
}

/// What stands for an author's name or email that does not decode as text.
pub open spec fn unknown_author() -> Seq<char> {
    "Unknown"@
}

/// The text of an optional field, or `fallback` where the field is absent.
pub open spec fn text_or(field: Option<Seq<char>>, fallback: Seq<char>) -> Seq<char> {
    match field {
        Some(text) => text,
        None => fallback,
    }
}

/// The branch that a reference is listed as, or `None` for a reference whose
/// name does not decode: such a reference is left out of every listing.
pub open spec fn listed_as(raw: RawBranchView) -> Option<BranchInfoView> {
    match raw {
        RawBranchView::Readable { name, author_name, author_email } => Some(
            BranchInfoView {
                branch_name: display_name(name),
                author_name: text_or(author_name, unknown_author()),
                author_email: text_or(author_email, unknown_author()),
            },
        ),
        RawBranchView::Unreadable => None,
    }
}

/// The listing of a repository's remote references: each reference with a
/// readable name, in the order of the enumeration.
pub open spec fn remote_branches(refs: Seq<RawBranchView>) -> Seq<BranchInfoView> {
    refs.filter_map(|raw: RawBranchView| listed_as(raw))
}

/// Copies an optional text field, putting `fallback` in the place of an absent one.
pub fn field_or(field: &Option<String>, fallback: &str) -> (text: String)
    ensures
        text@ == text_or(field.deep_view(), fallback@),
{
    match field {
        Some(value) => value.clone(),
        None => fallback.to_owned(),
    }
}

/// Turns one reference into the branch it is listed as, if it is listed at all.
pub fn branch_info(raw: &RawBranch) -> (listed: Option<BranchInfo>)
    ensures
        listed.deep_view() == listed_as(raw@),
{
    match raw {
        RawBranch::Readable { name, author_name, author_email } => {
            let unknown: &str = "Unknown";
            Some(
                BranchInfo {
                    branch_name: strip_remote(name.as_str()),
                    author_name: field_or(author_name, unknown),
                    author_email: field_or(author_email, unknown),
                },
            )
        },
        RawBranch::Unreadable => None,
    }
}

/// Builds the listing of remote branches from the references of a repository.
///
/// Unreadable references are skipped; every other reference appears once,
/// in enumeration order, under its displayed name.
pub fn get_remote_branches(refs: &Vec<RawBranch>) -> (branches: Vec<BranchInfo>)
    ensures
        branches.deep_view() == remote_branches(refs.deep_view()),
{
    let mut branches: Vec<BranchInfo> = Vec::new();
    let mut i: usize = 0;
    while i < refs.len()
        invariant
            i <= refs.len(),
            branches.deep_view() == remote_branches(refs.deep_view().take(i as int)),
        decreases refs.len() - i,
    {
        proof {
            refs.deep_view().lemma_filter_map_take_succ(|raw: RawBranchView| listed_as(raw), i as int);
        }
        if let Some(info) = branch_info(&refs[i]) {
            branches.push(info);
        }
        i = i + 1;
    }
    assert(refs.deep_view().take(i as int) =~= refs.deep_view());
    branches
}

} // verus!

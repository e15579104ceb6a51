//! What an invocation means where the command line leaves something out.

use vstd::prelude::*;
use crate::identity::UserIdentity;

verus! {

/// The repository that an invocation works on: the one it names, or the
/// current directory.
pub open spec fn effective_location(given: Option<Seq<char>>) -> Seq<char> {
    match given {
        Some(path) => path,
        None => "."@,
    }
}

/// The email that an invocation filters by: the one it names, or the
/// configured email of the current user.
pub open spec fn effective_filter(given: Option<Seq<char>>, user_email: Seq<char>) -> Seq<char> {
    match given {
        Some(email) => email,
        None => user_email,
    }
}

/// The lines that announce the filter before branches are listed or cleaned up.
pub open spec fn banner_lines(filter_email: Seq<char>) -> Seq<Seq<char>> {
    seq!["filter_email: "@ + filter_email, "=========================="@]
}

/// The hint given to an invocation that names no subcommand.
pub open spec fn usage_text() -> Seq<char> {
    "Please provide a subcommand, use help sub command to see the available options"@
}

/// Returns the path of the repository to work on.
pub fn repo_location(given: Option<String>) -> (path: String)
    ensures
        path@ == effective_location(given.deep_view()),
{
    match given {
        Some(path) => path,
        None => ".".to_owned(),
    }
}

/// Returns the email to filter branches by.
pub fn filter_email(given: Option<String>, user: &UserIdentity) -> (email: String)
    ensures
        email@ == effective_filter(given.deep_view(), user@.email),
{
    match given {
        Some(email) => email,
        None => user.email.clone(),
    }
}

/// Renders the announcement of the filter, one string per line of output.
pub fn filter_banner(filter_email: &str) -> (lines: Vec<String>)
    ensures
        lines.deep_view() == banner_lines(filter_email@),
{
    let mut first: String = "filter_email: ".to_owned();
    first.append(filter_email);
    let mut lines: Vec<String> = Vec::new();
    lines.push(first);
    lines.push("==========================".to_owned());
    lines
}

/// Returns the hint for an invocation without a subcommand.
pub fn usage_hint() -> (hint: String)
    ensures
        hint@ == usage_text(),
{
    "Please provide a subcommand, use help sub command to see the available options".to_owned()
}

} // verus!

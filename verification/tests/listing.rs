use branch_cleanup::branch::BranchInfo;
use branch_cleanup::listing::list;

fn info(name: &str, email: &str) -> BranchInfo {
    BranchInfo {
        branch_name: name.to_string(),
        author_name: "Someone".to_string(),
        author_email: email.to_string(),
    }
}

#[test]
fn list_of_nothing_is_empty() {
    assert_eq!(list(&Vec::new(), "a@x.com"), Vec::<String>::new());
}

#[test]
fn list_gives_exactly_the_authors_branches() {
    let branches = vec![
        info("feature-a", "a@x.com"),
        info("feature-b", "b@x.com"),
        info("feature-c", "a@x.com"),
        info("feature-d", "c@x.com"),
    ];
    assert_eq!(list(&branches, "a@x.com"), vec!["feature-a", "feature-c"]);
    assert_eq!(list(&branches, "b@x.com"), vec!["feature-b"]);
    assert_eq!(list(&branches, "c@x.com"), vec!["feature-d"]);
}

#[test]
fn list_keeps_the_order_of_the_listing() {
    let branches = vec![
        info("zeta", "a@x.com"),
        info("alpha", "a@x.com"),
        info("mid", "b@x.com"),
        info("beta", "a@x.com"),
    ];
    assert_eq!(list(&branches, "a@x.com"), vec!["zeta", "alpha", "beta"]);
}

#[test]
fn list_for_an_unknown_email_is_empty() {
    let branches = vec![info("feature-a", "a@x.com"), info("feature-b", "b@x.com")];
    assert_eq!(list(&branches, "nobody@x.com"), Vec::<String>::new());
}

#[test]
fn list_matches_case_sensitively() {
    let branches = vec![info("feature-a", "a@x.com"), info("feature-b", "A@X.com")];
    assert_eq!(list(&branches, "A@X.com"), vec!["feature-b"]);
    assert_eq!(list(&branches, "a@x.com"), vec!["feature-a"]);
    assert_eq!(list(&branches, "A@x.com"), Vec::<String>::new());
}

#[test]
fn list_does_not_match_parts_of_an_email() {
    let branches = vec![info("feature-a", "a@x.com"), info("feature-b", "aa@x.com")];
    assert_eq!(list(&branches, "a@x"), Vec::<String>::new());
    assert_eq!(list(&branches, "@x.com"), Vec::<String>::new());
    assert_eq!(list(&branches, "a@x.com "), Vec::<String>::new());
    assert_eq!(list(&branches, ""), Vec::<String>::new());
}

#[test]
fn list_repeats_a_name_that_the_listing_repeats() {
    let branches = vec![info("same", "a@x.com"), info("same", "a@x.com")];
    assert_eq!(list(&branches, "a@x.com"), vec!["same", "same"]);
}

#[test]
fn list_matches_the_unknown_placeholder_like_any_email() {
    let branches = vec![info("feature-a", "Unknown"), info("feature-b", "b@x.com")];
    assert_eq!(list(&branches, "Unknown"), vec!["feature-a"]);
}

use branch_cleanup::branch::BranchInfo;
use branch_cleanup::stats::{stats, AuthorCount, StatsReport};

fn info(name: &str, email: &str) -> BranchInfo {
    BranchInfo {
        branch_name: name.to_string(),
        author_name: "Someone".to_string(),
        author_email: email.to_string(),
    }
}

fn entry(email: &str, count: usize) -> AuthorCount {
    AuthorCount { email: email.to_string(), count }
}

#[test]
fn stats_of_nothing() {
    let report = stats(&Vec::new());
    assert_eq!(report, StatsReport { per_author: Vec::new(), total: 0 });
}

#[test]
fn stats_of_a_single_branch() {
    let report = stats(&vec![info("feature-a", "a@x.com")]);
    assert_eq!(report, StatsReport { per_author: vec![entry("a@x.com", 1)], total: 1 });
}

#[test]
fn stats_count_each_authors_branches() {
    let branches = vec![
        info("feature-a", "a@x.com"),
        info("feature-b", "b@x.com"),
        info("feature-c", "a@x.com"),
        info("feature-d", "a@x.com"),
        info("feature-e", "c@x.com"),
        info("feature-f", "b@x.com"),
    ];
    let report = stats(&branches);
    assert_eq!(
        report.per_author,
        vec![entry("a@x.com", 3), entry("b@x.com", 2), entry("c@x.com", 1)]
    );
    assert_eq!(report.total, 6);
}

#[test]
fn stats_list_authors_in_order_of_first_appearance() {
    let branches = vec![
        info("one", "z@x.com"),
        info("two", "a@x.com"),
        info("three", "z@x.com"),
        info("four", "m@x.com"),
        info("five", "a@x.com"),
    ];
    let emails: Vec<String> =
        stats(&branches).per_author.into_iter().map(|entry| entry.email).collect();
    assert_eq!(emails, vec!["z@x.com", "a@x.com", "m@x.com"]);
}

#[test]
fn stats_total_is_the_sum_of_the_counts() {
    let emails = ["a@x.com", "b@x.com", "c@x.com", "d@x.com", "e@x.com"];
    let mut branches = Vec::new();
    for i in 0..97usize {
        branches.push(info("branch", emails[(i * i + 3 * i) % emails.len()]));
        let report = stats(&branches);
        let sum: usize = report.per_author.iter().map(|entry| entry.count).sum();
        assert_eq!(sum, report.total);
        assert_eq!(report.total, branches.len());
    }
}

#[test]
fn stats_report_each_author_once_and_never_with_zero() {
    let branches = vec![
        info("one", "a@x.com"),
        info("two", "a@x.com"),
        info("three", "b@x.com"),
        info("four", "a@x.com"),
    ];
    let report = stats(&branches);
    for (i, first) in report.per_author.iter().enumerate() {
        assert!(first.count > 0);
        for second in report.per_author.iter().skip(i + 1) {
            assert_ne!(first.email, second.email);
        }
    }
}

#[test]
fn stats_tell_emails_apart_by_case() {
    let branches = vec![info("one", "a@x.com"), info("two", "A@x.com"), info("three", "a@x.com")];
    assert_eq!(stats(&branches).per_author, vec![entry("a@x.com", 2), entry("A@x.com", 1)]);
}

#[test]
fn stats_count_the_unknown_placeholder_as_an_author() {
    let branches = vec![info("one", "Unknown"), info("two", "a@x.com"), info("three", "Unknown")];
    assert_eq!(stats(&branches).per_author, vec![entry("Unknown", 2), entry("a@x.com", 1)]);
}

#[test]
fn stats_lines_of_an_empty_report() {
    assert_eq!(
        stats(&Vec::new()).lines(),
        vec!["Branches per user:", "=========================", " Total Remote Branches: 0"]
    );
}

#[test]
fn stats_lines_report_authors_then_total() {
    let branches = vec![
        info("feature-a", "a@x.com"),
        info("feature-b", "b@x.com"),
        info("feature-c", "a@x.com"),
    ];
    assert_eq!(
        stats(&branches).lines(),
        vec![
            "Branches per user:",
            "a@x.com: 2",
            "b@x.com: 1",
            "=========================",
            " Total Remote Branches: 3",
        ]
    );
}

#[test]
fn stats_lines_write_counts_in_decimal() {
    let mut branches = Vec::new();
    for _ in 0..120usize {
        branches.push(info("branch", "a@x.com"));
    }
    let lines = stats(&branches).lines();
    assert_eq!(lines[1], "a@x.com: 120");
    assert_eq!(lines[3], " Total Remote Branches: 120");
    assert_eq!(lines[2].len(), 25);
}

#[test]
fn stats_lines_follow_the_report_they_are_given() {
    let report = StatsReport { per_author: vec![entry("b@x.com", 10), entry("a@x.com", 0)], total: 7 };
    assert_eq!(
        report.lines(),
        vec![
            "Branches per user:",
            "b@x.com: 10",
            "a@x.com: 0",
            "=========================",
            " Total Remote Branches: 7",
        ]
    );
}

#[test]
fn stats_count_as_many_branches_as_list_names() {
    let branches = vec![
        info("one", "a@x.com"),
        info("two", "b@x.com"),
        info("three", "a@x.com"),
        info("four", "c@x.com"),
        info("five", "a@x.com"),
    ];
    let report = stats(&branches);
    assert_eq!(report.per_author.len(), 3);
    for entry in report.per_author.iter() {
        assert_eq!(entry.count, branch_cleanup::listing::list(&branches, &entry.email).len());
    }
}

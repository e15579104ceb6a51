use branch_cleanup::branch::{get_remote_branches, RawBranch};
use branch_cleanup::cleanup::{cleanup, CleanupAction, CleanupEvent};
use branch_cleanup::command::CommandOutcome;
use branch_cleanup::identity::get_current_user_info;
use branch_cleanup::invocation::{filter_banner, filter_email, repo_location};
use branch_cleanup::listing::list;
use branch_cleanup::stats::stats;

fn repository() -> Vec<RawBranch> {
    let reference = |name: &str, email: &str| RawBranch::Readable {
        name: name.to_string(),
        author_name: Some("Someone".to_string()),
        author_email: Some(email.to_string()),
    };
    vec![
        reference("origin/feature-a", "a@x.com"),
        reference("origin/feature-b", "b@x.com"),
        reference("origin/feature-c", "a@x.com"),
    ]
}

#[test]
fn end_to_end_stats() {
    let branches = get_remote_branches(&repository());
    let report = stats(&branches);
    assert_eq!(report.total, 3);
    assert_eq!(
        report.lines(),
        vec![
            "Branches per user:",
            "a@x.com: 2",
            "b@x.com: 1",
            "=========================",
            " Total Remote Branches: 3",
        ]
    );
}

#[test]
fn end_to_end_list() {
    let branches = get_remote_branches(&repository());
    let email = filter_email(Some("a@x.com".to_string()), &get_current_user_info(None, None));
    assert_eq!(filter_banner(&email), vec!["filter_email: a@x.com", "=========================="]);
    assert_eq!(list(&branches, &email), vec!["feature-a", "feature-c"]);
}

#[test]
fn end_to_end_list_with_the_users_own_email() {
    let branches = get_remote_branches(&repository());
    let user = get_current_user_info(Some("Bob".to_string()), Some("b@x.com".to_string()));
    let email = filter_email(None, &user);
    assert_eq!(list(&branches, &email), vec!["feature-b"]);
}

#[test]
fn end_to_end_cleanup_with_every_confirmation_accepted() {
    let branches = get_remote_branches(&repository());
    let location = repo_location(None);
    let mut session = cleanup(&branches, "b@x.com", &location);
    let mut action = session.pending();
    let mut deleted: Vec<Vec<String>> = Vec::new();
    let mut asked = 0;
    loop {
        let event = match action {
            CleanupAction::Confirm { .. } => {
                asked += 1;
                CleanupEvent::Answered { delete: true }
            }
            CleanupAction::Delete { command, .. } => {
                assert_eq!(command.program, "git");
                assert_eq!(command.working_dir, ".");
                deleted.push(command.args);
                CleanupEvent::CommandFinished(CommandOutcome::Exited { success: true })
            }
            CleanupAction::Finish => break,
            CleanupAction::Abort(error) => panic!("the cleanup failed: {}", error.message()),
        };
        let next = session.step(event);
        session = next.0;
        action = next.1;
    }
    assert_eq!(asked, 1);
    assert_eq!(deleted, vec![vec!["push", "origin", "--delete", "feature-b"]]);
}

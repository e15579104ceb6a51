use branch_cleanup::identity::UserIdentity;
use branch_cleanup::invocation::{filter_banner, filter_email, repo_location, usage_hint};

fn user() -> UserIdentity {
    UserIdentity { name: "Ada".to_string(), email: "a@x.com".to_string() }
}

#[test]
fn location_defaults_to_the_current_directory() {
    assert_eq!(repo_location(None), ".");
}

#[test]
fn location_given_is_kept() {
    assert_eq!(repo_location(Some("/srv/repo".to_string())), "/srv/repo");
    assert_eq!(repo_location(Some(String::new())), "");
}

#[test]
fn filter_defaults_to_the_users_email() {
    assert_eq!(filter_email(None, &user()), "a@x.com");
}

#[test]
fn filter_given_wins_over_the_users_email() {
    assert_eq!(filter_email(Some("b@x.com".to_string()), &user()), "b@x.com");
}

#[test]
fn filter_defaults_to_the_placeholder_of_an_unconfigured_user() {
    let unknown = branch_cleanup::identity::get_current_user_info(None, None);
    assert_eq!(filter_email(None, &unknown), "Unknown Email");
}

#[test]
fn banner_names_the_filter() {
    assert_eq!(
        filter_banner("a@x.com"),
        vec!["filter_email: a@x.com", "=========================="]
    );
    assert_eq!(filter_banner("a@x.com")[1].len(), 26);
}

#[test]
fn usage_hint_text() {
    assert_eq!(
        usage_hint(),
        "Please provide a subcommand, use help sub command to see the available options"
    );
}

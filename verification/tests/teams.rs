use loungelizard::{
    apply_login_reply, apply_store_outcome, close_login_pane, login_failure_text,
    login_pane_class, teams_tokens, MsTeamsTokens, StoreOutcome, TeamsLoginView,
};

fn fresh_view() -> TeamsLoginView {
    TeamsLoginView {
        show_login_pane: true,
        show_server_pane: false,
        current_platform: "Slack".to_string(),
        access_token: String::new(),
        refresh_token: String::new(),
        expiration: String::new(),
        logged_in: false,
        login_error: None,
    }
}

fn tokens() -> MsTeamsTokens {
    MsTeamsTokens {
        access_token: "eyJ0eXAi".to_string(),
        refresh_token: "0.AXkA".to_string(),
        expiration: "3599".to_string(),
    }
}

#[test]
fn successful_login_moves_to_server_pane() {
    let mut view = fresh_view();
    assert!(apply_login_reply(&mut view, Ok(tokens())));
    assert!(!view.show_login_pane);
    assert!(view.show_server_pane);
    assert_eq!(view.access_token, "eyJ0eXAi");
    assert_eq!(view.refresh_token, "0.AXkA");
    assert_eq!(view.expiration, "3599");
    assert!(!view.logged_in);
    assert_eq!(view.current_platform, "Slack");
    let saved = teams_tokens(&view);
    assert_eq!(saved.access_token, "eyJ0eXAi");
    assert_eq!(saved.refresh_token, "0.AXkA");
    assert_eq!(saved.expiration, "3599");
}

#[test]
fn failed_login_keeps_message() {
    let mut view = fresh_view();
    assert!(!apply_login_reply(&mut view, Err("device code expired".to_string())));
    assert_eq!(view.login_error, Some("device code expired".to_string()));
    assert!(view.show_login_pane);
    assert!(!view.show_server_pane);
    assert_eq!(view.access_token, "");
}

#[test]
fn failed_login_is_sticky() {
    let mut view = fresh_view();
    assert!(!apply_login_reply(&mut view, Err("first".to_string())));
    assert!(!apply_login_reply(&mut view, Ok(tokens())));
    assert_eq!(view.login_error, Some("first".to_string()));
    assert_eq!(view.access_token, "eyJ0eXAi");
}

#[test]
fn only_an_update_logs_in() {
    let mut view = fresh_view();
    apply_store_outcome(&mut view, StoreOutcome::NotFound);
    assert!(!view.logged_in);
    assert_eq!(view.current_platform, "Slack");
    apply_store_outcome(&mut view, StoreOutcome::Failed);
    assert!(!view.logged_in);
    apply_store_outcome(&mut view, StoreOutcome::Updated);
    assert!(view.logged_in);
    assert_eq!(view.current_platform, "MSTeams");
}

#[test]
fn closing_the_pane() {
    let mut view = fresh_view();
    close_login_pane(&mut view);
    assert!(!view.show_login_pane);
    assert!(!view.show_server_pane);
}

#[test]
fn pane_class_and_failure_text() {
    assert_eq!(login_pane_class(true), "teams-login visible");
    assert_eq!(login_pane_class(false), "teams-login ");
    assert_eq!(login_failure_text("timeout"), "Login failed: timeout");
    assert_eq!(login_failure_text(""), "Login failed: ");
}

use loungelizard::{save_step, SaveStep};

#[test]
fn save_steps() {
    assert_eq!(save_step(false, true), SaveStep::Stop);
    assert_eq!(save_step(false, false), SaveStep::Stop);
    assert_eq!(save_step(true, false), SaveStep::NoDatabase);
    assert_eq!(save_step(true, true), SaveStep::Save);
}

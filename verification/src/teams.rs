//! The Microsoft Teams login pane: what a login attempt and the saving of its
//! tokens change in what the pane shows, and which tokens are saved.

use vstd::prelude::*;
use vstd::string::StringExecFns;

verus! {

/// The Microsoft Teams tokens kept in a user's profile.
#[derive(Debug)]
pub struct MsTeamsTokens {
    pub access_token: String,
    pub refresh_token: String,
    pub expiration: String,
}

/// What the Teams login pane holds and shows.
#[derive(Debug)]
pub struct TeamsLoginView {
    /// Whether the login pane is open.
    pub show_login_pane: bool,
    /// Whether the Teams server pane is open.
    pub show_server_pane: bool,
    /// The platform that the client is currently connected to.
    pub current_platform: String,
    pub access_token: String,
    pub refresh_token: String,
    pub expiration: String,
    /// Whether the tokens were saved in the user's profile.
    pub logged_in: bool,
    /// The message of the last failed login, if any login failed.
    pub login_error: Option<String>,
}

/// The pane after the answer to a login attempt: a success stores the three
/// tokens, closes the login pane and opens the server pane; a failure keeps
/// its message. Nothing else changes.
pub open spec fn after_login_reply(
    view: TeamsLoginView,
    reply: Result<MsTeamsTokens, String>,
) -> TeamsLoginView {
    match reply {
        Ok(tokens) => TeamsLoginView {
            show_login_pane: false,
            show_server_pane: true,
            access_token: tokens.access_token,
            refresh_token: tokens.refresh_token,
            expiration: tokens.expiration,
            ..view
        },
        Err(message) => TeamsLoginView { login_error: Some(message), ..view },
    }
}

/// Takes in the answer to a login attempt, and says whether the tokens are to
/// be saved next: only while no login has failed.
pub fn apply_login_reply(
    view: &mut TeamsLoginView,
    reply: Result<MsTeamsTokens, String>,
) -> (proceed: bool)
    ensures
        *final(view) == after_login_reply(*old(view), reply),
        proceed == (final(view).login_error is None),
{
    match reply {
        Ok(tokens) => {
            view.access_token = tokens.access_token;
            view.refresh_token = tokens.refresh_token;
            view.expiration = tokens.expiration;
            view.show_login_pane = false;
            view.show_server_pane = true;
        },
        Err(message) => {
            view.login_error = Some(message);
        },
    }
    view.login_error.is_none()
}

/// What follows the answer to a login attempt.
#[derive(Debug, Clone, Copy, PartialEq, Eq, Structural)]
pub enum SaveStep {
    /// Nothing: a login has failed.
    Stop,
    /// Nothing can be saved: there is no database client (a warning is due).
    NoDatabase,
    /// Save the tokens in the user's profile.
    Save,
}

/// What follows the answer to a login attempt, given whether it may go on
/// (`apply_login_reply`) and whether a database client is at hand.
pub fn save_step(proceed: bool, has_database: bool) -> (res: SaveStep)
    ensures
        res == (if !proceed {
            SaveStep::Stop
        } else if !has_database {
            SaveStep::NoDatabase
        } else {
            SaveStep::Save
        }),
{
    if !proceed {
        SaveStep::Stop
    } else if !has_database {
        SaveStep::NoDatabase
    } else {
        SaveStep::Save
    }
}

/// The tokens to save in the user's profile: those the pane holds.
pub fn teams_tokens(view: &TeamsLoginView) -> (res: MsTeamsTokens)
    ensures
        res.access_token == view.access_token,
        res.refresh_token == view.refresh_token,
        res.expiration == view.expiration,
{
    MsTeamsTokens {
        access_token: view.access_token.clone(),
        refresh_token: view.refresh_token.clone(),
        expiration: view.expiration.clone(),
    }
}

/// How the saving of the tokens in the user's profile ended.
#[derive(Debug, Clone, Copy, PartialEq, Eq, Structural)]
pub enum StoreOutcome {
    /// The user's record was found and updated.
    Updated,
    /// No record matched the user's name or email.
    NotFound,
    /// The tokens could not be encoded or the database refused the update.
    Failed,
}

/// The name of the Teams platform, as kept in `current_platform`.
pub open spec fn teams_platform() -> Seq<char> {
    "MSTeams"@
}

/// Takes in how the saving of the tokens ended: only an update logs the user
/// in and makes Teams the current platform.
pub fn apply_store_outcome(view: &mut TeamsLoginView, outcome: StoreOutcome)
    ensures
        outcome == StoreOutcome::Updated ==> final(view).logged_in && final(view).current_platform@
            == teams_platform() && final(view).show_login_pane == old(view).show_login_pane
            && final(view).show_server_pane == old(view).show_server_pane
            && final(view).access_token == old(view).access_token
            && final(view).refresh_token == old(view).refresh_token
            && final(view).expiration == old(view).expiration
            && final(view).login_error == old(view).login_error,
        outcome != StoreOutcome::Updated ==> *final(view) == *old(view),
{
    match outcome {
        StoreOutcome::Updated => {
            view.logged_in = true;
            view.current_platform = "MSTeams".to_owned();
        },
        _ => {},
    }
}

/// Closes the login pane.
pub fn close_login_pane(view: &mut TeamsLoginView)
    ensures
        *final(view) == (TeamsLoginView { show_login_pane: false, ..*old(view) }),
{
    view.show_login_pane = false;
}

/// The CSS class of the login pane.
pub fn login_pane_class(visible: bool) -> (res: String)
    ensures
        res@ == "teams-login "@ + (if visible {
            "visible"@
        } else {
            Seq::empty()
        }),
{
    let mut class = "teams-login ".to_owned();
    if visible {
        class.append("visible");
    }
    proof {
        assert(class@ =~= "teams-login "@ + (if visible {
            "visible"@
        } else {
            Seq::empty()
        }));
    }
    class
}

/// The line shown under the pane after a failed login.
pub fn login_failure_text(message: &str) -> (res: String)
    ensures
        res@ == "Login failed: "@ + message@,
{
    let mut text = "Login failed: ".to_owned();
    text.append(message);
    text
}

/// Law: once a login has failed, no later login answer leads to saving
/// tokens, whatever it is.
pub proof fn lemma_failed_login_is_sticky(
    view: TeamsLoginView,
    reply: Result<MsTeamsTokens, String>,
)
    requires
        view.login_error is Some,
    ensures
        after_login_reply(view, reply).login_error is Some,
{
}

/// Law: a successful login while no earlier login failed leads to saving
/// exactly the tokens it brought, and moves from the login pane to the
/// server pane.
pub proof fn lemma_login_saves_its_tokens(view: TeamsLoginView, tokens: MsTeamsTokens)
    requires
        view.login_error is None,
    ensures
        after_login_reply(view, Ok(tokens)).login_error is None,
        after_login_reply(view, Ok(tokens)).access_token == tokens.access_token,
        after_login_reply(view, Ok(tokens)).refresh_token == tokens.refresh_token,
        after_login_reply(view, Ok(tokens)).expiration == tokens.expiration,
        !after_login_reply(view, Ok(tokens)).show_login_pane,
        after_login_reply(view, Ok(tokens)).show_server_pane,
{
}

/// Law: a failed login answer changes nothing but the error message: the
/// panes, the tokens, the login state and the platform stay as they were.
pub proof fn lemma_failed_login_changes_only_error(view: TeamsLoginView, message: String)
    ensures
        after_login_reply(view, Err(message)).login_error == Some(message),
        after_login_reply(view, Err(message)).show_login_pane == view.show_login_pane,
        after_login_reply(view, Err(message)).show_server_pane == view.show_server_pane,
        after_login_reply(view, Err(message)).access_token == view.access_token,
        after_login_reply(view, Err(message)).refresh_token == view.refresh_token,
        after_login_reply(view, Err(message)).expiration == view.expiration,
        after_login_reply(view, Err(message)).logged_in == view.logged_in,
        after_login_reply(view, Err(message)).current_platform == view.current_platform,
{
}

/// Law: a successful login answer, whatever came before it, holds its tokens,
/// closes the login pane and opens the server pane, and leaves the error
/// message, the login state and the platform as they were.
pub proof fn lemma_successful_login_keeps_state(view: TeamsLoginView, tokens: MsTeamsTokens)
    ensures
        after_login_reply(view, Ok(tokens)).access_token == tokens.access_token,
        after_login_reply(view, Ok(tokens)).refresh_token == tokens.refresh_token,
        after_login_reply(view, Ok(tokens)).expiration == tokens.expiration,
        !after_login_reply(view, Ok(tokens)).show_login_pane,
        after_login_reply(view, Ok(tokens)).show_server_pane,
        after_login_reply(view, Ok(tokens)).login_error == view.login_error,
        after_login_reply(view, Ok(tokens)).logged_in == view.logged_in,
        after_login_reply(view, Ok(tokens)).current_platform == view.current_platform,
{
}

} // verus!

//! The decisions taken while creating or updating the user's Slack app: which
//! refresh tokens are accepted, what a token rotation yields, and what is
//! recorded once Slack has created the app.

use vstd::prelude::*;

use crate::text::has_prefix;

verus! {

/// Why a pasted refresh token is refused.
#[derive(Debug, Clone, Copy, PartialEq, Eq, Structural)]
pub enum RefreshTokenError {
    /// The text is a user access token (`xoxe.xoxp…`), not a refresh token.
    AccessTokenGiven,
    /// The clipboard held nothing but a line break.
    EmptyClipboard,
    /// The text is not a Slack refresh token at all.
    Incorrect,
}

impl RefreshTokenError {
    /// The message shown to the user for this refusal.
    pub open spec fn spec_message(self) -> Seq<char> {
        match self {
            RefreshTokenError::AccessTokenGiven => "Refresh Token needed"@,
            RefreshTokenError::EmptyClipboard => "Nothing in Clipboard"@,
            RefreshTokenError::Incorrect => "Incorrect token"@,
        }
    }

    /// The message shown to the user for this refusal.
    pub fn message(&self) -> (res: String)
        ensures
            res@ == self.spec_message(),
    {
        match self {
            RefreshTokenError::AccessTokenGiven => "Refresh Token needed".to_owned(),
            RefreshTokenError::EmptyClipboard => "Nothing in Clipboard".to_owned(),
            RefreshTokenError::Incorrect => "Incorrect token".to_owned(),
        }
    }
}

/// The verdict on a pasted refresh token: `None` when it is accepted.
/// Configuration refresh tokens start with `xoxe`; user access tokens, which
/// start with `xoxe.xoxp`, are refused, and so is anything else.
pub open spec fn refresh_token_refusal(token: Seq<char>) -> Option<RefreshTokenError> {
    if "xoxe.xoxp"@.is_prefix_of(token) {
        Some(RefreshTokenError::AccessTokenGiven)
    } else if "xoxe"@.is_prefix_of(token) {
        None
    } else if token == "\n"@ {
        Some(RefreshTokenError::EmptyClipboard)
    } else {
        Some(RefreshTokenError::Incorrect)
    }
}

/// Checks a pasted refresh token before it is sent to Slack; an accepted token
/// is handed back unchanged.
pub fn check_refresh_token(token: String) -> (res: Result<String, RefreshTokenError>)
    ensures
        res is Ok <==> refresh_token_refusal(token@) is None,
        res matches Ok(t) ==> t@ == token@,
        res matches Err(e) ==> refresh_token_refusal(token@) == Some(e),
{
    if has_prefix(token.as_str(), "xoxe.xoxp") {
        Err(RefreshTokenError::AccessTokenGiven)
    } else if has_prefix(token.as_str(), "xoxe") {
        Ok(token)
    } else {
        let line_break = "\n".to_owned();
        if token == line_break {
            Err(RefreshTokenError::EmptyClipboard)
        } else {
            Err(RefreshTokenError::Incorrect)
        }
    }
}

/// Slack's answer to a token rotation (`tooling.tokens.rotate`).
#[derive(Debug)]
pub struct ResponseData {
    pub ok: bool,
    /// The new configuration access token.
    pub token: String,
    /// The refresh token to use for the next rotation.
    pub refresh_token: String,
    pub team_id: String,
    pub user_id: String,
    /// Issue time, in seconds since the Unix epoch.
    pub iat: u64,
    /// Expiry time, in seconds since the Unix epoch.
    pub exp: u64,
}

impl ResponseData {
    /// Every field holds its default: `false`, empty text or zero.
    pub open spec fn is_blank(&self) -> bool {
        &&& !self.ok
        &&& self.token@.len() == 0
        &&& self.refresh_token@.len() == 0
        &&& self.team_id@.len() == 0
        &&& self.user_id@.len() == 0
        &&& self.iat == 0
        &&& self.exp == 0
    }
}

impl Default for ResponseData {
    fn default() -> (res: Self)
        ensures
            res.is_blank(),
    {
        ResponseData {
            ok: false,
            token: String::new(),
            refresh_token: String::new(),
            team_id: String::new(),
            user_id: String::new(),
            iat: 0,
            exp: 0,
        }
    }
}

/// What a token rotation leaves behind: Slack's answer, and the access token
/// with which the app session is then opened.
#[derive(Debug)]
pub struct RotatedTokens {
    pub data: ResponseData,
    pub access_token: String,
}

/// The outcome of a token rotation, from whether Slack answered with a
/// success status and, if its body was read, whether it parsed as a
/// `ResponseData`. Only a successful, parsed answer counts; otherwise the
/// answer is blank and the access token is empty.
pub fn rotation_outcome(status_success: bool, parsed: Option<ResponseData>) -> (res: RotatedTokens)
    ensures
        status_success && parsed is Some ==> res.data == parsed.unwrap()
            && res.access_token@ == parsed.unwrap().token@,
        !(status_success && parsed is Some) ==> res.data.is_blank()
            && res.access_token@.len() == 0,
{
    if status_success {
        match parsed {
            Some(data) => {
                let access_token = data.token.clone();
                return RotatedTokens { data, access_token };
            },
            None => {},
        }
    }
    RotatedTokens { data: ResponseData::default(), access_token: String::new() }
}

/// The Slack part of a user's profile.
#[derive(Debug)]
pub struct SlackConfig {
    pub refresh_token: String,
    pub app_id: String,
    pub client_id: String,
    pub client_secret: String,
    pub verif_token: String,
    pub oauth_url: String,
    pub config_token: String,
}

/// The credentials that Slack hands out for a newly created app.
#[derive(Debug)]
pub struct AppCredentials {
    pub client_id: String,
    pub client_secret: String,
    pub verification_token: String,
}

/// Slack's answer to `apps.manifest.create`, as far as it is kept.
#[derive(Debug)]
pub struct CreatedApp {
    pub credentials: AppCredentials,
    pub oauth_authorize_url: String,
}

/// Records a newly created app in the user's Slack profile: its credentials
/// and OAuth URL, the configuration token it was created with and the refresh
/// token that was accepted. The app id is left as it was.
pub fn record_created_app(
    slack: &mut SlackConfig,
    created: CreatedApp,
    config_token: String,
    refresh_token: String,
)
    ensures
        final(slack).client_id == created.credentials.client_id,
        final(slack).client_secret == created.credentials.client_secret,
        final(slack).verif_token == created.credentials.verification_token,
        final(slack).oauth_url == created.oauth_authorize_url,
        final(slack).config_token == config_token,
        final(slack).refresh_token == refresh_token,
        final(slack).app_id == old(slack).app_id,
{
    slack.client_id = created.credentials.client_id;
    slack.client_secret = created.credentials.client_secret;
    slack.verif_token = created.credentials.verification_token;
    slack.oauth_url = created.oauth_authorize_url;
    slack.config_token = config_token;
    slack.refresh_token = refresh_token;
}

/// Law: a pasted token is accepted exactly when it starts with `xoxe` and not
/// with `xoxe.xoxp`, whatever its length or its other characters.
pub proof fn lemma_refresh_token_accepted_iff(token: Seq<char>)
    ensures
        refresh_token_refusal(token) is None <==> ("xoxe"@.is_prefix_of(token)
            && !"xoxe.xoxp"@.is_prefix_of(token)),
{
    reveal_strlit("xoxe");
    reveal_strlit("xoxe.xoxp");
    if "xoxe.xoxp"@.is_prefix_of(token) {
        assert("xoxe"@ =~= "xoxe.xoxp"@.subrange(0, 4));
        assert("xoxe"@ =~= token.subrange(0, 4));
    }
}

/// Law: a pasted token that does not start with `xoxe` is refused: as an
/// empty clipboard when it is a lone line break, as incorrect otherwise. A
/// token that starts with `xoxe.xoxp` is refused as an access token.
pub proof fn lemma_refresh_token_refusals(token: Seq<char>)
    ensures
        !"xoxe"@.is_prefix_of(token) ==> refresh_token_refusal(token) == Some(
            if token == "\n"@ {
                RefreshTokenError::EmptyClipboard
            } else {
                RefreshTokenError::Incorrect
            },
        ),
        "xoxe.xoxp"@.is_prefix_of(token) ==> refresh_token_refusal(token) == Some(
            RefreshTokenError::AccessTokenGiven,
        ),
{
    reveal_strlit("xoxe");
    reveal_strlit("xoxe.xoxp");
    if "xoxe.xoxp"@.is_prefix_of(token) {
        assert("xoxe"@ =~= "xoxe.xoxp"@.subrange(0, 4));
        assert("xoxe"@ =~= token.subrange(0, 4));
    }
}

} // verus!

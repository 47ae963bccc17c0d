//! Verified core of the Lounge Lizard chat client: the emoji table used to
//! render Slack reactions, the checks and bookkeeping around Slack app setup
//! and token rotation, the search for the ngrok tunnel that the Slack app
//! manifest is pointed at, and the Microsoft Teams login pane.

mod emoji;
mod manifest;
mod slack_setup;
mod teams;
mod text;
mod tunnels;

pub use emoji::{
    emoji_entries, emoji_for, emoji_table, get_emoji, is_first_match, lemma_emoji_entry_found,
    lemma_emoji_determines_name, lemma_emoji_names_distinct, lemma_emoji_values_distinct,
};
pub use manifest::{
    lemma_first_tunnel_is_the_target, lemma_no_tunnel_url_changes_nothing,
    lemma_retarget_idempotent, lemma_retarget_keeps_fields, manifest_for_tunnel,
    manifest_from_json, manifest_from_text, manifest_sans_urls, manifest_urls, manifest_urls_of,
    read_manifest, retarget_at_first_tunnel, retarget_manifest, retarget_parses, retargeted,
    try_retarget_manifest, tunnel_redirect, url_field_count, url_serialization, url_text,
    ManifestUrls, ManifestUrlsView, TunnelRetarget,
};
pub use slack_setup::{
    check_refresh_token, lemma_refresh_token_accepted_iff, lemma_refresh_token_refusals,
    record_created_app, refresh_token_refusal, rotation_outcome,
    AppCredentials, CreatedApp, RefreshTokenError, ResponseData, RotatedTokens, SlackConfig,
};
pub use teams::{
    after_login_reply, apply_login_reply, apply_store_outcome, close_login_pane,
    lemma_failed_login_changes_only_error, lemma_failed_login_is_sticky,
    lemma_login_saves_its_tokens, lemma_successful_login_keeps_state, login_failure_text,
    login_pane_class, save_step, teams_platform, teams_tokens, MsTeamsTokens, SaveStep, StoreOutcome,
    TeamsLoginView,
};
pub use tunnels::{
    connect_run, connect_step, first_public_url, lemma_connect_ends_within_three_steps,
    lemma_connect_run_shape, lemma_connect_step_outcomes, lemma_lookup_ignores_later_tunnels,
    lemma_lookup_reads_first_tunnel,
    public_url_lookup, spec_connect_step, ConnectAction, ConnectPhase,
    Tunnel, TunnelLookupError, TunnelsReply, NGROK_PORT, NGROK_START_WAIT_SECS,
};

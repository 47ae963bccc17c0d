# loungelizard

The verified core of the Lounge Lizard chat client, written in Verus.

- `src/` is the library. Its functions carry contracts that Verus proves,
  except the small wrappers around outside crates in `manifest.rs`, whose
  contracts are trusted: `parse_url` (`url::Url::parse`), `parse_manifest`
  (`serde_json` into `slack_morphism::SlackAppManifest`), and
  `read_manifest_urls`, `set_event_request_url` and `set_oauth_redirect_urls`,
  which read and set the two URL fields of a parsed manifest:
  - `emoji.rs`: the table of Slack reaction names and their emoji, and
    `get_emoji`;
  - `slack_setup.rs`: which pasted refresh tokens are accepted, what a token
    rotation yields, and what is recorded once Slack has created the app;
  - `tunnels.rs`: the order in which ngrok's tunnels are fetched and an ngrok
    session is started, and reading the public URL from ngrok's answer;
  - `manifest.rs`: reading the Slack app manifest and pointing it at that
    URL;
  - `teams.rs`: the Microsoft Teams login pane;
  - `text.rs`: character-level helpers.
- `app/` holds the I/O around it: the manifest file, the HTTP calls to ngrok
  and Slack, MongoDB, and the Dioxus component of the Teams login pane.
- `tests/` runs the library on concrete values.

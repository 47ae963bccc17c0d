use loungelizard::{
    manifest_for_tunnel, manifest_from_text, manifest_urls, read_manifest, retarget_at_first_tunnel,
    retarget_manifest, try_retarget_manifest, ManifestUrls, Tunnel, TunnelLookupError,
    TunnelsReply,
};

const FULL: &str = r#"{
  "display_information": { "name": "Lounge Lizard", "description": "chat" },
  "settings": {
    "event_subscriptions": { "request_url": "https://old.example.com/slack/events" },
    "socket_mode_enabled": false
  },
  "oauth_config": {
    "redirect_urls": ["https://old.example.com/a", "https://old.example.com/b"]
  }
}"#;

const NO_URLS: &str = r#"{"display_information": {"name": "x"}}"#;

const ONLY_REDIRECTS: &str = r#"{
  "display_information": { "name": "x" },
  "settings": { "event_subscriptions": {} },
  "oauth_config": { "redirect_urls": [] }
}"#;

fn urls_of(text: &str) -> ManifestUrls {
    manifest_urls(&manifest_from_text(text))
}

fn old_urls() -> (Option<String>, Option<Vec<String>>) {
    (
        Some("https://old.example.com/slack/events".to_string()),
        Some(vec!["https://old.example.com/a".to_string(), "https://old.example.com/b".to_string()]),
    )
}

#[test]
fn manifest_text_is_read() {
    let urls = urls_of(FULL);
    assert_eq!((urls.event_request_url, urls.oauth_redirect_urls), old_urls());
    let manifest = read_manifest(FULL).expect("manifest parses");
    assert_eq!(manifest.display_information.name, "Lounge Lizard");
    assert_eq!(manifest.display_information.description, Some("chat".to_string()));
}

#[test]
fn manifest_without_url_fields() {
    let urls = urls_of(NO_URLS);
    assert_eq!(urls.event_request_url, None);
    assert_eq!(urls.oauth_redirect_urls, None);
}

#[test]
fn bad_manifest_text_is_refused() {
    assert!(read_manifest("not json").is_none());
    assert!(read_manifest(r#"{"settings": {}}"#).is_none());
    assert!(read_manifest(r#"{"display_information": {"name": "x"}, "oauth_config": {"redirect_urls": ["no url"]}}"#).is_none());
}

#[test]
fn retarget_sets_parsed_url_everywhere() {
    let mut m = manifest_from_text(FULL);
    assert!(try_retarget_manifest(&mut m, "https://ab12.ngrok-free.app"));
    let urls = manifest_urls(&m);
    // the URL is stored as parsed, so the empty path is written as '/'
    assert_eq!(urls.event_request_url, Some("https://ab12.ngrok-free.app/".to_string()));
    assert_eq!(urls.oauth_redirect_urls, Some(vec!["https://ab12.ngrok-free.app/".to_string()]));
    assert_eq!(m.display_information.name, "Lounge Lizard");
    assert_eq!(m.settings.as_ref().and_then(|s| s.socket_mode_enabled), Some(false));
}

#[test]
fn retarget_normalizes_the_url() {
    let mut m = manifest_from_text(FULL);
    assert!(try_retarget_manifest(&mut m, "HTTPS://AB12.Ngrok-Free.App/path"));
    assert_eq!(manifest_urls(&m).event_request_url, Some("https://ab12.ngrok-free.app/path".to_string()));
}

#[test]
fn retarget_keeps_absent_fields_absent() {
    let mut m = manifest_from_text(ONLY_REDIRECTS);
    assert!(try_retarget_manifest(&mut m, "https://x.ngrok.app/cb"));
    let urls = manifest_urls(&m);
    assert_eq!(urls.event_request_url, None);
    assert_eq!(urls.oauth_redirect_urls, Some(vec!["https://x.ngrok.app/cb".to_string()]));

    let mut m = manifest_from_text(NO_URLS);
    retarget_manifest(&mut m, "https://x.ngrok.app/cb");
    let urls = manifest_urls(&m);
    assert_eq!(urls.event_request_url, None);
    assert_eq!(urls.oauth_redirect_urls, None);
}

#[test]
fn empty_redirect_changes_nothing() {
    let mut m = manifest_from_text(FULL);
    assert!(try_retarget_manifest(&mut m, ""));
    let urls = manifest_urls(&m);
    assert_eq!((urls.event_request_url, urls.oauth_redirect_urls), old_urls());
}

#[test]
fn unparsable_redirect_is_refused() {
    let mut m = manifest_from_text(FULL);
    assert!(!try_retarget_manifest(&mut m, "not a url"));
    let urls = manifest_urls(&m);
    assert_eq!((urls.event_request_url, urls.oauth_redirect_urls), old_urls());
}

#[test]
fn unparsable_redirect_without_fields_is_harmless() {
    let mut m = manifest_from_text(NO_URLS);
    assert!(try_retarget_manifest(&mut m, "not a url"));
    assert_eq!(manifest_urls(&m).event_request_url, None);
}

#[test]
fn retarget_twice_is_retarget_once() {
    let mut once = manifest_from_text(FULL);
    assert!(try_retarget_manifest(&mut once, "https://ab12.ngrok-free.app"));
    let mut twice = manifest_from_text(FULL);
    assert!(try_retarget_manifest(&mut twice, "https://ab12.ngrok-free.app"));
    assert!(try_retarget_manifest(&mut twice, "https://ab12.ngrok-free.app"));
    assert_eq!(once, twice);
}

fn reply_with(urls: &[Option<&str>]) -> TunnelsReply {
    TunnelsReply {
        tunnels: Some(urls.iter().map(|u| Tunnel { public_url: u.map(|s| s.to_string()) }).collect()),
    }
}

#[test]
fn retarget_at_first_tunnel_uses_its_url() {
    let mut m = manifest_from_text(FULL);
    let out = retarget_at_first_tunnel(
        &mut m,
        &reply_with(&[Some("https://ab12.ngrok-free.app"), Some("https://zz.app")]),
    );
    assert_eq!(out.lookup_error, None);
    assert!(out.applied);
    assert_eq!(out.unset_fields, 0);
    let urls = manifest_urls(&m);
    assert_eq!(urls.event_request_url, Some("https://ab12.ngrok-free.app/".to_string()));
    assert_eq!(urls.oauth_redirect_urls, Some(vec!["https://ab12.ngrok-free.app/".to_string()]));
}

#[test]
fn retarget_at_first_tunnel_without_url_changes_nothing() {
    let mut m = manifest_from_text(FULL);
    let out = retarget_at_first_tunnel(&mut m, &TunnelsReply { tunnels: None });
    assert_eq!(out.lookup_error, Some(TunnelLookupError::NoTunnelsField));
    assert!(out.applied);
    assert_eq!(out.unset_fields, 2);

    let out = retarget_at_first_tunnel(&mut m, &reply_with(&[]));
    assert_eq!(out.lookup_error, Some(TunnelLookupError::NoTunnels));
    let out = retarget_at_first_tunnel(&mut m, &reply_with(&[None]));
    assert_eq!(out.lookup_error, Some(TunnelLookupError::NoPublicUrl));
    let urls = manifest_urls(&m);
    assert_eq!((urls.event_request_url, urls.oauth_redirect_urls), old_urls());

    let mut m = manifest_from_text(NO_URLS);
    let out = retarget_at_first_tunnel(&mut m, &TunnelsReply { tunnels: None });
    assert_eq!(out.unset_fields, 0);
}

#[test]
fn retarget_at_first_tunnel_with_bad_url_is_not_applied() {
    let mut m = manifest_from_text(FULL);
    let out = retarget_at_first_tunnel(&mut m, &reply_with(&[Some("ngrok tunnel")]));
    assert_eq!(out.lookup_error, None);
    assert!(!out.applied);
    assert_eq!(m, manifest_from_text(FULL));
}

#[test]
fn manifest_for_tunnel_retargets() {
    let (manifest, outcome) =
        manifest_for_tunnel(FULL, &reply_with(&[Some("https://ab12.ngrok-free.app")]))
            .expect("manifest parses");
    assert!(outcome.applied);
    assert_eq!(outcome.lookup_error, None);
    assert_eq!(outcome.unset_fields, 0);
    let urls = manifest_urls(&manifest);
    assert_eq!(urls.event_request_url, Some("https://ab12.ngrok-free.app/".to_string()));
    assert_eq!(urls.oauth_redirect_urls, Some(vec!["https://ab12.ngrok-free.app/".to_string()]));
    assert_eq!(manifest.display_information.name, "Lounge Lizard");
}

#[test]
fn manifest_for_tunnel_without_url_counts_unset_fields() {
    let (manifest, outcome) =
        manifest_for_tunnel(FULL, &TunnelsReply { tunnels: None }).expect("manifest parses");
    assert_eq!(outcome.lookup_error, Some(TunnelLookupError::NoTunnelsField));
    assert_eq!(outcome.unset_fields, 2);
    assert_eq!(manifest, manifest_from_text(FULL));

    let (_manifest, outcome) =
        manifest_for_tunnel(FULL, &reply_with(&[Some("")])).expect("manifest parses");
    assert_eq!(outcome.lookup_error, None);
    assert_eq!(outcome.unset_fields, 2);
    assert!(outcome.applied);
}

#[test]
fn manifest_for_bad_text() {
    assert!(manifest_for_tunnel("{", &reply_with(&[Some("https://a.app")])).is_none());
}

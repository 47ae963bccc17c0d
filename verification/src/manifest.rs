//! Reading the Slack app manifest and pointing it at the public URL of the
//! ngrok tunnel: the event subscription request URL and the OAuth redirect
//! URLs.

use vstd::prelude::*;

use crate::tunnels::{first_public_url, public_url_lookup, TunnelLookupError, TunnelsReply};

verus! {

/// A URL, as the `url` crate models it.
#[verifier::external_type_specification]
#[verifier::external_body]
pub struct ExUrl(url::Url);

/// A Slack app manifest, as `slack_morphism` models it.
#[verifier::external_type_specification]
#[verifier::external_body]
pub struct ExSlackAppManifest(slack_morphism::SlackAppManifest);

/// The serialization of the URL that `url::Url::parse` makes of `input`, or
/// `None` when it refuses `input`.
pub uninterp spec fn url_serialization(input: Seq<char>) -> Option<Seq<char>>;

/// The serialization of a URL (what `url::Url::as_str` gives).
pub uninterp spec fn url_text(url: url::Url) -> Seq<char>;

/// The Slack app manifest that `serde_json` parses from the JSON text `text`,
/// or `None` when the text does not parse as a manifest.
pub uninterp spec fn manifest_from_json(text: Seq<char>) -> Option<slack_morphism::SlackAppManifest>;

/// The URLs that a manifest holds, each as its serialization: the event
/// subscription request URL (`None` when the manifest has no settings, no
/// event subscriptions or no request URL) and the OAuth redirect URLs (`None`
/// when it has no OAuth configuration or no redirect URLs).
pub uninterp spec fn manifest_urls_of(manifest: slack_morphism::SlackAppManifest) -> ManifestUrlsView;

/// Everything else that a manifest holds: the manifest with its event
/// subscription request URL and its OAuth redirect URLs taken out.
pub uninterp spec fn manifest_sans_urls(
    manifest: slack_morphism::SlackAppManifest,
) -> slack_morphism::SlackAppManifest;

/// Parses `input` as an absolute URL with `url::Url::parse`, or gives `None`
/// when the crate refuses the input. The contract claims only that the
/// outcome is the one that `url_serialization` names for `input`.
#[verifier::external_body]
fn parse_url(input: &str) -> (res: Option<url::Url>)
    ensures
        res is Some <==> url_serialization(input@) is Some,
        res matches Some(url) ==> url_serialization(input@) == Some(url_text(url)),
{
    url::Url::parse(input).ok()
}

/// Parses the JSON text of a Slack app manifest with
/// `serde_json::from_str::<slack_morphism::SlackAppManifest>`, or gives `None`
/// when it does not parse. The contract claims only that the outcome is the
/// one that `manifest_from_json` names for the text.
#[verifier::external_body]
fn parse_manifest(text: &str) -> (res: Option<slack_morphism::SlackAppManifest>)
    ensures
        res == manifest_from_json(text@),
{
    serde_json::from_str(text).ok()
}

/// Reads the two URL fields of a manifest, each URL as its serialization
/// (`Url::to_string`).
#[verifier::external_body]
fn read_manifest_urls(manifest: &slack_morphism::SlackAppManifest) -> (res: ManifestUrls)
    ensures
        res@ == manifest_urls_of(*manifest),
{
    let events = manifest.settings.as_ref().and_then(|s| s.event_subscriptions.as_ref());
    let event_request_url = events.and_then(|e| e.request_url.as_ref()).map(|u| u.to_string());
    let oauth = manifest.oauth_config.as_ref().and_then(|o| o.redirect_urls.as_ref());
    let oauth_redirect_urls = oauth.map(|us| us.iter().map(|u| u.to_string()).collect());
    ManifestUrls { event_request_url, oauth_redirect_urls }
}

/// Replaces the event subscription request URL of a manifest that has one.
/// The contract claims that the manifest then holds `url` there, and that
/// nothing else in it changes.
#[verifier::external_body]
fn set_event_request_url(manifest: &mut slack_morphism::SlackAppManifest, url: url::Url)
    requires
        manifest_urls_of(*old(manifest)).event_request_url is Some,
    ensures
        manifest_urls_of(*final(manifest)) == (ManifestUrlsView {
            event_request_url: Some(url_text(url)),
            oauth_redirect_urls: manifest_urls_of(*old(manifest)).oauth_redirect_urls,
        }),
        manifest_sans_urls(*final(manifest)) == manifest_sans_urls(*old(manifest)),
{
    let events = manifest.settings.as_mut().and_then(|s| s.event_subscriptions.as_mut());
    events.unwrap().request_url = Some(url);
}

/// Replaces the OAuth redirect URLs of a manifest that has them. The contract
/// claims that the manifest then holds `urls` there, in order, and that
/// nothing else in it changes.
#[verifier::external_body]
fn set_oauth_redirect_urls(manifest: &mut slack_morphism::SlackAppManifest, urls: Vec<url::Url>)
    requires
        manifest_urls_of(*old(manifest)).oauth_redirect_urls is Some,
    ensures
        manifest_urls_of(*final(manifest)) == (ManifestUrlsView {
            event_request_url: manifest_urls_of(*old(manifest)).event_request_url,
            oauth_redirect_urls: Some(urls@.map_values(|u: url::Url| url_text(u))),
        }),
        manifest_sans_urls(*final(manifest)) == manifest_sans_urls(*old(manifest)),
{
    manifest.oauth_config.as_mut().unwrap().redirect_urls = Some(urls);
}

/// The URLs of a Slack app manifest that point at this client: the event
/// subscription request URL (`None` when the manifest has no settings, no
/// event subscriptions or no request URL) and the OAuth redirect URLs (`None`
/// when the manifest has no OAuth configuration or no redirect URLs). Each
/// URL is held as its serialization.
#[derive(Debug)]
pub struct ManifestUrls {
    pub event_request_url: Option<String>,
    pub oauth_redirect_urls: Option<Vec<String>>,
}

/// The contents of `ManifestUrls`, as text.
pub struct ManifestUrlsView {
    pub event_request_url: Option<Seq<char>>,
    pub oauth_redirect_urls: Option<Seq<Seq<char>>>,
}

impl View for ManifestUrls {
    type V = ManifestUrlsView;

    open spec fn view(&self) -> ManifestUrlsView {
        ManifestUrlsView {
            event_request_url: match self.event_request_url {
                Some(u) => Some(u@),
                None => None,
            },
            oauth_redirect_urls: match self.oauth_redirect_urls {
                Some(us) => Some(us@.map_values(|u: String| u@)),
                None => None,
            },
        }
    }
}

/// Retargeting at `redirect` has to parse it: it is not empty and the
/// manifest holds at least one of the two URL fields.
pub open spec fn retarget_parses(m: ManifestUrlsView, redirect: Seq<char>) -> bool {
    &&& redirect.len() > 0
    &&& (m.event_request_url is Some || m.oauth_redirect_urls is Some)
}

/// The manifest once it points at `redirect`: an empty `redirect` changes
/// nothing; otherwise the request URL, where there is one, becomes the parsed
/// URL, and the redirect URLs, where there are any, become that URL alone.
pub open spec fn retargeted(m: ManifestUrlsView, redirect: Seq<char>) -> ManifestUrlsView {
    if redirect.len() == 0 {
        m
    } else {
        let url = url_serialization(redirect).unwrap();
        ManifestUrlsView {
            event_request_url: match m.event_request_url {
                Some(_) => Some(url),
                None => None,
            },
            oauth_redirect_urls: match m.oauth_redirect_urls {
                Some(_) => Some(seq![url]),
                None => None,
            },
        }
    }
}

/// The URLs that a manifest holds.
pub fn manifest_urls(manifest: &slack_morphism::SlackAppManifest) -> (res: ManifestUrls)
    ensures
        res@ == manifest_urls_of(*manifest),
{
    read_manifest_urls(manifest)
}

/// The manifest written in the JSON text `text`, which must parse
/// (`read_manifest` checks that first).
pub fn manifest_from_text(text: &str) -> (res: slack_morphism::SlackAppManifest)
    requires
        manifest_from_json(text@) is Some,
    ensures
        manifest_from_json(text@) == Some(res),
{
    parse_manifest(text).unwrap()
}

/// The manifest written in the JSON text `text`, or `None` when the text does
/// not parse as a manifest.
pub fn read_manifest(text: &str) -> (res: Option<slack_morphism::SlackAppManifest>)
    ensures
        res == manifest_from_json(text@),
{
    if parse_manifest(text).is_some() {
        Some(manifest_from_text(text))
    } else {
        None
    }
}

/// Points the manifest at `redirect_url`, the public URL of the tunnel. The
/// URL must parse wherever it is needed (`try_retarget_manifest` checks that
/// first). Nothing but the two URL fields changes.
pub fn retarget_manifest(manifest: &mut slack_morphism::SlackAppManifest, redirect_url: &str)
    requires
        retarget_parses(manifest_urls_of(*old(manifest)), redirect_url@) ==> url_serialization(
            redirect_url@,
        ) is Some,
    ensures
        manifest_urls_of(*final(manifest)) == retargeted(
            manifest_urls_of(*old(manifest)),
            redirect_url@,
        ),
        manifest_sans_urls(*final(manifest)) == manifest_sans_urls(*old(manifest)),
{
    if redirect_url.is_empty() {
        return;
    }
    let urls = read_manifest_urls(manifest);
    if urls.event_request_url.is_some() {
        let url = parse_url(redirect_url).unwrap();
        set_event_request_url(manifest, url);
    }
    if urls.oauth_redirect_urls.is_some() {
        let url = parse_url(redirect_url).unwrap();
        let ghost text = url_text(url);
        let new_urls = vec![url];
        proof {
            assert(new_urls@.map_values(|u: url::Url| url_text(u)) =~= seq![text]);
        }
        set_oauth_redirect_urls(manifest, new_urls);
    }
}

/// Points the manifest at `redirect_url` when the URL parses wherever it is
/// needed, and says whether it did; otherwise the manifest is left as it was.
pub fn try_retarget_manifest(
    manifest: &mut slack_morphism::SlackAppManifest,
    redirect_url: &str,
) -> (res: bool)
    ensures
        res <==> !(retarget_parses(manifest_urls_of(*old(manifest)), redirect_url@)
            && url_serialization(redirect_url@) is None),
        res ==> manifest_urls_of(*final(manifest)) == retargeted(
            manifest_urls_of(*old(manifest)),
            redirect_url@,
        ),
        res ==> manifest_sans_urls(*final(manifest)) == manifest_sans_urls(*old(manifest)),
        !res ==> *final(manifest) == *old(manifest),
{
    let urls = read_manifest_urls(manifest);
    let needs_parse = !redirect_url.is_empty() && (urls.event_request_url.is_some()
        || urls.oauth_redirect_urls.is_some());
    if needs_parse {
        let parsed = parse_url(redirect_url);
        if parsed.is_none() {
            return false;
        }
    }
    retarget_manifest(manifest, redirect_url);
    true
}

/// The URL that the manifest is pointed at for ngrok's answer: the public URL
/// of the first tunnel, or the empty text (which changes nothing) when there
/// is none.
pub open spec fn tunnel_redirect(reply: TunnelsReply) -> Seq<char> {
    match public_url_lookup(reply) {
        Ok(url) => url,
        Err(_) => Seq::empty(),
    }
}

/// What pointing the manifest at ngrok's first tunnel did.
#[derive(Debug)]
pub struct TunnelRetarget {
    /// Why no public URL could be read, if none could.
    pub lookup_error: Option<TunnelLookupError>,
    /// Whether the manifest was retargeted; `false` when the tunnel's URL does
    /// not parse where it is needed.
    pub applied: bool,
    /// How many URL fields of the manifest were left as they were because the
    /// tunnel gave no URL (or an empty one).
    pub unset_fields: u8,
}

/// How many of the two URL fields the manifest holds.
pub open spec fn url_field_count(m: ManifestUrlsView) -> nat {
    (if m.event_request_url is Some {
        1nat
    } else {
        0nat
    }) + (if m.oauth_redirect_urls is Some {
        1nat
    } else {
        0nat
    })
}

/// Points the manifest at the public URL of ngrok's first tunnel. When no
/// URL can be read, the manifest is left as it is and the reason is
/// reported. Nothing but the two URL fields changes.
pub fn retarget_at_first_tunnel(
    manifest: &mut slack_morphism::SlackAppManifest,
    reply: &TunnelsReply,
) -> (res: TunnelRetarget)
    ensures
        res.lookup_error == (match public_url_lookup(*reply) {
            Ok(_) => None,
            Err(e) => Some(e),
        }),
        res.applied <==> !(retarget_parses(manifest_urls_of(*old(manifest)), tunnel_redirect(*reply))
            && url_serialization(tunnel_redirect(*reply)) is None),
        res.applied ==> manifest_urls_of(*final(manifest)) == retargeted(
            manifest_urls_of(*old(manifest)),
            tunnel_redirect(*reply),
        ),
        res.applied ==> manifest_sans_urls(*final(manifest)) == manifest_sans_urls(*old(manifest)),
        !res.applied ==> *final(manifest) == *old(manifest),
        res.unset_fields == (if tunnel_redirect(*reply).len() == 0 {
            url_field_count(manifest_urls_of(*old(manifest)))
        } else {
            0
        }),
{
    let urls = read_manifest_urls(manifest);
    let mut present: u8 = 0;
    if urls.event_request_url.is_some() {
        present = present + 1;
    }
    if urls.oauth_redirect_urls.is_some() {
        present = present + 1;
    }
    match first_public_url(reply) {
        Ok(url) => {
            let unset_fields = if url.as_str().is_empty() {
                present
            } else {
                0
            };
            let applied = try_retarget_manifest(manifest, url.as_str());
            TunnelRetarget { lookup_error: None, applied, unset_fields }
        },
        Err(e) => TunnelRetarget { lookup_error: Some(e), applied: true, unset_fields: present },
    }
}

/// Reads the Slack app manifest from its JSON text and points it at the
/// public URL of ngrok's first tunnel. `None` when the text does not parse as
/// a manifest; otherwise the manifest, retargeted where that was applied and
/// otherwise as written, and what the retargeting did.
pub fn manifest_for_tunnel(text: &str, reply: &TunnelsReply) -> (res: Option<
    (slack_morphism::SlackAppManifest, TunnelRetarget),
>)
    ensures
        res is Some <==> manifest_from_json(text@) is Some,
        res matches Some((manifest, outcome)) ==> {
            let written = manifest_from_json(text@).unwrap();
            &&& outcome.lookup_error == (match public_url_lookup(*reply) {
                Ok(_) => None,
                Err(e) => Some(e),
            })
            &&& outcome.applied <==> !(retarget_parses(
                manifest_urls_of(written),
                tunnel_redirect(*reply),
            ) && url_serialization(tunnel_redirect(*reply)) is None)
            &&& outcome.applied ==> manifest_urls_of(manifest) == retargeted(
                manifest_urls_of(written),
                tunnel_redirect(*reply),
            )
            &&& outcome.applied ==> manifest_sans_urls(manifest) == manifest_sans_urls(written)
            &&& !outcome.applied ==> manifest == written
            &&& outcome.unset_fields == (if tunnel_redirect(*reply).len() == 0 {
                url_field_count(manifest_urls_of(written))
            } else {
                0
            })
        },
{
    match read_manifest(text) {
        Some(manifest) => {
            let mut manifest = manifest;
            let outcome = retarget_at_first_tunnel(&mut manifest, reply);
            Some((manifest, outcome))
        },
        None => None,
    }
}

/// Law: pointing a manifest at the same URL twice is the same as once.
pub proof fn lemma_retarget_idempotent(m: ManifestUrlsView, redirect: Seq<char>)
    ensures
        retargeted(retargeted(m, redirect), redirect) == retargeted(m, redirect),
{
}

/// Law: retargeting never adds or removes a URL field, and when it parses
/// the URL every field that is there holds that URL and nothing else.
pub proof fn lemma_retarget_keeps_fields(m: ManifestUrlsView, redirect: Seq<char>)
    ensures
        retargeted(m, redirect).event_request_url is Some <==> m.event_request_url is Some,
        retargeted(m, redirect).oauth_redirect_urls is Some <==> m.oauth_redirect_urls is Some,
        retarget_parses(m, redirect) ==> (url_serialization(redirect) matches Some(url) ==> {
            &&& m.event_request_url is Some ==> retargeted(m, redirect).event_request_url
                == Some(url)
            &&& m.oauth_redirect_urls is Some ==> retargeted(m, redirect).oauth_redirect_urls
                == Some(seq![url])
        }),
{
}

/// Law: when the first tunnel of ngrok's answer has a public URL `u`, the
/// manifest is pointed at `u` itself, whatever other tunnels the answer
/// lists; and when `u` is not empty and parses, every URL field that the
/// manifest has then holds the parsed `u`.
pub proof fn lemma_first_tunnel_is_the_target(
    m: ManifestUrlsView,
    reply: TunnelsReply,
    u: Seq<char>,
)
    requires
        reply.tunnels matches Some(ts) && ts@.len() > 0 && (ts@[0].public_url matches Some(
            first,
        ) && first@ == u),
    ensures
        tunnel_redirect(reply) == u,
        u.len() > 0 && url_serialization(u) is Some ==> {
            &&& m.event_request_url is Some ==> retargeted(m, tunnel_redirect(reply)).event_request_url
                == Some(url_serialization(u).unwrap())
            &&& m.oauth_redirect_urls is Some ==> retargeted(
                m,
                tunnel_redirect(reply),
            ).oauth_redirect_urls == Some(seq![url_serialization(u).unwrap()])
        },
{
}

/// Law: when ngrok's answer gives no public URL, the manifest is not changed.
pub proof fn lemma_no_tunnel_url_changes_nothing(m: ManifestUrlsView, reply: TunnelsReply)
    requires
        public_url_lookup(reply) is Err,
    ensures
        tunnel_redirect(reply).len() == 0,
        retargeted(m, tunnel_redirect(reply)) == m,
{
}

} // verus!

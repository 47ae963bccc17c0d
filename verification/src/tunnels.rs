//! Finding the public address of the local ngrok tunnel: the order in which
//! tunnels are fetched and an ngrok session is started, and the reading of
//! the public URL from ngrok's list of tunnels.

use vstd::prelude::*;

verus! {

/// The local port that an ngrok session is started for.
pub const NGROK_PORT: &'static str = "8080";

/// How long to wait, in seconds, for a fresh ngrok session before asking it
/// for its tunnels again.
pub const NGROK_START_WAIT_SECS: u64 = 1;

/// Where the search for a tunnel stands: the outcome of the step it names is
/// awaited.
#[derive(Debug, Clone, Copy, PartialEq, Eq, Structural)]
pub enum ConnectPhase {
    /// The tunnels of an already running ngrok were asked for.
    FirstFetch,
    /// An ngrok session was started.
    StartingSession,
    /// The tunnels were asked for again after starting the session.
    Refetch,
}

/// What to do next in the search for a tunnel.
#[derive(Debug, Clone, Copy, PartialEq, Eq, Structural)]
pub enum ConnectAction {
    /// Read the public URL from the tunnels just fetched.
    UseTunnels,
    /// Start an ngrok session on `NGROK_PORT`.
    StartSession,
    /// Wait `NGROK_START_WAIT_SECS` seconds, then fetch the tunnels again.
    WaitThenRefetch,
    /// Give up with the error of the last fetch.
    FailWithFetchError,
    /// Give up with the error of the session start.
    FailWithSessionError,
}

impl ConnectAction {
    /// The phase that the action leads to, or `None` when it ends the search.
    pub open spec fn spec_next_phase(self) -> Option<ConnectPhase> {
        match self {
            ConnectAction::StartSession => Some(ConnectPhase::StartingSession),
            ConnectAction::WaitThenRefetch => Some(ConnectPhase::Refetch),
            _ => None,
        }
    }

    /// The phase that the action leads to, or `None` when it ends the search.
    pub fn next_phase(&self) -> (res: Option<ConnectPhase>)
        ensures
            res == self.spec_next_phase(),
    {
        match self {
            ConnectAction::StartSession => Some(ConnectPhase::StartingSession),
            ConnectAction::WaitThenRefetch => Some(ConnectPhase::Refetch),
            _ => None,
        }
    }
}

/// The next action, given the phase and whether its step succeeded: tunnels
/// already running are used; otherwise a session is started once, and after
/// a short wait the tunnels are fetched once more.
pub open spec fn spec_connect_step(phase: ConnectPhase, succeeded: bool) -> ConnectAction {
    match phase {
        ConnectPhase::FirstFetch => if succeeded {
            ConnectAction::UseTunnels
        } else {
            ConnectAction::StartSession
        },
        ConnectPhase::StartingSession => if succeeded {
            ConnectAction::WaitThenRefetch
        } else {
            ConnectAction::FailWithSessionError
        },
        ConnectPhase::Refetch => if succeeded {
            ConnectAction::UseTunnels
        } else {
            ConnectAction::FailWithFetchError
        },
    }
}

/// The next action, given the phase and whether its step succeeded.
pub fn connect_step(phase: ConnectPhase, succeeded: bool) -> (res: ConnectAction)
    ensures
        res == spec_connect_step(phase, succeeded),
{
    match phase {
        ConnectPhase::FirstFetch => if succeeded {
            ConnectAction::UseTunnels
        } else {
            ConnectAction::StartSession
        },
        ConnectPhase::StartingSession => if succeeded {
            ConnectAction::WaitThenRefetch
        } else {
            ConnectAction::FailWithSessionError
        },
        ConnectPhase::Refetch => if succeeded {
            ConnectAction::UseTunnels
        } else {
            ConnectAction::FailWithFetchError
        },
    }
}

/// The actions taken from `phase` when the steps succeed or fail as
/// `outcomes` says, up to and including the one that ends the search (or
/// until the outcomes run out).
pub open spec fn connect_run(phase: ConnectPhase, outcomes: Seq<bool>) -> Seq<ConnectAction>
    decreases outcomes.len(),
{
    if outcomes.len() == 0 {
        Seq::empty()
    } else {
        let action = spec_connect_step(phase, outcomes[0]);
        match action.spec_next_phase() {
            Some(next) => seq![action] + connect_run(next, outcomes.drop_first()),
            None => seq![action],
        }
    }
}

/// Law: started from the first fetch, the search ends after at most three
/// steps, whatever their outcomes: the third action at the latest ends it.
pub proof fn lemma_connect_ends_within_three_steps(outcomes: Seq<bool>)
    requires
        outcomes.len() >= 3,
    ensures
        connect_run(ConnectPhase::FirstFetch, outcomes).len() <= 3,
        connect_run(ConnectPhase::FirstFetch, outcomes).last().spec_next_phase() is None,
{
    reveal_with_fuel(connect_run, 4);
    assert(outcomes.drop_first().drop_first().len() >= 1);
}

/// Law: a session is started at most once, and the tunnels are used only
/// right after a fetch that succeeded.
pub proof fn lemma_connect_run_shape(outcomes: Seq<bool>)
    ensures
        forall|i: int, j: int|
            0 <= i < j < connect_run(ConnectPhase::FirstFetch, outcomes).len() ==> !(
            #[trigger] connect_run(ConnectPhase::FirstFetch, outcomes)[i]
                == ConnectAction::StartSession && #[trigger] connect_run(
                ConnectPhase::FirstFetch,
                outcomes,
            )[j] == ConnectAction::StartSession),
        forall|i: int|
            0 <= i < connect_run(ConnectPhase::FirstFetch, outcomes).len()
                && #[trigger] connect_run(ConnectPhase::FirstFetch, outcomes)[i]
                == ConnectAction::UseTunnels ==> outcomes[i],
{
    reveal_with_fuel(connect_run, 4);
    if outcomes.len() > 0 && !outcomes[0] {
        let rest = outcomes.drop_first();
        if rest.len() > 0 && rest[0] {
            let rest2 = rest.drop_first();
            assert(rest2 =~= outcomes.subrange(2, outcomes.len() as int));
        }
    }
}

/// Law: a fetch that succeeds ends the search with its tunnels; a failed
/// step never leads to using tunnels; only a failed first fetch starts a
/// session, and only a started session leads to fetching again.
pub proof fn lemma_connect_step_outcomes(phase: ConnectPhase, succeeded: bool)
    ensures
        phase != ConnectPhase::StartingSession && succeeded ==> spec_connect_step(phase, succeeded)
            == ConnectAction::UseTunnels,
        !succeeded ==> spec_connect_step(phase, succeeded) != ConnectAction::UseTunnels,
        spec_connect_step(phase, succeeded) == ConnectAction::StartSession <==> (phase
            == ConnectPhase::FirstFetch && !succeeded),
        spec_connect_step(phase, succeeded) == ConnectAction::WaitThenRefetch <==> (phase
            == ConnectPhase::StartingSession && succeeded),
        spec_connect_step(phase, succeeded) == ConnectAction::FailWithSessionError ==> phase
            == ConnectPhase::StartingSession,
        spec_connect_step(phase, succeeded) == ConnectAction::FailWithFetchError ==> phase
            == ConnectPhase::Refetch,
{
}

/// One tunnel in ngrok's list, as far as it is read: its public URL, when the
/// entry has one given as text.
#[derive(Debug)]
pub struct Tunnel {
    pub public_url: Option<String>,
}

/// ngrok's answer to a request for its tunnels: the list of tunnels, or
/// `None` when the answer has no `tunnels` list.
#[derive(Debug)]
pub struct TunnelsReply {
    pub tunnels: Option<Vec<Tunnel>>,
}

/// Why no public URL could be read from ngrok's answer.
#[derive(Debug, Clone, Copy, PartialEq, Eq, Structural)]
pub enum TunnelLookupError {
    /// The answer has no `tunnels` list.
    NoTunnelsField,
    /// The list of tunnels is empty.
    NoTunnels,
    /// The first tunnel has no public URL.
    NoPublicUrl,
}

impl TunnelLookupError {
    /// The message reported for this error.
    pub open spec fn spec_message(self) -> Seq<char> {
        match self {
            TunnelLookupError::NoTunnelsField => "Tunnels field not found in the response."@,
            TunnelLookupError::NoTunnels => "No tunnels found."@,
            TunnelLookupError::NoPublicUrl => "Public URL not found in the tunnel data."@,
        }
    }

    /// The message reported for this error.
    pub fn message(&self) -> (res: String)
        ensures
            res@ == self.spec_message(),
    {
        match self {
            TunnelLookupError::NoTunnelsField => "Tunnels field not found in the response.".to_owned(),
            TunnelLookupError::NoTunnels => "No tunnels found.".to_owned(),
            TunnelLookupError::NoPublicUrl => "Public URL not found in the tunnel data.".to_owned(),
        }
    }
}

/// What reading ngrok's answer gives: the public URL of the first tunnel, or
/// why there is none.
pub open spec fn public_url_lookup(reply: TunnelsReply) -> Result<Seq<char>, TunnelLookupError> {
    match reply.tunnels {
        None => Err(TunnelLookupError::NoTunnelsField),
        Some(tunnels) => if tunnels@.len() == 0 {
            Err(TunnelLookupError::NoTunnels)
        } else {
            match tunnels@[0].public_url {
                Some(url) => Ok(url@),
                None => Err(TunnelLookupError::NoPublicUrl),
            }
        },
    }
}

/// The public URL of the first tunnel in ngrok's answer.
pub fn first_public_url(reply: &TunnelsReply) -> (res: Result<String, TunnelLookupError>)
    ensures
        match res {
            Ok(url) => public_url_lookup(*reply) == Ok::<Seq<char>, TunnelLookupError>(url@),
            Err(e) => public_url_lookup(*reply) == Err::<Seq<char>, TunnelLookupError>(e),
        },
{
    match &reply.tunnels {
        None => Err(TunnelLookupError::NoTunnelsField),
        Some(tunnels) => {
            if tunnels.len() == 0 {
                Err(TunnelLookupError::NoTunnels)
            } else {
                match &tunnels[0].public_url {
                    Some(url) => Ok(url.clone()),
                    None => Err(TunnelLookupError::NoPublicUrl),
                }
            }
        },
    }
}

/// Law: reading ngrok's answer looks at the first tunnel only. An answer
/// without a list, or with an empty one, gives its error; otherwise the first
/// tunnel's public URL is the result when it has one, and `NoPublicUrl` when
/// it has none, whatever the later tunnels hold.
pub proof fn lemma_lookup_reads_first_tunnel(reply: TunnelsReply)
    ensures
        reply.tunnels is None ==> public_url_lookup(reply) == Err::<Seq<char>, TunnelLookupError>(
            TunnelLookupError::NoTunnelsField,
        ),
        reply.tunnels matches Some(ts) ==> (ts@.len() == 0 ==> public_url_lookup(reply) == Err::<
            Seq<char>,
            TunnelLookupError,
        >(TunnelLookupError::NoTunnels)),
        reply.tunnels matches Some(ts) ==> (ts@.len() > 0 ==> (ts@[0].public_url matches Some(u)
            ==> public_url_lookup(reply) == Ok::<Seq<char>, TunnelLookupError>(u@))),
        reply.tunnels matches Some(ts) ==> (ts@.len() > 0 ==> (ts@[0].public_url is None
            ==> public_url_lookup(reply) == Err::<Seq<char>, TunnelLookupError>(
            TunnelLookupError::NoPublicUrl,
        ))),
{
}

/// Law: two answers whose tunnel lists are both non-empty and start with
/// tunnels of the same public URL read the same, however the rest of the
/// lists differ.
pub proof fn lemma_lookup_ignores_later_tunnels(a: TunnelsReply, b: TunnelsReply)
    requires
        a.tunnels matches Some(ta) && ta@.len() > 0,
        b.tunnels matches Some(tb) && tb@.len() > 0,
        match (a.tunnels, b.tunnels) {
            (Some(ta), Some(tb)) => match (ta@[0].public_url, tb@[0].public_url) {
                (Some(ua), Some(ub)) => ua@ == ub@,
                (None, None) => true,
                _ => false,
            },
            _ => false,
        },
    ensures
        public_url_lookup(a) == public_url_lookup(b),
{
}

} // verus!

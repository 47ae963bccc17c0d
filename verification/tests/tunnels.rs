use loungelizard::{
    connect_step, first_public_url, ConnectAction, ConnectPhase, Tunnel, TunnelLookupError,
    TunnelsReply, NGROK_PORT, NGROK_START_WAIT_SECS,
};

#[test]
fn connect_steps() {
    assert_eq!(connect_step(ConnectPhase::FirstFetch, true), ConnectAction::UseTunnels);
    assert_eq!(connect_step(ConnectPhase::FirstFetch, false), ConnectAction::StartSession);
    assert_eq!(connect_step(ConnectPhase::StartingSession, true), ConnectAction::WaitThenRefetch);
    assert_eq!(
        connect_step(ConnectPhase::StartingSession, false),
        ConnectAction::FailWithSessionError
    );
    assert_eq!(connect_step(ConnectPhase::Refetch, true), ConnectAction::UseTunnels);
    assert_eq!(connect_step(ConnectPhase::Refetch, false), ConnectAction::FailWithFetchError);
}

#[test]
fn next_phases() {
    assert_eq!(ConnectAction::StartSession.next_phase(), Some(ConnectPhase::StartingSession));
    assert_eq!(ConnectAction::WaitThenRefetch.next_phase(), Some(ConnectPhase::Refetch));
    assert_eq!(ConnectAction::UseTunnels.next_phase(), None);
    assert_eq!(ConnectAction::FailWithFetchError.next_phase(), None);
    assert_eq!(ConnectAction::FailWithSessionError.next_phase(), None);
}

fn run(outcomes: &[bool]) -> Vec<ConnectAction> {
    let mut phase = ConnectPhase::FirstFetch;
    let mut actions = Vec::new();
    for &ok in outcomes {
        let action = connect_step(phase, ok);
        actions.push(action);
        match action.next_phase() {
            Some(next) => phase = next,
            None => break,
        }
    }
    actions
}

#[test]
fn search_ends_within_three_steps() {
    for mask in 0..8u32 {
        let outcomes: Vec<bool> = (0..3).map(|i| mask & (1 << i) != 0).collect();
        let actions = run(&outcomes);
        assert!(actions.len() <= 3);
        assert_eq!(actions.last().unwrap().next_phase(), None);
        let starts = actions.iter().filter(|a| **a == ConnectAction::StartSession).count();
        assert!(starts <= 1);
    }
    assert_eq!(
        run(&[false, true, true]),
        vec![ConnectAction::StartSession, ConnectAction::WaitThenRefetch, ConnectAction::UseTunnels]
    );
    assert_eq!(
        run(&[false, true, false]),
        vec![
            ConnectAction::StartSession,
            ConnectAction::WaitThenRefetch,
            ConnectAction::FailWithFetchError
        ]
    );
}

#[test]
fn ngrok_settings() {
    assert_eq!(NGROK_PORT, "8080");
    assert_eq!(NGROK_START_WAIT_SECS, 1);
}

fn tunnel(url: Option<&str>) -> Tunnel {
    Tunnel { public_url: url.map(|u| u.to_string()) }
}

#[test]
fn public_url_of_first_tunnel() {
    let reply = TunnelsReply {
        tunnels: Some(vec![
            tunnel(Some("https://ab12.ngrok-free.app")),
            tunnel(Some("https://other.ngrok-free.app")),
        ]),
    };
    assert_eq!(first_public_url(&reply), Ok("https://ab12.ngrok-free.app".to_string()));
}

#[test]
fn missing_tunnels_field() {
    let reply = TunnelsReply { tunnels: None };
    assert_eq!(first_public_url(&reply), Err(TunnelLookupError::NoTunnelsField));
}

#[test]
fn empty_tunnel_list() {
    let reply = TunnelsReply { tunnels: Some(vec![]) };
    assert_eq!(first_public_url(&reply), Err(TunnelLookupError::NoTunnels));
}

#[test]
fn first_tunnel_without_public_url() {
    let reply = TunnelsReply { tunnels: Some(vec![tunnel(None), tunnel(Some("https://x.app"))]) };
    assert_eq!(first_public_url(&reply), Err(TunnelLookupError::NoPublicUrl));
}

#[test]
fn lookup_messages() {
    assert_eq!(TunnelLookupError::NoTunnelsField.message(), "Tunnels field not found in the response.");
    assert_eq!(TunnelLookupError::NoTunnels.message(), "No tunnels found.");
    assert_eq!(TunnelLookupError::NoPublicUrl.message(), "Public URL not found in the tunnel data.");
}

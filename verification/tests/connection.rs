use bevy_sync::client::{client_connection_step, client_received_a_message};
use bevy_sync::proto::{ConnectionEvent, IpAddress, Message};
use bevy_sync::reaction::Action;
use bevy_sync::server::{server_connection_step, server_on_client_connected, server_received_a_message};
use bevy_sync::tracker::SyncTrackerRes;
use bevy_sync::{ClientState, ServerState, SyncConnectionParameters};

fn local_params(port: u16) -> SyncConnectionParameters {
    SyncConnectionParameters::Socket {
        ip: IpAddress::V4(0x7f00_0001),
        port,
        web_port: port,
        max_transfer: 100_000_000,
    }
}

/// Brings a host and one client up to a connected session and returns the
/// states reached and whether the client asked for the world and the host
/// answered with it.
fn handshake(client_id: u64) -> (ServerState, ClientState, bool, bool) {
    let mut server_track: SyncTrackerRes<Vec<u8>> = SyncTrackerRes::new();
    let mut client_track: SyncTrackerRes<Vec<u8>> = SyncTrackerRes::new();

    let server_state = server_connection_step(ServerState::default(), ConnectionEvent::TransportAdded);

    let (client_state, r) = client_connection_step(&mut client_track, ClientState::default(), ConnectionEvent::TransportAdded);
    assert!(r.now.is_empty() && r.later.is_empty());
    assert_eq!(client_state, ClientState::Connecting);

    let on_connect = server_on_client_connected();
    assert!(matches!(on_connect.now.as_slice(), [Action::RemoveClientTransport]));

    let (client_state, r) = client_connection_step(&mut client_track, client_state, ConnectionEvent::Connected);
    let asked = matches!(r.later.as_slice(), [Action::RequestInitialSync]);

    let clients = vec![client_id];
    let answer = server_received_a_message(&mut server_track, client_id, Message::RequestInitialSync, &clients, true);
    let answered = matches!(answer.later.as_slice(), [Action::SendInitialSync { client }] if *client == client_id);
    (server_state, client_state, asked, answered)
}

#[test]
fn mod_test_connection_setup() {
    let (server_state, client_state, asked, answered) = handshake(1);
    assert_eq!(server_state, ServerState::Connected);
    assert_eq!(client_state, ClientState::Connected);
    assert!(asked);
    assert!(answered);
}

#[test]
fn test_steam_connect() {
    let (server_state, client_state, asked, answered) = handshake(76561197960287930);
    assert_eq!(server_state, ServerState::Connected);
    assert_eq!(client_state, ClientState::Connected);
    assert!(asked);
    assert!(answered);
}

#[test]
fn states_default_to_disconnected() {
    assert_eq!(ServerState::default(), ServerState::Disconnected);
    assert_eq!(ClientState::default(), ClientState::Disconnected);
}

#[test]
fn server_state_follows_transport() {
    assert_eq!(server_connection_step(ServerState::Disconnected, ConnectionEvent::TransportAdded), ServerState::Connected);
    assert_eq!(server_connection_step(ServerState::Connected, ConnectionEvent::TransportRemoved), ServerState::Disconnected);
    assert_eq!(server_connection_step(ServerState::Connected, ConnectionEvent::TransportAdded), ServerState::Connected);
    assert_eq!(server_connection_step(ServerState::Disconnected, ConnectionEvent::Connected), ServerState::Disconnected);
}

#[test]
fn client_state_follows_transport() {
    let mut track: SyncTrackerRes<Vec<u8>> = SyncTrackerRes::new();
    let (s, _) = client_connection_step(&mut track, ClientState::Connected, ConnectionEvent::TransportRemoved);
    assert_eq!(s, ClientState::Disconnected);
    let (s, r) = client_connection_step(&mut track, ClientState::Disconnected, ConnectionEvent::Connected);
    assert_eq!(s, ClientState::Disconnected);
    assert!(r.now.is_empty() && r.later.is_empty());
    let (s, _) = client_connection_step(&mut track, ClientState::ConnectedInitialSync, ConnectionEvent::TransportAdded);
    assert_eq!(s, ClientState::ConnectedInitialSync);
}

#[test]
fn reconnection_after_promotion_skips_initial_sync() {
    let mut track: SyncTrackerRes<Vec<u8>> = SyncTrackerRes::new();
    let r = client_received_a_message(&mut track, Message::NewHost { params: local_params(4001) }, local_params(4002), true);
    assert!(matches!(r.now.as_slice(), [Action::DisconnectFromServer]));
    assert!(matches!(
        r.later.as_slice(),
        [Action::ConnectToHost { ip: IpAddress::V4(0x7f00_0001), port: 4001 }]
    ));
    assert!(track.host_promotion_in_progress());
    let (s, r) = client_connection_step(&mut track, ClientState::Connecting, ConnectionEvent::Connected);
    assert_eq!(s, ClientState::Connected);
    assert!(r.now.is_empty() && r.later.is_empty());
    assert!(!track.host_promotion_in_progress());
    // a later fresh session asks again
    let (_, r) = client_connection_step(&mut track, ClientState::Connecting, ConnectionEvent::Connected);
    assert!(matches!(r.later.as_slice(), [Action::RequestInitialSync]));
}

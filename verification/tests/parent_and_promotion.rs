use bevy_sync::client::{client_connection_step, client_received_a_message, entity_parented_on_client};
use bevy_sync::proto::{ConnectionEvent, IpAddress, Message};
use bevy_sync::reaction::{apply_to_tracker, Action};
use bevy_sync::server::{
    entity_parented_on_server, promote_to_host, server_on_client_disconnected, server_received_a_message,
};
use bevy_sync::tracker::{needs_reparent, SyncTrackerRes};
use bevy_sync::{ClientState, PromoteToHostEvent, SyncConnectionParameters};

fn params(port: u16) -> SyncConnectionParameters {
    SyncConnectionParameters::Socket { ip: IpAddress::V4(0x7f00_0001), port, web_port: port + 1, max_transfer: 1000 }
}

/// Host and client trackers that both track two entities: `p` (parent) and
/// `c` (child), under the ids 1 and 2.
fn two_entities() -> (SyncTrackerRes<Vec<u8>>, SyncTrackerRes<Vec<u8>>) {
    let mut server: SyncTrackerRes<Vec<u8>> = SyncTrackerRes::new();
    let mut client: SyncTrackerRes<Vec<u8>> = SyncTrackerRes::new();
    server.track_entity(1, 10);
    server.track_entity(2, 11);
    client.track_entity(1, 20);
    client.track_entity(2, 21);
    (server, client)
}

#[test]
fn parent_sync_test_entity_parent_is_transferred_from_server() {
    let (server, mut client) = two_entities();
    let clients = vec![1];
    let Some(Action::Send { to, msg }) = entity_parented_on_server(&server, 11, 10, &clients) else {
        panic!("parenting not sent");
    };
    assert_eq!(to, vec![1]);
    let r = client_received_a_message(&mut client, msg, params(4000), true);
    match r.later.as_slice() {
        [Action::SetParent { child, parent }] => {
            assert_eq!(*child, 21);
            assert_eq!(*parent, 20);
        },
        _ => panic!("parent not set on client"),
    }
}

#[test]
fn parent_sync_test_entity_parent_is_transferred_from_client() {
    let (mut server, client) = two_entities();
    let child_id = client.uuid_of(21).unwrap();
    let parent_id = client.uuid_of(20);
    let Some(Action::SendToServer { msg }) = entity_parented_on_client(child_id, parent_id) else {
        panic!("parenting not sent");
    };
    let clients = vec![1, 2];
    let r = server_received_a_message(&mut server, 1, msg, &clients, true);
    match r.later.as_slice() {
        [Action::ParentEntities { entity_id, parent_id, relay_to }] => {
            assert_eq!(server.resolve_parenting(*entity_id, *parent_id), Some((11, 10)));
            assert_eq!(relay_to, &vec![2]);
        },
        _ => panic!("parent not set on server"),
    }
}

#[test]
fn parenting_of_untracked_entities_is_not_sent() {
    let (server, _) = two_entities();
    assert!(entity_parented_on_server(&server, 11, 99, &vec![1]).is_none());
    assert!(entity_parented_on_server(&server, 99, 10, &vec![1]).is_none());
    assert!(entity_parented_on_client(2, None).is_none());
    assert_eq!(server.resolve_parenting(2, 3), None);
}

#[test]
fn reparenting_only_when_needed() {
    assert!(needs_reparent(None, 4));
    assert!(needs_reparent(Some(3), 4));
    assert!(!needs_reparent(Some(4), 4));
}

#[test]
fn test_host_promotion_with_one_client() {
    let mut old_host: SyncTrackerRes<Vec<u8>> = SyncTrackerRes::new();
    let mut client: SyncTrackerRes<Vec<u8>> = SyncTrackerRes::new();

    // the host asks its first client to take over
    let ask = promote_to_host(PromoteToHostEvent { id: 1 });
    let Action::Send { to, msg } = ask else {
        panic!("promotion not sent");
    };
    assert_eq!(to, vec![1]);

    // the client starts hosting on its own address
    let r = client_received_a_message(&mut client, msg, params(4002), true);
    assert!(matches!(
        r.later.as_slice(),
        [Action::StartHost { ip: IpAddress::V4(0x7f00_0001), port: 4002 }, Action::BeginPromotion]
    ));
    assert!(!client.host_promotion_in_progress());
    for a in r.later.iter() {
        apply_to_tracker(&mut client, a);
    }
    assert!(client.host_promotion_in_progress());

    // the old host is told of the new one: it drops that client and
    // reconnects to it as a client
    let clients = vec![1];
    let r = server_received_a_message(&mut old_host, 1, Message::NewHost { params: params(4002) }, &clients, true);
    match r.now.as_slice() {
        [Action::DisconnectClient { client: 1 }, Action::Send { to, .. }] => assert!(to.is_empty()),
        _ => panic!("new host not handled"),
    }
    assert!(matches!(r.later.as_slice(), [Action::BeginPromotion, Action::ConnectToHost { port: 4002, .. }]));
    assert!(!old_host.host_promotion_in_progress());
    for a in r.later.iter() {
        apply_to_tracker(&mut old_host, a);
    }
    assert!(old_host.host_promotion_in_progress());

    // its last client gone, the old host closes
    let r = server_on_client_disconnected(&mut old_host, 0);
    assert!(matches!(r.now.as_slice(), [Action::CloseServer]));
    assert!(!old_host.host_promotion_in_progress());

    // the old host, now a plain client of the new host, joins it as a new
    // session and asks for its world
    let (s, r) = client_connection_step(&mut old_host, ClientState::Connecting, ConnectionEvent::Connected);
    assert_eq!(s, ClientState::Connected);
    assert!(matches!(r.later.as_slice(), [Action::RequestInitialSync]));
}

#[test]
fn old_host_waits_while_clients_remain() {
    let mut host: SyncTrackerRes<Vec<u8>> = SyncTrackerRes::new();
    let clients = vec![1, 2];
    let r = server_received_a_message(&mut host, 1, Message::NewHost { params: params(5000) }, &clients, true);
    match &r.now[1] {
        Action::Send { to, msg: Message::NewHost { .. } } => assert_eq!(to, &vec![2]),
        _ => panic!("new host not relayed"),
    }
    for a in r.later.iter() {
        apply_to_tracker(&mut host, a);
    }
    let r = server_on_client_disconnected(&mut host, 1);
    assert!(r.now.is_empty());
    assert!(host.host_promotion_in_progress());
    let r = server_on_client_disconnected(&mut host, 0);
    assert!(matches!(r.now.as_slice(), [Action::CloseServer]));
}

#[test]
fn disconnect_without_promotion_does_nothing() {
    let mut host: SyncTrackerRes<Vec<u8>> = SyncTrackerRes::new();
    let r = server_on_client_disconnected(&mut host, 0);
    assert!(r.now.is_empty() && r.later.is_empty());
}

#[test]
fn host_ignores_promotion_request() {
    let mut host: SyncTrackerRes<Vec<u8>> = SyncTrackerRes::new();
    let r = server_received_a_message(&mut host, 1, Message::PromoteToHost, &vec![1], true);
    assert!(r.now.is_empty() && r.later.is_empty());
    assert!(!host.host_promotion_in_progress());
}

#[test]
fn test_skinned_mesh_component() {
    // host joints 10..13 sent by id, read back on a client that knows them
    let mut host: SyncTrackerRes<Vec<u8>> = SyncTrackerRes::new();
    let mut client: SyncTrackerRes<Vec<u8>> = SyncTrackerRes::new();
    for i in 0..4u64 {
        host.track_entity(100 + i as u128, 10 + i);
        client.track_entity(100 + i as u128, 20 + i);
    }
    let ids = host.uuids_of_entities(&vec![10, 11, 12, 13]);
    assert_eq!(ids, vec![100, 101, 102, 103]);
    assert_eq!(client.entities_of_uuids(&ids), vec![20, 21, 22, 23]);
    // a joint the client does not know is dropped, the order kept
    let ids = host.uuids_of_entities(&vec![13, 99, 10]);
    assert_eq!(ids, vec![103, 100]);
    assert_eq!(client.entities_of_uuids(&vec![103, 555, 100]), vec![23, 20]);
    // read back through the host's own tracker they are the joints
    assert_eq!(host.entities_of_uuids(&host.uuids_of_entities(&vec![12, 11])), vec![12, 11]);
}

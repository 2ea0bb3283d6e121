use std::collections::HashMap;

use bevy_sync::client::{client_received_a_message, component_changed_on_client};
use bevy_sync::proto::{IpAddress, Message};
use bevy_sync::reaction::Action;
use bevy_sync::server::{component_changed_on_server, relay_applied_component, relay_parenting, server_received_a_message};
use bevy_sync::tracker::{is_value_different, SyncTrackerRes};
use bevy_sync::SyncConnectionParameters;

const SYNCED: usize = 5;
const SYNCED_EXCLUDE: usize = 6;
const NOT_SYNCED: usize = 7;
const NAME: &str = "setup::MySynched";
const ENTITY_ID: u128 = 0x1234;

fn params() -> SyncConnectionParameters {
    SyncConnectionParameters::Socket { ip: IpAddress::V4(0x7f00_0001), port: 4000, web_port: 4001, max_transfer: 1000 }
}

/// A peer holding one synced entity and the values of its components.
struct Peer {
    track: SyncTrackerRes<Vec<u8>>,
    entity: u64,
    values: HashMap<usize, Vec<u8>>,
}

impl Peer {
    fn new(entity: u64) -> Peer {
        let mut track = SyncTrackerRes::new();
        track.register_component(SYNCED, SYNCED_EXCLUDE);
        track.track_entity(ENTITY_ID, entity);
        Peer { track, entity, values: HashMap::new() }
    }

    /// A local change of a component; only registered components are
    /// watched for changes.
    fn change(&mut self, component: usize, value: Vec<u8>) {
        self.values.insert(component, value.clone());
        if self.track.is_synched_component(component) {
            let id = self.track.uuid_of(self.entity).unwrap();
            self.track.signal_component_changed(id, NAME.to_string(), value);
        }
    }

    /// Applies a component value received from the network, as the plugin
    /// does with world access; returns whether it was applied.
    fn apply(&mut self, id: u128, name: String, data: Vec<u8>) -> bool {
        let comparison = self.values.get(&SYNCED).map(|v| Some(*v == data));
        let differs = is_value_different(comparison);
        let applied = self.track.accept_component_from_network(id, name, differs);
        if applied {
            // the value lands in the world, which the change detection sees
            self.change(SYNCED, data);
        }
        applied
    }

    fn queued(&mut self) -> Vec<(u128, String, Vec<u8>)> {
        let mut out = Vec::new();
        while let Some(c) = self.track.next_change_to_send() {
            out.push((c.change_id.id, c.change_id.name, c.data));
        }
        out
    }
}

fn server_sends(server: &mut Peer, client: &mut Peer) -> usize {
    let clients = vec![1];
    let mut n = 0;
    for (id, name, data) in server.queued() {
        let change_id = bevy_sync::tracker::ComponentChangeId { id, name };
        if let Action::Send { to, msg } = component_changed_on_server(change_id, data, &clients) {
            assert_eq!(to, vec![1]);
            let r = client_received_a_message(&mut client.track, msg, params(), true);
            for a in r.later {
                if let Action::ApplyComponent { entity, id, name, data, relay_to } = a {
                    assert_eq!(entity, client.entity);
                    assert!(relay_to.is_empty());
                    client.apply(id, name, data);
                    n += 1;
                }
            }
        }
    }
    n
}

fn client_sends(client: &mut Peer, server: &mut Peer) -> usize {
    let clients = vec![1];
    let mut n = 0;
    for (id, name, data) in client.queued() {
        let change_id = bevy_sync::tracker::ComponentChangeId { id, name };
        if let Action::SendToServer { msg } = component_changed_on_client(change_id, data) {
            let r = server_received_a_message(&mut server.track, 1, msg, &clients, true);
            for a in r.later {
                if let Action::ApplyComponent { entity, id, name, data, relay_to } = a {
                    assert_eq!(entity, server.entity);
                    assert!(relay_to.is_empty());
                    server.apply(id, name, data);
                    n += 1;
                }
            }
        }
    }
    n
}

#[test]
fn component_sync_test_non_marked_component_is_not_transferred_from_server() {
    let mut server = Peer::new(10);
    let mut client = Peer::new(20);
    server.change(NOT_SYNCED, vec![1]);
    assert_eq!(server_sends(&mut server, &mut client), 0);
    assert!(client.values.get(&NOT_SYNCED).is_none());
}

#[test]
fn component_sync_test_non_marked_component_is_not_transferred_from_client() {
    let mut server = Peer::new(10);
    let mut client = Peer::new(20);
    client.change(NOT_SYNCED, vec![1]);
    assert_eq!(client_sends(&mut client, &mut server), 0);
    assert!(server.values.get(&NOT_SYNCED).is_none());
}

#[test]
fn component_sync_test_marked_component_is_transferred_from_server() {
    let mut server = Peer::new(10);
    let mut client = Peer::new(20);
    server.change(SYNCED, vec![7]);
    assert_eq!(server_sends(&mut server, &mut client), 1);
    assert_eq!(client.values.get(&SYNCED), Some(&vec![7]));
    // applying it is not echoed back
    assert_eq!(client_sends(&mut client, &mut server), 0);
}

#[test]
fn test_marked_component_is_transferred_from_server_then_changed() {
    let mut server = Peer::new(10);
    let mut client = Peer::new(20);
    server.change(SYNCED, vec![7]);
    server_sends(&mut server, &mut client);
    assert_eq!(client_sends(&mut client, &mut server), 0);
    client.change(SYNCED, vec![8]);
    assert_eq!(client_sends(&mut client, &mut server), 1);
    assert_eq!(server.values.get(&SYNCED), Some(&vec![8]));
    assert_eq!(server_sends(&mut server, &mut client), 0);
    assert_eq!(client.values.get(&SYNCED), Some(&vec![8]));
}

#[test]
fn component_sync_test_marked_component_is_transferred_from_client() {
    let mut server = Peer::new(10);
    let mut client = Peer::new(20);
    client.change(SYNCED, vec![3]);
    assert_eq!(client_sends(&mut client, &mut server), 1);
    assert_eq!(server.values.get(&SYNCED), Some(&vec![3]));
    assert_eq!(server_sends(&mut server, &mut client), 0);
}

#[test]
fn test_marked_component_is_transferred_from_client_then_changed() {
    let mut server = Peer::new(10);
    let mut client = Peer::new(20);
    client.change(SYNCED, vec![3]);
    client_sends(&mut client, &mut server);
    assert_eq!(server_sends(&mut server, &mut client), 0);
    server.change(SYNCED, vec![4]);
    assert_eq!(server_sends(&mut server, &mut client), 1);
    assert_eq!(client.values.get(&SYNCED), Some(&vec![4]));
}

#[test]
fn equal_value_is_not_applied() {
    let mut client = Peer::new(20);
    client.values.insert(SYNCED, vec![1, 2]);
    assert!(!client.apply(ENTITY_ID, NAME.to_string(), vec![1, 2]));
    assert!(!client.track.was_pushed_from_network(ENTITY_ID, &NAME.to_string()));
    assert!(client.apply(ENTITY_ID, NAME.to_string(), vec![1, 3]));
}

#[test]
fn value_comparison_rules() {
    assert!(is_value_different(None));
    assert!(is_value_different(Some(Some(false))));
    assert!(!is_value_different(Some(Some(true))));
    assert!(!is_value_different(Some(None)));
}

#[test]
fn changes_are_sent_in_order() {
    let mut track: SyncTrackerRes<Vec<u8>> = SyncTrackerRes::new();
    track.signal_component_changed(1, "a".to_string(), vec![1]);
    track.signal_component_changed(2, "b".to_string(), vec![2]);
    track.signal_component_changed(1, "a".to_string(), vec![3]);
    let order: Vec<(u128, String, Vec<u8>)> = std::iter::from_fn(|| track.next_change_to_send())
        .map(|c| (c.change_id.id, c.change_id.name, c.data))
        .collect();
    assert_eq!(order, vec![(1, "a".to_string(), vec![1]), (2, "b".to_string(), vec![2]), (1, "a".to_string(), vec![3])]);
    assert!(track.next_change_to_send().is_none());
}

#[test]
fn network_value_is_skipped_while_remembered() {
    let mut track: SyncTrackerRes<Vec<u8>> = SyncTrackerRes::new();
    assert!(track.accept_component_from_network(1, "a".to_string(), true));
    assert!(track.was_pushed_from_network(1, &"a".to_string()));
    // a second value before the first one's change came back is skipped
    assert!(!track.accept_component_from_network(1, "a".to_string(), true));
    assert!(track.signal_component_changed(1, "a".to_string(), vec![0]));
    assert!(!track.was_pushed_from_network(1, &"a".to_string()));
    assert!(track.next_change_to_send().is_none());
}

#[test]
fn component_update_for_unknown_entity_is_ignored() {
    let mut track: SyncTrackerRes<Vec<u8>> = SyncTrackerRes::new();
    let clients = vec![1, 2];
    let msg = Message::ComponentUpdated { id: 99, name: NAME.to_string(), data: vec![1] };
    let r = server_received_a_message(&mut track, 1, msg, &clients, true);
    assert!(r.now.is_empty() && r.later.is_empty());
}

#[test]
fn server_relays_applied_component_to_other_clients() {
    let mut track: SyncTrackerRes<Vec<u8>> = SyncTrackerRes::new();
    track.track_entity(ENTITY_ID, 10);
    let clients = vec![1, 2, 3];
    let msg = Message::ComponentUpdated { id: ENTITY_ID, name: NAME.to_string(), data: vec![1] };
    let r = server_received_a_message(&mut track, 3, msg, &clients, true);
    match r.later.as_slice() {
        [Action::ApplyComponent { entity: 10, id: ENTITY_ID, relay_to, data, .. }] => {
            assert_eq!(relay_to, &vec![1, 2]);
            assert_eq!(data, &vec![1]);
        },
        _ => panic!("component not applied"),
    }
}

#[test]
fn registration_and_archetypes() {
    let mut track: SyncTrackerRes<Vec<u8>> = SyncTrackerRes::new();
    assert!(!track.is_synched_component(SYNCED));
    track.register_component(SYNCED, SYNCED_EXCLUDE);
    assert!(track.is_synched_component(SYNCED));
    assert_eq!(track.exclude_marker_of(SYNCED), Some(SYNCED_EXCLUDE));
    assert_eq!(track.exclude_marker_of(NOT_SYNCED), None);
    assert!(track.is_synched_archetype(&vec![1, 2, SYNCED]));
    assert!(!track.is_synched_archetype(&vec![1, 2, NOT_SYNCED]));
    assert!(!track.is_synched_archetype(&vec![]));
}

#[test]
fn applied_component_is_relayed_only_when_applied() {
    let to = vec![2, 3];
    match relay_applied_component(true, ENTITY_ID, NAME.to_string(), vec![4], &to) {
        Some(Action::Send { to: t, msg: Message::ComponentUpdated { id: ENTITY_ID, name, data } }) => {
            assert_eq!(t, vec![2, 3]);
            assert_eq!(name, NAME);
            assert_eq!(data, vec![4]);
        },
        _ => panic!("applied value not relayed"),
    }
    assert!(relay_applied_component(false, ENTITY_ID, NAME.to_string(), vec![4], &to).is_none());
}

#[test]
fn parenting_is_relayed_only_when_child_exists() {
    let to = vec![5];
    match relay_parenting(true, 1, 2, &to) {
        Some(Action::Send { to: t, msg: Message::EntityParented { entity_id: 1, parent_id: 2 } }) => assert_eq!(t, vec![5]),
        _ => panic!("parenting not relayed"),
    }
    assert!(relay_parenting(false, 1, 2, &to).is_none());
}

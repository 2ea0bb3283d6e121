use bevy_sync::client::{client_received_a_message, entity_created_on_client, entity_removed_from_client};
use bevy_sync::proto::{IpAddress, Message};
use bevy_sync::reaction::{Action, Reaction};
use bevy_sync::server::{entity_created_on_server, entity_removed_from_server, server_received_a_message};
use bevy_sync::tracker::SyncTrackerRes;
use bevy_sync::SyncConnectionParameters;

/// One peer of a test session: its tracker and the entities of its world.
struct Peer {
    track: SyncTrackerRes<Vec<u8>>,
    alive: Vec<u64>,
    next: u64,
}

impl Peer {
    fn new(first: u64) -> Peer {
        Peer { track: SyncTrackerRes::new(), alive: Vec::new(), next: first }
    }

    fn spawn(&mut self) -> u64 {
        let e = self.next;
        self.next += 1;
        self.alive.push(e);
        e
    }

    fn despawn(&mut self, e: u64) {
        self.alive.retain(|x| *x != e);
    }

    fn is_alive_for(&self, id: u128) -> bool {
        match self.track.entity_of(id) {
            Some(e) => self.alive.contains(&e),
            None => true,
        }
    }

    /// Carries out the actions that touch this peer's world; returns the
    /// messages it sends.
    fn perform(&mut self, r: Reaction) -> Vec<(Option<Vec<u64>>, Message)> {
        let mut out = Vec::new();
        for a in r.now.into_iter().chain(r.later) {
            match a {
                Action::SpawnEntity { uuid } => {
                    let e = self.spawn();
                    self.track.track_entity(uuid, e);
                },
                Action::DespawnEntity { entity } => self.despawn(entity),
                Action::Send { to, msg } => out.push((Some(to), msg)),
                Action::SendToServer { msg } => out.push((None, msg)),
                _ => {},
            }
        }
        out
    }

    fn synced_entities(&self) -> usize {
        self.alive.iter().filter(|e| self.track.uuid_of(**e).is_some()).count()
    }
}

fn message_id(m: &Message) -> Option<u128> {
    match m {
        Message::EntitySpawn { id } | Message::EntityDelete { id } => Some(*id),
        Message::ComponentUpdated { id, .. } => Some(*id),
        _ => None,
    }
}

fn params() -> SyncConnectionParameters {
    SyncConnectionParameters::Socket { ip: IpAddress::V4(0x7f00_0001), port: 4000, web_port: 4001, max_transfer: 1000 }
}

/// A host and one client, id 1.
struct Session {
    server: Peer,
    client: Peer,
    clients: Vec<u64>,
}

impl Session {
    fn new() -> Session {
        Session { server: Peer::new(100), client: Peer::new(500), clients: vec![1] }
    }

    fn to_client(&mut self, msg: Message) {
        let alive = message_id(&msg).map(|id| self.client.is_alive_for(id)).unwrap_or(true);
        let r = client_received_a_message(&mut self.client.track, msg, params(), alive);
        let out = self.client.perform(r);
        for (_, m) in out {
            self.to_server(m);
        }
    }

    fn to_server(&mut self, msg: Message) {
        let alive = message_id(&msg).map(|id| self.server.is_alive_for(id)).unwrap_or(true);
        let r = server_received_a_message(&mut self.server.track, 1, msg, &self.clients, alive);
        let out = self.server.perform(r);
        for (to, m) in out {
            if to.map(|t| t.contains(&1)).unwrap_or(false) {
                self.to_client(m);
            }
        }
    }

    fn spawn_on_server(&mut self) -> u128 {
        let e = self.server.spawn();
        let (id, a) = entity_created_on_server(&mut self.server.track, e, &self.clients);
        if let Action::Send { to, msg } = a {
            assert_eq!(to, vec![1]);
            self.to_client(msg);
        } else {
            panic!("spawn not sent");
        }
        id
    }

    fn spawn_on_client(&mut self) -> (u64, u128) {
        let e = self.client.spawn();
        let (id, a) = entity_created_on_client(&mut self.client.track, e);
        if let Action::SendToServer { msg } = a {
            self.to_server(msg);
        } else {
            panic!("spawn not sent");
        }
        (e, id)
    }

    fn entities_in_sync(&self, count: usize) {
        assert_eq!(self.client.synced_entities(), count);
        assert_eq!(self.server.synced_entities(), count);
        for e in self.client.alive.iter() {
            let id = self.client.track.uuid_of(*e).unwrap();
            let se = self.server.track.entity_of(id).unwrap();
            assert!(self.server.alive.contains(&se));
        }
    }
}

#[test]
fn entity_sync_test_one_entity_spawned_from_server() {
    let mut s = Session::new();
    s.spawn_on_server();
    s.entities_in_sync(1);
}

#[test]
fn entity_sync_test_one_entity_spawned_from_client() {
    let mut s = Session::new();
    s.spawn_on_client();
    s.entities_in_sync(1);
}

#[test]
fn entity_sync_test_more_entities_spawned_from_server() {
    let mut s = Session::new();
    s.spawn_on_server();
    s.spawn_on_server();
    s.spawn_on_server();
    s.entities_in_sync(3);
}

#[test]
fn entity_sync_test_more_entities_spawned_from_client() {
    let mut s = Session::new();
    s.spawn_on_client();
    s.spawn_on_client();
    s.spawn_on_client();
    s.entities_in_sync(3);
}

#[test]
fn entity_sync_test_entity_deleted_from_server() {
    let mut s = Session::new();
    let id = s.spawn_on_server();
    let e = s.server.track.entity_of(id).unwrap();
    s.server.despawn(e);
    let alive = s.server.alive.clone();
    let clients = s.clients.clone();
    let (gone, sends) = entity_removed_from_server(&mut s.server.track, &alive, &clients);
    assert_eq!(gone, vec![id]);
    for a in sends {
        if let Action::Send { msg, .. } = a {
            s.to_client(msg);
        }
    }
    s.entities_in_sync(0);
    assert!(s.client.track.entity_of(id).is_none());
}

#[test]
fn entity_sync_test_entity_deleted_from_client() {
    let mut s = Session::new();
    let (e, id) = s.spawn_on_client();
    s.client.despawn(e);
    let alive = s.client.alive.clone();
    let (gone, sends) = entity_removed_from_client(&mut s.client.track, &alive);
    assert_eq!(gone, vec![id]);
    for a in sends {
        if let Action::SendToServer { msg } = a {
            s.to_server(msg);
        }
    }
    assert!(s.server.track.entity_of(id).is_none());
    assert_eq!(s.server.synced_entities(), 0);
}

#[test]
fn spawn_from_client_is_relayed_to_other_clients_only() {
    let mut track: SyncTrackerRes<Vec<u8>> = SyncTrackerRes::new();
    let clients = vec![1, 2, 3];
    let r = server_received_a_message(&mut track, 2, Message::EntitySpawn { id: 9 }, &clients, true);
    assert_eq!(r.now.len(), 2);
    assert!(matches!(r.now[0], Action::SpawnEntity { uuid: 9 }));
    match &r.now[1] {
        Action::Send { to, msg: Message::EntitySpawn { id: 9 } } => assert_eq!(to, &vec![1, 3]),
        _ => panic!("spawn not relayed"),
    }
}

#[test]
fn client_ignores_spawn_of_known_living_entity() {
    let mut track: SyncTrackerRes<Vec<u8>> = SyncTrackerRes::new();
    track.track_entity(9, 40);
    let r = client_received_a_message(&mut track, Message::EntitySpawn { id: 9 }, params(), true);
    assert!(r.now.is_empty() && r.later.is_empty());
    let r = client_received_a_message(&mut track, Message::EntitySpawn { id: 9 }, params(), false);
    assert!(matches!(r.now.as_slice(), [Action::SpawnEntity { uuid: 9 }]));
}

#[test]
fn delete_of_unknown_entity_is_only_relayed() {
    let mut track: SyncTrackerRes<Vec<u8>> = SyncTrackerRes::new();
    let clients = vec![1, 2];
    let r = server_received_a_message(&mut track, 1, Message::EntityDelete { id: 5 }, &clients, true);
    match r.now.as_slice() {
        [Action::Send { to, msg: Message::EntityDelete { id: 5 } }] => assert_eq!(to, &vec![2]),
        _ => panic!("delete not relayed"),
    }
    let r = client_received_a_message(&mut track, Message::EntityDelete { id: 5 }, params(), true);
    assert!(r.now.is_empty() && r.later.is_empty());
}

#[test]
fn tracked_entity_is_found_both_ways_and_forgotten() {
    let mut track: SyncTrackerRes<Vec<u8>> = SyncTrackerRes::new();
    track.track_entity(77, 3);
    assert_eq!(track.entity_of(77), Some(3));
    assert_eq!(track.uuid_of(3), Some(77));
    track.forget_entity(77, 3);
    assert_eq!(track.entity_of(77), None);
    assert_eq!(track.uuid_of(3), None);
}

#[test]
fn created_entities_get_distinct_ids() {
    let mut track: SyncTrackerRes<Vec<u8>> = SyncTrackerRes::new();
    let (a, _) = entity_created_on_client(&mut track, 1);
    let (b, _) = entity_created_on_client(&mut track, 2);
    assert_ne!(a, b);
    for id in [a, b] {
        assert_eq!((id >> 76) & 0xf, 4);
        assert_eq!((id >> 62) & 0x3, 2);
    }
    let mut server: SyncTrackerRes<Vec<u8>> = SyncTrackerRes::new();
    let (c, _) = entity_created_on_server(&mut server, 3, &vec![1]);
    assert_eq!((c >> 76) & 0xf, 4);
    assert_eq!((c >> 62) & 0x3, 2);
    assert_eq!(track.entity_of(a), Some(1));
    assert_eq!(track.entity_of(b), Some(2));
}

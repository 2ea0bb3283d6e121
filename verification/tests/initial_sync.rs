use bevy_sync::client::client_initial_sync;
use bevy_sync::initial_sync::{build_initial_sync, ArchetypeSummary, InitialSyncItem};
use bevy_sync::proto::Message;
use bevy_sync::reaction::Action;
use bevy_sync::server::server_received_a_message;
use bevy_sync::tracker::SyncTrackerRes;

const MARKER: usize = 1;
const MY_SYNCED: usize = 5;
const MY_SYNCED2: usize = 6;
const MY_SYNCED_EXCLUDE: usize = 50;
const OTHER: usize = 9;

fn registered() -> SyncTrackerRes<Vec<u8>> {
    let mut track = SyncTrackerRes::new();
    track.register_component(MY_SYNCED, MY_SYNCED_EXCLUDE);
    track
}

#[test]
fn initial_sync_test_initial_world_sync_sent_from_server() {
    let track = registered();
    let world = vec![
        ArchetypeSummary { entities: vec![10], components: vec![MARKER, MY_SYNCED] },
        ArchetypeSummary { entities: vec![11], components: vec![OTHER] },
    ];
    let plan = build_initial_sync(&track, &world, MARKER);
    assert_eq!(
        plan,
        vec![InitialSyncItem::Spawn { entity: 10 }, InitialSyncItem::Component { entity: 10, component: MY_SYNCED }]
    );
}

#[test]
fn initial_sync_test_init_sync_multiple_clients() {
    let mut track = registered();
    let clients = vec![1, 2, 3];
    for c in clients.iter() {
        let r = server_received_a_message(&mut track, *c, Message::RequestInitialSync, &clients, true);
        match r.later.as_slice() {
            [Action::SendInitialSync { client }] => assert_eq!(client, c),
            _ => panic!("initial sync not sent"),
        }
        assert!(r.now.is_empty());
    }
}

#[test]
fn test_initial_world_sync_not_transfer_excluded_components() {
    // MySynched is synced, and the entity carries its exclusion marker
    let track = registered();
    let world = vec![ArchetypeSummary { entities: vec![10], components: vec![MARKER, MY_SYNCED_EXCLUDE, MY_SYNCED] }];
    let plan = build_initial_sync(&track, &world, MARKER);
    assert_eq!(plan, vec![InitialSyncItem::Spawn { entity: 10 }]);
    let with_mysynched = plan.iter().filter(|i| matches!(i, InitialSyncItem::Component { component: MY_SYNCED, .. })).count();
    assert_eq!(with_mysynched, 0);
}

#[test]
fn exclusion_marker_only_holds_back_its_own_component() {
    let mut track = registered();
    track.register_component(MY_SYNCED2, 60);
    let world = vec![
        ArchetypeSummary { entities: vec![10], components: vec![MARKER, MY_SYNCED, MY_SYNCED2, MY_SYNCED_EXCLUDE] },
        ArchetypeSummary { entities: vec![11], components: vec![MARKER, MY_SYNCED, MY_SYNCED2] },
    ];
    let plan = build_initial_sync(&track, &world, MARKER);
    assert_eq!(
        plan,
        vec![
            InitialSyncItem::Spawn { entity: 10 },
            InitialSyncItem::Component { entity: 10, component: MY_SYNCED2 },
            InitialSyncItem::Spawn { entity: 11 },
            InitialSyncItem::Component { entity: 11, component: MY_SYNCED },
            InitialSyncItem::Component { entity: 11, component: MY_SYNCED2 },
        ]
    );
}

#[test]
fn unregistered_component_is_left_out() {
    let track = registered();
    let world = vec![ArchetypeSummary { entities: vec![10, 12], components: vec![MARKER, MY_SYNCED2, MY_SYNCED] }];
    let plan = build_initial_sync(&track, &world, MARKER);
    assert_eq!(
        plan,
        vec![
            InitialSyncItem::Spawn { entity: 10 },
            InitialSyncItem::Spawn { entity: 12 },
            InitialSyncItem::Component { entity: 10, component: MY_SYNCED },
            InitialSyncItem::Component { entity: 12, component: MY_SYNCED },
        ]
    );
}

#[test]
fn each_entity_is_announced_once() {
    let mut track = registered();
    track.register_component(MY_SYNCED2, 60);
    let world = vec![
        ArchetypeSummary { entities: vec![10, 10], components: vec![MARKER, MY_SYNCED2] },
        ArchetypeSummary { entities: vec![11, 10], components: vec![MY_SYNCED, MARKER] },
    ];
    let plan = build_initial_sync(&track, &world, MARKER);
    assert_eq!(
        plan,
        vec![
            InitialSyncItem::Spawn { entity: 10 },
            InitialSyncItem::Component { entity: 10, component: MY_SYNCED2 },
            InitialSyncItem::Component { entity: 10, component: MY_SYNCED2 },
            InitialSyncItem::Spawn { entity: 11 },
            InitialSyncItem::Component { entity: 11, component: MY_SYNCED },
            InitialSyncItem::Component { entity: 10, component: MY_SYNCED },
        ]
    );
}

#[test]
fn empty_world_has_empty_initial_sync() {
    let track = registered();
    assert!(build_initial_sync(&track, &vec![], MARKER).is_empty());
}

#[test]
fn client_initial_sync_ends_with_marker() {
    let world = vec![Message::EntitySpawn { id: 1 }, Message::EntityDelete { id: 2 }];
    let sends = client_initial_sync(world);
    assert_eq!(sends.len(), 3);
    assert!(matches!(sends[0], Action::SendToServer { msg: Message::EntitySpawn { id: 1 } }));
    assert!(matches!(sends[1], Action::SendToServer { msg: Message::EntityDelete { id: 2 } }));
    assert!(matches!(sends[2], Action::SendToServer { msg: Message::FinishedInitialSync }));
    let sends = client_initial_sync(vec![]);
    assert!(matches!(sends.as_slice(), [Action::SendToServer { msg: Message::FinishedInitialSync }]));
}

//! Decisions of the host: how it answers each message from a client, each
//! connection event, and each local change to the synchronised world.
use vstd::prelude::*;
use crate::ids::{is_random_uuid, new_uuid};
use crate::proto::{copy_bytes, ConnectionEvent, Message, MessageView, PromoteToHostEvent, ServerState, SyncAssetType, SyncConnectionParameters};
use crate::assets::{asset_message, asset_path, serve_changed_asset, served_after, AssetStore};
use crate::reaction::{broadcast, copy_ids, no_reaction, none, one, recipients_except, two, views, without, Action, ActionView, Reaction, ReactionView};
use crate::tracker::{despawned_uuids, skip_outcome, ComponentChangeId, SyncTrackerRes, TrackerView};

verus! {

/// How the host answers message `msg` from client `sender` while `clients`
/// are connected: the tracker afterwards and the reaction. `alive` tells
/// whether the entity tracked for the message's id still exists.
pub open spec fn server_reaction<P>(
    t: TrackerView<P>,
    sender: u64,
    msg: MessageView,
    clients: Seq<u64>,
    alive: bool,
) -> (TrackerView<P>, ReactionView) {
    let others = without(clients, sender);
    let nothing = Seq::<ActionView>::empty();
    match msg {
        MessageView::EntitySpawn { id } => (
            t,
            ReactionView { now: seq![ActionView::SpawnEntity { uuid: id }, ActionView::Send { to: others, msg }], later: nothing },
        ),
        MessageView::EntityParented { entity_id, parent_id } => (
            t,
            ReactionView {
                now: nothing,
                later: seq![ActionView::ParentEntities { entity_id, parent_id, relay_to: others }],
            },
        ),
        MessageView::EntityDelete { id } => if t.uuid_to_entity.contains_key(id) && alive {
            (
                TrackerView {
                    uuid_to_entity: t.uuid_to_entity.remove(id),
                    entity_to_uuid: t.entity_to_uuid.remove(t.uuid_to_entity[id]),
                    ..t
                },
                ReactionView {
                    now: seq![ActionView::DespawnEntity { entity: t.uuid_to_entity[id] }, ActionView::Send { to: others, msg }],
                    later: nothing,
                },
            )
        } else {
            (t, ReactionView { now: seq![ActionView::Send { to: others, msg }], later: nothing })
        },
        MessageView::ComponentUpdated { id, name, data } => if t.uuid_to_entity.contains_key(id) {
            (
                t,
                ReactionView {
                    now: nothing,
                    later: seq![ActionView::ApplyComponent { entity: t.uuid_to_entity[id], id, name, data, relay_to: others }],
                },
            )
        } else {
            (t, ReactionView { now: nothing, later: nothing })
        },
        MessageView::StandardMaterialUpdated { id, material } => (
            t,
            ReactionView {
                now: nothing,
                later: seq![ActionView::ApplyMaterial { id, material }, ActionView::Send { to: others, msg }],
            },
        ),
        MessageView::MeshUpdated { id, url } => (
            t,
            ReactionView {
                now: seq![ActionView::RequestAsset { kind: SyncAssetType::Mesh, id, url }],
                later: seq![ActionView::Send { to: others, msg }],
            },
        ),
        MessageView::ImageUpdated { id, url } => (
            t,
            ReactionView {
                now: seq![ActionView::RequestAsset { kind: SyncAssetType::Image, id, url }],
                later: seq![ActionView::Send { to: others, msg }],
            },
        ),
        MessageView::AudioUpdated { id, url } => (
            t,
            ReactionView {
                now: seq![ActionView::RequestAsset { kind: SyncAssetType::Audio, id, url }],
                later: seq![ActionView::Send { to: others, msg }],
            },
        ),
        MessageView::PromoteToHost => (t, ReactionView { now: nothing, later: nothing }),
        MessageView::NewHost { params } => match params {
            SyncConnectionParameters::Socket { ip, port, .. } => (
                t,
                ReactionView {
                    now: seq![ActionView::DisconnectClient { client: sender }, ActionView::Send { to: others, msg }],
                    later: seq![ActionView::BeginPromotion, ActionView::ConnectToHost { ip, port }],
                },
            ),
        },
        MessageView::RequestInitialSync => (
            t,
            ReactionView { now: nothing, later: seq![ActionView::SendInitialSync { client: sender }] },
        ),
        MessageView::FinishedInitialSync => (t, ReactionView { now: nothing, later: nothing }),
    }
}

/// The host's answer to message `msg` from client `client_id`, with
/// `clients` the connected clients and `entity_alive` whether the entity
/// tracked for the message's id still exists.
pub fn server_received_a_message<P>(
    track: &mut SyncTrackerRes<P>,
    client_id: u64,
    msg: Message,
    clients: &Vec<u64>,
    entity_alive: bool,
) -> (r: Reaction)
    requires
        old(track).wf(),
    ensures
        final(track).wf(),
        (final(track)@, r@) == server_reaction(old(track)@, client_id, msg@, clients@, entity_alive),
{
    let others = recipients_except(clients, client_id);
    let ghost m = msg@;
    match msg {
        Message::EntitySpawn { id } => {
            let relay = Action::Send { to: others, msg: Message::EntitySpawn { id } };
            Reaction { now: two(Action::SpawnEntity { uuid: id }, relay), later: none() }
        },
        Message::EntityParented { entity_id, parent_id } => {
            Reaction { now: none(), later: one(Action::ParentEntities { entity_id, parent_id, relay_to: others }) }
        },
        Message::EntityDelete { id } => {
            let relay = Action::Send { to: others, msg: Message::EntityDelete { id } };
            match track.entity_of(id) {
                Some(e) => {
                    if entity_alive {
                        track.forget_entity(id, e);
                        Reaction { now: two(Action::DespawnEntity { entity: e }, relay), later: none() }
                    } else {
                        Reaction { now: one(relay), later: none() }
                    }
                },
                None => Reaction { now: one(relay), later: none() },
            }
        },
        Message::ComponentUpdated { id, name, data } => {
            match track.entity_of(id) {
                Some(e) => Reaction {
                    now: none(),
                    later: one(Action::ApplyComponent { entity: e, id, name, data, relay_to: others }),
                },
                None => Reaction { now: none(), later: none() },
            }
        },
        Message::StandardMaterialUpdated { id, material } => {
            let copy = copy_bytes(&material);
            let relay = Action::Send { to: others, msg: Message::StandardMaterialUpdated { id, material: copy } };
            Reaction { now: none(), later: two(Action::ApplyMaterial { id, material }, relay) }
        },
        Message::MeshUpdated { id, url } => {
            let relay = Action::Send { to: others, msg: Message::MeshUpdated { id, url: url.clone() } };
            Reaction { now: one(Action::RequestAsset { kind: SyncAssetType::Mesh, id, url }), later: one(relay) }
        },
        Message::ImageUpdated { id, url } => {
            let relay = Action::Send { to: others, msg: Message::ImageUpdated { id, url: url.clone() } };
            Reaction { now: one(Action::RequestAsset { kind: SyncAssetType::Image, id, url }), later: one(relay) }
        },
        Message::AudioUpdated { id, url } => {
            let relay = Action::Send { to: others, msg: Message::AudioUpdated { id, url: url.clone() } };
            Reaction { now: one(Action::RequestAsset { kind: SyncAssetType::Audio, id, url }), later: one(relay) }
        },
        Message::PromoteToHost => Reaction { now: none(), later: none() },
        Message::NewHost { params } => {
            match params {
                SyncConnectionParameters::Socket { ip, port, .. } => {
                    let relay = Action::Send { to: others, msg: Message::NewHost { params } };
                    Reaction {
                        now: two(Action::DisconnectClient { client: client_id }, relay),
                        later: two(Action::BeginPromotion, Action::ConnectToHost { ip, port }),
                    }
                },
            }
        },
        Message::RequestInitialSync => Reaction { now: none(), later: one(Action::SendInitialSync { client: client_id }) },
        Message::FinishedInitialSync => Reaction { now: none(), later: none() },
    }
}

/// The next state of the host's connection.
pub open spec fn server_state_after(state: ServerState, event: ConnectionEvent) -> ServerState {
    match (state, event) {
        (ServerState::Disconnected, ConnectionEvent::TransportAdded) => ServerState::Connected,
        (ServerState::Connected, ConnectionEvent::TransportRemoved) => ServerState::Disconnected,
        _ => state,
    }
}

/// The host's connection state after `event`.
pub fn server_connection_step(state: ServerState, event: ConnectionEvent) -> (r: ServerState)
    ensures
        r == server_state_after(state, event),
{
    match (state, event) {
        (ServerState::Disconnected, ConnectionEvent::TransportAdded) => ServerState::Connected,
        (ServerState::Connected, ConnectionEvent::TransportRemoved) => ServerState::Disconnected,
        _ => state,
    }
}

/// The host's answer when a client connects: drop any pending client
/// connection of its own, left over from a promotion.
pub fn server_on_client_connected() -> (r: Reaction)
    ensures
        r@.now == seq![ActionView::RemoveClientTransport],
        r@.later == Seq::<ActionView>::empty(),
{
    Reaction { now: one(Action::RemoveClientTransport), later: none() }
}

/// What the host does when a client leaves and `remaining` clients stay:
/// when the last one leaves during a promotion, it closes and the promotion
/// is over.
pub open spec fn server_disconnect_outcome<P>(t: TrackerView<P>, remaining: nat) -> (TrackerView<P>, ReactionView) {
    if remaining == 0 && t.host_promotion_in_progress {
        (
            TrackerView { host_promotion_in_progress: false, ..t },
            ReactionView { now: seq![ActionView::CloseServer], later: Seq::empty() },
        )
    } else {
        (t, ReactionView { now: Seq::empty(), later: Seq::empty() })
    }
}

/// The host's answer when a client disconnects and `connected_clients`
/// remain. When the last client leaves during a promotion, this host closes
/// and the promotion is over.
pub fn server_on_client_disconnected<P>(track: &mut SyncTrackerRes<P>, connected_clients: usize) -> (r: Reaction)
    requires
        old(track).wf(),
    ensures
        final(track).wf(),
        (final(track)@, r@) == server_disconnect_outcome(old(track)@, connected_clients as nat),
{
    if connected_clients == 0 && track.host_promotion_in_progress() {
        track.set_host_promotion_in_progress(false);
        Reaction { now: one(Action::CloseServer), later: none() }
    } else {
        no_reaction()
    }
}

/// What the host sends when asked to hand its role to a client: a
/// promotion message to that client alone.
pub fn promote_to_host(event: PromoteToHostEvent) -> (r: Action)
    ensures
        r@ == (ActionView::Send { to: seq![event.id], msg: MessageView::PromoteToHost }),
{
    let mut to: Vec<u64> = Vec::new();
    to.push(event.id);
    assert(to@ =~= seq![event.id]);
    Action::Send { to, msg: Message::PromoteToHost }
}

/// A local entity was marked for synchronisation on the host: it gets a
/// fresh synced id, is tracked under it, and every client is told to spawn
/// it. Returns the id and the sending.
pub fn entity_created_on_server<P>(track: &mut SyncTrackerRes<P>, entity: u64, clients: &Vec<u64>) -> (r: (u128, Action))
    requires
        old(track).wf(),
    ensures
        final(track).wf(),
        final(track)@ == (TrackerView {
            uuid_to_entity: old(track)@.uuid_to_entity.insert(r.0, entity),
            entity_to_uuid: old(track)@.entity_to_uuid.insert(entity, r.0),
            ..old(track)@
        }),
        is_random_uuid(r.0),
        r.1@ == (ActionView::Send { to: clients@, msg: MessageView::EntitySpawn { id: r.0 } }),
{
    let uuid = new_uuid();
    let send = broadcast(clients, &Message::EntitySpawn { id: uuid });
    track.track_entity(uuid, entity);
    (uuid, send)
}

/// The parent of local entity `entity` became `parent`: when both are
/// tracked, every client is told.
pub fn entity_parented_on_server<P>(track: &SyncTrackerRes<P>, entity: u64, parent: u64, clients: &Vec<u64>) -> (r: Option<Action>)
    ensures
        (track@.entity_to_uuid.contains_key(entity) && track@.entity_to_uuid.contains_key(parent)) ==> (r matches Some(a)
            && a@ == (ActionView::Send {
                to: clients@,
                msg: MessageView::EntityParented {
                    entity_id: track@.entity_to_uuid[entity],
                    parent_id: track@.entity_to_uuid[parent],
                },
            })),
        !(track@.entity_to_uuid.contains_key(entity) && track@.entity_to_uuid.contains_key(parent)) ==> r is None,
{
    let Some(id) = track.uuid_of(entity) else {
        return None;
    };
    let Some(pid) = track.uuid_of(parent) else {
        return None;
    };
    Some(broadcast(clients, &Message::EntityParented { entity_id: id, parent_id: pid }))
}

/// Deleting the entities whose ids are `gone`: one message per id to every
/// client of `clients`.
pub open spec fn deletions(gone: Seq<u128>, clients: Seq<u64>) -> Seq<ActionView> {
    gone.map_values(|u: u128| ActionView::Send { to: clients, msg: MessageView::EntityDelete { id: u } })
}

/// Host side: the tracked entities that are no longer among `alive` are
/// forgotten and every client is told to delete them. Returns their synced
/// ids, each once, and the sendings, one per id in the same order.
pub fn entity_removed_from_server<P>(track: &mut SyncTrackerRes<P>, alive: &Vec<u64>, clients: &Vec<u64>) -> (r: (Vec<u128>, Vec<Action>))
    requires
        old(track).wf(),
    ensures
        final(track).wf(),
        r.0@.no_duplicates(),
        r.0@.to_set() == despawned_uuids(old(track)@.entity_to_uuid, alive@.to_set()),
        final(track)@ == (TrackerView {
            entity_to_uuid: old(track)@.entity_to_uuid.restrict(alive@.to_set()),
            uuid_to_entity: old(track)@.uuid_to_entity.remove_keys(r.0@.to_set()),
            ..old(track)@
        }),
        views(r.1@) == deletions(r.0@, clients@),
        r.1@.len() == r.0@.len(),
        forall|i: int|
            0 <= i < r.1@.len() ==> (#[trigger] r.1@[i])@ == (ActionView::Send {
                to: clients@,
                msg: MessageView::EntityDelete { id: r.0@[i] },
            }),
        forall|u: u128|
            #[trigger] despawned_uuids(old(track)@.entity_to_uuid, alive@.to_set()).contains(u) ==> exists|i: int|
                0 <= i < r.1@.len() && (#[trigger] r.1@[i])@ == (ActionView::Send {
                    to: clients@,
                    msg: MessageView::EntityDelete { id: u },
                }),
{
    let gone = track.remove_despawned_entities(alive);
    let mut sends: Vec<Action> = Vec::new();
    let mut i: usize = 0;
    while i < gone.len()
        invariant
            i <= gone@.len(),
            views(sends@) == deletions(gone@.subrange(0, i as int), clients@),
        decreases gone.len() - i,
    {
        let a = broadcast(clients, &Message::EntityDelete { id: gone[i] });
        let ghost prev = sends@;
        let ghost av = a@;
        sends.push(a);
        assert(views(sends@) =~= views(prev).push(av));
        assert(deletions(gone@.subrange(0, i + 1), clients@) =~= deletions(gone@.subrange(0, i as int), clients@).push(av));
        i = i + 1;
    }
    assert(gone@.subrange(0, i as int) =~= gone@);
    proof {
        assert forall|j: int| 0 <= j < sends@.len() implies (#[trigger] sends@[j])@ == (ActionView::Send {
            to: clients@,
            msg: MessageView::EntityDelete { id: gone@[j] },
        }) by {
            assert(views(sends@)[j] == sends@[j]@);
        }
        assert forall|u: u128| #[trigger] despawned_uuids(old(track)@.entity_to_uuid, alive@.to_set()).contains(u) implies exists|j: int|
            0 <= j < sends@.len() && (#[trigger] sends@[j])@ == (ActionView::Send {
                to: clients@,
                msg: MessageView::EntityDelete { id: u },
            }) by {
            assert(gone@.to_set().contains(u));
            let j = choose|j: int| 0 <= j < gone@.len() && gone@[j] == u;
            assert(sends@[j]@ == views(sends@)[j]);
        }
    }
    (gone, sends)
}

/// A queued component change, serialised as `data`, sent to every client.
pub fn component_changed_on_server(change_id: ComponentChangeId, data: Vec<u8>, clients: &Vec<u64>) -> (r: Action)
    ensures
        r@ == (ActionView::Send {
            to: clients@,
            msg: MessageView::ComponentUpdated { id: change_id.id, name: change_id.name@, data: data@ },
        }),
{
    Action::Send {
        to: copy_ids(clients),
        msg: Message::ComponentUpdated { id: change_id.id, name: change_id.name, data },
    }
}

/// A client's component value that the host offered to its world (the
/// `ApplyComponent` action): when it was applied it is relayed to
/// `relay_to`, the other clients; when it was not, nothing is sent.
pub fn relay_applied_component(applied: bool, id: u128, name: String, data: Vec<u8>, relay_to: &Vec<u64>) -> (r: Option<
    Action,
>)
    ensures
        applied ==> (r matches Some(a) && a@ == (ActionView::Send {
            to: relay_to@,
            msg: MessageView::ComponentUpdated { id, name: name@, data: data@ },
        })),
        !applied ==> r is None,
{
    if applied {
        Some(Action::Send { to: copy_ids(relay_to), msg: Message::ComponentUpdated { id, name, data } })
    } else {
        None
    }
}

/// A client's parenting that the host carried out (the `ParentEntities`
/// action): when the child entity exists it is relayed to `relay_to`, the
/// other clients; when it does not, nothing is sent.
pub fn relay_parenting(child_exists: bool, entity_id: u128, parent_id: u128, relay_to: &Vec<u64>) -> (r: Option<Action>)
    ensures
        child_exists ==> (r matches Some(a) && a@ == (ActionView::Send {
            to: relay_to@,
            msg: MessageView::EntityParented { entity_id, parent_id },
        })),
        !child_exists ==> r is None,
{
    if child_exists {
        Some(Action::Send { to: copy_ids(relay_to), msg: Message::EntityParented { entity_id, parent_id } })
    } else {
        None
    }
}

/// A local material changed on the host: unless the change is the echo of
/// a material that came from the network, its serialised form `material`
/// (none when it could not be made) is sent to every client.
pub fn material_changed_on_server<P>(
    track: &mut SyncTrackerRes<P>,
    id: u128,
    material: Option<Vec<u8>>,
    clients: &Vec<u64>,
) -> (r: Option<Action>)
    requires
        old(track).wf(),
    ensures
        final(track).wf(),
        final(track)@ == skip_outcome(old(track)@, id).1,
        match material {
            Some(m) if !skip_outcome(old(track)@, id).0 => r matches Some(a) && a@ == (ActionView::Send {
                to: clients@,
                msg: MessageView::StandardMaterialUpdated { id, material: m@ },
            }),
            _ => r is None,
        },
{
    if track.skip_network_handle_change(id) {
        return None;
    }
    match material {
        Some(m) => Some(Action::Send { to: copy_ids(clients), msg: Message::StandardMaterialUpdated { id, material: m } }),
        None => None,
    }
}

/// A local asset changed on the host: unless the change is the echo of an
/// asset that came from the network, it is served from `store` and every
/// client is told its URL under `base`.
pub fn asset_changed_on_server<P>(
    track: &mut SyncTrackerRes<P>,
    store: &mut AssetStore,
    base: &str,
    kind: SyncAssetType,
    id: u128,
    bin: Option<Vec<u8>>,
    clients: &Vec<u64>,
) -> (r: Option<Action>)
    requires
        old(track).wf(),
    ensures
        final(track).wf(),
        final(track)@ == skip_outcome(old(track)@, id).1,
        skip_outcome(old(track)@, id).0 ==> r is None && final(store)@ == old(store)@,
        !skip_outcome(old(track)@, id).0 ==> {
            &&& r matches Some(a)
            &&& a@ == (ActionView::Send { to: clients@, msg: asset_message(kind, id, base@ + asset_path(kind, id)) })
            &&& final(store)@ == served_after(old(store)@, id, bin)
        },
{
    match serve_changed_asset(track, store, base, kind, id, bin) {
        Some(m) => Some(Action::Send { to: copy_ids(clients), msg: m }),
        None => None,
    }
}

/// An entity spawned on the host at the request of client `origin`: when it
/// is tracked, the other clients are told to spawn it too.
pub fn reply_to_client_generated_entity<P>(
    track: &SyncTrackerRes<P>,
    entity: u64,
    origin: u64,
    clients: &Vec<u64>,
) -> (r: Option<Action>)
    ensures
        track@.entity_to_uuid.contains_key(entity) ==> (r matches Some(a) && a@ == (ActionView::Send {
            to: without(clients@, origin),
            msg: MessageView::EntitySpawn { id: track@.entity_to_uuid[entity] },
        })),
        !track@.entity_to_uuid.contains_key(entity) ==> r is None,
{
    match track.uuid_of(entity) {
        Some(id) => Some(Action::Send { to: recipients_except(clients, origin), msg: Message::EntitySpawn { id } }),
        None => None,
    }
}

} // verus!

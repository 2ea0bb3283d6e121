//! Decisions of a client: how it answers each message from the host, its
//! connection state, and each local change to the synchronised world.
use vstd::prelude::*;
use crate::ids::{is_random_uuid, new_uuid};
use crate::proto::{ClientState, ConnectionEvent, Message, MessageView, SyncAssetType, SyncConnectionParameters};
use crate::reaction::{none, no_reaction, one, two, views, Action, ActionView, Reaction, ReactionView};
use crate::assets::{asset_message, asset_path, serve_changed_asset, served_after, AssetStore};
use crate::tracker::{despawned_entities, skip_outcome, ComponentChangeId, SyncTrackerRes, TrackerView};

verus! {

/// How a client answers message `msg` from the host, with `params` its own
/// connection parameters: the tracker afterwards and the reaction. `alive`
/// tells whether the entity tracked for the message's id still exists.
pub open spec fn client_reaction<P>(
    t: TrackerView<P>,
    msg: MessageView,
    params: SyncConnectionParameters,
    alive: bool,
) -> (TrackerView<P>, ReactionView) {
    let nothing = Seq::<ActionView>::empty();
    match msg {
        MessageView::EntitySpawn { id } => if t.uuid_to_entity.contains_key(id) && alive {
            (t, ReactionView { now: nothing, later: nothing })
        } else {
            (t, ReactionView { now: seq![ActionView::SpawnEntity { uuid: id }], later: nothing })
        },
        MessageView::EntityParented { entity_id, parent_id } => if t.uuid_to_entity.contains_key(entity_id)
            && t.uuid_to_entity.contains_key(parent_id) {
            (
                t,
                ReactionView {
                    now: nothing,
                    later: seq![ActionView::SetParent {
                        child: t.uuid_to_entity[entity_id],
                        parent: t.uuid_to_entity[parent_id],
                    }],
                },
            )
        } else {
            (t, ReactionView { now: nothing, later: nothing })
        },
        MessageView::EntityDelete { id } => if t.uuid_to_entity.contains_key(id) && alive {
            (
                TrackerView {
                    uuid_to_entity: t.uuid_to_entity.remove(id),
                    entity_to_uuid: t.entity_to_uuid.remove(t.uuid_to_entity[id]),
                    ..t
                },
                ReactionView { now: seq![ActionView::DespawnEntity { entity: t.uuid_to_entity[id] }], later: nothing },
            )
        } else {
            (t, ReactionView { now: nothing, later: nothing })
        },
        MessageView::ComponentUpdated { id, name, data } => if t.uuid_to_entity.contains_key(id) {
            (
                t,
                ReactionView {
                    now: nothing,
                    later: seq![ActionView::ApplyComponent {
                        entity: t.uuid_to_entity[id],
                        id,
                        name,
                        data,
                        relay_to: Seq::empty(),
                    }],
                },
            )
        } else {
            (t, ReactionView { now: nothing, later: nothing })
        },
        MessageView::StandardMaterialUpdated { id, material } => (
            t,
            ReactionView { now: nothing, later: seq![ActionView::ApplyMaterial { id, material }] },
        ),
        MessageView::MeshUpdated { id, url } => (
            t,
            ReactionView { now: seq![ActionView::RequestAsset { kind: SyncAssetType::Mesh, id, url }], later: nothing },
        ),
        MessageView::ImageUpdated { id, url } => (
            t,
            ReactionView { now: seq![ActionView::RequestAsset { kind: SyncAssetType::Image, id, url }], later: nothing },
        ),
        MessageView::AudioUpdated { id, url } => (
            t,
            ReactionView { now: seq![ActionView::RequestAsset { kind: SyncAssetType::Audio, id, url }], later: nothing },
        ),
        MessageView::PromoteToHost => match params {
            SyncConnectionParameters::Socket { ip, port, .. } => (
                t,
                ReactionView { now: nothing, later: seq![ActionView::StartHost { ip, port }, ActionView::BeginPromotion] },
            ),
        },
        MessageView::NewHost { params: host } => match host {
            SyncConnectionParameters::Socket { ip, port, .. } => (
                TrackerView { host_promotion_in_progress: true, ..t },
                ReactionView {
                    now: seq![ActionView::DisconnectFromServer],
                    later: seq![ActionView::ConnectToHost { ip, port }],
                },
            ),
        },
        MessageView::RequestInitialSync => (t, ReactionView { now: nothing, later: nothing }),
        MessageView::FinishedInitialSync => (t, ReactionView { now: nothing, later: nothing }),
    }
}

/// A client's answer to message `msg` from the host, with
/// `connection_parameters` its own parameters and `entity_alive` whether
/// the entity tracked for the message's id still exists.
pub fn client_received_a_message<P>(
    track: &mut SyncTrackerRes<P>,
    msg: Message,
    connection_parameters: SyncConnectionParameters,
    entity_alive: bool,
) -> (r: Reaction)
    requires
        old(track).wf(),
    ensures
        final(track).wf(),
        (final(track)@, r@) == client_reaction(old(track)@, msg@, connection_parameters, entity_alive),
{
    match msg {
        Message::EntitySpawn { id } => {
            if let Some(_) = track.entity_of(id) {
                if entity_alive {
                    return no_reaction();
                }
            }
            Reaction { now: one(Action::SpawnEntity { uuid: id }), later: none() }
        },
        Message::EntityParented { entity_id, parent_id } => {
            let Some(child) = track.entity_of(entity_id) else {
                return no_reaction();
            };
            let Some(parent) = track.entity_of(parent_id) else {
                return no_reaction();
            };
            Reaction { now: none(), later: one(Action::SetParent { child, parent }) }
        },
        Message::EntityDelete { id } => {
            let Some(e) = track.entity_of(id) else {
                return no_reaction();
            };
            if !entity_alive {
                return no_reaction();
            }
            track.forget_entity(id, e);
            Reaction { now: one(Action::DespawnEntity { entity: e }), later: none() }
        },
        Message::ComponentUpdated { id, name, data } => {
            let Some(e) = track.entity_of(id) else {
                return no_reaction();
            };
            Reaction {
                now: none(),
                later: one(Action::ApplyComponent { entity: e, id, name, data, relay_to: Vec::new() }),
            }
        },
        Message::StandardMaterialUpdated { id, material } => {
            Reaction { now: none(), later: one(Action::ApplyMaterial { id, material }) }
        },
        Message::MeshUpdated { id, url } => Reaction {
            now: one(Action::RequestAsset { kind: SyncAssetType::Mesh, id, url }),
            later: none(),
        },
        Message::ImageUpdated { id, url } => Reaction {
            now: one(Action::RequestAsset { kind: SyncAssetType::Image, id, url }),
            later: none(),
        },
        Message::AudioUpdated { id, url } => Reaction {
            now: one(Action::RequestAsset { kind: SyncAssetType::Audio, id, url }),
            later: none(),
        },
        Message::PromoteToHost => {
            match connection_parameters {
                SyncConnectionParameters::Socket { ip, port, .. } => {
                    Reaction { now: none(), later: two(Action::StartHost { ip, port }, Action::BeginPromotion) }
                },
            }
        },
        Message::NewHost { params } => {
            match params {
                SyncConnectionParameters::Socket { ip, port, .. } => {
                    track.set_host_promotion_in_progress(true);
                    Reaction { now: one(Action::DisconnectFromServer), later: one(Action::ConnectToHost { ip, port }) }
                },
            }
        },
        Message::RequestInitialSync => no_reaction(),
        Message::FinishedInitialSync => no_reaction(),
    }
}

/// The next state of a client's connection.
pub open spec fn client_state_after(state: ClientState, event: ConnectionEvent) -> ClientState {
    match (state, event) {
        (ClientState::Disconnected, ConnectionEvent::TransportAdded) => ClientState::Connecting,
        (ClientState::Connecting, ConnectionEvent::Connected) => ClientState::Connected,
        (ClientState::Connected, ConnectionEvent::TransportRemoved) => ClientState::Disconnected,
        _ => state,
    }
}

/// What a client does on a connection event: when it becomes connected in
/// a fresh session it asks the host for the world; when it reconnects after
/// a promotion it does not, and the promotion is over.
pub open spec fn client_connect_outcome<P>(t: TrackerView<P>, state: ClientState, event: ConnectionEvent) -> (TrackerView<P>, ReactionView) {
    let nothing = Seq::<ActionView>::empty();
    if state == ClientState::Connecting && event == ConnectionEvent::Connected {
        if !t.host_promotion_in_progress {
            (t, ReactionView { now: nothing, later: seq![ActionView::RequestInitialSync] })
        } else {
            (TrackerView { host_promotion_in_progress: false, ..t }, ReactionView { now: nothing, later: nothing })
        }
    } else {
        (t, ReactionView { now: nothing, later: nothing })
    }
}

/// A client's connection state after `event`, and what it does. When it
/// becomes connected in a fresh session it asks the host for the world;
/// when it reconnects after a promotion it does not, and the promotion is
/// over.
pub fn client_connection_step<P>(track: &mut SyncTrackerRes<P>, state: ClientState, event: ConnectionEvent) -> (r: (ClientState, Reaction))
    requires
        old(track).wf(),
    ensures
        final(track).wf(),
        r.0 == client_state_after(state, event),
        (final(track)@, r.1@) == client_connect_outcome(old(track)@, state, event),
{
    match (state, event) {
        (ClientState::Disconnected, ConnectionEvent::TransportAdded) => (ClientState::Connecting, no_reaction()),
        (ClientState::Connecting, ConnectionEvent::Connected) => {
            if !track.host_promotion_in_progress() {
                (ClientState::Connected, Reaction { now: none(), later: one(Action::RequestInitialSync) })
            } else {
                track.set_host_promotion_in_progress(false);
                (ClientState::Connected, no_reaction())
            }
        },
        (ClientState::Connected, ConnectionEvent::TransportRemoved) => (ClientState::Disconnected, no_reaction()),
        _ => (state, no_reaction()),
    }
}

/// A local entity was marked for synchronisation on a client: it gets a
/// fresh synced id, is tracked under it, and the host is told to spawn it.
pub fn entity_created_on_client<P>(track: &mut SyncTrackerRes<P>, entity: u64) -> (r: (u128, Action))
    requires
        old(track).wf(),
    ensures
        final(track).wf(),
        final(track)@ == (TrackerView {
            uuid_to_entity: old(track)@.uuid_to_entity.insert(r.0, entity),
            entity_to_uuid: old(track)@.entity_to_uuid.insert(entity, r.0),
            ..old(track)@
        }),
        is_random_uuid(r.0),
        r.1@ == (ActionView::SendToServer { msg: MessageView::EntitySpawn { id: r.0 } }),
{
    let uuid = new_uuid();
    track.track_entity(uuid, entity);
    (uuid, Action::SendToServer { msg: Message::EntitySpawn { id: uuid } })
}

/// The parent of a synced entity changed on a client: when the parent is a
/// synced entity too, the host is told.
pub fn entity_parented_on_client(entity_id: u128, parent_id: Option<u128>) -> (r: Option<Action>)
    ensures
        match parent_id {
            Some(p) => r matches Some(a) && a@ == (ActionView::SendToServer {
                msg: MessageView::EntityParented { entity_id, parent_id: p },
            }),
            None => r is None,
        },
{
    match parent_id {
        Some(p) => Some(Action::SendToServer { msg: Message::EntityParented { entity_id, parent_id: p } }),
        None => None,
    }
}

/// Client side: the synced ids whose entities are no longer among `alive`
/// are forgotten and the host is told to delete them. Returns the ids, each
/// once, and the sendings, one per id in the same order.
pub fn entity_removed_from_client<P>(track: &mut SyncTrackerRes<P>, alive: &Vec<u64>) -> (r: (Vec<u128>, Vec<Action>))
    requires
        old(track).wf(),
    ensures
        final(track).wf(),
        r.0@.no_duplicates(),
        r.0@.to_set() == despawned_entities(old(track)@.uuid_to_entity, alive@.to_set()),
        final(track)@ == (TrackerView {
            uuid_to_entity: old(track)@.uuid_to_entity.remove_keys(r.0@.to_set()),
            ..old(track)@
        }),
        views(r.1@) == r.0@.map_values(|u: u128| ActionView::SendToServer { msg: MessageView::EntityDelete { id: u } }),
{
    let gone = track.remove_despawned_uuids(alive);
    let mut sends: Vec<Action> = Vec::new();
    let mut i: usize = 0;
    while i < gone.len()
        invariant
            i <= gone@.len(),
            views(sends@) == gone@.subrange(0, i as int).map_values(
                |u: u128| ActionView::SendToServer { msg: MessageView::EntityDelete { id: u } },
            ),
        decreases gone.len() - i,
    {
        let a = Action::SendToServer { msg: Message::EntityDelete { id: gone[i] } };
        let ghost prev = sends@;
        let ghost av = a@;
        sends.push(a);
        assert(views(sends@) =~= views(prev).push(av));
        assert(gone@.subrange(0, i + 1).map_values(
            |u: u128| ActionView::SendToServer { msg: MessageView::EntityDelete { id: u } },
        ) =~= gone@.subrange(0, i as int).map_values(
            |u: u128| ActionView::SendToServer { msg: MessageView::EntityDelete { id: u } },
        ).push(av));
        i = i + 1;
    }
    assert(gone@.subrange(0, i as int) =~= gone@);
    (gone, sends)
}

/// What a client sends the host as its own world at the start of a
/// session: each of `world` in order, then the end marker.
pub fn client_initial_sync(world: Vec<Message>) -> (r: Vec<Action>)
    ensures
        views(r@) == world@.map_values(|m: Message| ActionView::SendToServer { msg: m@ }).push(
            ActionView::SendToServer { msg: MessageView::FinishedInitialSync },
        ),
{
    let mut world = world;
    let ghost w = world@;
    let mut sends: Vec<Action> = Vec::new();
    let mut rest: Vec<Message> = Vec::new();
    // take the messages in order: reverse once, then pop
    while world.len() > 0
        invariant
            w == world@ + rest@.reverse(),
        decreases world.len(),
    {
        let m = world.pop().unwrap();
        let ghost before = rest@;
        rest.push(m);
        assert(rest@.reverse() =~= seq![m].add(before.reverse()));
        assert(w =~= world@ + rest@.reverse());
    }
    assert(rest@.reverse() =~= w);
    while rest.len() > 0
        invariant
            views(sends@) == w.subrange(0, w.len() - rest@.len()).map_values(|m: Message| ActionView::SendToServer { msg: m@ }),
            rest@.reverse() == w.subrange(w.len() - rest@.len(), w.len() as int),
            rest@.len() <= w.len(),
        decreases rest.len(),
    {
        let ghost k = w.len() - rest@.len();
        let ghost old_rest = rest@;
        let m = rest.pop().unwrap();
        assert(old_rest == rest@.push(m));
        assert(w[k] == m) by {
            assert(w.subrange(k, w.len() as int)[0] == w[k]);
        }
        let a = Action::SendToServer { msg: m };
        let ghost prev = sends@;
        let ghost av = a@;
        sends.push(a);
        assert(views(sends@) =~= views(prev).push(av));
        assert(w.subrange(0, k + 1).map_values(|m: Message| ActionView::SendToServer { msg: m@ }) =~= w.subrange(0, k).map_values(
            |m: Message| ActionView::SendToServer { msg: m@ },
        ).push(av));
        assert forall|i: int| 0 <= i < rest@.len() implies #[trigger] rest@.reverse()[i] == w.subrange(k + 1, w.len() as int)[i] by {
            assert(rest@.reverse()[i] == old_rest.reverse()[i + 1]);
            assert(old_rest.reverse()[i + 1] == w.subrange(k, w.len() as int)[i + 1]);
        }
        assert(rest@.reverse() =~= w.subrange(k + 1, w.len() as int));
    }
    assert(w.subrange(0, w.len() as int) =~= w);
    let a = Action::SendToServer { msg: Message::FinishedInitialSync };
    let ghost prev = sends@;
    let ghost av = a@;
    sends.push(a);
    assert(views(sends@) =~= views(prev).push(av));
    sends
}

/// A queued component change, serialised as `data`, sent to the host.
pub fn component_changed_on_client(change_id: ComponentChangeId, data: Vec<u8>) -> (r: Action)
    ensures
        r@ == (ActionView::SendToServer {
            msg: MessageView::ComponentUpdated { id: change_id.id, name: change_id.name@, data: data@ },
        }),
{
    Action::SendToServer { msg: Message::ComponentUpdated { id: change_id.id, name: change_id.name, data } }
}

/// A local material changed on a client: unless the change is the echo of
/// a material that came from the network, its serialised form `material`
/// (none when it could not be made) is sent to the host.
pub fn material_changed_on_client<P>(track: &mut SyncTrackerRes<P>, id: u128, material: Option<Vec<u8>>) -> (r: Option<Action>)
    requires
        old(track).wf(),
    ensures
        final(track).wf(),
        final(track)@ == skip_outcome(old(track)@, id).1,
        match material {
            Some(m) if !skip_outcome(old(track)@, id).0 => r matches Some(a) && a@ == (ActionView::SendToServer {
                msg: MessageView::StandardMaterialUpdated { id, material: m@ },
            }),
            _ => r is None,
        },
{
    if track.skip_network_handle_change(id) {
        return None;
    }
    match material {
        Some(m) => Some(Action::SendToServer { msg: Message::StandardMaterialUpdated { id, material: m } }),
        None => None,
    }
}

/// A local asset changed on a client: unless the change is the echo of an
/// asset that came from the network, it is served from `store` and the host
/// is told its URL under `base`.
pub fn asset_changed_on_client<P>(
    track: &mut SyncTrackerRes<P>,
    store: &mut AssetStore,
    base: &str,
    kind: SyncAssetType,
    id: u128,
    bin: Option<Vec<u8>>,
) -> (r: Option<Action>)
    requires
        old(track).wf(),
    ensures
        final(track).wf(),
        final(track)@ == skip_outcome(old(track)@, id).1,
        skip_outcome(old(track)@, id).0 ==> r is None && final(store)@ == old(store)@,
        !skip_outcome(old(track)@, id).0 ==> {
            &&& r matches Some(a)
            &&& a@ == (ActionView::SendToServer { msg: asset_message(kind, id, base@ + asset_path(kind, id)) })
            &&& final(store)@ == served_after(old(store)@, id, bin)
        },
{
    match serve_changed_asset(track, store, base, kind, id, bin) {
        Some(m) => Some(Action::SendToServer { msg: m }),
        None => None,
    }
}

} // verus!

//! Properties of the library as a whole: what holds across several calls.
use vstd::prelude::*;
use crate::client::{client_connect_outcome, client_reaction};
use crate::proto::{ClientState, ConnectionEvent, MessageView, SyncAssetType, SyncConnectionParameters};
use crate::reaction::{tracker_effect, without, ActionView, ReactionView};
use crate::server::{server_disconnect_outcome, server_reaction};
use crate::tracker::{accept_outcome, known_images, despawned_entities, despawned_uuids, lookup, signal_outcome, skip_outcome, TrackerView};

verus! {

/// A component value applied from the network is not sent back: the local
/// change that applying it causes is dropped, and afterwards the tracker is
/// exactly as it was before the value arrived.
pub proof fn law_applied_component_is_not_echoed<P>(t: TrackerView<P>, id: u128, name: Seq<char>, data: P)
    requires
        accept_outcome(t, id, name, true).0,
    ensures
        signal_outcome(accept_outcome(t, id, name, true).1, id, name, data) == (true, t),
{
    let t1 = accept_outcome(t, id, name, true).1;
    assert(t1.pushed_components.remove((id, name)) =~= t.pushed_components);
}

/// A local change of a component that did not just come from the network is
/// queued for sending, after every change already waiting.
pub proof fn law_local_change_is_queued_last<P>(t: TrackerView<P>, id: u128, name: Seq<char>, data: P)
    requires
        !t.pushed_components.contains((id, name)),
    ensures
        !signal_outcome(t, id, name, data).0,
        signal_outcome(t, id, name, data).1.pending.last() == (id, name),
        signal_outcome(t, id, name, data).1.pending_data.last() == data,
        signal_outcome(t, id, name, data).1.pending.drop_last() == t.pending,
{
    assert(t.pending.push((id, name)).drop_last() =~= t.pending);
}

/// A component value equal to the entity's own is never applied, and the
/// tracker does not change.
pub proof fn law_equal_value_is_not_applied<P>(t: TrackerView<P>, id: u128, name: Seq<char>)
    ensures
        accept_outcome(t, id, name, false) == (false, t),
{
}

/// An asset received from the network is not sent back: once the material
/// is applied, the next local change of it is skipped, and afterwards the
/// tracker is as it was before the asset arrived.
pub proof fn law_received_asset_is_not_echoed<P>(t: TrackerView<P>, id: u128, material: Seq<u8>)
    requires
        !t.pushed_handles.contains(id),
    ensures
        skip_outcome(tracker_effect(t, ActionView::ApplyMaterial { id, material }), id) == (true, t),
{
    assert(t.pushed_handles.insert(id).remove(id) =~= t.pushed_handles);
}

/// Who a message is relayed to: exactly the connected clients other than
/// its sender, none of them twice when no client is listed twice.
pub proof fn law_relay_reaches_all_but_sender(clients: Seq<u64>, sender: u64)
    ensures
        forall|c: u64| #[trigger] without(clients, sender).contains(c) <==> (clients.contains(c) && c != sender),
        clients.no_duplicates() ==> without(clients, sender).no_duplicates(),
    decreases clients.len(),
{
    if clients.len() > 0 {
        let rest = clients.drop_last();
        law_relay_reaches_all_but_sender(rest, sender);
        assert(clients == rest.push(clients.last()));
        let x = clients.last();
        let w = without(rest, sender);
        assert forall|c: u64| #[trigger] without(clients, sender).contains(c) <==> (clients.contains(c) && c != sender) by {
            assert(clients.contains(c) <==> (rest.contains(c) || c == x)) by {
                if clients.contains(c) {
                    let i = choose|i: int| 0 <= i < clients.len() && clients[i] == c;
                    if i < rest.len() {
                        assert(rest[i] == c);
                    }
                }
                if rest.contains(c) {
                    let i = choose|i: int| 0 <= i < rest.len() && rest[i] == c;
                    assert(clients[i] == c);
                }
                if c == x {
                    assert(clients[clients.len() - 1] == c);
                }
            }
            if x != sender {
                assert(without(clients, sender) == w.push(x));
                assert(w.push(x).contains(c) <==> (w.contains(c) || c == x)) by {
                    if w.push(x).contains(c) {
                        let i = choose|i: int| 0 <= i < w.push(x).len() && w.push(x)[i] == c;
                        if i < w.len() {
                            assert(w[i] == c);
                        }
                    }
                    if w.contains(c) {
                        let i = choose|i: int| 0 <= i < w.len() && w[i] == c;
                        assert(w.push(x)[i] == c);
                    }
                    if c == x {
                        assert(w.push(x)[w.len() as int] == c);
                    }
                }
            } else {
                assert(without(clients, sender) == w);
            }
        }
        if clients.no_duplicates() {
            assert(rest.no_duplicates()) by {
                assert forall|i: int, j: int| 0 <= i < rest.len() && 0 <= j < rest.len() && i != j implies rest[i] != rest[j] by {
                    assert(rest[i] == clients[i] && rest[j] == clients[j]);
                }
            }
            if clients.last() != sender {
                assert(!rest.contains(clients.last())) by {
                    if rest.contains(clients.last()) {
                        let i = choose|i: int| 0 <= i < rest.len() && rest[i] == clients.last();
                        assert(clients[i] == clients[clients.len() - 1]);
                    }
                }
                assert(!without(rest, sender).contains(clients.last()));
            }
        }
    }
}

/// Whatever the host relays of a client's message goes to the connected
/// clients other than that client, and the message relayed is the one
/// received.
pub proof fn law_host_relays_to_others<P>(t: TrackerView<P>, sender: u64, msg: MessageView, clients: Seq<u64>, alive: bool)
    ensures
        forall|a: ActionView|
            #[trigger] server_reaction(t, sender, msg, clients, alive).1.now.contains(a) && a is Send ==> a->Send_to == without(
                clients,
                sender,
            ) && a->Send_msg == msg,
        forall|a: ActionView|
            #[trigger] server_reaction(t, sender, msg, clients, alive).1.later.contains(a) && a is Send ==> a->Send_to == without(
                clients,
                sender,
            ) && a->Send_msg == msg,
{
    let r = server_reaction(t, sender, msg, clients, alive).1;
    assert forall|a: ActionView| #[trigger] r.now.contains(a) && a is Send implies a->Send_to == without(clients, sender) && a->Send_msg
        == msg by {
        let i = choose|i: int| 0 <= i < r.now.len() && r.now[i] == a;
    }
    assert forall|a: ActionView| #[trigger] r.later.contains(a) && a is Send implies a->Send_to == without(clients, sender)
        && a->Send_msg == msg by {
        let i = choose|i: int| 0 <= i < r.later.len() && r.later[i] == a;
    }
}

/// A synced id, once tracked for an entity, leads to that entity and back.
pub proof fn law_tracked_entity_is_found<P>(t: TrackerView<P>, uuid: u128, entity: u64)
    ensures
        ({
            let t1 = TrackerView {
                uuid_to_entity: t.uuid_to_entity.insert(uuid, entity),
                entity_to_uuid: t.entity_to_uuid.insert(entity, uuid),
                ..t
            };
            lookup(t1.uuid_to_entity, uuid) == Some(entity) && lookup(t1.entity_to_uuid, entity) == Some(uuid)
        }),
{
}

/// A tracked entity deleted by a message from the other side is despawned
/// and forgotten, on the host and on a client alike.
pub proof fn law_deleted_entity_is_forgotten<P>(
    t: TrackerView<P>,
    sender: u64,
    id: u128,
    clients: Seq<u64>,
    params: SyncConnectionParameters,
)
    requires
        t.uuid_to_entity.contains_key(id),
    ensures
        ({
            let (ts, rs) = server_reaction(t, sender, MessageView::EntityDelete { id }, clients, true);
            &&& !ts.uuid_to_entity.contains_key(id)
            &&& !ts.entity_to_uuid.contains_key(t.uuid_to_entity[id])
            &&& rs.now[0] == ActionView::DespawnEntity { entity: t.uuid_to_entity[id] }
        }),
        ({
            let (tc, rc) = client_reaction(t, MessageView::EntityDelete { id }, params, true);
            &&& !tc.uuid_to_entity.contains_key(id)
            &&& !tc.entity_to_uuid.contains_key(t.uuid_to_entity[id])
            &&& rc.now == seq![ActionView::DespawnEntity { entity: t.uuid_to_entity[id] }]
        }),
{
}

/// A client never spawns a second entity for a synced id it already
/// tracks for a living entity.
pub proof fn law_client_spawns_each_id_once<P>(t: TrackerView<P>, id: u128, params: SyncConnectionParameters)
    requires
        t.uuid_to_entity.contains_key(id),
    ensures
        client_reaction(t, MessageView::EntitySpawn { id }, params, true) == (t, ReactionView {
            now: Seq::<ActionView>::empty(),
            later: Seq::<ActionView>::empty(),
        }),
{
}

/// An entity that is tracked and then no longer exists is among those whose
/// deletion is announced, by the host and by a client alike.
pub proof fn law_despawned_entity_is_announced<P>(t: TrackerView<P>, uuid: u128, entity: u64, alive: Set<u64>)
    requires
        !alive.contains(entity),
    ensures
        despawned_uuids(t.entity_to_uuid.insert(entity, uuid), alive).contains(uuid),
        despawned_entities(t.uuid_to_entity.insert(uuid, entity), alive).contains(uuid),
{
    assert(t.entity_to_uuid.insert(entity, uuid).contains_key(entity));
}

/// A client told of a new host reconnects to it without asking again for
/// the world, and once connected the promotion is over: the tracker is as it
/// was before the news.
pub proof fn law_client_follows_new_host<P>(
    t: TrackerView<P>,
    host: SyncConnectionParameters,
    own: SyncConnectionParameters,
    alive: bool,
)
    requires
        !t.host_promotion_in_progress,
    ensures
        ({
            let (t1, r1) = client_reaction(t, MessageView::NewHost { params: host }, own, alive);
            let (t2, r2) = client_connect_outcome(t1, ClientState::Connecting, ConnectionEvent::Connected);
            &&& r1.now == seq![ActionView::DisconnectFromServer]
            &&& r1.later == seq![ActionView::ConnectToHost { ip: host->ip, port: host->port }]
            &&& t2 == t
            &&& r2.now.len() == 0
            &&& r2.later.len() == 0
        }),
{
}

/// A client that connects in a fresh session asks the host for the world.
pub proof fn law_fresh_client_requests_world<P>(t: TrackerView<P>)
    requires
        !t.host_promotion_in_progress,
    ensures
        client_connect_outcome(t, ClientState::Connecting, ConnectionEvent::Connected) == (t, ReactionView {
            now: Seq::<ActionView>::empty(),
            later: seq![ActionView::RequestInitialSync],
        }),
{
}

/// The old host, told by a client that it became the new host, hands over:
/// it drops that client, tells the others, marks the promotion once it can
/// change the world, and once the last client has left it closes and the
/// promotion is over. While clients remain it waits.
pub proof fn law_old_host_closes_after_handover<P>(
    t: TrackerView<P>,
    sender: u64,
    params: SyncConnectionParameters,
    clients: Seq<u64>,
    alive: bool,
    remaining: nat,
)
    requires
        !t.host_promotion_in_progress,
    ensures
        ({
            let (t1, r1) = server_reaction(t, sender, MessageView::NewHost { params }, clients, alive);
            let t_done = tracker_effect(tracker_effect(t1, r1.later[0]), r1.later[1]);
            let (t2, r2) = server_disconnect_outcome(t_done, remaining);
            &&& t1 == t
            &&& r1.now == seq![
                ActionView::DisconnectClient { client: sender },
                ActionView::Send { to: without(clients, sender), msg: MessageView::NewHost { params } },
            ]
            &&& r1.later.len() == 2
            &&& t_done.host_promotion_in_progress
            &&& remaining == 0 ==> t2 == t && r2.now == seq![ActionView::CloseServer]
            &&& remaining > 0 ==> t2 == t_done && r2.now.len() == 0
        }),
{
}

/// A client asked to take over starts hosting on its own address and, once
/// it can change the world, marks the promotion as under way.
pub proof fn law_promoted_client_starts_hosting<P>(t: TrackerView<P>, own: SyncConnectionParameters, alive: bool)
    ensures
        ({
            let (t1, r1) = client_reaction(t, MessageView::PromoteToHost, own, alive);
            &&& t1 == t
            &&& r1.now.len() == 0
            &&& r1.later == seq![ActionView::StartHost { ip: own->ip, port: own->port }, ActionView::BeginPromotion]
            &&& tracker_effect(tracker_effect(t1, r1.later[0]), r1.later[1]) == (TrackerView {
                host_promotion_in_progress: true,
                ..t
            })
        }),
{
}

/// The skinned-mesh joints sent by the host as synced ids and read back by
/// a client: the joints the host tracks, whose ids the client tracks too,
/// in order, as the client's entities. Where every joint is tracked on both
/// sides none is dropped; and read back through one tracker whose two maps
/// agree on the joints, they are the joints themselves.
pub proof fn law_joints_map_through_ids(joints: Seq<u64>, host_ids: Map<u64, u128>, client_entities: Map<u128, u64>)
    ensures
        known_images(known_images(joints, host_ids), client_entities) == known_images(
            joints,
            Map::new(
                |j: u64| host_ids.contains_key(j) && client_entities.contains_key(host_ids[j]),
                |j: u64| client_entities[host_ids[j]],
            ),
        ),
        (forall|i: int|
            0 <= i < joints.len() ==> host_ids.contains_key(#[trigger] joints[i]) && client_entities.contains_key(
                host_ids[joints[i]],
            )) ==> known_images(known_images(joints, host_ids), client_entities) == joints.map_values(
            |j: u64| client_entities[host_ids[j]],
        ),
        (forall|i: int|
            0 <= i < joints.len() ==> host_ids.contains_key(#[trigger] joints[i]) && client_entities.contains_key(
                host_ids[joints[i]],
            ) && client_entities[host_ids[joints[i]]] == joints[i]) ==> known_images(
            known_images(joints, host_ids),
            client_entities,
        ) == joints,
    decreases joints.len(),
{
    let comp = Map::new(
        |j: u64| host_ids.contains_key(j) && client_entities.contains_key(host_ids[j]),
        |j: u64| client_entities[host_ids[j]],
    );
    if joints.len() > 0 {
        let rest = joints.drop_last();
        let j = joints.last();
        law_joints_map_through_ids(rest, host_ids, client_entities);
        let ids = known_images(joints, host_ids);
        let ids_rest = known_images(rest, host_ids);
        if host_ids.contains_key(j) {
            assert(ids == ids_rest.push(host_ids[j]));
            assert(ids.drop_last() == ids_rest);
            assert(known_images(ids, client_entities) == if client_entities.contains_key(host_ids[j]) {
                known_images(ids_rest, client_entities).push(client_entities[host_ids[j]])
            } else {
                known_images(ids_rest, client_entities)
            });
        } else {
            assert(ids == ids_rest);
        }
        assert forall|i: int| 0 <= i < rest.len() implies #[trigger] rest[i] == joints[i] by {}
        let f = |x: u64| client_entities[host_ids[x]];
        if forall|i: int|
            0 <= i < joints.len() ==> host_ids.contains_key(#[trigger] joints[i]) && client_entities.contains_key(
                host_ids[joints[i]],
            ) {
            assert(host_ids.contains_key(joints[joints.len() - 1]));
            assert(forall|i: int|
                0 <= i < rest.len() ==> host_ids.contains_key(#[trigger] rest[i]) && client_entities.contains_key(
                    host_ids[rest[i]],
                )) by {
                assert forall|i: int| 0 <= i < rest.len() implies host_ids.contains_key(#[trigger] rest[i])
                    && client_entities.contains_key(host_ids[rest[i]]) by {
                    assert(rest[i] == joints[i]);
                }
            }
            assert(joints.map_values(f) =~= rest.map_values(f).push(f(j)));
        }
        if forall|i: int|
            0 <= i < joints.len() ==> host_ids.contains_key(#[trigger] joints[i]) && client_entities.contains_key(
                host_ids[joints[i]],
            ) && client_entities[host_ids[joints[i]]] == joints[i] {
            assert(host_ids.contains_key(joints[joints.len() - 1]));
            assert forall|i: int| 0 <= i < rest.len() implies host_ids.contains_key(#[trigger] rest[i])
                && client_entities.contains_key(host_ids[rest[i]]) && client_entities[host_ids[rest[i]]] == rest[i] by {
                assert(rest[i] == joints[i]);
            }
            assert(joints =~= rest.push(j));
        }
    }
}

/// The messages a host passes on to its other clients as they are: spawns,
/// deletions, materials, asset announcements and the news of a new host.
pub open spec fn passed_on_as_is(msg: MessageView) -> bool {
    ||| msg is EntitySpawn
    ||| msg is EntityDelete
    ||| msg is StandardMaterialUpdated
    ||| msg is MeshUpdated
    ||| msg is ImageUpdated
    ||| msg is AudioUpdated
    ||| msg is NewHost
}

/// Whether a reaction sends `msg` to `to`, at once or later.
pub open spec fn sends(r: ReactionView, to: Seq<u64>, msg: MessageView) -> bool {
    r.now.contains(ActionView::Send { to, msg }) || r.later.contains(ActionView::Send { to, msg })
}

/// The host passes on what a client tells it: spawns, deletions (whether
/// or not the entity is tracked or alive), materials, asset announcements
/// and the news of a new host go unchanged to every other connected client;
/// a parenting, and a component value of a tracked entity, are handed on to
/// the other clients once carried out. Requests meant for the host alone
/// (promotion, initial sync) are not passed on.
pub proof fn law_host_passes_messages_on<P>(t: TrackerView<P>, sender: u64, msg: MessageView, clients: Seq<u64>, alive: bool)
    ensures
        ({
            let r = server_reaction(t, sender, msg, clients, alive).1;
            let others = without(clients, sender);
            &&& passed_on_as_is(msg) ==> sends(r, others, msg)
            &&& (msg matches MessageView::EntityParented { entity_id, parent_id } ==> r.later.contains(
                ActionView::ParentEntities { entity_id, parent_id, relay_to: others },
            ))
            &&& (msg matches MessageView::ComponentUpdated { id, name, data } ==> (t.uuid_to_entity.contains_key(id)
                ==> r.later.contains(
                ActionView::ApplyComponent { entity: t.uuid_to_entity[id], id, name, data, relay_to: others },
            )))
            &&& (msg is PromoteToHost || msg is RequestInitialSync || msg is FinishedInitialSync) ==> forall|a: ActionView|
                !(#[trigger] r.now.contains(a) && a is Send) && !(r.later.contains(a) && a is Send)
        }),
{
    let r = server_reaction(t, sender, msg, clients, alive).1;
    let others = without(clients, sender);
    match msg {
        MessageView::EntitySpawn { .. } => {
            assert(r.now[1] == ActionView::Send { to: others, msg });
        },
        MessageView::EntityDelete { id } => {
            if t.uuid_to_entity.contains_key(id) && alive {
                assert(r.now[1] == ActionView::Send { to: others, msg });
            } else {
                assert(r.now[0] == ActionView::Send { to: others, msg });
            }
        },
        MessageView::StandardMaterialUpdated { .. } => {
            assert(r.later[1] == ActionView::Send { to: others, msg });
        },
        MessageView::MeshUpdated { .. } => {
            assert(r.later[0] == ActionView::Send { to: others, msg });
        },
        MessageView::ImageUpdated { .. } => {
            assert(r.later[0] == ActionView::Send { to: others, msg });
        },
        MessageView::AudioUpdated { .. } => {
            assert(r.later[0] == ActionView::Send { to: others, msg });
        },
        MessageView::NewHost { .. } => {
            assert(r.now[1] == ActionView::Send { to: others, msg });
        },
        MessageView::EntityParented { entity_id, parent_id } => {
            assert(r.later[0] == ActionView::ParentEntities { entity_id, parent_id, relay_to: others });
        },
        MessageView::ComponentUpdated { id, name, data } => {
            if t.uuid_to_entity.contains_key(id) {
                assert(r.later[0] == ActionView::ApplyComponent {
                    entity: t.uuid_to_entity[id],
                    id,
                    name,
                    data,
                    relay_to: others,
                });
            }
        },
        _ => {},
    }
}

/// The asset a message announces: its kind, id and URL.
pub open spec fn announced_asset(msg: MessageView) -> Option<(SyncAssetType, u128, Seq<char>)> {
    match msg {
        MessageView::MeshUpdated { id, url } => Some((SyncAssetType::Mesh, id, url)),
        MessageView::ImageUpdated { id, url } => Some((SyncAssetType::Image, id, url)),
        MessageView::AudioUpdated { id, url } => Some((SyncAssetType::Audio, id, url)),
        _ => None,
    }
}

/// Whether a reaction requests some asset, at once or later.
pub open spec fn requests_some_asset(r: ReactionView) -> bool {
    exists|a: ActionView| (#[trigger] r.now.contains(a) || r.later.contains(a)) && a is RequestAsset
}

/// An announced asset is downloaded as the kind the message names, with its
/// id and URL, and as nothing else, by the host and by a client alike; a
/// message that announces no asset makes neither download anything.
pub proof fn law_announced_asset_is_requested_as_its_kind<P>(
    t: TrackerView<P>,
    sender: u64,
    msg: MessageView,
    clients: Seq<u64>,
    params: SyncConnectionParameters,
    alive: bool,
)
    ensures
        ({
            let rs = server_reaction(t, sender, msg, clients, alive).1;
            let rc = client_reaction(t, msg, params, alive).1;
            &&& (announced_asset(msg) matches Some((kind, id, url)) ==> {
                &&& rs.now.contains(ActionView::RequestAsset { kind, id, url })
                &&& rc.now.contains(ActionView::RequestAsset { kind, id, url })
                &&& forall|a: ActionView|
                    (#[trigger] rs.now.contains(a) || rs.later.contains(a)) && a is RequestAsset ==> a
                        == ActionView::RequestAsset { kind, id, url }
                &&& forall|a: ActionView|
                    (#[trigger] rc.now.contains(a) || rc.later.contains(a)) && a is RequestAsset ==> a
                        == ActionView::RequestAsset { kind, id, url }
            })
            &&& announced_asset(msg) is None ==> !requests_some_asset(rs) && !requests_some_asset(rc)
        }),
{
    let rs = server_reaction(t, sender, msg, clients, alive).1;
    let rc = client_reaction(t, msg, params, alive).1;
    if let Some((kind, id, url)) = announced_asset(msg) {
        assert(rs.now[0] == ActionView::RequestAsset { kind, id, url });
        assert(rc.now[0] == ActionView::RequestAsset { kind, id, url });
    }
    assert forall|a: ActionView| (#[trigger] rs.now.contains(a) || rs.later.contains(a)) && a is RequestAsset implies announced_asset(msg)
        == Some((a->RequestAsset_kind, a->RequestAsset_id, a->RequestAsset_url)) by {
        if rs.now.contains(a) {
            let i = choose|i: int| 0 <= i < rs.now.len() && rs.now[i] == a;
        } else {
            let i = choose|i: int| 0 <= i < rs.later.len() && rs.later[i] == a;
        }
    }
    assert forall|a: ActionView| (#[trigger] rc.now.contains(a) || rc.later.contains(a)) && a is RequestAsset implies announced_asset(msg)
        == Some((a->RequestAsset_kind, a->RequestAsset_id, a->RequestAsset_url)) by {
        if rc.now.contains(a) {
            let i = choose|i: int| 0 <= i < rc.now.len() && rc.now[i] == a;
        } else {
            let i = choose|i: int| 0 <= i < rc.later.len() && rc.later[i] == a;
        }
    }
}

/// A client leaving changes nothing and does nothing, whatever the number of
/// clients left, unless it is the last one to leave during a promotion:
/// only then does the host close, and the promotion is over.
pub proof fn law_host_closes_only_when_last_client_leaves_promotion<P>(t: TrackerView<P>, remaining: nat)
    ensures
        ({
            let (t2, r) = server_disconnect_outcome(t, remaining);
            &&& r.now.contains(ActionView::CloseServer) <==> (remaining == 0 && t.host_promotion_in_progress)
            &&& !(remaining == 0 && t.host_promotion_in_progress) ==> t2 == t && r.now.len() == 0 && r.later.len() == 0
            &&& (remaining == 0 && t.host_promotion_in_progress) ==> !t2.host_promotion_in_progress
                && t2.uuid_to_entity == t.uuid_to_entity && t2.pending == t.pending
            &&& r.later.len() == 0
        }),
{
    let (t2, r) = server_disconnect_outcome(t, remaining);
    if remaining == 0 && t.host_promotion_in_progress {
        assert(r.now[0] == ActionView::CloseServer);
    }
}

} // verus!

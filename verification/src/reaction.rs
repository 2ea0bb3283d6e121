//! What a peer does in answer to an event: the actions the host or a client
//! performs, some at once and some once the world can be changed.
use vstd::prelude::*;
use crate::proto::{copy_message, IpAddress, Message, MessageView, SyncAssetType};
use crate::tracker::{SyncTrackerRes, TrackerView};

verus! {

/// One thing to do.
pub enum Action {
    /// Spawn an entity carrying the synced id `uuid`, then record it with
    /// `track_entity`.
    SpawnEntity { uuid: u128 },
    /// Host side, with world access: if both synced ids are tracked and the
    /// child exists, make `parent_id`'s entity the parent of `entity_id`'s and
    /// relay the parenting to `relay_to`.
    ParentEntities { entity_id: u128, parent_id: u128, relay_to: Vec<u64> },
    /// Client side, with world access: make `parent` the parent of `child`.
    SetParent { child: u64, parent: u64 },
    /// Despawn a local entity.
    DespawnEntity { entity: u64 },
    /// With world access: apply a component value to `entity`, deciding with
    /// `accept_component_from_network`; if it was applied, relay it to
    /// `relay_to`.
    ApplyComponent { entity: u64, id: u128, name: String, data: Vec<u8>, relay_to: Vec<u64> },
    /// With world access: remember asset `id` as coming from the network
    /// (`apply_to_tracker`), then store the material received.
    ApplyMaterial { id: u128, material: Vec<u8> },
    /// Download an asset from `url`.
    RequestAsset { kind: SyncAssetType, id: u128, url: String },
    /// Send `msg` to each client of `to`, in order.
    Send { to: Vec<u64>, msg: Message },
    /// Send `msg` to the host.
    SendToServer { msg: Message },
    /// Drop the connection of a client.
    DisconnectClient { client: u64 },
    /// Drop the connection to the host.
    DisconnectFromServer,
    /// Open a client connection to the host at `ip`, `port`, replacing any.
    ConnectToHost { ip: IpAddress, port: u16 },
    /// Start hosting on `ip`, `port`.
    StartHost { ip: IpAddress, port: u16 },
    /// Send the whole synchronised world to `client`.
    SendInitialSync { client: u64 },
    /// Drop any pending client connection of this peer.
    RemoveClientTransport,
    /// Disconnect all clients and stop hosting.
    CloseServer,
    /// Snapshot the synchronised world for later and ask the host for its world.
    RequestInitialSync,
    /// Mark a host promotion as under way (`apply_to_tracker`).
    BeginPromotion,
}

/// An action as plain values.
pub enum ActionView {
    SpawnEntity { uuid: u128 },
    ParentEntities { entity_id: u128, parent_id: u128, relay_to: Seq<u64> },
    SetParent { child: u64, parent: u64 },
    DespawnEntity { entity: u64 },
    ApplyComponent { entity: u64, id: u128, name: Seq<char>, data: Seq<u8>, relay_to: Seq<u64> },
    ApplyMaterial { id: u128, material: Seq<u8> },
    RequestAsset { kind: SyncAssetType, id: u128, url: Seq<char> },
    Send { to: Seq<u64>, msg: MessageView },
    SendToServer { msg: MessageView },
    DisconnectClient { client: u64 },
    DisconnectFromServer,
    ConnectToHost { ip: IpAddress, port: u16 },
    StartHost { ip: IpAddress, port: u16 },
    SendInitialSync { client: u64 },
    RemoveClientTransport,
    CloseServer,
    RequestInitialSync,
    BeginPromotion,
}

impl View for Action {
    type V = ActionView;

    open spec fn view(&self) -> ActionView {
        match self {
            Action::SpawnEntity { uuid } => ActionView::SpawnEntity { uuid: *uuid },
            Action::ParentEntities { entity_id, parent_id, relay_to } => ActionView::ParentEntities {
                entity_id: *entity_id,
                parent_id: *parent_id,
                relay_to: relay_to@,
            },
            Action::SetParent { child, parent } => ActionView::SetParent { child: *child, parent: *parent },
            Action::DespawnEntity { entity } => ActionView::DespawnEntity { entity: *entity },
            Action::ApplyComponent { entity, id, name, data, relay_to } => ActionView::ApplyComponent {
                entity: *entity,
                id: *id,
                name: name@,
                data: data@,
                relay_to: relay_to@,
            },
            Action::ApplyMaterial { id, material } => ActionView::ApplyMaterial { id: *id, material: material@ },
            Action::RequestAsset { kind, id, url } => ActionView::RequestAsset { kind: *kind, id: *id, url: url@ },
            Action::Send { to, msg } => ActionView::Send { to: to@, msg: msg@ },
            Action::SendToServer { msg } => ActionView::SendToServer { msg: msg@ },
            Action::DisconnectClient { client } => ActionView::DisconnectClient { client: *client },
            Action::DisconnectFromServer => ActionView::DisconnectFromServer,
            Action::ConnectToHost { ip, port } => ActionView::ConnectToHost { ip: *ip, port: *port },
            Action::StartHost { ip, port } => ActionView::StartHost { ip: *ip, port: *port },
            Action::SendInitialSync { client } => ActionView::SendInitialSync { client: *client },
            Action::RemoveClientTransport => ActionView::RemoveClientTransport,
            Action::CloseServer => ActionView::CloseServer,
            Action::RequestInitialSync => ActionView::RequestInitialSync,
            Action::BeginPromotion => ActionView::BeginPromotion,
        }
    }
}

/// The actions that answer one event: `now` are done at once, in order;
/// `later` once the world can be changed, in order, after every `now`
/// action of the same round.
pub struct Reaction {
    pub now: Vec<Action>,
    pub later: Vec<Action>,
}

/// A reaction as plain values.
pub struct ReactionView {
    pub now: Seq<ActionView>,
    pub later: Seq<ActionView>,
}

impl View for Reaction {
    type V = ReactionView;

    open spec fn view(&self) -> ReactionView {
        ReactionView {
            now: self.now@.map_values(|a: Action| a@),
            later: self.later@.map_values(|a: Action| a@),
        }
    }
}

/// The elements of `s` other than `x`, in order.
pub open spec fn without(s: Seq<u64>, x: u64) -> Seq<u64>
    decreases s.len(),
{
    if s.len() == 0 {
        Seq::empty()
    } else if s.last() == x {
        without(s.drop_last(), x)
    } else {
        without(s.drop_last(), x).push(s.last())
    }
}

/// The connected clients other than `sender`, in order: who a message from
/// `sender` is relayed to.
pub fn recipients_except(clients: &Vec<u64>, sender: u64) -> (r: Vec<u64>)
    ensures
        r@ == without(clients@, sender),
{
    let mut r: Vec<u64> = Vec::new();
    let mut i: usize = 0;
    while i < clients.len()
        invariant
            i <= clients@.len(),
            r@ == without(clients@.subrange(0, i as int), sender),
        decreases clients.len() - i,
    {
        assert(clients@.subrange(0, i + 1).drop_last() =~= clients@.subrange(0, i as int));
        if clients[i] != sender {
            r.push(clients[i]);
        }
        i = i + 1;
    }
    assert(clients@.subrange(0, i as int) =~= clients@);
    r
}

/// A copy of a list of client ids.
pub fn copy_ids(v: &Vec<u64>) -> (r: Vec<u64>)
    ensures
        r@ == v@,
{
    let mut r: Vec<u64> = Vec::new();
    let mut i: usize = 0;
    while i < v.len()
        invariant
            i <= v@.len(),
            r@ == v@.subrange(0, i as int),
        decreases v.len() - i,
    {
        r.push(v[i]);
        i = i + 1;
        assert(r@ =~= v@.subrange(0, i as int));
    }
    assert(v@.subrange(0, i as int) =~= v@);
    r
}

/// Sending `msg` to every client of `to`.
pub fn broadcast(to: &Vec<u64>, msg: &Message) -> (r: Action)
    ensures
        r@ == (ActionView::Send { to: to@, msg: msg@ }),
{
    Action::Send { to: copy_ids(to), msg: copy_message(msg) }
}

/// A reaction with no action.
pub fn no_reaction() -> (r: Reaction)
    ensures
        r@.now == Seq::<ActionView>::empty(),
        r@.later == Seq::<ActionView>::empty(),
{
    let r = Reaction { now: Vec::new(), later: Vec::new() };
    assert(r@.now =~= Seq::<ActionView>::empty());
    assert(r@.later =~= Seq::<ActionView>::empty());
    r
}

/// A list of actions as plain values.
pub open spec fn views(v: Seq<Action>) -> Seq<ActionView> {
    v.map_values(|a: Action| a@)
}

/// A one-element action list.
pub fn one(a: Action) -> (r: Vec<Action>)
    ensures
        views(r@) == seq![a@],
{
    let mut r: Vec<Action> = Vec::new();
    r.push(a);
    assert(views(r@) =~= seq![a@]);
    r
}

/// A two-element action list.
pub fn two(a: Action, b: Action) -> (r: Vec<Action>)
    ensures
        views(r@) == seq![a@, b@],
{
    let mut r: Vec<Action> = Vec::new();
    r.push(a);
    r.push(b);
    assert(views(r@) =~= seq![a@, b@]);
    r
}

/// An empty action list.
pub fn none() -> (r: Vec<Action>)
    ensures
        views(r@) == Seq::<ActionView>::empty(),
{
    let r: Vec<Action> = Vec::new();
    assert(views(r@) =~= Seq::<ActionView>::empty());
    r
}

/// What carrying out action `a` does to the tracker: a material applied
/// from the network is remembered so that storing it is not sent back, and
/// a promotion is marked as under way. Other actions leave it as it is.
pub open spec fn tracker_effect<P>(t: TrackerView<P>, a: ActionView) -> TrackerView<P> {
    match a {
        ActionView::ApplyMaterial { id, .. } => TrackerView { pushed_handles: t.pushed_handles.insert(id), ..t },
        ActionView::BeginPromotion => TrackerView { host_promotion_in_progress: true, ..t },
        _ => t,
    }
}

/// The tracker's part of carrying out `action`, done when the action is.
pub fn apply_to_tracker<P>(track: &mut SyncTrackerRes<P>, action: &Action)
    requires
        old(track).wf(),
    ensures
        final(track).wf(),
        final(track)@ == tracker_effect(old(track)@, action@),
{
    match action {
        Action::ApplyMaterial { id, .. } => track.note_handle_from_network(*id),
        Action::BeginPromotion => track.set_host_promotion_in_progress(true),
        _ => {},
    }
}

} // verus!

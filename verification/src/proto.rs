//! Messages exchanged between the host and its clients, and the plain
//! types they carry.
use vstd::prelude::*;
use std::marker::PhantomData;

verus! {

/// An IP address: four bytes or sixteen, each as one integer in network
/// order.
#[derive(Clone, Copy, Debug, PartialEq, Eq, Structural)]
pub enum IpAddress {
    V4(u32),
    V6(u128),
}

/// How a host is reached: its address, the port of the synchronisation
/// channel, the port of the asset web server, and the largest asset transfer.
#[derive(Clone, Copy, Debug, PartialEq, Eq, Structural)]
pub enum SyncConnectionParameters {
    Socket { ip: IpAddress, port: u16, web_port: u16, max_transfer: usize },
}

/// The kinds of assets that are served over the web channel.
#[derive(Clone, Copy, Debug, PartialEq, Eq, Structural)]
pub enum SyncAssetType {
    Mesh,
    Image,
    Audio,
}

/// Published state of the host side.
#[derive(Clone, Copy, Debug, PartialEq, Eq, Structural)]
pub enum ServerState {
    Connected,
    Disconnected,
}

/// Published state of the client side.
#[derive(Clone, Copy, Debug, PartialEq, Eq, Structural)]
pub enum ClientState {
    ConnectedInitialSync,
    Connected,
    Connecting,
    Disconnected,
}

impl Default for ServerState {
    fn default() -> (r: ServerState)
        ensures
            r == ServerState::Disconnected,
    {
        ServerState::Disconnected
    }
}

impl Default for ClientState {
    fn default() -> (r: ClientState)
        ensures
            r == ClientState::Disconnected,
    {
        ClientState::Disconnected
    }
}

/// What moves a peer's connection state.
#[derive(Clone, Copy, Debug, PartialEq, Eq, Structural)]
pub enum ConnectionEvent {
    /// A network transport was just installed.
    TransportAdded,
    /// The connection to the host is established.
    Connected,
    /// The network transport was just removed.
    TransportRemoved,
}

/// Marks an entity to be synchronised; once the entity is tracked the mark
/// gives way to its `SyncEntity`.
#[derive(Clone, Copy, Debug, PartialEq, Eq, Structural)]
pub struct SyncMark;

impl Default for SyncMark {
    fn default() -> (r: SyncMark)
        ensures
            r == SyncMark,
    {
        SyncMark
    }
}

/// Marks one entity so that its component of type `T` is not synchronised.
pub struct SyncExclude<T> {
    pub marker: PhantomData<T>,
}

impl<T> Default for SyncExclude<T> {
    fn default() -> (r: SyncExclude<T>)
        ensures
            r == (SyncExclude::<T> { marker: PhantomData }),
    {
        SyncExclude { marker: PhantomData }
    }
}

/// The synchronised identity of an entity, the same on every peer.
#[derive(Clone, Copy, Debug, PartialEq, Eq, Structural)]
pub struct SyncEntity {
    pub uuid: u128,
}

/// Asks the host to hand its role to the client `id`.
#[derive(Clone, Copy, Debug, PartialEq, Eq, Structural)]
pub struct PromoteToHostEvent {
    pub id: u64,
}

/// A message of the synchronisation protocol.
#[derive(Debug)]
pub enum Message {
    EntitySpawn { id: u128 },
    EntityParented { entity_id: u128, parent_id: u128 },
    EntityDelete { id: u128 },
    ComponentUpdated { id: u128, name: String, data: Vec<u8> },
    StandardMaterialUpdated { id: u128, material: Vec<u8> },
    MeshUpdated { id: u128, url: String },
    ImageUpdated { id: u128, url: String },
    AudioUpdated { id: u128, url: String },
    PromoteToHost,
    NewHost { params: SyncConnectionParameters },
    RequestInitialSync,
    FinishedInitialSync,
}

/// A message as plain mathematical values.
pub enum MessageView {
    EntitySpawn { id: u128 },
    EntityParented { entity_id: u128, parent_id: u128 },
    EntityDelete { id: u128 },
    ComponentUpdated { id: u128, name: Seq<char>, data: Seq<u8> },
    StandardMaterialUpdated { id: u128, material: Seq<u8> },
    MeshUpdated { id: u128, url: Seq<char> },
    ImageUpdated { id: u128, url: Seq<char> },
    AudioUpdated { id: u128, url: Seq<char> },
    PromoteToHost,
    NewHost { params: SyncConnectionParameters },
    RequestInitialSync,
    FinishedInitialSync,
}

impl View for Message {
    type V = MessageView;

    open spec fn view(&self) -> MessageView {
        match self {
            Message::EntitySpawn { id } => MessageView::EntitySpawn { id: *id },
            Message::EntityParented { entity_id, parent_id } => MessageView::EntityParented {
                entity_id: *entity_id,
                parent_id: *parent_id,
            },
            Message::EntityDelete { id } => MessageView::EntityDelete { id: *id },
            Message::ComponentUpdated { id, name, data } => MessageView::ComponentUpdated {
                id: *id,
                name: name@,
                data: data@,
            },
            Message::StandardMaterialUpdated { id, material } => MessageView::StandardMaterialUpdated {
                id: *id,
                material: material@,
            },
            Message::MeshUpdated { id, url } => MessageView::MeshUpdated { id: *id, url: url@ },
            Message::ImageUpdated { id, url } => MessageView::ImageUpdated { id: *id, url: url@ },
            Message::AudioUpdated { id, url } => MessageView::AudioUpdated { id: *id, url: url@ },
            Message::PromoteToHost => MessageView::PromoteToHost,
            Message::NewHost { params } => MessageView::NewHost { params: *params },
            Message::RequestInitialSync => MessageView::RequestInitialSync,
            Message::FinishedInitialSync => MessageView::FinishedInitialSync,
        }
    }
}

/// A copy of a byte buffer.
pub fn copy_bytes(v: &Vec<u8>) -> (r: Vec<u8>)
    ensures
        r@ == v@,
{
    let mut r: Vec<u8> = Vec::with_capacity(v.len());
    let mut i: usize = 0;
    while i < v.len()
        invariant
            i <= v.len(),
            r@ == v@.subrange(0, i as int),
        decreases v.len() - i,
    {
        r.push(v[i]);
        i = i + 1;
        assert(r@ =~= v@.subrange(0, i as int));
    }
    assert(v@.subrange(0, i as int) =~= v@);
    r
}

/// A copy of a message.
pub fn copy_message(m: &Message) -> (r: Message)
    ensures
        r@ == m@,
{
    match m {
        Message::EntitySpawn { id } => Message::EntitySpawn { id: *id },
        Message::EntityParented { entity_id, parent_id } => Message::EntityParented {
            entity_id: *entity_id,
            parent_id: *parent_id,
        },
        Message::EntityDelete { id } => Message::EntityDelete { id: *id },
        Message::ComponentUpdated { id, name, data } => Message::ComponentUpdated {
            id: *id,
            name: name.clone(),
            data: copy_bytes(data),
        },
        Message::StandardMaterialUpdated { id, material } => Message::StandardMaterialUpdated {
            id: *id,
            material: copy_bytes(material),
        },
        Message::MeshUpdated { id, url } => Message::MeshUpdated { id: *id, url: url.clone() },
        Message::ImageUpdated { id, url } => Message::ImageUpdated { id: *id, url: url.clone() },
        Message::AudioUpdated { id, url } => Message::AudioUpdated { id: *id, url: url.clone() },
        Message::PromoteToHost => Message::PromoteToHost,
        Message::NewHost { params } => Message::NewHost { params: *params },
        Message::RequestInitialSync => Message::RequestInitialSync,
        Message::FinishedInitialSync => Message::FinishedInitialSync,
    }
}

} // verus!

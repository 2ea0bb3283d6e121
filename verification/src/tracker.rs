//! The synchronisation tracker: which local entity stands for which synced
//! id, which components are synced, which changes wait to be sent, and which
//! changes came from the network and must not be echoed back.
use vstd::prelude::*;
use std::collections::{HashMap, HashSet, VecDeque};
use crate::maps::{keys_of_u128_map, keys_of_u64_map, lemma_push_to_set};

verus! {

broadcast use vstd::std_specs::hash::group_hash_axioms;

/// A component of a synced entity, named by its type path.
pub struct ComponentChangeId {
    pub id: u128,
    pub name: String,
}

/// A changed component waiting to be sent, with its value `data`.
pub struct ComponentChange<P> {
    pub change_id: ComponentChangeId,
    pub data: P,
}

/// The (entity, component) pair a change id stands for.
pub open spec fn change_key(c: ComponentChangeId) -> (u128, Seq<char>) {
    (c.id, c.name@)
}

/// The tracker as plain values.
pub struct TrackerView<P> {
    /// Synced id to local entity.
    pub uuid_to_entity: Map<u128, u64>,
    /// Local entity to synced id.
    pub entity_to_uuid: Map<u64, u128>,
    /// Component ids registered for synchronisation.
    pub registered: Set<usize>,
    /// For each registered component id, the id of its exclusion marker.
    pub exclude_of: Map<usize, usize>,
    /// Changes waiting to be sent, oldest first.
    pub pending: Seq<(u128, Seq<char>)>,
    /// Their values, in the same order.
    pub pending_data: Seq<P>,
    /// Components applied from the network whose next local change is not sent.
    pub pushed_components: Set<(u128, Seq<char>)>,
    /// Assets applied from the network whose next local change is not sent.
    pub pushed_handles: Set<u128>,
    pub sync_materials: bool,
    pub sync_meshes: bool,
    pub sync_audios: bool,
    pub host_promotion_in_progress: bool,
}

/// The bookkeeping shared by the host and the client side.
pub struct SyncTrackerRes<P> {
    uuid_to_entity: HashMap<u128, u64>,
    entity_to_uuid: HashMap<u64, u128>,
    registered_components_for_sync: HashSet<usize>,
    sync_exclude_cid_of_component_cid: HashMap<usize, usize>,
    changed_components_to_send: VecDeque<ComponentChange<P>>,
    // A list kept free of repeats (see `wf`) rather than a hash set: vstd
    // specifies no hash set of string-keyed entries to prove against.
    pushed_component_from_network: Vec<ComponentChangeId>,
    pushed_handles_from_network: HashSet<u128>,
    sync_materials: bool,
    sync_meshes: bool,
    sync_audios: bool,
    host_promotion_in_progress: bool,
}

impl<P> View for SyncTrackerRes<P> {
    type V = TrackerView<P>;

    closed spec fn view(&self) -> TrackerView<P> {
        TrackerView {
            uuid_to_entity: self.uuid_to_entity@,
            entity_to_uuid: self.entity_to_uuid@,
            registered: self.registered_components_for_sync@,
            exclude_of: self.sync_exclude_cid_of_component_cid@,
            pending: self.changed_components_to_send@.map_values(|c: ComponentChange<P>| change_key(c.change_id)),
            pending_data: self.changed_components_to_send@.map_values(|c: ComponentChange<P>| c.data),
            pushed_components: key_set(self.pushed_component_from_network@),
            pushed_handles: self.pushed_handles_from_network@,
            sync_materials: self.sync_materials,
            sync_meshes: self.sync_meshes,
            sync_audios: self.sync_audios,
            host_promotion_in_progress: self.host_promotion_in_progress,
        }
    }
}

impl<P> SyncTrackerRes<P> {
    /// Internal consistency: no component is remembered twice.
    pub closed spec fn wf(&self) -> bool {
        forall|i: int, j: int|
            0 <= i < j < self.pushed_component_from_network@.len() ==> change_key(
                #[trigger] self.pushed_component_from_network@[i],
            ) != change_key(#[trigger] self.pushed_component_from_network@[j])
    }

    /// An empty tracker: nothing tracked, nothing synced, no promotion.
    pub fn new() -> (r: Self)
        ensures
            r.wf(),
            r@.uuid_to_entity == Map::<u128, u64>::empty(),
            r@.entity_to_uuid == Map::<u64, u128>::empty(),
            r@.registered == Set::<usize>::empty(),
            r@.exclude_of == Map::<usize, usize>::empty(),
            r@.pending == Seq::<(u128, Seq<char>)>::empty(),
            r@.pending_data == Seq::<P>::empty(),
            r@.pushed_components == Set::<(u128, Seq<char>)>::empty(),
            r@.pushed_handles == Set::<u128>::empty(),
            !r@.sync_materials,
            !r@.sync_meshes,
            !r@.sync_audios,
            !r@.host_promotion_in_progress,
    {
        let r = SyncTrackerRes {
            uuid_to_entity: HashMap::new(),
            entity_to_uuid: HashMap::new(),
            registered_components_for_sync: HashSet::new(),
            sync_exclude_cid_of_component_cid: HashMap::new(),
            changed_components_to_send: VecDeque::new(),
            pushed_component_from_network: Vec::new(),
            pushed_handles_from_network: HashSet::new(),
            sync_materials: false,
            sync_meshes: false,
            sync_audios: false,
            host_promotion_in_progress: false,
        };
        assert(r@.pending =~= Seq::<(u128, Seq<char>)>::empty());
        assert(r@.pending_data =~= Seq::<P>::empty());
        assert(r@.pushed_components =~= Set::<(u128, Seq<char>)>::empty());
        r
    }

    /// Records that synced id `uuid` stands for local entity `entity`, in both
    /// directions.
    pub fn track_entity(&mut self, uuid: u128, entity: u64)
        requires
            old(self).wf(),
        ensures
            final(self).wf(),
            final(self)@ == (TrackerView {
                uuid_to_entity: old(self)@.uuid_to_entity.insert(uuid, entity),
                entity_to_uuid: old(self)@.entity_to_uuid.insert(entity, uuid),
                ..old(self)@
            }),
    {
        self.uuid_to_entity.insert(uuid, entity);
        self.entity_to_uuid.insert(entity, uuid);
    }

    /// Forgets the pairing of `uuid` and `entity`, in both directions.
    pub fn forget_entity(&mut self, uuid: u128, entity: u64)
        requires
            old(self).wf(),
        ensures
            final(self).wf(),
            final(self)@ == (TrackerView {
                uuid_to_entity: old(self)@.uuid_to_entity.remove(uuid),
                entity_to_uuid: old(self)@.entity_to_uuid.remove(entity),
                ..old(self)@
            }),
    {
        self.uuid_to_entity.remove(&uuid);
        self.entity_to_uuid.remove(&entity);
    }

    /// The local entity that stands for `uuid`.
    pub fn entity_of(&self, uuid: u128) -> (r: Option<u64>)
        ensures
            r == lookup(self@.uuid_to_entity, uuid),
    {
        match self.uuid_to_entity.get(&uuid) {
            Some(e) => Some(*e),
            None => None,
        }
    }

    /// The synced id of local entity `entity`.
    pub fn uuid_of(&self, entity: u64) -> (r: Option<u128>)
        ensures
            r == lookup(self@.entity_to_uuid, entity),
    {
        match self.entity_to_uuid.get(&entity) {
            Some(u) => Some(*u),
            None => None,
        }
    }

    fn position_of_pushed(&self, id: u128, name: &String) -> (r: Option<usize>)
        requires
            self.wf(),
        ensures
            match r {
                Some(i) => i < self.pushed_component_from_network@.len() && change_key(
                    self.pushed_component_from_network@[i as int],
                ) == (id, name@),
                None => !self@.pushed_components.contains((id, name@)),
            },
    {
        let n = self.pushed_component_from_network.len();
        let mut i: usize = 0;
        while i < n
            invariant
                n == self.pushed_component_from_network@.len(),
                i <= n,
                forall|k: int| 0 <= k < i ==> change_key(#[trigger] self.pushed_component_from_network@[k]) != (id, name@),
            decreases n - i,
        {
            let c = &self.pushed_component_from_network[i];
            if c.id == id && c.name == *name {
                return Some(i);
            }
            i = i + 1;
        }
        proof {
            let v = self.pushed_component_from_network@;
            lemma_keys_contains(v);
        }
        None
    }

    /// Whether the component `name` of `id` was applied from the network and
    /// its next local change is still to be ignored.
    pub fn was_pushed_from_network(&self, id: u128, name: &String) -> (r: bool)
        requires
            self.wf(),
        ensures
            r == self@.pushed_components.contains((id, name@)),
    {
        proof {
            let v = self.pushed_component_from_network@;
            lemma_keys_contains(v);
        }
        self.position_of_pushed(id, name).is_some()
    }

    fn remove_pushed_at(&mut self, i: usize)
        requires
            old(self).wf(),
            i < old(self).pushed_component_from_network@.len(),
        ensures
            final(self).wf(),
            final(self)@ == (TrackerView {
                pushed_components: old(self)@.pushed_components.remove(
                    change_key(old(self).pushed_component_from_network@[i as int]),
                ),
                ..old(self)@
            }),
    {
        let ghost v = self.pushed_component_from_network@;
        self.pushed_component_from_network.remove(i);
        proof {
            let w = self.pushed_component_from_network@;
            assert(w =~= v.remove(i as int));
            lemma_keys_remove(v, i as int);
        }
    }

    fn insert_pushed(&mut self, c: ComponentChangeId)
        requires
            old(self).wf(),
            !old(self)@.pushed_components.contains(change_key(c)),
        ensures
            final(self).wf(),
            final(self)@ == (TrackerView {
                pushed_components: old(self)@.pushed_components.insert(change_key(c)),
                ..old(self)@
            }),
    {
        let ghost v = self.pushed_component_from_network@;
        self.pushed_component_from_network.push(c);
        proof {
            lemma_keys_contains(v);
            lemma_keys_push(v, c);
        }
    }

    /// Queues a local change of component `name` of `id` for sending, unless
    /// that component was just applied from the network: then the change is
    /// its echo, it is dropped, and the component is no longer remembered.
    /// Returns whether the change was dropped.
    pub fn signal_component_changed(&mut self, id: u128, name: String, data: P) -> (dropped: bool)
        requires
            old(self).wf(),
        ensures
            final(self).wf(),
            (dropped, final(self)@) == signal_outcome(old(self)@, id, name@, data),
    {
        proof {
            lemma_keys_contains(self.pushed_component_from_network@);
        }
        match self.position_of_pushed(id, &name) {
            Some(i) => {
                self.remove_pushed_at(i);
                true
            },
            None => {
                let ghost q = self.changed_components_to_send@;
                self.changed_components_to_send.push_back(
                    ComponentChange { change_id: ComponentChangeId { id, name }, data },
                );
                proof {
                    let q2 = self.changed_components_to_send@;
                    assert(q2.map_values(|c: ComponentChange<P>| change_key(c.change_id)) =~= q.map_values(
                        |c: ComponentChange<P>| change_key(c.change_id),
                    ).push((id, name@)));
                    assert(q2.map_values(|c: ComponentChange<P>| c.data) =~= q.map_values(
                        |c: ComponentChange<P>| c.data,
                    ).push(data));
                }
                false
            },
        }
    }

    /// Decides whether a component value that came from the network is
    /// applied. It is not when the component is remembered as just applied
    /// from the network, nor when the value equals the current one
    /// (`differs` false). When it is, the component is remembered, so that
    /// the local change it causes is not sent back.
    pub fn accept_component_from_network(&mut self, id: u128, name: String, differs: bool) -> (applied: bool)
        requires
            old(self).wf(),
        ensures
            final(self).wf(),
            (applied, final(self)@) == accept_outcome(old(self)@, id, name@, differs),
    {
        proof {
            lemma_keys_contains(self.pushed_component_from_network@);
        }
        if self.position_of_pushed(id, &name).is_some() {
            return false;
        }
        if !differs {
            return false;
        }
        self.insert_pushed(ComponentChangeId { id, name });
        true
    }

    /// Whether a local change of asset `id` is the echo of an asset that came
    /// from the network. If so, the asset is no longer remembered.
    pub fn skip_network_handle_change(&mut self, id: u128) -> (skip: bool)
        requires
            old(self).wf(),
        ensures
            final(self).wf(),
            (skip, final(self)@) == skip_outcome(old(self)@, id),
    {
        let skip = self.pushed_handles_from_network.contains(&id);
        self.pushed_handles_from_network.remove(&id);
        skip
    }

    /// Remembers that asset `id` came from the network.
    pub fn note_handle_from_network(&mut self, id: u128)
        requires
            old(self).wf(),
        ensures
            final(self).wf(),
            final(self)@ == (TrackerView { pushed_handles: old(self)@.pushed_handles.insert(id), ..old(self)@ }),
    {
        self.pushed_handles_from_network.insert(id);
    }

    /// Switches material synchronisation on or off.
    pub fn set_sync_materials(&mut self, enable: bool)
        requires
            old(self).wf(),
        ensures
            final(self).wf(),
            final(self)@ == (TrackerView { sync_materials: enable, ..old(self)@ }),
    {
        self.sync_materials = enable;
    }

    /// Switches mesh synchronisation on or off.
    pub fn set_sync_meshes(&mut self, enable: bool)
        requires
            old(self).wf(),
        ensures
            final(self).wf(),
            final(self)@ == (TrackerView { sync_meshes: enable, ..old(self)@ }),
    {
        self.sync_meshes = enable;
    }

    /// Switches audio synchronisation on or off.
    pub fn set_sync_audios(&mut self, enable: bool)
        requires
            old(self).wf(),
        ensures
            final(self).wf(),
            final(self)@ == (TrackerView { sync_audios: enable, ..old(self)@ }),
    {
        self.sync_audios = enable;
    }

    /// Marks a host promotion as started or finished.
    pub fn set_host_promotion_in_progress(&mut self, value: bool)
        requires
            old(self).wf(),
        ensures
            final(self).wf(),
            final(self)@ == (TrackerView { host_promotion_in_progress: value, ..old(self)@ }),
    {
        self.host_promotion_in_progress = value;
    }

    /// Whether materials are synchronised.
    pub fn sync_material_enabled(&self) -> (r: bool)
        ensures
            r == self@.sync_materials,
    {
        self.sync_materials
    }

    /// Whether meshes are synchronised.
    pub fn sync_mesh_enabled(&self) -> (r: bool)
        ensures
            r == self@.sync_meshes,
    {
        self.sync_meshes
    }

    /// Whether audio is synchronised.
    pub fn sync_audio_enabled(&self) -> (r: bool)
        ensures
            r == self@.sync_audios,
    {
        self.sync_audios
    }

    /// Whether a host promotion is under way.
    pub fn host_promotion_in_progress(&self) -> (r: bool)
        ensures
            r == self@.host_promotion_in_progress,
    {
        self.host_promotion_in_progress
    }

    /// Registers component `c_id` for synchronisation, with `exclude_id` the
    /// id of the marker that exempts an entity from it.
    pub fn register_component(&mut self, c_id: usize, exclude_id: usize)
        requires
            old(self).wf(),
        ensures
            final(self).wf(),
            final(self)@ == (TrackerView {
                registered: old(self)@.registered.insert(c_id),
                exclude_of: old(self)@.exclude_of.insert(c_id, exclude_id),
                ..old(self)@
            }),
    {
        self.registered_components_for_sync.insert(c_id);
        self.sync_exclude_cid_of_component_cid.insert(c_id, exclude_id);
    }

    /// Whether component `c_id` is synchronised.
    pub fn is_synched_component(&self, c_id: usize) -> (r: bool)
        ensures
            r == self@.registered.contains(c_id),
    {
        self.registered_components_for_sync.contains(&c_id)
    }

    /// Whether an archetype with components `components` holds a synchronised
    /// component.
    pub fn is_synched_archetype(&self, components: &Vec<usize>) -> (r: bool)
        ensures
            r == exists|i: int| 0 <= i < components@.len() && self@.registered.contains(#[trigger] components@[i]),
    {
        let mut i: usize = 0;
        while i < components.len()
            invariant
                i <= components@.len(),
                forall|k: int| 0 <= k < i ==> !self@.registered.contains(#[trigger] components@[k]),
            decreases components.len() - i,
        {
            if self.is_synched_component(components[i]) {
                return true;
            }
            i = i + 1;
        }
        false
    }

    /// The id of the exclusion marker of component `c_id`, if registered.
    pub fn exclude_marker_of(&self, c_id: usize) -> (r: Option<usize>)
        ensures
            r == lookup(self@.exclude_of, c_id),
    {
        match self.sync_exclude_cid_of_component_cid.get(&c_id) {
            Some(x) => Some(*x),
            None => None,
        }
    }

    /// Takes the oldest change waiting to be sent.
    pub fn next_change_to_send(&mut self) -> (r: Option<ComponentChange<P>>)
        requires
            old(self).wf(),
        ensures
            final(self).wf(),
            old(self)@.pending.len() == 0 ==> r is None && final(self)@ == old(self)@,
            old(self)@.pending.len() > 0 ==> {
                &&& r matches Some(c)
                &&& change_key(c.change_id) == old(self)@.pending[0]
                &&& c.data == old(self)@.pending_data[0]
                &&& final(self)@ == (TrackerView {
                    pending: old(self)@.pending.drop_first(),
                    pending_data: old(self)@.pending_data.drop_first(),
                    ..old(self)@
                })
            },
    {
        let ghost q = self.changed_components_to_send@;
        let r = self.changed_components_to_send.pop_front();
        proof {
            let q2 = self.changed_components_to_send@;
            if q.len() > 0 {
                assert(q2.map_values(|c: ComponentChange<P>| change_key(c.change_id)) =~= q.map_values(
                    |c: ComponentChange<P>| change_key(c.change_id),
                ).drop_first());
                assert(q2.map_values(|c: ComponentChange<P>| c.data) =~= q.map_values(
                    |c: ComponentChange<P>| c.data,
                ).drop_first());
            }
        }
        r
    }

    /// The synced ids of those of `entities` that are tracked, in order.
    pub fn uuids_of_entities(&self, entities: &Vec<u64>) -> (r: Vec<u128>)
        ensures
            r@ == known_images(entities@, self@.entity_to_uuid),
    {
        let mut r: Vec<u128> = Vec::new();
        let mut i: usize = 0;
        while i < entities.len()
            invariant
                i <= entities@.len(),
                r@ == known_images(entities@.subrange(0, i as int), self@.entity_to_uuid),
            decreases entities.len() - i,
        {
            assert(entities@.subrange(0, i + 1).drop_last() =~= entities@.subrange(0, i as int));
            if let Some(u) = self.uuid_of(entities[i]) {
                r.push(u);
            }
            i = i + 1;
        }
        assert(entities@.subrange(0, i as int) =~= entities@);
        r
    }

    /// The local entities of those of `uuids` that are tracked, in order.
    pub fn entities_of_uuids(&self, uuids: &Vec<u128>) -> (r: Vec<u64>)
        ensures
            r@ == known_images(uuids@, self@.uuid_to_entity),
    {
        let mut r: Vec<u64> = Vec::new();
        let mut i: usize = 0;
        while i < uuids.len()
            invariant
                i <= uuids@.len(),
                r@ == known_images(uuids@.subrange(0, i as int), self@.uuid_to_entity),
            decreases uuids.len() - i,
        {
            assert(uuids@.subrange(0, i + 1).drop_last() =~= uuids@.subrange(0, i as int));
            if let Some(e) = self.entity_of(uuids[i]) {
                r.push(e);
            }
            i = i + 1;
        }
        assert(uuids@.subrange(0, i as int) =~= uuids@);
        r
    }

    /// Host side: forgets every tracked entity that is not among `alive` (the
    /// entities that still carry their synced identity), together with the
    /// synced ids they stood for, and returns those ids, each once.
    pub fn remove_despawned_entities(&mut self, alive: &Vec<u64>) -> (gone: Vec<u128>)
        requires
            old(self).wf(),
        ensures
            final(self).wf(),
            gone@.no_duplicates(),
            gone@.to_set() == despawned_uuids(old(self)@.entity_to_uuid, alive@.to_set()),
            final(self)@ == (TrackerView {
                entity_to_uuid: old(self)@.entity_to_uuid.restrict(alive@.to_set()),
                uuid_to_entity: old(self)@.uuid_to_entity.remove_keys(gone@.to_set()),
                ..old(self)@
            }),
    {
        let keys = keys_of_u64_map(&self.entity_to_uuid);
        let ghost e2u0 = self.entity_to_uuid@;
        let ghost aset = alive@.to_set();
        let mut gone: Vec<u128> = Vec::new();
        let mut i: usize = 0;
        while i < keys.len()
            invariant
                self.wf(),
                i <= keys@.len(),
                keys@.to_set() == e2u0.dom(),
                keys@.no_duplicates(),
                e2u0 == old(self)@.entity_to_uuid,
                aset == alive@.to_set(),
                self@ == (TrackerView { entity_to_uuid: self@.entity_to_uuid, ..old(self)@ }),
                forall|e: u64|
                    #![trigger self@.entity_to_uuid.contains_key(e)]
                    self@.entity_to_uuid.contains_key(e) <==> (e2u0.contains_key(e) && (aset.contains(e)
                        || !keys@.subrange(0, i as int).contains(e))),
                forall|e: u64| #[trigger] self@.entity_to_uuid.contains_key(e) ==> self@.entity_to_uuid[e] == e2u0[e],
                gone@.no_duplicates(),
                forall|u: u128|
                    #[trigger] gone@.contains(u) <==> exists|j: int|
                        0 <= j < i && !aset.contains(#[trigger] keys@[j]) && e2u0[keys@[j]] == u,
            decreases keys.len() - i,
        {
            let e = keys[i];
            let ghost before = self.entity_to_uuid@;
            let ghost gone_before = gone@;
            assert(keys@.subrange(0, i + 1) =~= keys@.subrange(0, i as int).push(e));
            assert(!keys@.subrange(0, i as int).contains(e)) by {
                if keys@.subrange(0, i as int).contains(e) {
                    let j = choose|j: int| 0 <= j < i && #[trigger] keys@.subrange(0, i as int)[j] == e;
                    assert(keys@[j] == keys@[i as int]);
                }
            }
            assert(keys@.to_set().contains(e));
            assert(e2u0.contains_key(e));
            let is_alive = contains_u64(alive, e);
            if !is_alive {
                assert(before.contains_key(e));
                let removed = self.entity_to_uuid.remove(&e);
                match removed {
                    Some(u) => {
                        assert(u == e2u0[e]);
                        if !contains_u128(&gone, u) {
                            gone.push(u);
                            proof {
                                assert forall|a: int, b: int| 0 <= a < b < gone@.len() implies gone@[a] != gone@[b] by {
                                    if b == gone@.len() - 1 {
                                        assert(gone@[a] == gone_before[a]);
                                    }
                                }
                                assert forall|x: u128| #[trigger] gone@.contains(x) <==> (gone_before.contains(x) || x == u) by {
                                    if gone@.contains(x) && x != u {
                                        let j = choose|j: int| 0 <= j < gone@.len() && gone@[j] == x;
                                        assert(gone_before[j] == x);
                                    }
                                    if gone_before.contains(x) {
                                        let j = choose|j: int| 0 <= j < gone_before.len() && gone_before[j] == x;
                                        assert(gone@[j] == x);
                                    }
                                    if x == u {
                                        assert(gone@[gone@.len() - 1] == u);
                                    }
                                }
                            }
                        }
                        assert(gone@.contains(e2u0[e]));
                    },
                    None => {},
                }
            }
            assert(forall|x: u128| #[trigger] gone@.contains(x) <==> (gone_before.contains(x) || (!aset.contains(e) && x == e2u0[e])));
            proof {
                assert forall|x: u64|
                    #![trigger self@.entity_to_uuid.contains_key(x)]
                    self@.entity_to_uuid.contains_key(x) <==> (e2u0.contains_key(x) && (aset.contains(x)
                        || !keys@.subrange(0, i + 1).contains(x))) by {
                    assert(keys@.subrange(0, i + 1).contains(x) <==> (keys@.subrange(0, i as int).contains(x) || x == e)) by {
                        if keys@.subrange(0, i + 1).contains(x) && x != e {
                            let j = choose|j: int| 0 <= j < i + 1 && #[trigger] keys@.subrange(0, i + 1)[j] == x;
                            assert(keys@.subrange(0, i as int)[j] == x);
                        }
                        if x == e {
                            assert(keys@.subrange(0, i + 1)[i as int] == e);
                        }
                        if keys@.subrange(0, i as int).contains(x) {
                            let j = choose|j: int| 0 <= j < i && #[trigger] keys@.subrange(0, i as int)[j] == x;
                            assert(keys@.subrange(0, i + 1)[j] == x);
                        }
                    }
                    assert(aset.contains(e) == is_alive);
                }
                assert forall|u: u128|
                    #[trigger] gone@.contains(u) <==> exists|j: int|
                        0 <= j < i + 1 && !aset.contains(#[trigger] keys@[j]) && e2u0[keys@[j]] == u by {
                    if gone@.contains(u) && !gone_before.contains(u) {
                        assert(!aset.contains(keys@[i as int]) && e2u0[keys@[i as int]] == u);
                    }
                    if exists|j: int| 0 <= j < i + 1 && !aset.contains(#[trigger] keys@[j]) && e2u0[keys@[j]] == u {
                        let j = choose|j: int| 0 <= j < i + 1 && !aset.contains(#[trigger] keys@[j]) && e2u0[keys@[j]] == u;
                        if j < i {
                            assert(gone_before.contains(u));
                        }
                    }
                    if gone_before.contains(u) {
                        let j = choose|j: int| 0 <= j < i && !aset.contains(#[trigger] keys@[j]) && e2u0[keys@[j]] == u;
                        assert(gone@.contains(u));
                    }
                }
            }
            i = i + 1;
        }
        assert(keys@.subrange(0, i as int) =~= keys@);
        let ghost u2e_before = self.uuid_to_entity@;
        let mut k: usize = 0;
        while k < gone.len()
            invariant
                self.wf(),
                k <= gone@.len(),
                u2e_before == old(self)@.uuid_to_entity,
                self@ == (TrackerView { uuid_to_entity: self@.uuid_to_entity, ..self@ }),
                self@.entity_to_uuid == old(self)@.entity_to_uuid.restrict(alive@.to_set()),
                self@.uuid_to_entity == u2e_before.remove_keys(gone@.subrange(0, k as int).to_set()),
                self@.registered == old(self)@.registered,
                self@.exclude_of == old(self)@.exclude_of,
                self@.pending == old(self)@.pending,
                self@.pending_data == old(self)@.pending_data,
                self@.pushed_components == old(self)@.pushed_components,
                self@.pushed_handles == old(self)@.pushed_handles,
                self@.sync_materials == old(self)@.sync_materials,
                self@.sync_meshes == old(self)@.sync_meshes,
                self@.sync_audios == old(self)@.sync_audios,
                self@.host_promotion_in_progress == old(self)@.host_promotion_in_progress,
            decreases gone.len() - k,
        {
            let u = gone[k];
            self.uuid_to_entity.remove(&u);
            proof {
                assert(gone@.subrange(0, k + 1).to_set() =~= gone@.subrange(0, k as int).to_set().insert(u)) by {
                    assert(gone@.subrange(0, k + 1) =~= gone@.subrange(0, k as int).push(u));
                    lemma_push_to_set(gone@.subrange(0, k as int), u);
                }
                assert(self@.uuid_to_entity =~= u2e_before.remove_keys(gone@.subrange(0, k + 1).to_set()));
            }
            k = k + 1;
        }
        proof {
            assert(gone@.subrange(0, k as int) =~= gone@);
            assert(gone@.to_set() =~= despawned_uuids(old(self)@.entity_to_uuid, alive@.to_set())) by {
                assert forall|u: u128| gone@.to_set().contains(u) implies despawned_uuids(old(self)@.entity_to_uuid, alive@.to_set()).contains(u) by {
                    let j = choose|j: int| 0 <= j < keys@.len() && !aset.contains(#[trigger] keys@[j]) && e2u0[keys@[j]] == u;
                    assert(keys@.to_set().contains(keys@[j]));
                }
                assert forall|u: u128| despawned_uuids(old(self)@.entity_to_uuid, alive@.to_set()).contains(u) implies gone@.to_set().contains(u) by {
                    let e = choose|e: u64| e2u0.contains_key(e) && !aset.contains(e) && e2u0[e] == u;
                    assert(keys@.to_set().contains(e));
                    let j = choose|j: int| 0 <= j < keys@.len() && keys@[j] == e;
                    assert(!aset.contains(keys@[j]) && e2u0[keys@[j]] == u);
                }
            }
        }
        gone
    }

    /// Client side: forgets every synced id whose entity is not among `alive`
    /// and returns those ids. Only the id-to-entity direction is pruned.
    pub fn remove_despawned_uuids(&mut self, alive: &Vec<u64>) -> (gone: Vec<u128>)
        requires
            old(self).wf(),
        ensures
            final(self).wf(),
            gone@.no_duplicates(),
            gone@.to_set() == despawned_entities(old(self)@.uuid_to_entity, alive@.to_set()),
            final(self)@ == (TrackerView {
                uuid_to_entity: old(self)@.uuid_to_entity.remove_keys(gone@.to_set()),
                ..old(self)@
            }),
    {
        let keys = keys_of_u128_map(&self.uuid_to_entity);
        let ghost u2e0 = self.uuid_to_entity@;
        let ghost aset = alive@.to_set();
        let mut gone: Vec<u128> = Vec::new();
        let mut i: usize = 0;
        while i < keys.len()
            invariant
                self.wf(),
                i <= keys@.len(),
                keys@.to_set() == u2e0.dom(),
                keys@.no_duplicates(),
                u2e0 == old(self)@.uuid_to_entity,
                aset == alive@.to_set(),
                self@ == (TrackerView { uuid_to_entity: self@.uuid_to_entity, ..old(self)@ }),
                gone@.no_duplicates(),
                forall|u: u128| #[trigger] gone@.contains(u) <==> (keys@.subrange(0, i as int).contains(u)
                    && !aset.contains(u2e0[u])),
                self@.uuid_to_entity == u2e0.remove_keys(gone@.to_set()),
            decreases keys.len() - i,
        {
            let u = keys[i];
            let ghost gone_before = gone@;
            assert(keys@.subrange(0, i + 1) =~= keys@.subrange(0, i as int).push(u));
            assert(!keys@.subrange(0, i as int).contains(u)) by {
                if keys@.subrange(0, i as int).contains(u) {
                    let j = choose|j: int| 0 <= j < i && #[trigger] keys@.subrange(0, i as int)[j] == u;
                    assert(keys@[j] == keys@[i as int]);
                }
            }
            assert(keys@.to_set().contains(u));
            let e = *self.uuid_to_entity.get(&u).unwrap();
            if !contains_u64(alive, e) {
                self.uuid_to_entity.remove(&u);
                gone.push(u);
                proof {
                    lemma_push_to_set(gone_before, u);
                    assert(self@.uuid_to_entity =~= u2e0.remove_keys(gone@.to_set()));
                    assert forall|a: int, b: int| 0 <= a < b < gone@.len() implies gone@[a] != gone@[b] by {
                        if b == gone@.len() - 1 {
                            assert(gone@[a] == gone_before[a]);
                        }
                    }
                }
            }
            proof {
                assert forall|x: u128| #[trigger] gone@.contains(x) <==> (keys@.subrange(0, i + 1).contains(x)
                    && !aset.contains(u2e0[x])) by {
                    if gone@.contains(x) && x != u {
                        let j = choose|j: int| 0 <= j < gone@.len() && gone@[j] == x;
                        assert(gone_before[j] == x);
                        assert(gone_before.contains(x));
                        let k = choose|k: int| 0 <= k < i && #[trigger] keys@.subrange(0, i as int)[k] == x;
                        assert(keys@.subrange(0, i + 1)[k] == x);
                    }
                    if x == u && gone@.contains(x) {
                        assert(keys@.subrange(0, i + 1)[i as int] == u);
                    }
                    if keys@.subrange(0, i + 1).contains(x) && !aset.contains(u2e0[x]) {
                        let k = choose|k: int| 0 <= k < i + 1 && #[trigger] keys@.subrange(0, i + 1)[k] == x;
                        if k < i {
                            assert(keys@.subrange(0, i as int)[k] == x);
                            assert(gone_before.contains(x));
                            let j = choose|j: int| 0 <= j < gone_before.len() && gone_before[j] == x;
                            assert(gone@[j] == x);
                        } else {
                            assert(gone@[gone@.len() - 1] == u);
                        }
                    }
                }
            }
            i = i + 1;
        }
        proof {
            assert(keys@.subrange(0, i as int) =~= keys@);
            assert forall|x: u128| gone@.to_set().contains(x) <==> despawned_entities(old(self)@.uuid_to_entity, alive@.to_set()).contains(x) by {
                if despawned_entities(old(self)@.uuid_to_entity, alive@.to_set()).contains(x) {
                    assert(keys@.to_set().contains(x));
                }
            }
            assert(gone@.to_set() =~= despawned_entities(old(self)@.uuid_to_entity, alive@.to_set()));
        }
        gone
    }

    /// The local entities of a parenting received from the network: the
    /// entity `entity_id` stands for and the one `parent_id` stands for, when
    /// both are tracked.
    pub fn resolve_parenting(&self, entity_id: u128, parent_id: u128) -> (r: Option<(u64, u64)>)
        ensures
            (self@.uuid_to_entity.contains_key(entity_id) && self@.uuid_to_entity.contains_key(parent_id)) ==> r == Some(
                (self@.uuid_to_entity[entity_id], self@.uuid_to_entity[parent_id]),
            ),
            !(self@.uuid_to_entity.contains_key(entity_id) && self@.uuid_to_entity.contains_key(parent_id)) ==> r is None,
    {
        let Some(e) = self.entity_of(entity_id) else {
            return None;
        };
        let Some(p) = self.entity_of(parent_id) else {
            return None;
        };
        Some((e, p))
    }
}

/// The outcome of a local change of component `name` of `id`: whether it is
/// dropped as the echo of a network change, and the tracker afterwards.
pub open spec fn signal_outcome<P>(t: TrackerView<P>, id: u128, name: Seq<char>, data: P) -> (bool, TrackerView<P>) {
    if t.pushed_components.contains((id, name)) {
        (true, TrackerView { pushed_components: t.pushed_components.remove((id, name)), ..t })
    } else {
        (false, TrackerView { pending: t.pending.push((id, name)), pending_data: t.pending_data.push(data), ..t })
    }
}

/// The outcome of a component value received from the network: whether it
/// is applied, and the tracker afterwards. `differs` tells whether it
/// differs from the current value.
pub open spec fn accept_outcome<P>(t: TrackerView<P>, id: u128, name: Seq<char>, differs: bool) -> (bool, TrackerView<P>) {
    if !t.pushed_components.contains((id, name)) && differs {
        (true, TrackerView { pushed_components: t.pushed_components.insert((id, name)), ..t })
    } else {
        (false, t)
    }
}

/// The outcome of a local change of asset `id`: whether it is skipped as the
/// echo of a network change, and the tracker afterwards.
pub open spec fn skip_outcome<P>(t: TrackerView<P>, id: u128) -> (bool, TrackerView<P>) {
    (t.pushed_handles.contains(id), TrackerView { pushed_handles: t.pushed_handles.remove(id), ..t })
}

/// Whether a component value received from the network differs from the
/// entity's own. `comparison` is `None` when the entity holds no such
/// component, else the result of comparing the two values, itself `None`
/// when they cannot be compared; values that cannot be compared count as
/// equal.
pub fn is_value_different(comparison: Option<Option<bool>>) -> (r: bool)
    ensures
        r == match comparison {
            None => true,
            Some(Some(equal)) => !equal,
            Some(None) => false,
        },
{
    match comparison {
        None => true,
        Some(equal) => !equal.unwrap_or(true),
    }
}

/// Whether an entity whose parent is `current` must be re-parented under
/// `parent`.
pub fn needs_reparent(current: Option<u64>, parent: u64) -> (r: bool)
    ensures
        r == match current {
            None => true,
            Some(p) => p != parent,
        },
{
    match current {
        None => true,
        Some(p) => p != parent,
    }
}

/// The images under `m` of those elements of `s` that `m` maps, in order.
pub open spec fn known_images<K, V>(s: Seq<K>, m: Map<K, V>) -> Seq<V>
    decreases s.len(),
{
    if s.len() == 0 {
        Seq::empty()
    } else {
        let rest = known_images(s.drop_last(), m);
        if m.contains_key(s.last()) {
            rest.push(m[s.last()])
        } else {
            rest
        }
    }
}

/// The synced ids that the entities outside `alive` stand for.
pub open spec fn despawned_uuids(entity_to_uuid: Map<u64, u128>, alive: Set<u64>) -> Set<u128> {
    Set::new(|u: u128| exists|e: u64| entity_to_uuid.contains_key(e) && !alive.contains(e) && entity_to_uuid[e] == u)
}

/// The entities outside `alive` that stand for a synced id.
pub open spec fn despawned_entities(uuid_to_entity: Map<u128, u64>, alive: Set<u64>) -> Set<u128> {
    Set::new(|u: u128| uuid_to_entity.contains_key(u) && !alive.contains(uuid_to_entity[u]))
}

fn contains_u64(v: &Vec<u64>, x: u64) -> (r: bool)
    ensures
        r == v@.contains(x),
{
    let mut i: usize = 0;
    while i < v.len()
        invariant
            i <= v@.len(),
            forall|k: int| 0 <= k < i ==> v@[k] != x,
        decreases v.len() - i,
    {
        if v[i] == x {
            return true;
        }
        i = i + 1;
    }
    false
}

fn contains_u128(v: &Vec<u128>, x: u128) -> (r: bool)
    ensures
        r == v@.contains(x),
{
    let mut i: usize = 0;
    while i < v.len()
        invariant
            i <= v@.len(),
            forall|k: int| 0 <= k < i ==> v@[k] != x,
        decreases v.len() - i,
    {
        if v[i] == x {
            return true;
        }
        i = i + 1;
    }
    false
}


/// The value a map holds for `k`, if any.
pub open spec fn lookup<K, V>(m: Map<K, V>, k: K) -> Option<V> {
    if m.contains_key(k) {
        Some(m[k])
    } else {
        None
    }
}

/// The (entity, component) pairs of a list of change ids.
pub open spec fn key_set(v: Seq<ComponentChangeId>) -> Set<(u128, Seq<char>)> {
    v.map_values(|c: ComponentChangeId| change_key(c)).to_set()
}

proof fn lemma_keys_contains(v: Seq<ComponentChangeId>)
    ensures
        forall|k: (u128, Seq<char>)|
            #[trigger] key_set(v).contains(k) <==> exists|i: int|
                0 <= i < v.len() && change_key(#[trigger] v[i]) == k,
{
    let m = v.map_values(|c: ComponentChangeId| change_key(c));
    assert forall|k: (u128, Seq<char>)| m.to_set().contains(k) implies exists|i: int|
        0 <= i < v.len() && change_key(#[trigger] v[i]) == k by {
        let i = choose|i: int| 0 <= i < m.len() && m[i] == k;
        assert(change_key(v[i]) == k);
    }
    assert forall|k: (u128, Seq<char>)| (exists|i: int| 0 <= i < v.len() && change_key(#[trigger] v[i]) == k) implies m.to_set().contains(k) by {
        let i = choose|i: int| 0 <= i < v.len() && change_key(#[trigger] v[i]) == k;
        assert(m[i] == k);
    }
}

proof fn lemma_keys_remove(v: Seq<ComponentChangeId>, i: int)
    requires
        0 <= i < v.len(),
        forall|a: int, b: int| 0 <= a < b < v.len() ==> change_key(#[trigger] v[a]) != change_key(#[trigger] v[b]),
    ensures
        key_set(v.remove(i)) == key_set(v).remove(change_key(v[i])),
        forall|a: int, b: int|
            0 <= a < b < v.remove(i).len() ==> change_key(#[trigger] v.remove(i)[a]) != change_key(
                #[trigger] v.remove(i)[b],
            ),
{
    let w = v.remove(i);
    lemma_keys_contains(v);
    lemma_keys_contains(w);
    assert forall|a: int, b: int| 0 <= a < b < w.len() implies change_key(#[trigger] w[a]) != change_key(#[trigger] w[b]) by {
        let a2 = if a < i { a } else { a + 1 };
        let b2 = if b < i { b } else { b + 1 };
        assert(w[a] == v[a2]);
        assert(w[b] == v[b2]);
    }
    let left = key_set(w);
    let right = key_set(v).remove(change_key(v[i]));
    assert forall|k: (u128, Seq<char>)| left.contains(k) <==> right.contains(k) by {
        if left.contains(k) {
            let a = choose|a: int| 0 <= a < w.len() && change_key(#[trigger] w[a]) == k;
            let a2 = if a < i { a } else { a + 1 };
            assert(w[a] == v[a2]);
            assert(a2 != i);
        }
        if right.contains(k) {
            let a = choose|a: int| 0 <= a < v.len() && change_key(#[trigger] v[a]) == k;
            assert(a != i);
            let a2 = if a < i { a } else { a - 1 };
            assert(w[a2] == v[a]);
        }
    }
    assert(left =~= right);
}

proof fn lemma_keys_push(v: Seq<ComponentChangeId>, c: ComponentChangeId)
    requires
        forall|a: int, b: int| 0 <= a < b < v.len() ==> change_key(#[trigger] v[a]) != change_key(#[trigger] v[b]),
        forall|a: int| 0 <= a < v.len() ==> change_key(#[trigger] v[a]) != change_key(c),
    ensures
        key_set(v.push(c)) == key_set(v).insert(change_key(c)),
        forall|a: int, b: int|
            0 <= a < b < v.push(c).len() ==> change_key(#[trigger] v.push(c)[a]) != change_key(
                #[trigger] v.push(c)[b],
            ),
{
    let w = v.push(c);
    lemma_keys_contains(v);
    lemma_keys_contains(w);
    assert forall|a: int, b: int| 0 <= a < b < w.len() implies change_key(#[trigger] w[a]) != change_key(#[trigger] w[b]) by {
        if b == v.len() {
            assert(w[a] == v[a]);
        } else {
            assert(w[a] == v[a]);
            assert(w[b] == v[b]);
        }
    }
    let left = key_set(w);
    let right = key_set(v).insert(change_key(c));
    assert forall|k: (u128, Seq<char>)| left.contains(k) <==> right.contains(k) by {
        if left.contains(k) {
            let a = choose|a: int| 0 <= a < w.len() && change_key(#[trigger] w[a]) == k;
            if a < v.len() {
                assert(w[a] == v[a]);
            }
        }
        if right.contains(k) && k != change_key(c) {
            let a = choose|a: int| 0 <= a < v.len() && change_key(#[trigger] v[a]) == k;
            assert(w[a] == v[a]);
        }
        if k == change_key(c) {
            assert(w[v.len() as int] == c);
        }
    }
    assert(left =~= right);
}

} // verus!

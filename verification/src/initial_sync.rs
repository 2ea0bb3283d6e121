//! The initial synchronisation of a joining peer: which entities and which
//! of their components are sent, in what order.
use vstd::prelude::*;
use std::collections::HashSet;
use crate::tracker::{SyncTrackerRes, TrackerView};

verus! {

broadcast use vstd::std_specs::hash::group_hash_axioms;

/// A group of entities that carry the same components.
pub struct ArchetypeSummary {
    pub entities: Vec<u64>,
    pub components: Vec<usize>,
}

/// An archetype as plain values.
pub struct ArchetypeView {
    pub entities: Seq<u64>,
    pub components: Seq<usize>,
}

impl View for ArchetypeSummary {
    type V = ArchetypeView;

    open spec fn view(&self) -> ArchetypeView {
        ArchetypeView { entities: self.entities@, components: self.components@ }
    }
}

/// One piece of the initial synchronisation.
#[derive(Clone, Copy, Debug, PartialEq, Eq, Structural)]
pub enum InitialSyncItem {
    /// Announce an entity.
    Spawn { entity: u64 },
    /// Send the value of one component of an entity.
    Component { entity: u64, component: usize },
}

/// Announcements of those of `entities` not yet announced (`seen`), in
/// order, and the announced entities afterwards.
pub open spec fn spawn_items(entities: Seq<u64>, seen: Set<u64>) -> (Seq<InitialSyncItem>, Set<u64>)
    decreases entities.len(),
{
    if entities.len() == 0 {
        (Seq::empty(), seen)
    } else {
        let (items, seen2) = spawn_items(entities.drop_last(), seen);
        let e = entities.last();
        if seen2.contains(e) {
            (items, seen2)
        } else {
            (items.push(InitialSyncItem::Spawn { entity: e }), seen2.insert(e))
        }
    }
}

/// The component values of an archetype: for each synchronised component in
/// order, its value on each entity in order.
pub open spec fn component_items(components: Seq<usize>, entities: Seq<u64>, synced: Set<usize>) -> Seq<InitialSyncItem>
    decreases components.len(),
{
    if components.len() == 0 {
        Seq::empty()
    } else {
        let c = components.last();
        let rest = component_items(components.drop_last(), entities, synced);
        if synced.contains(c) {
            rest + entities.map_values(|e: u64| InitialSyncItem::Component { entity: e, component: c })
        } else {
            rest
        }
    }
}

/// The components whose values an archetype with components `components`
/// sends: those synchronised (`synced`) whose exclusion marker (`exclude_of`)
/// the archetype does not carry.
pub open spec fn sent_components(components: Seq<usize>, synced: Set<usize>, exclude_of: Map<usize, usize>) -> Set<usize> {
    Set::new(|c: usize| synced.contains(c) && !(exclude_of.contains_key(c) && components.contains(exclude_of[c])))
}

/// The initial synchronisation of the archetypes that hold the marker
/// component `marker`, in order: each archetype's new entities, then the
/// values of its synchronised components that it does not exclude. Also the
/// announced entities.
pub open spec fn initial_sync_plan(
    archetypes: Seq<ArchetypeView>,
    marker: usize,
    synced: Set<usize>,
    exclude_of: Map<usize, usize>,
) -> (Seq<InitialSyncItem>, Set<u64>)
    decreases archetypes.len(),
{
    if archetypes.len() == 0 {
        (Seq::empty(), Set::empty())
    } else {
        let (items, seen) = initial_sync_plan(archetypes.drop_last(), marker, synced, exclude_of);
        let a = archetypes.last();
        if a.components.contains(marker) {
            let (spawns, seen2) = spawn_items(a.entities, seen);
            (items + spawns + component_items(a.components, a.entities, sent_components(a.components, synced, exclude_of)), seen2)
        } else {
            (items, seen)
        }
    }
}

/// The entities that `items` announce.
pub open spec fn announced(items: Seq<InitialSyncItem>) -> Set<u64> {
    Set::new(|e: u64| items.contains(InitialSyncItem::Spawn { entity: e }))
}

/// No entity is announced twice.
pub open spec fn announced_once(items: Seq<InitialSyncItem>) -> bool {
    forall|i: int, j: int| 0 <= i < j < items.len() && (#[trigger] items[i]) is Spawn ==> items[i] != #[trigger] items[j]
}

/// Every component value comes after the announcement of its entity.
pub open spec fn values_follow_announcements(items: Seq<InitialSyncItem>) -> bool {
    forall|j: int|
        0 <= j < items.len() && (#[trigger] items[j]) is Component ==> exists|i: int|
            0 <= i < j && items[i] == InitialSyncItem::Spawn { entity: items[j]->Component_entity }
}

proof fn lemma_spawn_items(entities: Seq<u64>, seen: Set<u64>)
    ensures
        ({
            let (sp, seen2) = spawn_items(entities, seen);
            &&& forall|k: int| 0 <= k < sp.len() ==> (#[trigger] sp[k]) is Spawn && entities.contains(sp[k]->Spawn_entity)
                && !seen.contains(sp[k]->Spawn_entity)
            &&& announced_once(sp)
            &&& forall|e: u64| #[trigger] seen2.contains(e) <==> seen.contains(e) || entities.contains(e)
            &&& forall|e: u64| entities.contains(e) && !seen.contains(e) ==> #[trigger] sp.contains(
                InitialSyncItem::Spawn { entity: e },
            )
        }),
    decreases entities.len(),
{
    if entities.len() > 0 {
        let rest = entities.drop_last();
        let x = entities.last();
        lemma_spawn_items(rest, seen);
        let (sp0, seen1) = spawn_items(rest, seen);
        assert(forall|e: u64| #[trigger] rest.contains(e) ==> entities.contains(e)) by {
            assert forall|e: u64| #[trigger] rest.contains(e) implies entities.contains(e) by {
                let k = choose|k: int| 0 <= k < rest.len() && rest[k] == e;
                assert(entities[k] == e);
            }
        }
        assert(forall|e: u64| #[trigger] entities.contains(e) ==> rest.contains(e) || e == x) by {
            assert forall|e: u64| #[trigger] entities.contains(e) implies rest.contains(e) || e == x by {
                let k = choose|k: int| 0 <= k < entities.len() && entities[k] == e;
                if k < rest.len() {
                    assert(rest[k] == e);
                }
            }
        }
        assert(entities.contains(x)) by {
            assert(entities[entities.len() - 1] == x);
        }
        if !seen1.contains(x) {
            let sp = sp0.push(InitialSyncItem::Spawn { entity: x });
            assert forall|k: int| 0 <= k < sp.len() implies (#[trigger] sp[k]) is Spawn && entities.contains(
                sp[k]->Spawn_entity,
            ) && !seen.contains(sp[k]->Spawn_entity) by {
                if k < sp0.len() {
                    assert(sp[k] == sp0[k]);
                }
            }
            assert forall|i: int, j: int| 0 <= i < j < sp.len() && (#[trigger] sp[i]) is Spawn implies sp[i] != #[trigger] sp[j] by {
                if j < sp0.len() {
                    assert(sp[i] == sp0[i] && sp[j] == sp0[j]);
                } else {
                    assert(sp[i] == sp0[i]);
                    assert(rest.contains(sp0[i]->Spawn_entity));
                    assert(seen1.contains(sp0[i]->Spawn_entity));
                }
            }
            assert forall|e: u64| entities.contains(e) && !seen.contains(e) implies #[trigger] sp.contains(
                InitialSyncItem::Spawn { entity: e },
            ) by {
                if e == x {
                    assert(sp[sp0.len() as int] == InitialSyncItem::Spawn { entity: e });
                } else {
                    assert(sp0.contains(InitialSyncItem::Spawn { entity: e }));
                    let k = choose|k: int| 0 <= k < sp0.len() && sp0[k] == InitialSyncItem::Spawn { entity: e };
                    assert(sp[k] == sp0[k]);
                }
            }
        } else {
            assert forall|e: u64| entities.contains(e) && !seen.contains(e) implies #[trigger] sp0.contains(
                InitialSyncItem::Spawn { entity: e },
            ) by {
                if e == x {
                    assert(rest.contains(e));
                }
            }
        }
    }
}

proof fn lemma_component_items(components: Seq<usize>, entities: Seq<u64>, synced: Set<usize>)
    ensures
        forall|k: int|
            0 <= k < component_items(components, entities, synced).len() ==> (#[trigger] component_items(
                components,
                entities,
                synced,
            )[k]) is Component && entities.contains(component_items(components, entities, synced)[k]->Component_entity),
    decreases components.len(),
{
    if components.len() > 0 {
        let c = components.last();
        let rest = component_items(components.drop_last(), entities, synced);
        lemma_component_items(components.drop_last(), entities, synced);
        if synced.contains(c) {
            let block = entities.map_values(|e: u64| InitialSyncItem::Component { entity: e, component: c });
            let all = component_items(components, entities, synced);
            assert(all == rest + block);
            assert forall|k: int| 0 <= k < all.len() implies (#[trigger] all[k]) is Component && entities.contains(
                all[k]->Component_entity,
            ) by {
                if k < rest.len() {
                    assert(all[k] == rest[k]);
                } else {
                    assert(all[k] == block[k - rest.len()]);
                    assert(entities[k - rest.len()] == all[k]->Component_entity);
                }
            }
        }
    }
}

/// What the initial synchronisation plan keeps: the announced entities are
/// those it returns, none is announced twice, and every component value
/// comes after its entity's announcement.
pub proof fn law_initial_sync_announces_before_values(
    archetypes: Seq<ArchetypeView>,
    marker: usize,
    synced: Set<usize>,
    exclude_of: Map<usize, usize>,
)
    ensures
        ({
            let (items, seen) = initial_sync_plan(archetypes, marker, synced, exclude_of);
            &&& forall|e: u64| #[trigger] seen.contains(e) <==> announced(items).contains(e)
            &&& announced_once(items)
            &&& values_follow_announcements(items)
        }),
    decreases archetypes.len(),
{
    if archetypes.len() > 0 {
        let prev = archetypes.drop_last();
        law_initial_sync_announces_before_values(prev, marker, synced, exclude_of);
        let (items, seen) = initial_sync_plan(prev, marker, synced, exclude_of);
        let a = archetypes.last();
        if a.components.contains(marker) {
            let (sp, seen2) = spawn_items(a.entities, seen);
            let sent = sent_components(a.components, synced, exclude_of);
            let comps = component_items(a.components, a.entities, sent);
            lemma_spawn_items(a.entities, seen);
            lemma_component_items(a.components, a.entities, sent);
            let all = items + sp + comps;
            let n0 = items.len() as int;
            let n1 = n0 + sp.len();
            assert forall|k: int| 0 <= k < all.len() implies #[trigger] all[k] == if k < n0 {
                items[k]
            } else if k < n1 {
                sp[k - n0]
            } else {
                comps[k - n1]
            } by {}
            assert forall|e: u64| #[trigger] seen2.contains(e) <==> announced(all).contains(e) by {
                if seen2.contains(e) {
                    if seen.contains(e) {
                        assert(items.contains(InitialSyncItem::Spawn { entity: e }));
                        let k = choose|k: int| 0 <= k < items.len() && items[k] == InitialSyncItem::Spawn { entity: e };
                        assert(all[k] == items[k]);
                    } else {
                        assert(sp.contains(InitialSyncItem::Spawn { entity: e }));
                        let k = choose|k: int| 0 <= k < sp.len() && sp[k] == InitialSyncItem::Spawn { entity: e };
                        assert(all[n0 + k] == sp[k]);
                    }
                }
                if announced(all).contains(e) {
                    let k = choose|k: int| 0 <= k < all.len() && all[k] == InitialSyncItem::Spawn { entity: e };
                    if k < n0 {
                        assert(items[k] == all[k]);
                        assert(items.contains(InitialSyncItem::Spawn { entity: e }));
                    } else if k < n1 {
                        assert(sp[k - n0] == all[k]);
                    } else {
                        assert(comps[k - n1] == all[k]);
                    }
                }
            }
            assert forall|i: int, j: int| 0 <= i < j < all.len() && (#[trigger] all[i]) is Spawn implies all[i] != #[trigger] all[j] by {
                if j < n0 {
                    assert(items[i] == all[i] && items[j] == all[j]);
                } else if j < n1 {
                    if i >= n0 {
                        assert(sp[i - n0] == all[i] && sp[j - n0] == all[j]);
                    } else {
                        assert(items[i] == all[i]);
                        assert(items.contains(all[i]));
                        assert(seen.contains(all[i]->Spawn_entity));
                        assert(sp[j - n0] == all[j]);
                    }
                } else {
                    assert(comps[j - n1] == all[j]);
                }
            }
            assert forall|j: int| 0 <= j < all.len() && (#[trigger] all[j]) is Component implies exists|i: int|
                0 <= i < j && all[i] == InitialSyncItem::Spawn { entity: all[j]->Component_entity } by {
                if j < n0 {
                    assert(items[j] == all[j]);
                    let i = choose|i: int| 0 <= i < j && items[i] == InitialSyncItem::Spawn { entity: items[j]->Component_entity };
                    assert(all[i] == items[i]);
                } else if j < n1 {
                    assert(sp[j - n0] == all[j]);
                } else {
                    assert(comps[j - n1] == all[j]);
                    let e = all[j]->Component_entity;
                    assert(seen2.contains(e));
                    assert(announced(all).contains(e));
                    let i = choose|i: int| 0 <= i < all.len() && all[i] == InitialSyncItem::Spawn { entity: e };
                    if i >= n1 {
                        assert(comps[i - n1] == all[i]);
                    }
                }
            }
        }
    }
}

proof fn lemma_seq_concat_contains<A>(x: Seq<A>, y: Seq<A>, v: A)
    ensures
        (x + y).contains(v) <==> x.contains(v) || y.contains(v),
{
    if (x + y).contains(v) {
        let k = choose|k: int| 0 <= k < (x + y).len() && (x + y)[k] == v;
        if k < x.len() {
            assert(x[k] == v);
        } else {
            assert(y[k - x.len()] == v);
        }
    }
    if x.contains(v) {
        let k = choose|k: int| 0 <= k < x.len() && x[k] == v;
        assert((x + y)[k] == v);
    }
    if y.contains(v) {
        let k = choose|k: int| 0 <= k < y.len() && y[k] == v;
        assert((x + y)[x.len() + k] == v);
    }
}

proof fn lemma_component_items_exact(components: Seq<usize>, entities: Seq<u64>, synced: Set<usize>, e: u64, c: usize)
    ensures
        component_items(components, entities, synced).contains(InitialSyncItem::Component { entity: e, component: c })
            <==> (components.contains(c) && synced.contains(c) && entities.contains(e)),
    decreases components.len(),
{
    let item = InitialSyncItem::Component { entity: e, component: c };
    if components.len() == 0 {
        assert(!component_items(components, entities, synced).contains(item));
    } else {
        let last = components.last();
        let prev = components.drop_last();
        let rest = component_items(prev, entities, synced);
        lemma_component_items_exact(prev, entities, synced, e, c);
        assert(components.contains(c) <==> (prev.contains(c) || c == last)) by {
            if components.contains(c) {
                let k = choose|k: int| 0 <= k < components.len() && components[k] == c;
                if k < prev.len() {
                    assert(prev[k] == c);
                }
            }
            if prev.contains(c) {
                let k = choose|k: int| 0 <= k < prev.len() && prev[k] == c;
                assert(components[k] == c);
            }
            if c == last {
                assert(components[components.len() - 1] == c);
            }
        }
        if synced.contains(last) {
            let block = entities.map_values(|x: u64| InitialSyncItem::Component { entity: x, component: last });
            lemma_seq_concat_contains(rest, block, item);
            assert(block.contains(item) <==> (c == last && entities.contains(e))) by {
                if block.contains(item) {
                    let k = choose|k: int| 0 <= k < block.len() && block[k] == item;
                    assert(entities[k] == e);
                }
                if c == last && entities.contains(e) {
                    let k = choose|k: int| 0 <= k < entities.len() && entities[k] == e;
                    assert(block[k] == item);
                }
            }
        }
    }
}

/// Which component values the initial synchronisation carries: the value
/// of component `c` on entity `e` exactly when some archetype with the
/// marker holds `e` and `c`, `c` is synchronised, and that archetype does
/// not carry `c`'s exclusion marker.
pub proof fn law_initial_sync_values(
    archetypes: Seq<ArchetypeView>,
    marker: usize,
    synced: Set<usize>,
    exclude_of: Map<usize, usize>,
    e: u64,
    c: usize,
)
    ensures
        initial_sync_plan(archetypes, marker, synced, exclude_of).0.contains(
            InitialSyncItem::Component { entity: e, component: c },
        ) <==> exists|k: int|
            0 <= k < archetypes.len() && (#[trigger] archetypes[k]).components.contains(marker)
                && archetypes[k].entities.contains(e) && archetypes[k].components.contains(c)
                && sent_components(archetypes[k].components, synced, exclude_of).contains(c),
    decreases archetypes.len(),
{
    let item = InitialSyncItem::Component { entity: e, component: c };
    if archetypes.len() > 0 {
        let prev = archetypes.drop_last();
        law_initial_sync_values(prev, marker, synced, exclude_of, e, c);
        let (items, seen) = initial_sync_plan(prev, marker, synced, exclude_of);
        let a = archetypes.last();
        let n = archetypes.len() - 1;
        assert(archetypes[n] == a);
        assert(forall|k: int| 0 <= k < prev.len() ==> #[trigger] prev[k] == archetypes[k]);
        let here = a.components.contains(marker) && a.entities.contains(e) && a.components.contains(c)
            && sent_components(a.components, synced, exclude_of).contains(c);
        let before = exists|k: int|
            0 <= k < prev.len() && (#[trigger] prev[k]).components.contains(marker) && prev[k].entities.contains(e)
                && prev[k].components.contains(c) && sent_components(prev[k].components, synced, exclude_of).contains(c);
        let all = exists|k: int|
            0 <= k < archetypes.len() && (#[trigger] archetypes[k]).components.contains(marker)
                && archetypes[k].entities.contains(e) && archetypes[k].components.contains(c)
                && sent_components(archetypes[k].components, synced, exclude_of).contains(c);
        assert(all <==> before || here) by {
            if all {
                let k = choose|k: int|
                    0 <= k < archetypes.len() && (#[trigger] archetypes[k]).components.contains(marker)
                        && archetypes[k].entities.contains(e) && archetypes[k].components.contains(c)
                        && sent_components(archetypes[k].components, synced, exclude_of).contains(c);
                if k < prev.len() {
                    assert(prev[k] == archetypes[k]);
                }
            }
            if before {
                let k = choose|k: int|
                    0 <= k < prev.len() && (#[trigger] prev[k]).components.contains(marker)
                        && prev[k].entities.contains(e) && prev[k].components.contains(c)
                        && sent_components(prev[k].components, synced, exclude_of).contains(c);
                assert(archetypes[k] == prev[k]);
            }
        }
        if a.components.contains(marker) {
            let (sp, seen2) = spawn_items(a.entities, seen);
            let sent = sent_components(a.components, synced, exclude_of);
            let comps = component_items(a.components, a.entities, sent);
            lemma_spawn_items(a.entities, seen);
            lemma_seq_concat_contains(items + sp, comps, item);
            lemma_seq_concat_contains(items, sp, item);
            assert(!sp.contains(item)) by {
                if sp.contains(item) {
                    let k = choose|k: int| 0 <= k < sp.len() && sp[k] == item;
                    assert(sp[k] is Spawn);
                }
            }
            lemma_component_items_exact(a.components, a.entities, sent, e, c);
        }
    }
}

fn contains_usize(v: &Vec<usize>, x: usize) -> (r: bool)
    ensures
        r == v@.contains(x),
{
    let mut i: usize = 0;
    while i < v.len()
        invariant
            i <= v@.len(),
            forall|k: int| 0 <= k < i ==> v@[k] != x,
        decreases v.len() - i,
    {
        if v[i] == x {
            return true;
        }
        i = i + 1;
    }
    false
}

/// The initial synchronisation of a world given as its archetypes, with
/// `marker` the component that marks synchronised entities, the tracker's
/// registered components the synchronised ones, and a component left out of
/// every archetype that carries its exclusion marker.
pub fn build_initial_sync<P>(
    track: &SyncTrackerRes<P>,
    archetypes: &Vec<ArchetypeSummary>,
    marker: usize,
) -> (r: Vec<InitialSyncItem>)
    ensures
        r@ == initial_sync_plan(
            archetypes@.map_values(|a: ArchetypeSummary| a@),
            marker,
            track@.registered,
            track@.exclude_of,
        ).0,
{
    let ghost synced = track@.registered;
    let ghost excl = track@.exclude_of;
    let ghost archs = archetypes@.map_values(|a: ArchetypeSummary| a@);
    let mut result: Vec<InitialSyncItem> = Vec::new();
    let mut sent: HashSet<u64> = HashSet::new();
    let mut i: usize = 0;
    while i < archetypes.len()
        invariant
            i <= archetypes@.len(),
            synced == track@.registered,
            excl == track@.exclude_of,
            archs == archetypes@.map_values(|a: ArchetypeSummary| a@),
            (result@, sent@) == initial_sync_plan(archs.subrange(0, i as int), marker, synced, excl),
        decreases archetypes.len() - i,
    {
        assert(archs.subrange(0, i + 1).drop_last() =~= archs.subrange(0, i as int));
        let arch = &archetypes[i];
        assert(archs.subrange(0, i + 1).last() == arch@);
        if contains_usize(&arch.components, marker) {
            let ghost before = result@;
            let ghost seen0 = sent@;
            let mut k: usize = 0;
            while k < arch.entities.len()
                invariant
                    k <= arch.entities@.len(),
                    (result@.subrange(before.len() as int, result@.len() as int), sent@) == spawn_items(
                        arch.entities@.subrange(0, k as int),
                        seen0,
                    ),
                    result@.subrange(0, before.len() as int) == before,
                    before.len() <= result@.len(),
                decreases arch.entities.len() - k,
            {
                assert(arch.entities@.subrange(0, k + 1).drop_last() =~= arch.entities@.subrange(0, k as int));
                let e = arch.entities[k];
                if !sent.contains(&e) {
                    let ghost r0 = result@;
                    result.push(InitialSyncItem::Spawn { entity: e });
                    sent.insert(e);
                    assert(result@.subrange(before.len() as int, result@.len() as int) =~= r0.subrange(
                        before.len() as int,
                        r0.len() as int,
                    ).push(InitialSyncItem::Spawn { entity: e }));
                    assert(result@.subrange(0, before.len() as int) =~= r0.subrange(0, before.len() as int));
                }
                k = k + 1;
            }
            assert(arch.entities@.subrange(0, k as int) =~= arch.entities@);
            let ghost after_spawns = result@;
            let ghost eff = sent_components(arch.components@, synced, excl);
            let mut c: usize = 0;
            while c < arch.components.len()
                invariant
                    c <= arch.components@.len(),
                    after_spawns.len() <= result@.len(),
                    result@.subrange(0, after_spawns.len() as int) == after_spawns,
                    result@.subrange(after_spawns.len() as int, result@.len() as int) == component_items(
                        arch.components@.subrange(0, c as int),
                        arch.entities@,
                        eff,
                    ),
                    synced == track@.registered,
                    excl == track@.exclude_of,
                    eff == sent_components(arch.components@, synced, excl),
                decreases arch.components.len() - c,
            {
                assert(arch.components@.subrange(0, c + 1).drop_last() =~= arch.components@.subrange(0, c as int));
                let comp = arch.components[c];
                let excluded = match track.exclude_marker_of(comp) {
                    Some(x) => contains_usize(&arch.components, x),
                    None => false,
                };
                assert(eff.contains(comp) == (synced.contains(comp) && !excluded));
                if track.is_synched_component(comp) && !excluded {
                    let ghost r1 = result@;
                    let mut j: usize = 0;
                    while j < arch.entities.len()
                        invariant
                            j <= arch.entities@.len(),
                            r1.len() <= result@.len(),
                            result@.subrange(0, r1.len() as int) == r1,
                            result@.subrange(r1.len() as int, result@.len() as int) == arch.entities@.subrange(0, j as int).map_values(
                                |e: u64| InitialSyncItem::Component { entity: e, component: comp },
                            ),
                        decreases arch.entities.len() - j,
                    {
                        let ghost r2 = result@;
                        let item = InitialSyncItem::Component { entity: arch.entities[j], component: comp };
                        result.push(item);
                        assert(result@.subrange(0, r1.len() as int) =~= r2.subrange(0, r1.len() as int));
                        assert(result@.subrange(r1.len() as int, result@.len() as int) =~= r2.subrange(r1.len() as int, r2.len() as int).push(item));
                        assert(arch.entities@.subrange(0, j + 1).map_values(
                            |e: u64| InitialSyncItem::Component { entity: e, component: comp },
                        ) =~= arch.entities@.subrange(0, j as int).map_values(
                            |e: u64| InitialSyncItem::Component { entity: e, component: comp },
                        ).push(item));
                        assert(result@.subrange(r1.len() as int, result@.len() as int) =~= arch.entities@.subrange(0, j + 1).map_values(
                            |e: u64| InitialSyncItem::Component { entity: e, component: comp },
                        ));
                        j = j + 1;
                    }
                    assert(arch.entities@.subrange(0, j as int) =~= arch.entities@);
                    assert(result@.subrange(0, after_spawns.len() as int) =~= r1.subrange(0, after_spawns.len() as int));
                    assert(result@.subrange(after_spawns.len() as int, result@.len() as int) =~= r1.subrange(
                        after_spawns.len() as int,
                        r1.len() as int,
                    ) + result@.subrange(r1.len() as int, result@.len() as int));
                }
                c = c + 1;
            }
            assert(arch.components@.subrange(0, c as int) =~= arch.components@);
            assert(result@ =~= before + result@.subrange(before.len() as int, after_spawns.len() as int)
                + result@.subrange(after_spawns.len() as int, result@.len() as int));
            assert(result@.subrange(before.len() as int, after_spawns.len() as int) =~= after_spawns.subrange(
                before.len() as int,
                after_spawns.len() as int,
            ));
        }
        i = i + 1;
    }
    assert(archs.subrange(0, i as int) =~= archs);
    result
}

} // verus!

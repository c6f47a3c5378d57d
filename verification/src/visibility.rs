use crate::cube::Cube;
use vstd::prelude::*;

verus! {

/// Whether object `i` is met nearer than `limit`. A distance is given by a
/// key that orders as the distance does; `None` stands for a miss.
pub open spec fn met_before(distances: Seq<Option<u32>>, i: int, limit: int) -> bool {
    0 <= i < distances.len() && distances[i] is Some && distances[i]->0 < limit
}

/// Whether `i` is the first object in list order that is met nearer than
/// `limit`.
pub open spec fn first_met_before(distances: Seq<Option<u32>>, i: int, limit: int) -> bool {
    &&& met_before(distances, i, limit)
    &&& forall|j: int| 0 <= j < i ==> !met_before(distances, j, limit)
}

/// Whether `i` is the nearest hit: no object is met nearer, and of the
/// objects met equally near `i` comes first in the list.
pub open spec fn is_nearest(distances: Seq<Option<u32>>, i: int) -> bool {
    &&& 0 <= i < distances.len()
    &&& distances[i] is Some
    &&& forall|j: int|
        0 <= j < distances.len() && distances[j] is Some ==> distances[i]->0 <= (
        #[trigger] distances[j])->0
    &&& forall|j: int| 0 <= j < i && distances[j] is Some ==> distances[i]->0 < (
        #[trigger] distances[j])->0
}

/// The nearest hit is unique.
pub proof fn lemma_nearest_is_unique(distances: Seq<Option<u32>>, i: int, k: int)
    requires
        is_nearest(distances, i),
        is_nearest(distances, k),
    ensures
        i == k,
{
    if i < k {
        assert(distances[k]->0 < distances[i]->0);
        assert(distances[i]->0 <= distances[k]->0);
    } else if k < i {
        assert(distances[i]->0 < distances[k]->0);
        assert(distances[k]->0 <= distances[i]->0);
    }
}

/// The closest-hit search: the index of the nearest object that the ray
/// meets, or `None` where it meets none. Of two objects equally near, the
/// one that comes first in the list wins.
pub fn nearest(distances: &[Option<u32>]) -> (best: Option<usize>)
    ensures
        match best {
            Some(i) => is_nearest(distances@, i as int),
            None => forall|j: int| 0 <= j < distances@.len() ==> distances@[j] is None,
        },
{
    let mut best: Option<usize> = None;
    let mut best_distance: u32 = 0;
    let mut i: usize = 0;
    while i < distances.len()
        invariant
            i <= distances.len(),
            match best {
                Some(b) => b < i && is_nearest(distances@.take(i as int), b as int)
                    && distances@[b as int] == Some(best_distance),
                None => forall|j: int| 0 <= j < i ==> distances@[j] is None,
            },
        decreases distances.len() - i,
    {
        let ghost seen = distances@.take(i as int);
        let ghost next = distances@.take(i + 1);
        proof {
            assert(forall|j: int| 0 <= j < i ==> seen[j] == next[j]);
        }
        match distances[i] {
            Some(d) => {
                let closer = match best {
                    Some(_) => d < best_distance,
                    None => true,
                };
                if closer {
                    best = Some(i);
                    best_distance = d;
                }
            },
            None => {},
        }
        i += 1;
        proof {
            if let Some(b) = best {
                assert(next[b as int] == distances@[b as int]);
                assert forall|j: int| 0 <= j < next.len() && next[j] is Some implies next[b as int]->0
                    <= (#[trigger] next[j])->0 by {
                    if j < i - 1 {
                        assert(seen[j] == next[j]);
                    }
                }
                assert forall|j: int| 0 <= j < b && next[j] is Some implies next[b as int]->0 < (
                #[trigger] next[j])->0 by {
                    assert(seen[j] == next[j]);
                }
            }
        }
    }
    assert(distances@.take(i as int) =~= distances@);
    best
}

/// What stands between a point and a light.
#[derive(Debug, Clone, Copy, PartialEq, Eq, Structural)]
pub enum Shadow {
    /// Nothing: the light reaches the point.
    Lit,
    /// An object that gives off no light of its own: the light is blocked.
    Opaque,
    /// Object `occluder`, which is itself a source of light.
    Emissive { occluder: usize },
}

/// The shadow that the first occluder in `objects` casts, where
/// `distances` gives for each object how far along the shadow ray it is
/// met and `light_distance` how far the light is.
pub open spec fn shadow_of<V, S>(
    objects: Seq<Cube<V, S>>,
    distances: Seq<Option<u32>>,
    light_distance: u32,
) -> Shadow {
    if exists|i: int| first_met_before(distances, i, light_distance as int) {
        let i = choose|i: int| first_met_before(distances, i, light_distance as int);
        if objects[i].material.emission_color is Some {
            Shadow::Emissive { occluder: i as usize }
        } else {
            Shadow::Opaque
        }
    } else {
        Shadow::Lit
    }
}

/// The first occluder is unique.
pub proof fn lemma_first_met_is_unique(distances: Seq<Option<u32>>, i: int, k: int, limit: int)
    requires
        first_met_before(distances, i, limit),
        first_met_before(distances, k, limit),
    ensures
        i == k,
{
}

/// An opaque object met before the light puts the point in full shadow,
/// unless an emissive object earlier in the list is met before the light
/// too.
pub proof fn lemma_opaque_occluder_blocks<V, S>(
    objects: Seq<Cube<V, S>>,
    distances: Seq<Option<u32>>,
    light_distance: u32,
    i: int,
)
    requires
        objects.len() == distances.len(),
        met_before(distances, i, light_distance as int),
        forall|j: int|
            0 <= j <= i && met_before(distances, j, light_distance as int)
                ==> objects[j].material.emission_color is None,
    ensures
        shadow_of(objects, distances, light_distance) == Shadow::Opaque,
{
    let limit = light_distance as int;
    lemma_some_is_first(distances, i, limit);
    let first = choose|k: int| first_met_before(distances, k, limit);
    assert(first <= i);
}

/// Where some object is met before `limit`, one of them is the first, and
/// it comes no later in the list.
pub proof fn lemma_some_is_first(distances: Seq<Option<u32>>, i: int, limit: int)
    requires
        met_before(distances, i, limit),
    ensures
        exists|k: int| 0 <= k <= i && first_met_before(distances, k, limit),
        forall|k: int| first_met_before(distances, k, limit) ==> k <= i,
    decreases i,
{
    if exists|j: int| 0 <= j < i && met_before(distances, j, limit) {
        let j = choose|j: int| 0 <= j < i && met_before(distances, j, limit);
        lemma_some_is_first(distances, j, limit);
        let k = choose|k: int| 0 <= k <= j && first_met_before(distances, k, limit);
        assert(0 <= k <= i && first_met_before(distances, k, limit));
    } else {
        assert(first_met_before(distances, i, limit));
    }
}

/// The shadow test: walks the objects in list order and lets the first one
/// that is met nearer than the light decide.
pub fn cast_shadow<V, S>(
    objects: &[Cube<V, S>],
    distances: &[Option<u32>],
    light_distance: u32,
) -> (shadow: Shadow)
    requires
        objects@.len() == distances@.len(),
    ensures
        shadow == shadow_of(objects@, distances@, light_distance),
{
    let ghost limit = light_distance as int;
    let mut i: usize = 0;
    while i < distances.len()
        invariant
            i <= distances.len(),
            objects@.len() == distances@.len(),
            limit == light_distance as int,
            forall|j: int| 0 <= j < i ==> !met_before(distances@, j, limit),
        decreases distances.len() - i,
    {
        let blocked = match distances[i] {
            Some(d) => d < light_distance,
            None => false,
        };
        if blocked {
            proof {
                assert(first_met_before(distances@, i as int, limit));
                let k = choose|k: int| first_met_before(distances@, k, limit);
                lemma_first_met_is_unique(distances@, i as int, k, limit);
            }
            return if objects[i].material.is_emissive() {
                Shadow::Emissive { occluder: i }
            } else {
                Shadow::Opaque
            };
        }
        i += 1;
    }
    Shadow::Lit
}

} // verus!

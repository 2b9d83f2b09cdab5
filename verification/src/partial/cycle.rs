//! Partial cycles.

use vstd::prelude::*;
use crate::objects::{lemma_prefix_transitive, Cycle, HalfEdgeId, Objects, ObjectsView};
use crate::partial::edge::half_edge_built;
use crate::partial::{
    lemma_positions_kept, lemma_same_forms_keep, viewed, BuildError, Built, HalfEdgeHandle,
    Partials, PartialsView, SurfaceVertexHandle,
};

verus! {

/// A partial cycle.
#[derive(Clone, Debug, PartialEq, Eq)]
pub struct PartialCycle {
    /// The half-edges that make up the cycle
    pub half_edges: Vec<HalfEdgeHandle>,
}

/// The surface vertex at which a half-edge starts.
pub open spec fn back_of(partials: PartialsView, h: HalfEdgeHandle) -> SurfaceVertexHandle {
    partials.vertex(partials.half_edge(h).vertices[0]).surface_form
}

/// The surface vertex at which a half-edge ends.
pub open spec fn front_of(partials: PartialsView, h: HalfEdgeHandle) -> SurfaceVertexHandle {
    partials.vertex(partials.half_edge(h).vertices[1]).surface_form
}

/// The index after `j` in a chain of `n` that wraps around.
pub open spec fn next_in(j: int, n: int) -> int {
    if j + 1 == n {
        0
    } else {
        j + 1
    }
}

/// Each half-edge ends at the surface vertex at which the next one starts, and
/// the last one ends where the first one starts.
pub open spec fn closed(partials: PartialsView, half_edges: Seq<HalfEdgeHandle>) -> bool {
    forall|i: int|
        0 <= i < half_edges.len() ==> front_of(partials, #[trigger] half_edges[i]) == back_of(
            partials,
            half_edges[next_in(i, half_edges.len() as int)],
        )
}

/// Every half-edge of the sequence refers to a place of the arena.
pub open spec fn all_present(partials: PartialsView, half_edges: Seq<HalfEdgeHandle>) -> bool {
    forall|i: int| 0 <= i < half_edges.len() ==> partials.has_half_edge(#[trigger] half_edges[i])
}

/// No half-edge occurs twice in the sequence, and no vertex is an end of two
/// of its half-edges, or both ends of one.
#[verifier::opaque]
pub open spec fn separate(partials: PartialsView, half_edges: Seq<HalfEdgeHandle>) -> bool {
    &&& forall|i: int, j: int|
        0 <= i < j < half_edges.len() ==> #[trigger] half_edges[i] != #[trigger] half_edges[j]
    &&& forall|i: int, j: int|
        0 <= i < half_edges.len() && 0 <= j < half_edges.len() ==> partials.half_edge(
            #[trigger] half_edges[i],
        ).vertices[0] != partials.half_edge(#[trigger] half_edges[j]).vertices[1]
    &&& forall|i: int, j: int|
        0 <= i < j < half_edges.len() ==> {
            &&& partials.half_edge(#[trigger] half_edges[i]).vertices[0] != partials.half_edge(
                #[trigger] half_edges[j],
            ).vertices[0]
            &&& partials.half_edge(half_edges[i]).vertices[1] != partials.half_edge(
                half_edges[j],
            ).vertices[1]
        }
}

/// What being separate says of the half-edges at `i` and `j`.
pub proof fn lemma_separate_at(
    partials: PartialsView,
    half_edges: Seq<HalfEdgeHandle>,
    i: int,
    j: int,
)
    requires
        separate(partials, half_edges),
        0 <= i < half_edges.len(),
        0 <= j < half_edges.len(),
    ensures
        partials.half_edge(half_edges[i]).vertices[0] != partials.half_edge(
            half_edges[j],
        ).vertices[1],
        i != j ==> half_edges[i] != half_edges[j],
        i != j ==> partials.half_edge(half_edges[i]).vertices[0] != partials.half_edge(
            half_edges[j],
        ).vertices[0],
        i != j ==> partials.half_edge(half_edges[i]).vertices[1] != partials.half_edge(
            half_edges[j],
        ).vertices[1],
{
    reveal(separate);
    if i < j {
        assert(half_edges[i] != half_edges[j]);
    } else if j < i {
        assert(half_edges[j] != half_edges[i]);
    }
}

impl PartialCycle {
    /// A cycle without half-edges.
    pub fn default() -> (r: PartialCycle)
        ensures
            r.half_edges@ == Seq::<HalfEdgeHandle>::empty(),
    {
        PartialCycle { half_edges: Vec::new() }
    }

    /// The half-edges of the cycle are in the arena.
    pub open spec fn wf_in(&self, partials: PartialsView) -> bool {
        all_present(partials, self.half_edges@)
    }
}

impl View for PartialCycle {
    type V = Seq<HalfEdgeHandle>;

    open spec fn view(&self) -> Seq<HalfEdgeHandle> {
        self.half_edges@
    }
}

/// What building the half-edges from `from` on does, after those before were
/// built to `done`: they are built one after the other, and the first one
/// that cannot be built ends the build. `outcome` is the arena in which the
/// build ended.
pub open spec fn half_edges_built(
    partials: PartialsView,
    objects: ObjectsView,
    handles: Seq<HalfEdgeHandle>,
    done: Seq<HalfEdgeId>,
    from: int,
    outcome: PartialsView,
) -> Built<Seq<HalfEdgeId>>
    decreases handles.len() - from,
{
    if from < 0 || from >= handles.len() {
        Built { partials, objects, result: Ok(done) }
    } else {
        let b = half_edge_built(partials, objects, handles[from], outcome);
        match b.result {
            Err(e) => Built { partials: b.partials, objects: b.objects, result: Err(e) },
            Ok(id) => half_edges_built(
                b.partials,
                b.objects,
                handles,
                done.push(id),
                from + 1,
                outcome,
            ),
        }
    }
}

/// What building a cycle with the given half-edges does: the half-edges are
/// built in order, and the cycle holds what was built. `outcome` is the arena
/// in which the build ended.
pub open spec fn cycle_built(
    partials: PartialsView,
    objects: ObjectsView,
    handles: Seq<HalfEdgeHandle>,
    outcome: PartialsView,
) -> Built<Seq<HalfEdgeId>> {
    half_edges_built(partials, objects, handles, Seq::empty(), 0, outcome)
}

impl PartialCycle {
    /// Builds the cycle, which must be one that can be built: whatever points
    /// are found on the paths of its curves, nothing is missing.
    pub fn build(self, partials: &mut Partials, objects: &mut Objects) -> (r: Cycle)
        requires
            old(partials)@.ready(old(objects)@),
            self.wf_in(old(partials)@),
            forall|outcome: PartialsView|
                (#[trigger] cycle_built(old(partials)@, old(objects)@, self@, outcome)).result.is_ok(),
        ensures
            (Built {
                partials: final(partials)@,
                objects: final(objects)@,
                result: viewed(Ok::<Cycle, BuildError>(r)),
            }) == cycle_built(old(partials)@, old(objects)@, self@, final(partials)@),
            forall|outcome: PartialsView| #[trigger]
                final(partials)@.positions_kept_in(outcome) ==> (Built {
                    partials: final(partials)@,
                    objects: final(objects)@,
                    result: viewed(Ok::<Cycle, BuildError>(r)),
                }) == cycle_built(old(partials)@, old(objects)@, self@, outcome),
            final(partials)@.ready(final(objects)@),
            old(objects)@.prefix_of(final(objects)@),
            old(partials)@.within(final(partials)@) && final(partials)@.within(old(partials)@),
            old(partials)@.positions_kept_in(final(partials)@),
    {
        let built = self.try_build(partials, objects);
        assert((cycle_built(old(partials)@, old(objects)@, self@, partials@)).result.is_ok());
        built.unwrap()
    }

    /// Builds the cycle, building its half-edges on the way.
    pub fn try_build(self, partials: &mut Partials, objects: &mut Objects) -> (r: Result<
        Cycle,
        BuildError,
    >)
        requires
            old(partials)@.ready(old(objects)@),
            self.wf_in(old(partials)@),
        ensures
            (Built { partials: final(partials)@, objects: final(objects)@, result: viewed(r) })
                == cycle_built(old(partials)@, old(objects)@, self@, final(partials)@),
            forall|outcome: PartialsView| #[trigger]
                final(partials)@.positions_kept_in(outcome) ==> (Built {
                    partials: final(partials)@,
                    objects: final(objects)@,
                    result: viewed(r),
                }) == cycle_built(old(partials)@, old(objects)@, self@, outcome),
            final(partials)@.ready(final(objects)@),
            old(objects)@.prefix_of(final(objects)@),
            old(partials)@.within(final(partials)@) && final(partials)@.within(old(partials)@),
            old(partials)@.positions_kept_in(final(partials)@),
    {
        let ghost handles = self.half_edges@;
        let ghost start_partials = partials@;
        let ghost start_objects = objects@;
        let mut done: Vec<HalfEdgeId> = Vec::new();
        let mut i: usize = 0;
        proof {
            assert(done@ =~= Seq::<HalfEdgeId>::empty());
            lemma_same_forms_keep(start_partials, start_partials);
        }
        while i < self.half_edges.len()
            invariant
                start_partials == old(partials)@,
                start_objects == old(objects)@,
                handles == self.half_edges@,
                0 <= i <= handles.len(),
                partials@.ready(objects@),
                all_present(partials@, handles),
                start_objects.prefix_of(objects@),
                start_partials.within(partials@) && partials@.within(start_partials),
                start_partials.positions_kept_in(partials@),
                forall|outcome: PartialsView| #[trigger]
                    partials@.positions_kept_in(outcome) ==> cycle_built(
                        start_partials,
                        start_objects,
                        handles,
                        outcome,
                    ) == half_edges_built(partials@, objects@, handles, done@, i as int, outcome),
            decreases handles.len() - i,
        {
            let ghost prev_partials = partials@;
            let ghost prev_objects = objects@;
            let ghost before = done@;
            let built = partials.build_half_edge(self.half_edges[i], objects);
            proof {
                lemma_prefix_transitive(start_objects, prev_objects, objects@);
                lemma_positions_kept(start_partials, prev_partials, partials@);
                assert forall|outcome: PartialsView| #[trigger]
                    partials@.positions_kept_in(outcome) implies cycle_built(
                    start_partials,
                    start_objects,
                    handles,
                    outcome,
                ) == (match built {
                    Err(e) => Built {
                        partials: partials@,
                        objects: objects@,
                        result: Err::<Seq<HalfEdgeId>, BuildError>(e),
                    },
                    Ok(id) => half_edges_built(
                        partials@,
                        objects@,
                        handles,
                        before.push(id),
                        i + 1,
                        outcome,
                    ),
                }) by {
                    lemma_positions_kept(prev_partials, partials@, outcome);
                    let step = half_edge_built(
                        prev_partials,
                        prev_objects,
                        handles[i as int],
                        outcome,
                    );
                    assert(step.partials == partials@ && step.objects == objects@ && step.result
                        == built);
                }
                lemma_same_forms_keep(partials@, partials@);
            }
            match built {
                Err(e) => {
                    return Err(e);
                },
                Ok(id) => {
                    done.push(id);
                },
            }
            i = i + 1;
        }
        proof {
            lemma_same_forms_keep(partials@, partials@);
        }
        Ok(Cycle { half_edges: done })
    }
}

} // verus!

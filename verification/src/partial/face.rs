//! Partial faces.

use vstd::prelude::*;
use fj_interop::Color;
use crate::objects::{
    lemma_prefix_transitive, Cycle, Face, FaceView, HalfEdgeId, Objects, ObjectsView, SurfaceId,
};
use crate::partial::cycle::{all_present, cycle_built, PartialCycle};
use crate::partial::surface::surface_built;
use crate::partial::{
    lemma_positions_kept, lemma_same_forms_keep, viewed, BuildError, Built, HalfEdgeHandle,
    Partials, PartialsView, SurfaceHandle,
};

verus! {

/// A partial face.
#[derive(Clone, Debug, PartialEq, Eq)]
pub struct PartialFace {
    /// The surface that the face lies in
    pub surface: Option<SurfaceHandle>,
    /// The cycle that bounds the face on the outside
    pub exterior: PartialCycle,
    /// The cycles that bound the face on the inside
    pub interiors: Vec<PartialCycle>,
    /// The color of the face
    pub color: Option<Color>,
}

/// The contents of a partial face.
pub struct PartialFaceView {
    pub surface: Option<SurfaceHandle>,
    pub exterior: Seq<HalfEdgeHandle>,
    pub interiors: Seq<Seq<HalfEdgeHandle>>,
    pub color: Option<Color>,
}

impl View for PartialFace {
    type V = PartialFaceView;

    open spec fn view(&self) -> PartialFaceView {
        PartialFaceView {
            surface: self.surface,
            exterior: self.exterior@,
            interiors: Seq::new(self.interiors@.len(), |i: int| self.interiors@[i]@),
            color: self.color,
        }
    }
}

impl PartialFaceView {
    /// The surface of the face, if it has one, and the half-edges of its
    /// cycles are in the arena.
    pub open spec fn wf_in(&self, partials: PartialsView) -> bool {
        &&& self.surface.is_some() ==> partials.has_surface(self.surface.unwrap())
        &&& all_present(partials, self.exterior)
        &&& forall|i: int|
            0 <= i < self.interiors.len() ==> all_present(partials, #[trigger] self.interiors[i])
    }
}

/// What building the surface of a face does: nothing if the face has none,
/// else the surface is built.
pub open spec fn face_surface_built(
    partials: PartialsView,
    objects: ObjectsView,
    surface: Option<SurfaceHandle>,
) -> Built<Option<SurfaceId>> {
    match surface {
        None => Built { partials, objects, result: Ok(None) },
        Some(h) => {
            let b = surface_built(partials, objects, h);
            Built {
                partials: b.partials,
                objects: b.objects,
                result: match b.result {
                    Ok(id) => Ok(Some(id)),
                    Err(e) => Err(e),
                },
            }
        },
    }
}

/// What building the cycles from `from` on does, after those before were
/// built to `done`: they are built one after the other, and the first one
/// that cannot be built ends the build. `outcome` is the arena in which the
/// build ended.
pub open spec fn cycles_built(
    partials: PartialsView,
    objects: ObjectsView,
    cycles: Seq<Seq<HalfEdgeHandle>>,
    done: Seq<Seq<HalfEdgeId>>,
    from: int,
    outcome: PartialsView,
) -> Built<Seq<Seq<HalfEdgeId>>>
    decreases cycles.len() - from,
{
    if from < 0 || from >= cycles.len() {
        Built { partials, objects, result: Ok(done) }
    } else {
        let b = cycle_built(partials, objects, cycles[from], outcome);
        match b.result {
            Err(e) => Built { partials: b.partials, objects: b.objects, result: Err(e) },
            Ok(cycle) => cycles_built(
                b.partials,
                b.objects,
                cycles,
                done.push(cycle),
                from + 1,
                outcome,
            ),
        }
    }
}

/// What building a face does: its surface, its exterior cycle and then its
/// interior cycles are built, and the face has what was built, and the color
/// of the partial face. `outcome` is the arena in which the build ended.
pub open spec fn face_built(
    partials: PartialsView,
    objects: ObjectsView,
    face: PartialFaceView,
    outcome: PartialsView,
) -> Built<FaceView> {
    let s = face_surface_built(partials, objects, face.surface);
    match s.result {
        Err(err) => Built { partials: s.partials, objects: s.objects, result: Err(err) },
        Ok(surface) => {
            let e = cycle_built(s.partials, s.objects, face.exterior, outcome);
            match e.result {
                Err(err) => Built { partials: e.partials, objects: e.objects, result: Err(err) },
                Ok(exterior) => {
                    let i = cycles_built(
                        e.partials,
                        e.objects,
                        face.interiors,
                        Seq::empty(),
                        0,
                        outcome,
                    );
                    match i.result {
                        Err(err) => Built {
                            partials: i.partials,
                            objects: i.objects,
                            result: Err(err),
                        },
                        Ok(interiors) => Built {
                            partials: i.partials,
                            objects: i.objects,
                            result: Ok(
                                FaceView { surface, exterior, interiors, color: face.color },
                            ),
                        },
                    }
                },
            }
        },
    }
}

/// The half-edges of a face remain in an arena with as many places.
pub proof fn lemma_face_remains(before: PartialsView, after: PartialsView, face: PartialFaceView)
    requires
        face.wf_in(before),
        before.within(after),
    ensures
        face.wf_in(after),
{
    assert forall|k: int| 0 <= k < face.exterior.len() implies after.has_half_edge(
        #[trigger] face.exterior[k],
    ) by {
        assert(before.has_half_edge(face.exterior[k]));
    }
    assert forall|c: int| 0 <= c < face.interiors.len() implies all_present(
        after,
        #[trigger] face.interiors[c],
    ) by {
        let inner = face.interiors[c];
        assert(all_present(before, inner));
        assert forall|k: int| 0 <= k < inner.len() implies after.has_half_edge(
            #[trigger] inner[k],
        ) by {
            assert(before.has_half_edge(inner[k]));
        }
    }
}

impl PartialFace {
    /// A face without surface, half-edges, interior cycles or color.
    pub fn default() -> (r: PartialFace)
        ensures
            r@.surface.is_none(),
            r@.exterior.len() == 0,
            r@.interiors.len() == 0,
            r@.color.is_none(),
    {
        PartialFace {
            surface: None,
            exterior: PartialCycle::default(),
            interiors: Vec::new(),
            color: None,
        }
    }

    /// Builds the face, which must be one that can be built: whatever points
    /// are found on the paths of its curves, nothing is missing.
    pub fn build(self, partials: &mut Partials, objects: &mut Objects) -> (r: Face)
        requires
            old(partials)@.ready(old(objects)@),
            self@.wf_in(old(partials)@),
            forall|outcome: PartialsView|
                (#[trigger] face_built(old(partials)@, old(objects)@, self@, outcome)).result.is_ok(),
        ensures
            (Built {
                partials: final(partials)@,
                objects: final(objects)@,
                result: viewed(Ok::<Face, BuildError>(r)),
            }) == face_built(old(partials)@, old(objects)@, self@, final(partials)@),
            forall|outcome: PartialsView| #[trigger]
                final(partials)@.positions_kept_in(outcome) ==> (Built {
                    partials: final(partials)@,
                    objects: final(objects)@,
                    result: viewed(Ok::<Face, BuildError>(r)),
                }) == face_built(old(partials)@, old(objects)@, self@, outcome),
            final(partials)@.ready(final(objects)@),
            old(objects)@.prefix_of(final(objects)@),
            old(partials)@.within(final(partials)@) && final(partials)@.within(old(partials)@),
            old(partials)@.positions_kept_in(final(partials)@),
    {
        let built = self.try_build(partials, objects);
        assert((face_built(old(partials)@, old(objects)@, self@, partials@)).result.is_ok());
        built.unwrap()
    }

    /// Builds the face, building its surface and its cycles on the way.
    pub fn try_build(self, partials: &mut Partials, objects: &mut Objects) -> (r: Result<
        Face,
        BuildError,
    >)
        requires
            old(partials)@.ready(old(objects)@),
            self@.wf_in(old(partials)@),
        ensures
            (Built { partials: final(partials)@, objects: final(objects)@, result: viewed(r) })
                == face_built(old(partials)@, old(objects)@, self@, final(partials)@),
            forall|outcome: PartialsView| #[trigger]
                final(partials)@.positions_kept_in(outcome) ==> (Built {
                    partials: final(partials)@,
                    objects: final(objects)@,
                    result: viewed(r),
                }) == face_built(old(partials)@, old(objects)@, self@, outcome),
            final(partials)@.ready(final(objects)@),
            old(objects)@.prefix_of(final(objects)@),
            old(partials)@.within(final(partials)@) && final(partials)@.within(old(partials)@),
            old(partials)@.positions_kept_in(final(partials)@),
    {
        let ghost face = self@;
        let ghost start_partials = partials@;
        let ghost start_objects = objects@;
        let PartialFace { surface, exterior, interiors, color } = self;
        assert(self@.exterior == exterior@);
        let surface = match surface {
            None => None,
            Some(h) => match partials.build_surface(h, objects) {
                Ok(id) => Some(id),
                Err(e) => {
                    proof {
                        lemma_same_forms_keep(start_partials, partials@);
                        lemma_same_forms_keep(partials@, partials@);
                    }
                    return Err(e);
                },
            },
        };
        let ghost first_partials = partials@;
        let ghost first_objects = objects@;
        proof {
            lemma_same_forms_keep(start_partials, first_partials);
            lemma_face_remains(start_partials, first_partials, face);
        }
        let outer = exterior.try_build(partials, objects);
        let ghost middle_partials = partials@;
        let ghost middle_objects = objects@;
        proof {
            lemma_prefix_transitive(start_objects, first_objects, middle_objects);
            lemma_positions_kept(start_partials, first_partials, middle_partials);
            lemma_same_forms_keep(middle_partials, middle_partials);
            lemma_face_remains(first_partials, middle_partials, face);
        }
        let exterior = match outer {
            Ok(cycle) => cycle,
            Err(e) => {
                return Err(e);
            },
        };
        let mut interiors = interiors;
        let mut done: Vec<Cycle> = Vec::new();
        let ghost total = interiors@.len();
        assert(Seq::new(done@.len(), |k: int| done@[k]@) =~= Seq::<Seq<HalfEdgeId>>::empty());
        assert(face.color == color);
        assert(face.exterior == self@.exterior);
        while interiors.len() > 0
            invariant
                start_partials == old(partials)@,
                start_objects == old(objects)@,
                face == self@,
                total == face.interiors.len(),
                done@.len() + interiors@.len() == total,
                forall|k: int|
                    0 <= k < interiors@.len() ==> (#[trigger] interiors@[k])@
                        == face.interiors[total - interiors@.len() + k],
                partials@.ready(objects@),
                face.wf_in(partials@),
                start_objects.prefix_of(objects@),
                start_partials.within(partials@) && partials@.within(start_partials),
                start_partials.positions_kept_in(partials@),
                middle_partials.positions_kept_in(partials@),
                face_surface_built(start_partials, start_objects, face.surface) == (Built {
                    partials: first_partials,
                    objects: first_objects,
                    result: Ok::<Option<SurfaceId>, BuildError>(surface),
                }),
                forall|outcome: PartialsView| #[trigger]
                    middle_partials.positions_kept_in(outcome) ==> cycle_built(
                        first_partials,
                        first_objects,
                        face.exterior,
                        outcome,
                    ) == (Built {
                        partials: middle_partials,
                        objects: middle_objects,
                        result: Ok::<Seq<HalfEdgeId>, BuildError>(exterior@),
                    }),
                forall|outcome: PartialsView| #[trigger]
                    partials@.positions_kept_in(outcome) ==> cycles_built(
                        middle_partials,
                        middle_objects,
                        face.interiors,
                        Seq::empty(),
                        0,
                        outcome,
                    ) == cycles_built(
                        partials@,
                        objects@,
                        face.interiors,
                        Seq::new(done@.len(), |k: int| done@[k]@),
                        done@.len() as int,
                        outcome,
                    ),
            decreases interiors@.len(),
        {
            let ghost before = Seq::new(done@.len(), |k: int| done@[k]@);
            let ghost at = done@.len() as int;
            let ghost rest = interiors@;
            let cycle = interiors.remove(0);
            assert(cycle@ == face.interiors[at]);
            assert(all_present(partials@, face.interiors[at]));
            let ghost prev_partials = partials@;
            let ghost prev_objects = objects@;
            let built = cycle.try_build(partials, objects);
            proof {
                lemma_prefix_transitive(start_objects, prev_objects, objects@);
                lemma_positions_kept(start_partials, prev_partials, partials@);
                lemma_positions_kept(middle_partials, prev_partials, partials@);
                lemma_face_remains(prev_partials, partials@, face);
                assert forall|outcome: PartialsView| #[trigger]
                    partials@.positions_kept_in(outcome) implies cycles_built(
                    middle_partials,
                    middle_objects,
                    face.interiors,
                    Seq::empty(),
                    0,
                    outcome,
                ) == (match viewed(built) {
                    Err(e) => Built {
                        partials: partials@,
                        objects: objects@,
                        result: Err::<Seq<Seq<HalfEdgeId>>, BuildError>(e),
                    },
                    Ok(cycle) => cycles_built(
                        partials@,
                        objects@,
                        face.interiors,
                        before.push(cycle),
                        at + 1,
                        outcome,
                    ),
                }) by {
                    lemma_positions_kept(prev_partials, partials@, outcome);
                    let step = cycle_built(prev_partials, prev_objects, face.interiors[at], outcome);
                    assert(step.partials == partials@ && step.objects == objects@ && step.result
                        == viewed(built));
                }
            }
            match built {
                Err(e) => {
                    proof {
                        assert forall|outcome: PartialsView| #[trigger]
                            partials@.positions_kept_in(outcome) implies (Built {
                            partials: partials@,
                            objects: objects@,
                            result: Err::<FaceView, BuildError>(e),
                        }) == face_built(start_partials, start_objects, face, outcome) by {
                            lemma_positions_kept(middle_partials, partials@, outcome);
                        }
                        lemma_same_forms_keep(partials@, partials@);
                    }
                    return Err(e);
                },
                Ok(built) => {
                    done.push(built);
                    assert(Seq::new(done@.len(), |k: int| done@[k]@) =~= before.push(built@));
                },
            }
            assert forall|k: int| 0 <= k < interiors@.len() implies (#[trigger] interiors@[k])@
                == face.interiors[total - interiors@.len() + k] by {
                assert(interiors@[k] == rest[k + 1]);
            }
        }
        let r = Face { surface, exterior, interiors: done, color };
        proof {
            assert(r@.interiors =~= Seq::new(done@.len(), |k: int| done@[k]@));
            assert forall|outcome: PartialsView| #[trigger]
                partials@.positions_kept_in(outcome) implies (Built {
                partials: partials@,
                objects: objects@,
                result: Ok::<FaceView, BuildError>(r@),
            }) == face_built(start_partials, start_objects, face, outcome) by {
                lemma_positions_kept(middle_partials, partials@, outcome);
            }
            lemma_same_forms_keep(partials@, partials@);
        }
        Ok(r)
    }
}

} // verus!

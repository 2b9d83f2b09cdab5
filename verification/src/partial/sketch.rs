//! Partial sketches.

use vstd::prelude::*;
use crate::objects::{lemma_prefix_transitive, Face, FaceView, Objects, ObjectsView, Sketch};
use crate::partial::face::{face_built, lemma_face_remains, PartialFace, PartialFaceView};
use crate::partial::{
    lemma_positions_kept, lemma_same_forms_keep, viewed, BuildError, Built, Partials, PartialsView,
};

verus! {

/// A partial sketch.
#[derive(Clone, Debug, PartialEq, Eq)]
pub struct PartialSketch {
    /// The faces that make up the sketch
    pub faces: Vec<PartialFace>,
}

impl View for PartialSketch {
    type V = Seq<PartialFaceView>;

    open spec fn view(&self) -> Seq<PartialFaceView> {
        Seq::new(self.faces@.len(), |i: int| self.faces@[i]@)
    }
}

/// The half-edges of every face are in the arena.
pub open spec fn faces_present(partials: PartialsView, faces: Seq<PartialFaceView>) -> bool {
    forall|i: int| 0 <= i < faces.len() ==> (#[trigger] faces[i]).wf_in(partials)
}

/// What building the faces from `from` on does, after those before were built
/// to `done`: they are built one after the other, and the first one that
/// cannot be built ends the build. `outcome` is the arena in which the build
/// ended.
pub open spec fn faces_built(
    partials: PartialsView,
    objects: ObjectsView,
    faces: Seq<PartialFaceView>,
    done: Seq<FaceView>,
    from: int,
    outcome: PartialsView,
) -> Built<Seq<FaceView>>
    decreases faces.len() - from,
{
    if from < 0 || from >= faces.len() {
        Built { partials, objects, result: Ok(done) }
    } else {
        let b = face_built(partials, objects, faces[from], outcome);
        match b.result {
            Err(e) => Built { partials: b.partials, objects: b.objects, result: Err(e) },
            Ok(face) => faces_built(
                b.partials,
                b.objects,
                faces,
                done.push(face),
                from + 1,
                outcome,
            ),
        }
    }
}

/// What building a sketch with the given faces does: the faces are built in
/// order, and the sketch holds what was built. `outcome` is the arena in
/// which the build ended.
pub open spec fn sketch_built(
    partials: PartialsView,
    objects: ObjectsView,
    faces: Seq<PartialFaceView>,
    outcome: PartialsView,
) -> Built<Seq<FaceView>> {
    faces_built(partials, objects, faces, Seq::empty(), 0, outcome)
}

/// The faces remain in an arena with as many places.
pub proof fn lemma_faces_remain(
    before: PartialsView,
    after: PartialsView,
    faces: Seq<PartialFaceView>,
)
    requires
        faces_present(before, faces),
        before.within(after),
    ensures
        faces_present(after, faces),
{
    assert forall|i: int| 0 <= i < faces.len() implies (#[trigger] faces[i]).wf_in(after) by {
        lemma_face_remains(before, after, faces[i]);
    }
}

impl PartialSketch {
    /// A sketch without faces.
    pub fn default() -> (r: PartialSketch)
        ensures
            r@.len() == 0,
    {
        PartialSketch { faces: Vec::new() }
    }

    /// Builds the sketch, which must be one that can be built: whatever points
    /// are found on the paths of its curves, nothing is missing.
    pub fn build(self, partials: &mut Partials, objects: &mut Objects) -> (r: Sketch)
        requires
            old(partials)@.ready(old(objects)@),
            faces_present(old(partials)@, self@),
            forall|outcome: PartialsView|
                (#[trigger] sketch_built(old(partials)@, old(objects)@, self@, outcome)).result.is_ok(),
        ensures
            (Built {
                partials: final(partials)@,
                objects: final(objects)@,
                result: viewed(Ok::<Sketch, BuildError>(r)),
            }) == sketch_built(old(partials)@, old(objects)@, self@, final(partials)@),
            forall|outcome: PartialsView| #[trigger]
                final(partials)@.positions_kept_in(outcome) ==> (Built {
                    partials: final(partials)@,
                    objects: final(objects)@,
                    result: viewed(Ok::<Sketch, BuildError>(r)),
                }) == sketch_built(old(partials)@, old(objects)@, self@, outcome),
            final(partials)@.ready(final(objects)@),
            old(objects)@.prefix_of(final(objects)@),
            old(partials)@.within(final(partials)@) && final(partials)@.within(old(partials)@),
            old(partials)@.positions_kept_in(final(partials)@),
    {
        let built = self.try_build(partials, objects);
        assert((sketch_built(old(partials)@, old(objects)@, self@, partials@)).result.is_ok());
        built.unwrap()
    }

    /// Builds the sketch, building its faces on the way.
    pub fn try_build(self, partials: &mut Partials, objects: &mut Objects) -> (r: Result<
        Sketch,
        BuildError,
    >)
        requires
            old(partials)@.ready(old(objects)@),
            faces_present(old(partials)@, self@),
        ensures
            (Built { partials: final(partials)@, objects: final(objects)@, result: viewed(r) })
                == sketch_built(old(partials)@, old(objects)@, self@, final(partials)@),
            forall|outcome: PartialsView| #[trigger]
                final(partials)@.positions_kept_in(outcome) ==> (Built {
                    partials: final(partials)@,
                    objects: final(objects)@,
                    result: viewed(r),
                }) == sketch_built(old(partials)@, old(objects)@, self@, outcome),
            final(partials)@.ready(final(objects)@),
            old(objects)@.prefix_of(final(objects)@),
            old(partials)@.within(final(partials)@) && final(partials)@.within(old(partials)@),
            old(partials)@.positions_kept_in(final(partials)@),
    {
        let ghost all = self@;
        let ghost start_partials = partials@;
        let ghost start_objects = objects@;
        let mut faces = self.faces;
        let mut done: Vec<Face> = Vec::new();
        let ghost total = faces@.len();
        proof {
            assert(Seq::new(done@.len(), |k: int| done@[k]@) =~= Seq::<FaceView>::empty());
            lemma_same_forms_keep(start_partials, start_partials);
        }
        while faces.len() > 0
            invariant
                start_partials == old(partials)@,
                start_objects == old(objects)@,
                all == self@,
                total == all.len(),
                done@.len() + faces@.len() == total,
                forall|k: int|
                    0 <= k < faces@.len() ==> (#[trigger] faces@[k])@ == all[total - faces@.len()
                        + k],
                partials@.ready(objects@),
                faces_present(partials@, all),
                start_objects.prefix_of(objects@),
                start_partials.within(partials@) && partials@.within(start_partials),
                start_partials.positions_kept_in(partials@),
                forall|outcome: PartialsView| #[trigger]
                    partials@.positions_kept_in(outcome) ==> sketch_built(
                        start_partials,
                        start_objects,
                        all,
                        outcome,
                    ) == faces_built(
                        partials@,
                        objects@,
                        all,
                        Seq::new(done@.len(), |k: int| done@[k]@),
                        done@.len() as int,
                        outcome,
                    ),
            decreases faces@.len(),
        {
            let ghost before = Seq::new(done@.len(), |k: int| done@[k]@);
            let ghost at = done@.len() as int;
            let ghost rest = faces@;
            let face = faces.remove(0);
            assert(face@ == all[at]);
            assert(all[at].wf_in(partials@));
            let ghost prev_partials = partials@;
            let ghost prev_objects = objects@;
            let built = face.try_build(partials, objects);
            proof {
                lemma_prefix_transitive(start_objects, prev_objects, objects@);
                lemma_positions_kept(start_partials, prev_partials, partials@);
                lemma_faces_remain(prev_partials, partials@, all);
                assert forall|outcome: PartialsView| #[trigger]
                    partials@.positions_kept_in(outcome) implies sketch_built(
                    start_partials,
                    start_objects,
                    all,
                    outcome,
                ) == (match viewed(built) {
                    Err(e) => Built {
                        partials: partials@,
                        objects: objects@,
                        result: Err::<Seq<FaceView>, BuildError>(e),
                    },
                    Ok(face) => faces_built(
                        partials@,
                        objects@,
                        all,
                        before.push(face),
                        at + 1,
                        outcome,
                    ),
                }) by {
                    lemma_positions_kept(prev_partials, partials@, outcome);
                    let step = face_built(prev_partials, prev_objects, all[at], outcome);
                    assert(step.partials == partials@ && step.objects == objects@ && step.result
                        == viewed(built));
                }
                lemma_same_forms_keep(partials@, partials@);
            }
            match built {
                Err(e) => {
                    return Err(e);
                },
                Ok(built) => {
                    done.push(built);
                    assert(Seq::new(done@.len(), |k: int| done@[k]@) =~= before.push(built@));
                },
            }
            assert forall|k: int| 0 <= k < faces@.len() implies (#[trigger] faces@[k])@ == all[total
                - faces@.len() + k] by {
                assert(faces@[k] == rest[k + 1]);
            }
        }
        let r = Sketch { faces: done };
        proof {
            assert(r@ =~= Seq::new(done@.len(), |k: int| done@[k]@));
            lemma_same_forms_keep(partials@, partials@);
        }
        Ok(r)
    }
}

} // verus!

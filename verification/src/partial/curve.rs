//! Partial curves.

use vstd::prelude::*;
use crate::geometry::SurfacePath;
use crate::objects::{place_of, Curve, CurveId, Objects, ObjectsView};
use crate::partial::surface::{surface_built, PartialSurface};
use crate::partial::{
    BuildError, Built, CurveHandle, Entity, Field, Partials, PartialsView, Slot, SurfaceHandle,
};

verus! {

/// A partial curve.
#[derive(Clone, Copy, Debug, PartialEq, Eq)]
pub struct PartialCurve {
    /// The path that defines the curve
    pub path: Option<SurfacePath>,
    /// The surface that the curve is defined in
    pub surface: SurfaceHandle,
}

impl PartialCurve {
    /// The handle of the partial curve refers to a place of the arena.
    pub open spec fn wf_in(&self, partials: PartialsView) -> bool {
        partials.has_surface(self.surface)
    }

    /// A curve without a path, in a new surface without geometry.
    pub fn default(partials: &mut Partials) -> (r: PartialCurve)
        ensures
            r.path.is_none(),
            r.surface.index == old(partials)@.surfaces.len(),
            final(partials)@ == old(partials)@.with_surface(PartialSurface { geometry: None }),
            r.wf_in(final(partials)@),
            final(partials)@.keeps_built(old(partials)@),
            old(partials)@.wf() ==> final(partials)@.wf(),
    {
        let surface = partials.insert_surface(PartialSurface { geometry: None });
        PartialCurve { path: None, surface }
    }

    /// What building this partial curve does: its path must be set; then its
    /// surface is built, and the curve has that path in that surface.
    #[verifier::opaque]
    pub open spec fn built(self, partials: PartialsView, objects: ObjectsView) -> Built<Curve> {
        match self.path {
            None => Built {
                partials,
                objects,
                result: Err(BuildError::Missing { entity: Entity::Curve, field: Field::Path }),
            },
            Some(path) => {
                let s = surface_built(partials, objects, self.surface);
                match s.result {
                    Err(e) => Built { partials: s.partials, objects: s.objects, result: Err(e) },
                    Ok(surface) => Built {
                        partials: s.partials,
                        objects: s.objects,
                        result: Ok(Curve { path, surface }),
                    },
                }
            },
        }
    }

    /// Builds the curve, which must have its path, in a surface that can be
    /// built.
    pub fn build(self, partials: &mut Partials, objects: &mut Objects) -> (r: Curve)
        requires
            old(partials)@.ready(old(objects)@),
            self.wf_in(old(partials)@),
            self.built(old(partials)@, old(objects)@).result.is_ok(),
        ensures
            (Built {
                partials: final(partials)@,
                objects: final(objects)@,
                result: Ok::<Curve, BuildError>(r),
            }) == self.built(old(partials)@, old(objects)@),
            final(partials)@.ready(final(objects)@),
            old(objects)@.prefix_of(final(objects)@),
            old(partials)@.within(final(partials)@) && final(partials)@.within(old(partials)@),
            final(partials)@.surface_vertices == old(partials)@.surface_vertices,
    {
        self.try_build(partials, objects).unwrap()
    }

    /// Builds the curve, building its surface on the way.
    pub fn try_build(self, partials: &mut Partials, objects: &mut Objects) -> (r: Result<
        Curve,
        BuildError,
    >)
        requires
            old(partials)@.ready(old(objects)@),
            self.wf_in(old(partials)@),
        ensures
            (Built { partials: final(partials)@, objects: final(objects)@, result: r })
                == self.built(old(partials)@, old(objects)@),
            final(partials)@.ready(final(objects)@),
            old(objects)@.prefix_of(final(objects)@),
            old(partials)@.within(final(partials)@) && final(partials)@.within(old(partials)@),
            final(partials)@.surface_vertices == old(partials)@.surface_vertices,
            r.is_ok() ==> r.unwrap().surface.index < final(objects)@.surfaces.len(),
    {
        reveal(PartialCurve::built);
        match self.path {
            None => Err(BuildError::Missing { entity: Entity::Curve, field: Field::Path }),
            Some(path) => match partials.build_surface(self.surface, objects) {
                Err(e) => Err(e),
                Ok(surface) => Ok(Curve { path, surface }),
            },
        }
    }
}

/// What building the curve that `h` refers to does. If the place remembers a
/// full curve, that one is the result and nothing changes. Else the curve is
/// built from the partial curve and put into the store, and the place
/// remembers it.
#[verifier::opaque]
pub open spec fn curve_built(partials: PartialsView, objects: ObjectsView, h: CurveHandle) -> Built<
    CurveId,
> {
    match partials.curves[h.index as int].full {
        Some(id) => Built { partials, objects, result: Ok(id) },
        None => {
            let b = partials.curve(h).built(partials, objects);
            match b.result {
                Err(e) => Built { partials: b.partials, objects: b.objects, result: Err(e) },
                Ok(curve) => {
                    let id = CurveId { index: place_of(b.objects.curves, curve) as usize };
                    Built {
                        partials: b.partials.remember_curve(h, id),
                        objects: b.objects.with_curve(curve),
                        result: Ok(id),
                    }
                },
            }
        },
    }
}

impl Partials {
    /// Builds the curve that `h` refers to, or returns the one that was built
    /// from it before.
    pub fn build_curve(&mut self, h: CurveHandle, objects: &mut Objects) -> (r: Result<
        CurveId,
        BuildError,
    >)
        requires
            old(self)@.ready(old(objects)@),
            old(self)@.has_curve(h),
        ensures
            (Built { partials: final(self)@, objects: final(objects)@, result: r }) == curve_built(
                old(self)@,
                old(objects)@,
                h,
            ),
            final(self)@.ready(final(objects)@),
            old(objects)@.prefix_of(final(objects)@),
            old(self)@.within(final(self)@) && final(self)@.within(old(self)@),
            final(self)@.surface_vertices == old(self)@.surface_vertices,
            r.is_ok() ==> final(self)@.curves[h.index as int].full == Some(r.unwrap())
                && r.unwrap().index < final(objects)@.curves.len(),
    {
        reveal(curve_built);
        let slot = self.curves[h.index];
        match slot.full {
            Some(id) => Ok(id),
            None => match slot.partial.try_build(self, objects) {
                Err(e) => Err(e),
                Ok(curve) => {
                    let id = objects.insert_curve(curve);
                    let partial = self.curves[h.index].partial;
                    self.curves.set(h.index, Slot { partial, full: Some(id) });
                    Ok(id)
                },
            },
        }
    }
}

/// A curve that was built is not built again: building it once more gives
/// the same curve and changes nothing.
pub proof fn lemma_curve_built_once(partials: PartialsView, objects: ObjectsView, h: CurveHandle)
    requires
        partials.has_curve(h),
        curve_built(partials, objects, h).result.is_ok(),
    ensures
        ({
            let b = curve_built(partials, objects, h);
            curve_built(b.partials, b.objects, h) == b
        }),
{
    reveal(curve_built);
    reveal(PartialCurve::built);
    reveal(surface_built);
}

} // verus!

//! Partial surfaces.

use vstd::prelude::*;
use crate::geometry::SurfaceGeometry;
use crate::objects::{place_of, Objects, ObjectsView, Surface, SurfaceId};
use crate::partial::{
    BuildError, Built, Entity, Field, Partials, PartialsView, Slot, SurfaceHandle,
};

verus! {

/// A partial surface.
#[derive(Clone, Copy, Debug, PartialEq, Eq)]
pub struct PartialSurface {
    /// The surface's geometry
    pub geometry: Option<SurfaceGeometry>,
}

impl PartialSurface {
    /// A surface without geometry.
    pub fn default() -> (r: PartialSurface)
        ensures
            r.geometry.is_none(),
    {
        PartialSurface { geometry: None }
    }

    /// The surface that is built from this partial surface: the one with its
    /// geometry, which must be set.
    pub open spec fn built(self) -> Result<Surface, BuildError> {
        match self.geometry {
            Some(geometry) => Ok(Surface { geometry }),
            None => Err(BuildError::Missing { entity: Entity::Surface, field: Field::Geometry }),
        }
    }

    /// Builds the surface, if it has its geometry. The store is not needed for
    /// that, and is left as it is.
    pub fn try_build(self, objects: &mut Objects) -> (r: Result<Surface, BuildError>)
        ensures
            r == self.built(),
            final(objects)@ == old(objects)@,
    {
        match self.geometry {
            Some(geometry) => Ok(Surface { geometry }),
            None => Err(BuildError::Missing { entity: Entity::Surface, field: Field::Geometry }),
        }
    }

    /// Builds the surface, which must have its geometry. The store is not
    /// needed for that, and is left as it is.
    pub fn build(self, objects: &mut Objects) -> (r: Surface)
        requires
            self.geometry.is_some(),
        ensures
            r == (Surface { geometry: self.geometry.unwrap() }),
            Ok::<Surface, BuildError>(r) == self.built(),
            final(objects)@ == old(objects)@,
    {
        Surface { geometry: self.geometry.unwrap() }
    }
}

/// What building the surface that `h` refers to does. If the place remembers
/// a full surface, that one is the result and nothing changes. Else the
/// surface is built from the partial surface and put into the store, and the
/// place remembers it.
#[verifier::opaque]
pub open spec fn surface_built(
    partials: PartialsView,
    objects: ObjectsView,
    h: SurfaceHandle,
) -> Built<SurfaceId> {
    match partials.surfaces[h.index as int].full {
        Some(id) => Built { partials, objects, result: Ok(id) },
        None => match partials.surface(h).built() {
            Err(e) => Built { partials, objects, result: Err(e) },
            Ok(surface) => {
                let id = SurfaceId { index: place_of(objects.surfaces, surface) as usize };
                Built {
                    partials: partials.remember_surface(h, id),
                    objects: objects.with_surface(surface),
                    result: Ok(id),
                }
            },
        },
    }
}

impl Partials {
    /// Builds the surface that `h` refers to, or returns the one that was
    /// built from it before.
    pub fn build_surface(&mut self, h: SurfaceHandle, objects: &mut Objects) -> (r: Result<
        SurfaceId,
        BuildError,
    >)
        requires
            old(self)@.ready(old(objects)@),
            old(self)@.has_surface(h),
        ensures
            (Built { partials: final(self)@, objects: final(objects)@, result: r }) == surface_built(
                old(self)@,
                old(objects)@,
                h,
            ),
            final(self)@.ready(final(objects)@),
            old(objects)@.prefix_of(final(objects)@),
            old(self)@.within(final(self)@) && final(self)@.within(old(self)@),
            final(self)@.surface_vertices == old(self)@.surface_vertices,
            r.is_ok() ==> final(self)@.surfaces[h.index as int].full == Some(r.unwrap())
                && r.unwrap().index < final(objects)@.surfaces.len(),
    {
        reveal(surface_built);
        let slot = self.surfaces[h.index];
        match slot.full {
            Some(id) => Ok(id),
            None => match slot.partial.try_build(objects) {
                Err(e) => Err(e),
                Ok(surface) => {
                    let id = objects.insert_surface(surface);
                    self.surfaces.set(h.index, Slot { partial: slot.partial, full: Some(id) });
                    Ok(id)
                },
            },
        }
    }
}

/// A surface that was built is not built again: building it once more gives
/// the same surface and changes nothing.
pub proof fn lemma_surface_built_once(
    partials: PartialsView,
    objects: ObjectsView,
    h: SurfaceHandle,
)
    requires
        partials.has_surface(h),
        surface_built(partials, objects, h).result.is_ok(),
    ensures
        ({
            let b = surface_built(partials, objects, h);
            surface_built(b.partials, b.objects, h) == b
        }),
{
    reveal(surface_built);
}

} // verus!

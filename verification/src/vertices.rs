//! The vertices of shapes that are described by operations on a single vertex.

use vstd::prelude::*;
use fj_math::Scalar;
use crate::math::{all_finite, scalar, scalar_of, sum, Vector};

verus! {

/// A vertex: the shape that is a single point, without a position of its own.
#[derive(Clone, Copy, Debug, PartialEq, Eq)]
pub struct Vertex;

/// A shape moved by an offset.
#[derive(Clone, Copy, Debug, PartialEq, Eq)]
pub struct Translate<T, const D: usize> {
    pub shape: T,
    pub offset: Vector<D>,
}

/// A shape swept along a path.
#[derive(Clone, Copy, Debug, PartialEq, Eq)]
pub struct Sweep<T, P> {
    pub shape: T,
    pub path: P,
}

/// The coordinates of the zero vector in `d` dimensions.
pub open spec fn zeros(d: nat) -> Seq<Scalar> {
    Seq::new(d, |i: int| scalar_of(0))
}

/// Each of the offsets, moved by `by`.
pub open spec fn moved(offsets: Seq<Seq<Scalar>>, by: Seq<Scalar>) -> Seq<Seq<Scalar>> {
    Seq::new(offsets.len(), |i: int| sum(offsets[i], by))
}

/// Every offset is finite.
pub open spec fn offsets_finite(offsets: Seq<Seq<Scalar>>) -> bool {
    forall|i: int| 0 <= i < offsets.len() ==> all_finite(#[trigger] offsets[i])
}

/// The offsets of the translated vertices.
pub open spec fn offsets_of<const D: usize>(vertices: Seq<Translate<Vertex, D>>) -> Seq<
    Seq<Scalar>,
> {
    Seq::new(vertices.len(), |i: int| vertices[i].offset@)
}

/// Whether every vertex has a finite offset.
pub fn check_offsets_finite<const D: usize>(vertices: &Vec<Translate<Vertex, D>>) -> (r: bool)
    ensures
        r == offsets_finite(offsets_of(vertices@)),
{
    let mut i: usize = 0;
    while i < vertices.len()
        invariant
            0 <= i <= vertices@.len(),
            forall|k: int| 0 <= k < i ==> all_finite(#[trigger] offsets_of(vertices@)[k]),
        decreases vertices@.len() - i,
    {
        if !vertices[i].offset.is_finite() {
            assert(!all_finite(offsets_of(vertices@)[i as int]));
            return false;
        }
        i = i + 1;
    }
    true
}

/// The vertices, each moved by `by`.
pub fn move_all<const D: usize>(vertices: &Vec<Translate<Vertex, D>>, by: &Vector<D>) -> (r: Vec<
    Translate<Vertex, D>,
>)
    requires
        offsets_finite(offsets_of(vertices@)),
        all_finite(by@),
    ensures
        offsets_of(r@) == moved(offsets_of(vertices@), by@),
{
    let mut r: Vec<Translate<Vertex, D>> = Vec::new();
    let mut i: usize = 0;
    while i < vertices.len()
        invariant
            0 <= i <= vertices@.len(),
            offsets_finite(offsets_of(vertices@)),
            all_finite(by@),
            r@.len() == i,
            forall|k: int| 0 <= k < i ==> (#[trigger] r@[k]).offset@ == sum(vertices@[k].offset@, by@),
        decreases vertices@.len() - i,
    {
        assert(all_finite(offsets_of(vertices@)[i as int]));
        let offset = vertices[i].offset.plus(by).unwrap();
        r.push(Translate { shape: Vertex, offset });
        i = i + 1;
    }
    assert(offsets_of(r@) =~= moved(offsets_of(vertices@), by@));
    r
}

/// The vertices that make up a shape
///
/// `D` defines the dimension of the vertices' positions.
pub trait Vertices<const D: usize> {
    /// The offsets of the vertices of the shape, in order.
    spec fn offsets(&self) -> Seq<Seq<Scalar>>;

    /// The vertices of the shape can be computed: every sum that is needed
    /// for them is a sum of finite vectors.
    spec fn well_defined(&self) -> bool;

    /// Whether the vertices of the shape can be computed.
    fn is_well_defined(&self) -> (r: bool)
        ensures
            r == self.well_defined(),
    ;

    /// Return the vertices of the shape
    fn vertices(&self) -> (r: Vec<Translate<Vertex, D>>)
        requires
            self.well_defined(),
        ensures
            offsets_of(r@) == self.offsets(),
    ;
}

impl<const D: usize> Vertices<D> for Vertex {
    /// A vertex has one vertex, at the origin.
    open spec fn offsets(&self) -> Seq<Seq<Scalar>> {
        seq![zeros(D as nat)]
    }

    open spec fn well_defined(&self) -> bool {
        true
    }

    fn is_well_defined(&self) -> (r: bool) {
        true
    }

    fn vertices(&self) -> (r: Vec<Translate<Vertex, D>>) {
        let zero = scalar(0);
        let offset = Vector { components: [zero;D] };
        let mut r: Vec<Translate<Vertex, D>> = Vec::new();
        r.push(Translate { shape: *self, offset });
        assert(offset.components == vstd::array::spec_array_fill_for_copy_type::<Scalar, D>(zero));
        assert(offset@ =~= zeros(D as nat));
        assert(offsets_of(r@) =~= seq![zeros(D as nat)]);
        r
    }
}

impl<const D: usize> Vertices<D> for Vec<Translate<Vertex, D>> {
    /// A list of translated vertices is a shape with just these vertices.
    open spec fn offsets(&self) -> Seq<Seq<Scalar>> {
        offsets_of(self@)
    }

    open spec fn well_defined(&self) -> bool {
        true
    }

    fn is_well_defined(&self) -> (r: bool) {
        true
    }

    fn vertices(&self) -> (r: Vec<Translate<Vertex, D>>) {
        let mut r: Vec<Translate<Vertex, D>> = Vec::new();
        let mut i: usize = 0;
        while i < self.len()
            invariant
                0 <= i <= self@.len(),
                r@.len() == i,
                forall|k: int| 0 <= k < i ==> (#[trigger] r@[k]).offset == self@[k].offset,
            decreases self@.len() - i,
        {
            r.push(Translate { shape: Vertex, offset: self[i].offset });
            i = i + 1;
        }
        assert(offsets_of(r@) =~= offsets_of(self@));
        r
    }
}

impl<T, const D: usize> Vertices<D> for Sweep<T, Vector<D>> where T: Vertices<D> {
    /// A sweep has the vertices of the swept shape, and then those same
    /// vertices moved along the path.
    open spec fn offsets(&self) -> Seq<Seq<Scalar>> {
        self.shape.offsets() + moved(self.shape.offsets(), self.path@)
    }

    open spec fn well_defined(&self) -> bool {
        &&& self.shape.well_defined()
        &&& all_finite(self.path@)
        &&& offsets_finite(self.shape.offsets())
    }

    fn is_well_defined(&self) -> (r: bool) {
        if !self.shape.is_well_defined() || !self.path.is_finite() {
            return false;
        }
        let vertices = self.shape.vertices();
        check_offsets_finite(&vertices)
    }

    fn vertices(&self) -> (r: Vec<Translate<Vertex, D>>) {
        let mut vertices = self.shape.vertices();
        let mut swept = move_all(&vertices, &self.path);
        let ghost first = vertices@;
        let ghost second = swept@;
        vertices.append(&mut swept);
        assert(vertices@ == first + second);
        assert(offsets_of(vertices@) =~= offsets_of(first) + offsets_of(second));
        vertices
    }
}

impl<T, const D: usize> Vertices<D> for Translate<T, D> where T: Vertices<D> {
    /// A translated shape has the vertices of the shape, each moved by the
    /// offset.
    open spec fn offsets(&self) -> Seq<Seq<Scalar>> {
        moved(self.shape.offsets(), self.offset@)
    }

    open spec fn well_defined(&self) -> bool {
        &&& self.shape.well_defined()
        &&& all_finite(self.offset@)
        &&& offsets_finite(self.shape.offsets())
    }

    fn is_well_defined(&self) -> (r: bool) {
        if !self.shape.is_well_defined() || !self.offset.is_finite() {
            return false;
        }
        let vertices = self.shape.vertices();
        check_offsets_finite(&vertices)
    }

    fn vertices(&self) -> (r: Vec<Translate<Vertex, D>>) {
        let vertices = self.shape.vertices();
        move_all(&vertices, &self.offset)
    }
}

/// The vertices of the shape, if they can be computed.
pub fn try_vertices<T: Vertices<D>, const D: usize>(shape: &T) -> (r: Option<
    Vec<Translate<Vertex, D>>,
>)
    ensures
        r.is_some() == shape.well_defined(),
        r.is_some() ==> offsets_of(r.unwrap()@) == shape.offsets(),
{
    if shape.is_well_defined() {
        Some(shape.vertices())
    } else {
        None
    }
}

/// The statically known number of vertices of a shape
///
/// `D` defines the dimension of the vertices' positions. `N` defines the number
/// of vertices.
pub trait VerticesStatic<const D: usize, const N: usize> {
    /// Return the vertices of the shape
    fn vertices_static(&self) -> [Translate<Vertex, D>; N];
}

} // verus!

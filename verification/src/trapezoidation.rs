//! A search structure over the regions into which points and segments divide
//! the plane.
//!
//! The structure is a graph of nodes. A sink stands for a region. A `Y` node
//! divides what lies above a point from what lies below it, an `X` node what
//! lies left of a segment from what lies right of it. Inserting a point or a
//! segment replaces the sink of the region that it falls into by a node that
//! divides that region in two.

use vstd::prelude::*;
use fj_math::Scalar;
use crate::math::{
    all_finite, difference, is_less, is_same, less, same, scalar, scalar_of, scaled, Point, Vector,
};

verus! {

/// Identifies a node of a graph.
#[derive(Clone, Copy, Debug, PartialEq, Eq, Structural)]
pub struct Id {
    pub index: usize,
}

/// The point `p` lies higher than the point `q`: its second coordinate is the
/// greater one, or the second coordinates are equal and its first coordinate
/// is the greater one.
pub open spec fn higher(p: Point<2>, q: Point<2>) -> bool {
    less(q@[1], p@[1]) || (same(p@[1], q@[1]) && less(q@[0], p@[0]))
}

/// Whether the point `p` lies higher than the point `q`.
pub fn is_higher(p: &Point<2>, q: &Point<2>) -> (r: bool)
    ensures
        r == higher(*p, *q),
{
    is_less(q.coords[1], p.coords[1]) || (is_same(p.coords[1], q.coords[1]) && is_less(
        q.coords[0],
        p.coords[0],
    ))
}

/// A segment between two points, of which the upper one lies higher.
#[derive(Clone, Copy, Debug, PartialEq, Eq)]
pub struct Segment {
    pub upper: Point<2>,
    pub lower: Point<2>,
}

impl Segment {
    /// The segment between two points, if one of them lies higher than the
    /// other.
    pub fn new(a: Point<2>, b: Point<2>) -> (r: Option<Segment>)
        ensures
            higher(a, b) ==> r == Some(Segment { upper: a, lower: b }),
            !higher(a, b) && higher(b, a) ==> r == Some(Segment { upper: b, lower: a }),
            !higher(a, b) && !higher(b, a) ==> r.is_none(),
    {
        if is_higher(&a, &b) {
            Some(Segment { upper: a, lower: b })
        } else if is_higher(&b, &a) {
            Some(Segment { upper: b, lower: a })
        } else {
            None
        }
    }

    /// The upper end of the segment.
    pub fn upper(&self) -> (r: Point<2>)
        ensures
            r == self.upper,
    {
        self.upper
    }

    /// The lower end of the segment.
    pub fn lower(&self) -> (r: Point<2>)
        ensures
            r == self.lower,
    {
        self.lower
    }

    /// The vector from the lower end to the upper end.
    pub open spec fn rise(&self) -> Seq<Scalar> {
        difference(self.upper@, self.lower@)
    }

    /// The vector from the lower end to the point `p`.
    pub open spec fn reach(&self, p: Point<2>) -> Seq<Scalar> {
        difference(p@, self.lower@)
    }

    /// The first product of the cross product of rise and reach.
    pub open spec fn across(&self, p: Point<2>) -> Seq<Scalar> {
        scaled(seq![self.rise()[0]], self.reach(p)[1])
    }

    /// The second product of the cross product of rise and reach.
    pub open spec fn along(&self, p: Point<2>) -> Seq<Scalar> {
        scaled(seq![self.rise()[1]], self.reach(p)[0])
    }

    /// The side of the segment that `p` lies on can be computed: the ends,
    /// the point, and what is computed on the way are all finite.
    pub open spec fn can_place(&self, p: Point<2>) -> bool {
        &&& all_finite(self.upper@)
        &&& all_finite(self.lower@)
        &&& all_finite(p@)
        &&& all_finite(self.rise())
        &&& all_finite(self.reach(p))
        &&& all_finite(self.across(p))
        &&& all_finite(self.along(p))
    }

    /// The cross product of the vector from the lower end to the upper end
    /// with the vector from the lower end to `p`. It is positive where `p`
    /// lies left of the line through the segment, seen from the lower end.
    pub open spec fn turn(&self, p: Point<2>) -> Scalar {
        difference(self.across(p), self.along(p))[0]
    }

    /// The point `p` lies left of the segment: the side can be computed, and
    /// the cross product is positive.
    pub open spec fn has_on_left(&self, p: Point<2>) -> bool {
        self.can_place(p) && less(scalar_of(0), self.turn(p))
    }

    /// Whether the point `p` lies left of the segment.
    pub fn check_has_on_left(&self, p: &Point<2>) -> (r: bool)
        ensures
            r == self.has_on_left(*p),
    {
        let rise = match self.upper.minus(&self.lower) {
            Some(v) => v,
            None => {
                return false;
            },
        };
        let reach = match p.minus(&self.lower) {
            Some(v) => v,
            None => {
                return false;
            },
        };
        let first = Vector { components: [rise.components[0]] };
        let second = Vector { components: [rise.components[1]] };
        assert(first@ =~= seq![self.rise()[0]]);
        assert(second@ =~= seq![self.rise()[1]]);
        if !rise.is_finite() || !reach.is_finite() {
            return false;
        }
        let across = match first.times(reach.components[1]) {
            Some(v) => v,
            None => {
                return false;
            },
        };
        let along = match second.times(reach.components[0]) {
            Some(v) => v,
            None => {
                return false;
            },
        };
        let turn = match (Point { coords: across.components }).minus(
            &Point { coords: along.components },
        ) {
            Some(v) => v,
            None => {
                return false;
            },
        };
        is_less(scalar(0), turn.components[0])
    }
}

/// A node that divides a region by a segment.
#[derive(Clone, Copy, Debug, PartialEq, Eq)]
pub struct X {
    pub segment: Segment,
    pub left: Id,
    pub right: Id,
}

/// A node that divides a region by the height of a point.
#[derive(Clone, Copy, Debug, PartialEq, Eq)]
pub struct Y {
    pub point: Point<2>,
    pub below: Id,
    pub above: Id,
}

/// A node of the graph.
#[derive(Clone, Copy, Debug, PartialEq, Eq)]
pub enum Node<XNode, YNode, Sink> {
    X(XNode),
    Y(YNode),
    Sink(Sink),
}

/// The graph. Its first node is the source, from which every search starts.
pub struct Graph<XNode, YNode, Sink> {
    pub nodes: Vec<Node<XNode, YNode, Sink>>,
}

impl<XNode, YNode, Sink> Graph<XNode, YNode, Sink> {
    /// A graph of one region, which is the whole plane.
    pub fn new() -> (r: Self) where Sink: Default
        ensures
            r.nodes@.len() == 1,
            r.nodes@[0] is Sink,
    {
        let mut nodes = Vec::new();
        nodes.push(Node::Sink(Sink::default()));
        Graph { nodes }
    }

    /// The node from which every search starts.
    pub fn source(&self) -> (r: Id)
        ensures
            r.index == 0,
    {
        Id { index: 0 }
    }

    /// The node that `id` identifies.
    pub fn get(&self, id: Id) -> (r: &Node<XNode, YNode, Sink>)
        requires
            id.index < self.nodes@.len(),
        ensures
            *r == self.nodes@[id.index as int],
    {
        &self.nodes[id.index]
    }
}

/// The graph has a source, and the nodes that a node leads to come after it.
pub open spec fn well_formed<Region>(nodes: Seq<Node<X, Y, Region>>) -> bool {
    &&& nodes.len() >= 1
    &&& forall|i: int|
        0 <= i < nodes.len() ==> match #[trigger] nodes[i] {
            Node::X(x) => i < x.left.index < nodes.len() && i < x.right.index < nodes.len(),
            Node::Y(y) => i < y.below.index < nodes.len() && i < y.above.index < nodes.len(),
            Node::Sink(_) => true,
        }
}

/// The node that the search for the point `p` goes to from the node `from`:
/// above at a `Y` node if `p` lies higher than its point, else below; left at
/// an `X` node if `p` lies left of its segment, else right.
pub open spec fn step<Region>(nodes: Seq<Node<X, Y, Region>>, p: Point<2>, from: int) -> int {
    match nodes[from] {
        Node::X(x) => if x.segment.has_on_left(p) {
            x.left.index as int
        } else {
            x.right.index as int
        },
        Node::Y(y) => if higher(p, y.point) {
            y.above.index as int
        } else {
            y.below.index as int
        },
        Node::Sink(_) => from,
    }
}

/// The sink at which the search for the point `p` ends when it starts at the
/// node `from`.
pub open spec fn located<Region>(nodes: Seq<Node<X, Y, Region>>, p: Point<2>, from: int) -> int
    decreases nodes.len() - from,
{
    if 0 <= from < step(nodes, p, from) < nodes.len() {
        located(nodes, p, step(nodes, p, from))
    } else {
        from
    }
}

/// The graph after the region at `at` was divided by `node`, which leads to
/// the two new sinks `first` and `second` at the end of the graph.
pub open spec fn divided<Region>(
    nodes: Seq<Node<X, Y, Region>>,
    at: int,
    node: Node<X, Y, Region>,
    first: Node<X, Y, Region>,
    second: Node<X, Y, Region>,
) -> Seq<Node<X, Y, Region>> {
    nodes.update(at, node).push(first).push(second)
}

/// The graph after the point `p` was inserted: the region that `p` falls into
/// is divided by a `Y` node at `p`, with the sink `below` for what lies below
/// and the sink `above` for what lies above.
pub open spec fn point_inserted<Region>(
    nodes: Seq<Node<X, Y, Region>>,
    p: Point<2>,
    below: Node<X, Y, Region>,
    above: Node<X, Y, Region>,
) -> Seq<Node<X, Y, Region>> {
    divided(
        nodes,
        located(nodes, p, 0),
        Node::Y(
            Y {
                point: p,
                below: Id { index: nodes.len() as usize },
                above: Id { index: (nodes.len() + 1) as usize },
            },
        ),
        below,
        above,
    )
}

/// The graph after the segment `s` was inserted: the region that the search
/// for its upper end leads to is divided by an `X` node with `s`, with the
/// sink `left` for what lies left and the sink `right` for what lies right.
pub open spec fn segment_inserted<Region>(
    nodes: Seq<Node<X, Y, Region>>,
    s: Segment,
    left: Node<X, Y, Region>,
    right: Node<X, Y, Region>,
) -> Seq<Node<X, Y, Region>> {
    divided(
        nodes,
        located(nodes, s.upper, 0),
        Node::X(
            X {
                segment: s,
                left: Id { index: nodes.len() as usize },
                right: Id { index: (nodes.len() + 1) as usize },
            },
        ),
        left,
        right,
    )
}

/// The graph after the segment `s` was inserted together with its ends: first
/// its upper end, then its lower end, then the segment itself. `sinks` holds
/// the six new sinks in the order in which they are added.
pub open spec fn inserted<Region>(
    nodes: Seq<Node<X, Y, Region>>,
    s: Segment,
    sinks: Seq<Node<X, Y, Region>>,
) -> Seq<Node<X, Y, Region>> {
    segment_inserted(
        point_inserted(point_inserted(nodes, s.upper, sinks[0], sinks[1]), s.lower, sinks[2], sinks[3]),
        s,
        sinks[4],
        sinks[5],
    )
}

/// The search for a point ends at a sink of the graph.
pub proof fn lemma_located<Region>(nodes: Seq<Node<X, Y, Region>>, p: Point<2>, from: int)
    requires
        well_formed(nodes),
        0 <= from < nodes.len(),
    ensures
        from <= located(nodes, p, from) < nodes.len(),
        nodes[located(nodes, p, from)] is Sink,
    decreases nodes.len() - from,
{
    if from < step(nodes, p, from) < nodes.len() {
        lemma_located(nodes, p, step(nodes, p, from));
    }
}

/// Finds the sink of the region that the point `p` falls into.
pub fn locate<Region>(graph: &Graph<X, Y, Region>, p: &Point<2>) -> (r: Id)
    requires
        well_formed(graph.nodes@),
    ensures
        r.index == located(graph.nodes@, *p, 0),
        r.index < graph.nodes@.len(),
        graph.nodes@[r.index as int] is Sink,
{
    let mut at: usize = 0;
    proof {
        lemma_located(graph.nodes@, *p, 0);
    }
    loop
        invariant
            well_formed(graph.nodes@),
            0 <= at < graph.nodes@.len(),
            located(graph.nodes@, *p, at as int) == located(graph.nodes@, *p, 0),
        decreases graph.nodes@.len() - at,
    {
        let next = match &graph.nodes[at] {
            Node::X(x) => if x.segment.check_has_on_left(p) {
                x.left.index
            } else {
                x.right.index
            },
            Node::Y(y) => if is_higher(p, &y.point) {
                y.above.index
            } else {
                y.below.index
            },
            Node::Sink(_) => {
                return Id { index: at };
            },
        };
        assert(next == step(graph.nodes@, *p, at as int));
        at = next;
    }
}

/// Divides the region of the sink `at` by `node`, which is to lead to two
/// new sinks at the end of the graph.
fn divide<Region>(graph: &mut Graph<X, Y, Region>, at: Id, node: Node<X, Y, Region>) where
    Region: Default,

    requires
        well_formed(old(graph).nodes@),
        at.index < old(graph).nodes@.len(),
        old(graph).nodes@[at.index as int] is Sink,
        match node {
            Node::X(x) => x.left.index == old(graph).nodes@.len() && x.right.index == old(
                graph,
            ).nodes@.len() + 1,
            Node::Y(y) => y.below.index == old(graph).nodes@.len() && y.above.index == old(
                graph,
            ).nodes@.len() + 1,
            Node::Sink(_) => false,
        },
    ensures
        final(graph).nodes@.len() == old(graph).nodes@.len() + 2,
        final(graph).nodes@[old(graph).nodes@.len() as int] is Sink,
        final(graph).nodes@[old(graph).nodes@.len() as int + 1] is Sink,
        final(graph).nodes@ == divided(
            old(graph).nodes@,
            at.index as int,
            node,
            final(graph).nodes@[old(graph).nodes@.len() as int],
            final(graph).nodes@[old(graph).nodes@.len() as int + 1],
        ),
        well_formed(final(graph).nodes@),
{
    graph.nodes.set(at.index, node);
    graph.nodes.push(Node::Sink(Region::default()));
    graph.nodes.push(Node::Sink(Region::default()));
}

/// Inserts a point: the region that it falls into is divided in what lies
/// below the point and what lies above it.
pub fn insert_point<Region>(p: Point<2>, graph: &mut Graph<X, Y, Region>) where Region: Default
    requires
        well_formed(old(graph).nodes@),
        old(graph).nodes@.len() + 2 <= usize::MAX,
    ensures
        final(graph).nodes@.len() == old(graph).nodes@.len() + 2,
        final(graph).nodes@[old(graph).nodes@.len() as int] is Sink,
        final(graph).nodes@[old(graph).nodes@.len() as int + 1] is Sink,
        final(graph).nodes@ == point_inserted(
            old(graph).nodes@,
            p,
            final(graph).nodes@[old(graph).nodes@.len() as int],
            final(graph).nodes@[old(graph).nodes@.len() as int + 1],
        ),
        well_formed(final(graph).nodes@),
{
    let at = locate(graph, &p);
    let n = graph.nodes.len();
    divide(graph, at, Node::Y(Y { point: p, below: Id { index: n }, above: Id { index: n + 1 } }));
}

/// Inserts a segment whose ends were inserted: the region below its upper end
/// is divided in what lies left of the segment and what lies right of it.
pub fn insert_segment<Region>(s: Segment, graph: &mut Graph<X, Y, Region>) where Region: Default
    requires
        well_formed(old(graph).nodes@),
        old(graph).nodes@.len() + 2 <= usize::MAX,
    ensures
        final(graph).nodes@.len() == old(graph).nodes@.len() + 2,
        final(graph).nodes@[old(graph).nodes@.len() as int] is Sink,
        final(graph).nodes@[old(graph).nodes@.len() as int + 1] is Sink,
        final(graph).nodes@ == segment_inserted(
            old(graph).nodes@,
            s,
            final(graph).nodes@[old(graph).nodes@.len() as int],
            final(graph).nodes@[old(graph).nodes@.len() as int + 1],
        ),
        well_formed(final(graph).nodes@),
{
    let at = locate(graph, &s.upper);
    let n = graph.nodes.len();
    divide(
        graph,
        at,
        Node::X(X { segment: s, left: Id { index: n }, right: Id { index: n + 1 } }),
    );
}

/// `after` is the graph `before` with the segment `s` inserted, where `sinks`
/// are the six sinks that were added on the way.
pub open spec fn is_insertion<Region>(
    before: Seq<Node<X, Y, Region>>,
    after: Seq<Node<X, Y, Region>>,
    s: Segment,
    sinks: Seq<Node<X, Y, Region>>,
) -> bool {
    &&& sinks.len() == 6
    &&& forall|i: int| 0 <= i < 6 ==> #[trigger] sinks[i] is Sink
    &&& after == inserted(before, s, sinks)
}

/// Inserts a segment: first its upper end, then its lower end, then the
/// segment itself.
///
/// Each of the three steps divides one region in two, so the graph gains six
/// sinks; what regions they stand for is up to `Region::default`.
pub fn insert<Region>(segment: Segment, graph: &mut Graph<X, Y, Region>) where Region: Default
    requires
        well_formed(old(graph).nodes@),
        old(graph).nodes@.len() + 6 <= usize::MAX,
    ensures
        final(graph).nodes@.len() == old(graph).nodes@.len() + 6,
        exists|sinks: Seq<Node<X, Y, Region>>| #[trigger]
            is_insertion(old(graph).nodes@, final(graph).nodes@, segment, sinks),
        well_formed(final(graph).nodes@),
{
    let ghost n = graph.nodes@.len() as int;
    insert_point(segment.upper(), graph);
    let ghost first = graph.nodes@;
    insert_point(segment.lower(), graph);
    let ghost second = graph.nodes@;
    insert_segment(segment, graph);
    proof {
        let third = graph.nodes@;
        let sinks = seq![
            first[n],
            first[n + 1],
            second[n + 2],
            second[n + 3],
            third[n + 4],
            third[n + 5],
        ];
        assert(is_insertion(old(graph).nodes@, third, segment, sinks));
    }
}

} // verus!

use fj_kernel::math::Point;
use fj_kernel::trapezoidation::{insert, Graph, Node, Segment, X, Y};
use fj_math::Scalar;

#[derive(Clone, Copy, Debug, Default, Eq, PartialEq)]
struct Region(u64);

fn point(x: f64, y: f64) -> Point<2> {
    Point {
        coords: [Scalar::from_f64(x), Scalar::from_f64(y)],
    }
}

#[test]
fn insert_should_insert_upper_point_then_lower_point_then_segment() {
    let mut graph = Graph::<X, Y, Region>::new();

    let segment = Segment::new(point(0.0, 0.0), point(0.0, 1.0)).unwrap();

    insert(segment, &mut graph);

    let below = match graph.get(graph.source()) {
        Node::Y(Y { point, below, .. }) => {
            assert_eq!(point, &segment.upper());
            *below
        }
        node => panic!("Unexpected node: {:?}", node),
    };

    let above = match graph.get(below) {
        Node::Y(Y { point, above, .. }) => {
            assert_eq!(point, &segment.lower());
            *above
        }
        node => panic!("Unexpected node: {:?}", node),
    };

    match graph.get(above) {
        Node::X(X { segment: s, .. }) => {
            assert_eq!(s, &segment);
        }
        node => panic!("Unexpected node: {:?}", node),
    }
}

#[test]
fn segment_has_its_higher_point_as_upper_end() {
    let a = point(1.0, 2.0);
    let b = point(0.0, 3.0);
    let segment = Segment::new(a, b).unwrap();
    assert_eq!(segment.upper(), b);
    assert_eq!(segment.lower(), a);
    assert_eq!(Segment::new(b, a), Some(segment));
    // At the same height, the point further right is the higher one.
    let level = Segment::new(point(1.0, 1.0), point(2.0, 1.0)).unwrap();
    assert_eq!(level.upper(), point(2.0, 1.0));
    assert_eq!(Segment::new(a, a), None);
    assert!(fj_kernel::trapezoidation::is_higher(&b, &a));
    assert!(!fj_kernel::trapezoidation::is_higher(&a, &b));
    assert!(!fj_kernel::trapezoidation::is_higher(&a, &a));
}

#[test]
fn new_graph_is_one_region() {
    let graph = Graph::<X, Y, Region>::new();
    assert_eq!(graph.nodes.len(), 1);
    assert_eq!(graph.source().index, 0);
    assert_eq!(graph.get(graph.source()), &Node::Sink(Region(0)));
    assert_eq!(
        fj_kernel::trapezoidation::locate(&graph, &point(5.0, 5.0)),
        graph.source()
    );
}

#[test]
fn point_divides_its_region_in_two() {
    let mut graph = Graph::<X, Y, Region>::new();
    fj_kernel::trapezoidation::insert_point(point(0.0, 1.0), &mut graph);
    assert_eq!(graph.nodes.len(), 3);
    let (below, above) = match graph.get(graph.source()) {
        Node::Y(Y { point: p, below, above }) => {
            assert_eq!(p, &point(0.0, 1.0));
            (*below, *above)
        }
        node => panic!("Unexpected node: {:?}", node),
    };
    assert_ne!(below, above);
    assert_eq!(graph.get(below), &Node::Sink(Region(0)));
    assert_eq!(graph.get(above), &Node::Sink(Region(0)));
    let locate = fj_kernel::trapezoidation::locate;
    assert_eq!(locate(&graph, &point(7.0, 2.0)), above);
    assert_eq!(locate(&graph, &point(7.0, 0.0)), below);
    assert_eq!(locate(&graph, &point(1.0, 1.0)), above);
    assert_eq!(locate(&graph, &point(-1.0, 1.0)), below);
    assert_eq!(locate(&graph, &point(0.0, 1.0)), below);
}

#[test]
fn segment_divides_the_region_below_its_upper_end() {
    let mut graph = Graph::<X, Y, Region>::new();
    let segment = Segment::new(point(2.0, 0.0), point(2.0, 4.0)).unwrap();
    insert(segment, &mut graph);
    assert_eq!(graph.nodes.len(), 7);
    let locate = fj_kernel::trapezoidation::locate;
    let left = locate(&graph, &point(1.0, 2.0));
    let right = locate(&graph, &point(3.0, 2.0));
    assert_ne!(left, right);
    let above = locate(&graph, &point(1.0, 5.0));
    assert_eq!(locate(&graph, &point(3.0, 5.0)), above);
    let below = locate(&graph, &point(1.0, -1.0));
    assert_eq!(locate(&graph, &point(3.0, -1.0)), below);
    for sink in [left, right, above, below] {
        assert_eq!(graph.get(sink), &Node::Sink(Region(0)));
    }

    // A second segment, left of the first one, divides the left region again.
    let second = Segment::new(point(1.0, 1.0), point(1.0, 3.0)).unwrap();
    fj_kernel::trapezoidation::insert_segment(second, &mut graph);
    assert_eq!(graph.nodes.len(), 9);
    match graph.get(left) {
        Node::X(X { segment: s, .. }) => assert_eq!(s, &second),
        node => panic!("Unexpected node: {:?}", node),
    }
    assert_ne!(
        locate(&graph, &point(0.5, 2.0)),
        locate(&graph, &point(1.5, 2.0))
    );
    assert_eq!(locate(&graph, &point(3.0, 2.0)), right);
}

#[test]
fn sides_of_a_slanted_segment_are_told_apart() {
    let segment = Segment::new(point(0.0, 0.0), point(4.0, 4.0)).unwrap();
    // Left of the segment, although further right than its lower end.
    assert!(segment.check_has_on_left(&point(1.0, 3.0)));
    assert!(!segment.check_has_on_left(&point(3.0, 1.0)));
    // On the line through the segment is not left of it.
    assert!(!segment.check_has_on_left(&point(2.0, 2.0)));
    assert!(segment.check_has_on_left(&point(-1.0, 0.0)));
    assert!(!segment.check_has_on_left(&point(f64::INFINITY, 0.0)));
    assert!(!segment.check_has_on_left(&point(f64::NEG_INFINITY, 0.0)));

    let mut graph = Graph::<X, Y, Region>::new();
    insert(segment, &mut graph);
    let locate = fj_kernel::trapezoidation::locate;
    assert_ne!(
        locate(&graph, &point(1.0, 3.0)),
        locate(&graph, &point(3.0, 1.0))
    );
    assert_eq!(
        locate(&graph, &point(1.0, 3.0)),
        locate(&graph, &point(0.0, 2.0))
    );
}

use fj_kernel::math::Vector;
use fj_kernel::vertices::{Sweep, Translate, Vertex, Vertices};
use fj_math::Scalar;

fn vector<const D: usize>(components: [f64; D]) -> Vector<D> {
    Vector {
        components: components.map(Scalar::from_f64),
    }
}

fn translate<const D: usize>(components: [f64; D]) -> Translate<Vertex, D> {
    Translate {
        shape: Vertex,
        offset: vector(components),
    }
}

#[test]
fn test_vertices_for_vertex() {
    assert_eq!(
        <Vertex as Vertices<0>>::vertices(&Vertex),
        [translate([])],
    );
    assert_eq!(
        <Vertex as Vertices<1>>::vertices(&Vertex),
        [translate([0.])],
    );
    assert_eq!(
        <Vertex as Vertices<2>>::vertices(&Vertex),
        [translate([0., 0.])],
    );
    assert_eq!(
        <Vertex as Vertices<3>>::vertices(&Vertex),
        [translate([0., 0., 0.])],
    );
}

#[test]
fn test_vertices_for_sweep() {
    let vertices = vec![translate([1., 2., 3.]), translate([2., 3., 4.])];

    let sweep = Sweep {
        shape: vertices,
        path: vector([3., 2., 1.]),
    };

    assert!(sweep.is_well_defined());
    assert_eq!(
        sweep.vertices(),
        [
            translate([1., 2., 3.]),
            translate([2., 3., 4.]),
            translate([4., 4., 4.]),
            translate([5., 5., 5.]),
        ],
    );
}

#[test]
fn test_vertices_for_translate() {
    let vertex_1d = translate([2.]);
    let vertex_2d = translate([2., 3.]);
    let vertex_3d = translate([2., 3., 4.]);

    assert!(vertex_1d.is_well_defined());
    assert_eq!(vertex_1d.vertices(), [vertex_1d]);
    assert_eq!(vertex_2d.vertices(), [vertex_2d]);
    assert_eq!(vertex_3d.vertices(), [vertex_3d]);
}

#[test]
fn sweep_of_a_vertex_is_an_edge() {
    let edge = Sweep {
        shape: Vertex,
        path: vector([0., 2.]),
    };
    assert!(edge.is_well_defined());
    assert_eq!(edge.vertices(), [translate([0., 0.]), translate([0., 2.])]);
}

#[test]
fn operations_can_be_nested() {
    let square = Sweep {
        shape: Sweep {
            shape: Translate {
                shape: Vertex,
                offset: vector([1., 1.]),
            },
            path: vector([2., 0.]),
        },
        path: vector([0., 3.]),
    };
    assert!(square.is_well_defined());
    assert_eq!(
        square.vertices(),
        [
            translate([1., 1.]),
            translate([3., 1.]),
            translate([1., 4.]),
            translate([3., 4.]),
        ]
    );
    let moved = Translate {
        shape: square,
        offset: vector([-1., -1.]),
    };
    assert_eq!(
        moved.vertices(),
        [
            translate([0., 0.]),
            translate([2., 0.]),
            translate([0., 3.]),
            translate([2., 3.]),
        ]
    );
}

#[test]
fn list_of_vertices_has_these_vertices() {
    let list = vec![translate([1.]), translate([-4.])];
    assert!(list.is_well_defined());
    assert_eq!(list.vertices(), list);
    let none: Vec<Translate<Vertex, 2>> = Vec::new();
    assert_eq!(none.vertices(), none);
}

#[test]
fn shapes_with_infinite_offsets_are_not_well_defined() {
    let endless = Translate {
        shape: Vertex,
        offset: vector([f64::INFINITY, 0.]),
    };
    assert!(!endless.is_well_defined());
    let swept = Sweep {
        shape: Vertex,
        path: vector([0., f64::NEG_INFINITY]),
    };
    assert!(!swept.is_well_defined());
    let list = vec![translate([f64::INFINITY])];
    let moved = Translate {
        shape: list,
        offset: vector([1.]),
    };
    assert!(!moved.is_well_defined());
    let fine = Sweep {
        shape: translate([f64::MAX]),
        path: vector([f64::MAX]),
    };
    assert!(fine.is_well_defined());
    assert_eq!(
        fine.vertices(),
        [translate([f64::MAX]), translate([f64::INFINITY])]
    );
    let too_far = Translate {
        shape: fine,
        offset: vector([1.]),
    };
    assert!(!too_far.is_well_defined());
}

#[test]
fn vertices_are_computed_where_they_can_be() {
    let edge = Sweep {
        shape: Vertex,
        path: vector([1., 0., 0.]),
    };
    assert_eq!(
        fj_kernel::vertices::try_vertices(&edge),
        Some(vec![translate([0., 0., 0.]), translate([1., 0., 0.])])
    );
    let endless = Sweep {
        shape: Vertex,
        path: vector([f64::INFINITY, 0., 0.]),
    };
    assert_eq!(fj_kernel::vertices::try_vertices(&endless), None);
}

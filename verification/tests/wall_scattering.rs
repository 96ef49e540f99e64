use phonon_monte_carlo::wall_scattering::{
    is_inside_domain, next_index, previous_index, reversed, reversed_edges, rolled, EdgeIndex, PolygonIndex,
    PolygonVertices,
};

#[test]
fn next_and_previous_wrap_around() {
    assert_eq!(next_index(0, 4), 1);
    assert_eq!(next_index(3, 4), 0);
    assert_eq!(previous_index(0, 4), 3);
    assert_eq!(previous_index(2, 4), 1);
    assert_eq!(next_index(0, 1), 0);
    assert_eq!(previous_index(0, 1), 0);
}

#[test]
fn previous_undoes_next() {
    for n in 1..8usize {
        for i in 0..n {
            assert_eq!(previous_index(next_index(i, n), n), i);
        }
    }
}

#[test]
fn rolled_points_are_edge_ends() {
    assert_eq!(rolled(&vec![(0, 0), (1, 0), (1, 1), (0, 1)]), vec![(1, 0), (1, 1), (0, 1), (0, 0)]);
    assert_eq!(rolled::<u8>(&vec![]), vec![]);
    assert_eq!(rolled(&vec![5]), vec![5]);
}

#[test]
fn reversed_lists() {
    assert_eq!(reversed(vec![1, 2, 3]), vec![3, 2, 1]);
    assert_eq!(reversed::<i32>(vec![]), vec![]);
}

#[test]
fn clockwise_polygon_reversed_in_all_lists() {
    let v = PolygonVertices {
        points: vec![(0, 0), (0, 1), (1, 1), (1, 0)],
        is_bridge: vec![true, false, false, false],
        circle_radius: vec![0, 0, 2, 0],
    };
    let o = v.orient_counter_clockwise(true);
    assert_eq!(o.points, vec![(1, 0), (1, 1), (0, 1), (0, 0)]);
    assert_eq!(o.is_bridge, vec![false, false, true, false]);
    assert_eq!(o.circle_radius, vec![2, 0, 0, 0]);
}

#[test]
fn clockwise_triangle_keeps_bridge_on_its_edge() {
    // the bridge joins points (0,0) and (0,1)
    let v = PolygonVertices {
        points: vec![(0, 0), (0, 1), (1, 0)],
        is_bridge: vec![true, false, false],
        circle_radius: vec![0, 5, 0],
    };
    let o = v.orient_counter_clockwise(true);
    assert_eq!(o.points, vec![(1, 0), (0, 1), (0, 0)]);
    let n = o.points.len();
    for j in 0..n {
        let (a, b) = (o.points[j], o.points[(j + 1) % n]);
        let joins_bridge_points = (a == (0, 0) && b == (0, 1)) || (a == (0, 1) && b == (0, 0));
        assert_eq!(o.is_bridge[j], joins_bridge_points);
        let joins_arc_points = (a == (0, 1) && b == (1, 0)) || (a == (1, 0) && b == (0, 1));
        assert_eq!(o.circle_radius[j], if joins_arc_points { 5 } else { 0 });
    }
}

#[test]
fn edge_values_follow_reversed_edges() {
    assert_eq!(reversed_edges(&vec![10, 11, 12, 13]), vec![12, 11, 10, 13]);
    assert_eq!(reversed_edges(&vec![7]), vec![7]);
    assert_eq!(reversed_edges::<u8>(&vec![]), vec![]);
}

#[test]
fn counter_clockwise_polygon_kept() {
    let v = PolygonVertices {
        points: vec![(0, 0), (1, 0), (1, 1)],
        is_bridge: vec![false, true, false],
        circle_radius: vec![0, 0, 0],
    };
    let o = v.orient_counter_clockwise(false);
    assert_eq!(o.points, vec![(0, 0), (1, 0), (1, 1)]);
    assert_eq!(o.is_bridge, vec![false, true, false]);
    assert_eq!(o.circle_radius, vec![0, 0, 0]);
}

#[test]
fn domain_is_inside_outer_wall_and_outside_holes() {
    let outer = vec![true, false, false];
    assert!(is_inside_domain(&vec![true, false, false], &outer));
    assert!(!is_inside_domain(&vec![false, false, false], &outer));
    assert!(!is_inside_domain(&vec![true, true, false], &outer));
    assert!(!is_inside_domain(&vec![true, false, true], &outer));
    assert!(is_inside_domain(&vec![], &vec![]));
}

#[test]
fn indices_keep_their_values() {
    assert_eq!(PolygonIndex(2).0, 2);
    assert_eq!(EdgeIndex(5).0, 5);
    assert_ne!(EdgeIndex(1), EdgeIndex(2));
}

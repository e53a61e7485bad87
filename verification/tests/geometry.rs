use visualizer::geometry::quad_geometry;
use visualizer::geometry::Vertex;

#[test]
fn quad_geometry_is_deterministic() {
    let g1 = quad_geometry();
    let g2 = quad_geometry();
    assert_eq!(g1.vertices, g2.vertices);
    assert_eq!(g1.indices, g2.indices);
}

#[test]
fn quad_has_four_vertices_and_two_triangles() {
    let g = quad_geometry();
    assert_eq!(g.vertices.len(), 4);
    assert_eq!(g.indices, vec![0, 1, 2, 1, 2, 3]);
}

#[test]
fn quad_vertices_are_the_unit_quad_corners() {
    let g = quad_geometry();
    assert_eq!(g.vertices[0], Vertex { pos_x: -1, pos_y: -1, tex_u: 0, tex_v: 1 });
    assert_eq!(g.vertices[1], Vertex { pos_x: -1, pos_y: 1, tex_u: 0, tex_v: 0 });
    assert_eq!(g.vertices[2], Vertex { pos_x: 1, pos_y: -1, tex_u: 1, tex_v: 1 });
    assert_eq!(g.vertices[3], Vertex { pos_x: 1, pos_y: 1, tex_u: 1, tex_v: 0 });
}

use textured_quad::geometry::{
    quad_indices, quad_vertices, Vertex, INDEX_COUNT, INDEX_STRIDE, POSITION_SCALE, VERTEX_COUNT,
    VERTEX_STRIDE,
};

fn cross(a: Vertex, b: Vertex, x: i32, y: i32) -> i32 {
    (b.x - a.x) * (y - a.y) - (b.y - a.y) * (x - a.x)
}

fn in_triangle(a: Vertex, b: Vertex, c: Vertex, x: i32, y: i32) -> bool {
    let (ab, bc, ca) = (cross(a, b, x, y), cross(b, c, x, y), cross(c, a, x, y));
    (ab >= 0 && bc >= 0 && ca >= 0) || (ab <= 0 && bc <= 0 && ca <= 0)
}

#[test]
fn the_quad_has_four_corners_and_six_indices() {
    assert_eq!(VERTEX_COUNT, 4);
    assert_eq!(INDEX_COUNT, 6);
    assert_eq!(quad_vertices().len(), VERTEX_COUNT);
    assert_eq!(quad_indices().len(), INDEX_COUNT);
    assert_eq!(VERTEX_STRIDE, 20);
    assert_eq!(INDEX_STRIDE, 2);
    assert_eq!(POSITION_SCALE, 10);
}

#[test]
fn the_indices_are_those_of_two_triangles() {
    assert_eq!(quad_indices(), [0, 1, 2, 2, 1, 3]);
}

#[test]
fn every_index_names_a_corner() {
    for index in quad_indices() {
        assert!((index as usize) < VERTEX_COUNT);
    }
}

#[test]
fn the_triangles_share_the_edge_between_corners_one_and_two() {
    let indices = quad_indices();
    let shared: Vec<u16> =
        indices[..3].iter().copied().filter(|i| indices[3..].contains(i)).collect();
    assert_eq!(shared, vec![1, 2]);
}

#[test]
fn the_corners_span_four_tenths_across_and_seven_tenths_up() {
    assert_eq!(
        quad_vertices(),
        [
            Vertex { x: -4, y: -7, z: 0, u: 0, v: 1 },
            Vertex { x: -4, y: 7, z: 0, u: 0, v: 0 },
            Vertex { x: 4, y: -7, z: 0, u: 1, v: 1 },
            Vertex { x: 4, y: 7, z: 0, u: 1, v: 0 },
        ]
    );
}

#[test]
fn the_positions_in_tenths_are_the_clip_space_positions() {
    let vertices = quad_vertices();
    assert_eq!(vertices[0].x as f32 / POSITION_SCALE as f32, -0.4f32);
    assert_eq!(vertices[0].y as f32 / POSITION_SCALE as f32, -0.7f32);
    assert_eq!(vertices[3].x as f32 / POSITION_SCALE as f32, 0.4f32);
    assert_eq!(vertices[3].y as f32 / POSITION_SCALE as f32, 0.7f32);
    assert_eq!(vertices[1].z as f32 / POSITION_SCALE as f32, 0.0f32);
}

#[test]
fn the_triangles_cover_the_quad_and_nothing_else() {
    let vertices = quad_vertices();
    let indices = quad_indices();
    let corner = |i: usize| vertices[indices[i] as usize];
    for x in -10..=10 {
        for y in -12..=12 {
            let first = in_triangle(corner(0), corner(1), corner(2), x, y);
            let second = in_triangle(corner(3), corner(4), corner(5), x, y);
            let in_quad = (-4..=4).contains(&x) && (-7..=7).contains(&y);
            assert_eq!(first || second, in_quad, "at ({}, {})", x, y);
            if first && second {
                assert_eq!(cross(vertices[1], vertices[2], x, y), 0);
            }
        }
    }
}

#[test]
fn the_texture_hangs_upright_on_the_quad() {
    for vertex in quad_vertices() {
        assert_eq!(vertex.u, if vertex.x < 0 { 0 } else { 1 });
        assert_eq!(vertex.v, if vertex.y < 0 { 1 } else { 0 });
    }
}

use openfire::ship::{prism_topology, PRISM_INDICES, PRISM_VERTICES};

const POSITIONS: [(i8, i8, i8); 24] = [
    (-1, -1, 1), (1, -1, 1), (1, 1, 1), (-1, 1, 1),
    (1, -1, -1), (-1, -1, -1), (-1, 1, -1), (1, 1, -1),
    (-1, -1, -1), (-1, -1, 1), (-1, 1, 1), (-1, 1, -1),
    (1, -1, 1), (1, -1, -1), (1, 1, -1), (1, 1, 1),
    (-1, 1, 1), (1, 1, 1), (1, 1, -1), (-1, 1, -1),
    (-1, -1, -1), (1, -1, -1), (1, -1, 1), (-1, -1, 1),
];

const NORMALS: [(i8, i8, i8); 6] = [(0, 0, 1), (0, 0, -1), (-1, 0, 0), (1, 0, 0), (0, 1, 0), (0, -1, 0)];

const INDICES: [u32; 36] = [
    0, 1, 2, 0, 2, 3, 4, 5, 6, 4, 6, 7, 8, 9, 10, 8, 10, 11, 12, 13, 14, 12, 14, 15, 16, 17, 18,
    16, 18, 19, 20, 21, 22, 20, 22, 23,
];

#[test]
fn prism_layout_matches_the_ship_mesh() {
    let t = prism_topology();
    assert_eq!(t.position_signs.len(), PRISM_VERTICES);
    assert_eq!(t.indices.len(), PRISM_INDICES);
    assert_eq!(t.position_signs, POSITIONS.to_vec());
    assert_eq!(t.indices, INDICES.to_vec());
    for v in 0..24 {
        assert_eq!(t.normals[v], NORMALS[v / 4]);
        assert_eq!(t.faces[v], v / 4);
    }
    let uvs: Vec<(u8, u8)> = (0..24).map(|v| [(0, 0), (1, 0), (1, 1), (0, 1)][v % 4]).collect();
    assert_eq!(t.uvs, uvs);
}

fn sub(a: (i8, i8, i8), b: (i8, i8, i8)) -> (i32, i32, i32) {
    (a.0 as i32 - b.0 as i32, a.1 as i32 - b.1 as i32, a.2 as i32 - b.2 as i32)
}

#[test]
fn prism_triangles_face_outward() {
    let t = prism_topology();
    for tri in t.indices.chunks(3) {
        let p0 = t.position_signs[tri[0] as usize];
        let u = sub(t.position_signs[tri[1] as usize], p0);
        let w = sub(t.position_signs[tri[2] as usize], p0);
        let cross = (u.1 * w.2 - u.2 * w.1, u.2 * w.0 - u.0 * w.2, u.0 * w.1 - u.1 * w.0);
        let n = t.normals[tri[0] as usize];
        assert_eq!(cross, (4 * n.0 as i32, 4 * n.1 as i32, 4 * n.2 as i32));
        assert_eq!(t.faces[tri[0] as usize], t.faces[tri[1] as usize]);
        assert_eq!(t.faces[tri[0] as usize], t.faces[tri[2] as usize]);
    }
}

#[test]
fn prism_vertices_lie_on_their_faces() {
    let t = prism_topology();
    for v in 0..24 {
        let p = t.position_signs[v];
        let n = t.normals[v];
        assert_eq!(p.0 * n.0 + p.1 * n.1 + p.2 * n.2, 1);
    }
}

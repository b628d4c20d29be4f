use dragon_world::terrain::{flatten_triangles, grid_triangles};

#[test]
fn one_cell_grid() {
    assert_eq!(grid_triangles(1), vec![[0, 2, 1], [1, 2, 3]]);
}

#[test]
fn two_cell_grid() {
    let tris = grid_triangles(2);
    assert_eq!(
        tris,
        vec![
            [0, 3, 1],
            [1, 3, 4],
            [1, 4, 2],
            [2, 4, 5],
            [3, 6, 4],
            [4, 6, 7],
            [4, 7, 5],
            [5, 7, 8],
        ]
    );
}

#[test]
fn empty_grid() {
    assert!(grid_triangles(0).is_empty());
}

#[test]
fn terrain_grid_indices_stay_in_bounds() {
    let subdiv = 176u32;
    let tris = grid_triangles(subdiv);
    assert_eq!(tris.len(), 2 * 176 * 176);
    let verts = (subdiv + 1) * (subdiv + 1);
    assert!(tris.iter().all(|t| t.iter().all(|&i| i < verts)));
}

#[test]
fn triangles_face_up() {
    let subdiv = 5u32;
    let w = (subdiv + 1) as i64;
    for t in grid_triangles(subdiv) {
        let p = |v: u32| ((v as i64) % w, (v as i64) / w);
        let (a, b, c) = (p(t[0]), p(t[1]), p(t[2]));
        let up = (b.1 - a.1) * (c.0 - a.0) - (b.0 - a.0) * (c.1 - a.1);
        assert_eq!(up, 1);
    }
}

#[test]
fn flatten_keeps_order() {
    let tris = vec![[0, 2, 1], [1, 2, 3]];
    assert_eq!(flatten_triangles(&tris), vec![0, 2, 1, 1, 2, 3]);
    assert!(flatten_triangles(&Vec::new()).is_empty());
}

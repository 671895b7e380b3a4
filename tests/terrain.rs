use fishy::terrain::{grid_coordinates, terrain_indices};

#[test]
fn radius_two_index_list_entries_below_forty_nine() {
    let indices = terrain_indices(2);
    // 2 * (2 * 2 + 2)^2 triangles of three entries each
    assert_eq!(indices.len(), 2 * (2 * 2 + 2) * (2 * 2 + 2) * 3);
    assert_eq!(indices.len(), 216);
    assert!(indices.iter().all(|&i| i < 49));
    assert_eq!(*indices.iter().max().unwrap(), 48);
}

#[test]
fn radius_two_grid_has_forty_nine_vertices() {
    let coords = grid_coordinates(2);
    assert_eq!(coords.len(), 49);
    assert_eq!(coords[0], (-3, -3));
    assert_eq!(coords[1], (-3, -2));
    assert_eq!(coords[7], (-2, -3));
    assert_eq!(coords[24], (0, 0));
    assert_eq!(coords[48], (3, 3));
}

#[test]
fn first_cell_winding() {
    let indices = terrain_indices(2);
    assert_eq!(&indices[0..6], &[0, 1, 8, 0, 8, 7]);
    // second cell along z
    assert_eq!(&indices[6..12], &[1, 2, 9, 1, 9, 8]);
    // first cell of the second row of cells
    assert_eq!(&indices[36..42], &[7, 8, 15, 7, 15, 14]);
}

#[test]
fn radius_zero_grid() {
    let indices = terrain_indices(0);
    assert_eq!(indices.len(), 24);
    assert_eq!(grid_coordinates(0).len(), 9);
    assert_eq!(indices, vec![0, 1, 4, 0, 4, 3, 1, 2, 5, 1, 5, 4, 3, 4, 7, 3, 7, 6, 4, 5, 8, 4, 8, 7]);
}

#[test]
fn default_radius_grid_size() {
    let radius: u32 = fishy::terrain::RADIUS;
    assert_eq!(radius, 100);
    let side = (2 * radius + 3) as usize;
    let cells = (2 * radius + 2) as usize;
    assert_eq!(grid_coordinates(radius).len(), side * side);
    let indices = terrain_indices(radius);
    assert_eq!(indices.len() / 3, 2 * cells * cells);
    assert!(indices.iter().all(|&i| (i as usize) < side * side));
}

#[test]
fn every_vertex_is_used_by_the_grid() {
    let indices = terrain_indices(3);
    let mut used = vec![false; 81];
    for &i in &indices {
        used[i as usize] = true;
    }
    assert!(used.iter().all(|&u| u));
}

#[test]
fn largest_radius_fits_u32_indices() {
    let r = fishy::terrain::MAX_RADIUS as u64;
    assert!((2 * r + 3) * (2 * r + 3) <= 1u64 << 32);
    assert!((2 * r + 5) * (2 * r + 5) > 1u64 << 32);
}

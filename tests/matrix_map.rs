use matricks::matrix_map::{MatrixMap, MatrixMapBuilder};

fn table(map: &MatrixMap, width: usize, height: usize) -> Vec<Vec<usize>> {
    (0..height)
        .map(|y| (0..width).map(|x| map.get(x, y)).collect())
        .collect()
}

fn builder(width: usize, height: usize, flags: u8) -> MatrixMapBuilder {
    let mut b = MatrixMapBuilder::new(width, height);
    if flags & 1 != 0 {
        b = b.serpentine();
    }
    if flags & 2 != 0 {
        b = b.vertical();
    }
    if flags & 4 != 0 {
        b = b.mirror_horizontally();
    }
    if flags & 8 != 0 {
        b = b.mirror_vertically();
    }
    b
}

#[test]
fn unwired_map_is_row_major() {
    for (w, h) in [(1, 1), (3, 2), (4, 3), (8, 8), (5, 1)] {
        let map = MatrixMapBuilder::new(w, h).build();
        for y in 0..h {
            for x in 0..w {
                assert_eq!(map.get(x, y), y * w + x);
            }
        }
    }
}

#[test]
fn every_wiring_is_a_bijection() {
    for (w, h) in [(1, 1), (3, 2), (2, 3), (4, 5), (6, 6)] {
        for flags in 0u8..16 {
            let t = table(&builder(w, h, flags).build(), w, h);
            let mut seen = vec![false; w * h];
            for row in &t {
                assert_eq!(row.len(), w);
                for &i in row {
                    assert!(i < w * h);
                    assert!(!seen[i], "index {} twice for flags {}", i, flags);
                    seen[i] = true;
                }
            }
            assert!(seen.iter().all(|s| *s));
        }
    }
}

#[test]
fn serpentine_three_by_two() {
    let map = MatrixMapBuilder::new(3, 2).serpentine().build();
    assert_eq!(table(&map, 3, 2), vec![vec![2, 1, 0], vec![3, 4, 5]]);
}

#[test]
fn vertical_then_mirror_vertical_order() {
    let map = MatrixMapBuilder::new(3, 2).vertical().mirror_vertically().build();
    let t = table(&map, 3, 2);
    // The fixed order: transpose back first, then reverse the rows.
    assert_eq!(t, vec![vec![1, 3, 5], vec![0, 2, 4]]);
    // Reversing the rows before transposing would give another table.
    assert_ne!(t, vec![vec![4, 2, 0], vec![5, 3, 1]]);
}

#[test]
fn vertical_wiring_runs_down_columns() {
    let map = MatrixMapBuilder::new(3, 2).vertical().build();
    assert_eq!(table(&map, 3, 2), vec![vec![0, 2, 4], vec![1, 3, 5]]);
}

#[test]
fn vertical_serpentine_wiring() {
    let map = MatrixMapBuilder::new(3, 2).serpentine().vertical().build();
    assert_eq!(table(&map, 3, 2), vec![vec![1, 2, 5], vec![0, 3, 4]]);
}

#[test]
fn mirror_horizontally_reverses_rows() {
    let map = MatrixMapBuilder::new(3, 2).mirror_horizontally().build();
    assert_eq!(table(&map, 3, 2), vec![vec![2, 1, 0], vec![5, 4, 3]]);
}

#[test]
fn mirror_vertically_reverses_row_order() {
    let map = MatrixMapBuilder::new(3, 2).mirror_vertically().build();
    assert_eq!(table(&map, 3, 2), vec![vec![3, 4, 5], vec![0, 1, 2]]);
}

#[test]
fn all_options_together() {
    let map = builder(3, 2, 15).build();
    // serpentine + vertical gives [[1,2,5],[0,3,4]]; mirrored vertically
    // [[0,3,4],[1,2,5]]; then horizontally.
    assert_eq!(table(&map, 3, 2), vec![vec![4, 3, 0], vec![5, 2, 1]]);
}

#[test]
fn empty_matrix_builds_empty_map() {
    let map = MatrixMapBuilder::new(0, 0).serpentine().build();
    assert_eq!(table(&map, 0, 0), Vec::<Vec<usize>>::new());
}

#[test]
fn plain_map_and_its_serpentine() {
    let map = MatrixMap::new(3, 3);
    assert_eq!(table(&map, 3, 3), vec![vec![0, 1, 2], vec![3, 4, 5], vec![6, 7, 8]]);
    let s = map.serpentine();
    assert_eq!(table(&s, 3, 3), vec![vec![2, 1, 0], vec![3, 4, 5], vec![8, 7, 6]]);
}

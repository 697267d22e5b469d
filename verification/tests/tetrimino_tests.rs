use dot_matrix::tetrimino::Tetrimino;

fn all_shapes() -> Vec<Tetrimino> {
    vec![
        Tetrimino::new_l(),
        Tetrimino::new_j(),
        Tetrimino::new_t(),
        Tetrimino::new_o(),
        Tetrimino::new_s(),
        Tetrimino::new_z(),
        Tetrimino::new_i(),
    ]
}

#[test]
fn shapes_have_expected_cells() {
    let l = Tetrimino::new_l();
    assert_eq!((l.width, l.height), (2, 3));
    assert_eq!(l.shape, vec![1, 0, 1, 0, 1, 1]);
    let i = Tetrimino::new_i();
    assert_eq!((i.width, i.height), (1, 4));
    assert_eq!(i.shape, vec![1, 1, 1, 1]);
    let t = Tetrimino::new_t();
    assert_eq!(t.shape, vec![0, 1, 0, 1, 1, 1]);
}

#[test]
fn rotation_swaps_dimensions() {
    for mut shape in all_shapes() {
        let width = shape.width;
        let height = shape.height;
        shape.rotate();
        assert_eq!(shape.width, height);
        assert_eq!(shape.height, width);
    }
}

#[test]
fn rotating_l_gives_transposed_cells() {
    let mut l = Tetrimino::new_l();
    l.rotate();
    assert_eq!((l.width, l.height), (3, 2));
    assert_eq!(l.shape, vec![1, 1, 1, 1, 0, 0]);
}

#[test]
fn four_rotations_restore_every_shape() {
    for original in all_shapes() {
        let mut rotated = original.clone();
        for _ in 0..4 {
            rotated.rotate();
        }
        assert_eq!(rotated.width, original.width);
        assert_eq!(rotated.height, original.height);
        assert_eq!(rotated.shape, original.shape);
    }
}

#[test]
fn random_pieces_are_rotated_canonical_shapes() {
    let mut catalog: Vec<(usize, usize, Vec<u8>)> = Vec::new();
    for shape in all_shapes() {
        let mut current = shape.clone();
        for _ in 0..4 {
            catalog.push((current.width, current.height, current.shape.clone()));
            current.rotate();
        }
    }
    for _ in 0..200 {
        let piece = Tetrimino::new_random(8);
        let found = catalog.iter().any(|(width, height, cells)| {
            *width == piece.width && *height == piece.height && *cells == piece.shape
        });
        assert!(found);
    }
}

#[test]
fn random_pieces_spawn_inside_the_field() {
    for _ in 0..1000 {
        let piece = Tetrimino::new_random(8);
        assert!(piece.position.x + piece.width - 1 < 8);
        assert_eq!(piece.position.y, 0);
        assert!(piece.width >= 1 && piece.width <= 4);
        assert!(piece.height >= 1 && piece.height <= 4);
        assert_eq!(piece.shape.len(), piece.width * piece.height);
    }
}

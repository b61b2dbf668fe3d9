//! Map-authoring: grid construction, geometry, and rejected configurations.

use platformer::grid::new;
use platformer::grid::BlockType;
use platformer::grid::ConfigError;

#[test]
fn grid_dimensions() {
    let g = new(250, 250, 25).unwrap();
    assert_eq!(g.width_in_cells, 10);
    assert_eq!(g.height_in_cells, 10);
    assert_eq!(g.grid_size, 25);
}

#[test]
fn grid_discards_partial_cells() {
    let g = new(260, 249, 25).unwrap();
    assert_eq!(g.width_in_cells, 10);
    assert_eq!(g.height_in_cells, 9);
}

#[test]
fn grid_cell_geometry() {
    let g = new(250, 250, 25).unwrap();
    let b = g.block_at(3, 4);
    assert_eq!(b.x, 100);
    assert_eq!(b.y, 75);
    assert_eq!(b.size, 25);
    assert!(b.is_passable());
}

#[test]
fn grid_rejects_zero_cell_size() {
    assert!(matches!(
        new(100, 100, 0),
        Err(ConfigError::NonPositiveCellSize)
    ));
}

#[test]
fn grid_rejects_negative_cell_size() {
    assert!(matches!(
        new(100, 100, -25),
        Err(ConfigError::NonPositiveCellSize)
    ));
}

#[test]
fn grid_rejects_empty_area() {
    assert!(matches!(new(10, 100, 25), Err(ConfigError::EmptyGrid)));
    assert!(matches!(new(100, 10, 25), Err(ConfigError::EmptyGrid)));
}

#[test]
fn grid_rejects_too_many_cells() {
    assert!(matches!(new(5_000_000, 100, 1), Err(ConfigError::GridTooLarge)));
}

#[test]
fn grid_rejects_oversized_cell() {
    assert!(matches!(
        new(2_000_000, 2_000_000, 1_500_000),
        Err(ConfigError::GridTooLarge)
    ));
}

#[test]
fn set_block_type_changes_one_tile() {
    let mut g = new(250, 250, 25).unwrap();
    assert_eq!(g.set_block_type(5, 3, BlockType::Ground), Ok(()));
    assert!(!g.block_at(5, 3).is_passable());
    assert!(g.block_at(5, 2).is_passable());
    assert!(g.block_at(4, 3).is_passable());
}

#[test]
fn set_block_type_rejects_out_of_range() {
    let mut g = new(250, 250, 25).unwrap();
    assert_eq!(
        g.set_block_type(10, 0, BlockType::Ground),
        Err(ConfigError::OutOfRange)
    );
    assert_eq!(
        g.set_block_type(0, 10, BlockType::Ground),
        Err(ConfigError::OutOfRange)
    );
    assert!(g.block_at(0, 0).is_passable());
}

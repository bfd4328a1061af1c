use voxparty::isom::{depth_key, direction, GridPos, DIRECTIONS};

#[test]
fn test_depth_key_ordering() {
    assert!(depth_key(0, 0, 0) < depth_key(1, 0, 0));
    assert!(depth_key(0, 0, 0) < depth_key(0, 1, 0));
    assert!(depth_key(0, 0, 1) > depth_key(100, 100, 0));
}

#[test]
fn test_grid_pos_depth_key() {
    let pos = GridPos::new(3, 2, 0);
    assert_eq!(pos.depth_key(), 3 + 2 + 0 * 1000);
    assert_eq!(pos.depth_key(), 5);
}

#[test]
fn test_grid_pos_depth_key_with_z() {
    let pos = GridPos::new(1, 1, 1);
    assert!(pos.depth_key() > GridPos::new(100, 100, 0).depth_key());
}

#[test]
fn depth_key_formula() {
    assert_eq!(depth_key(3, 4, 2), 2007);
    assert_eq!(depth_key(-5, 2, 0), -3);
}

#[test]
fn directions_clockwise_from_north() {
    assert_eq!(direction(0), (0, -1));
    assert_eq!(direction(2), (1, 0));
    assert_eq!(direction(7), (-1, -1));
    assert_eq!(DIRECTIONS.len(), 8);
}

use flow_field::error::{check_config, ConfigError};
use flow_field::grid::{build_grid, Position};

fn steps(extent: i32, spacing: i32) -> i64 {
    let half = ((extent / 2) / spacing) as i64;
    half + half + spacing as i64
}

#[test]
fn grid_of_twenty_by_twenty_has_twelve_steps_each_way() {
    let grid = build_grid(20, 20, 10).unwrap();
    assert_eq!(grid.len(), 144);
    assert_eq!(grid[0], Position { x: -10, y: -10 });
    assert_eq!(grid[143], Position { x: 100, y: 100 });
}

#[test]
fn grid_covers_both_sides_of_the_origin() {
    let grid = build_grid(20, 20, 10).unwrap();
    for x in [-10i64, 0, 10] {
        for y in [-10i64, 0, 10] {
            assert!(grid.contains(&Position { x, y }));
        }
    }
}

#[test]
fn grid_sweeps_y_inside_x() {
    let grid = build_grid(20, 20, 10).unwrap();
    assert_eq!(grid[0], Position { x: -10, y: -10 });
    assert_eq!(grid[1], Position { x: -10, y: 0 });
    assert_eq!(grid[11], Position { x: -10, y: 100 });
    assert_eq!(grid[12], Position { x: 0, y: -10 });
    assert_eq!(grid[13], Position { x: 0, y: 0 });
    for (i, p) in grid.iter().enumerate() {
        let col = (i / 12) as i64;
        let row = (i % 12) as i64;
        assert_eq!(*p, Position { x: (col - 1) * 10, y: (row - 1) * 10 });
    }
}

#[test]
fn grid_len_is_the_product_of_the_step_counts() {
    let cases = [(1, 1, 1), (20, 20, 10), (7, 3, 2), (100, 40, 13), (800, 800, 13), (5, 90, 7), (64, 1, 64)];
    for (w, h, g) in cases {
        let grid = build_grid(w, h, g).unwrap();
        assert!(!grid.is_empty());
        assert_eq!(grid.len() as i64, steps(w, g) * steps(h, g));
    }
}

#[test]
fn grid_of_the_usual_window() {
    let grid = build_grid(800, 800, 13).unwrap();
    assert_eq!(grid.len(), 73 * 73);
    assert_eq!(grid[0], Position { x: -390, y: -390 });
    assert_eq!(grid[grid.len() - 1], Position { x: 546, y: 546 });
}

#[test]
fn grid_coordinates_are_multiples_of_the_spacing_within_the_sweep() {
    let cases = [(1, 1, 1), (20, 20, 10), (7, 3, 2), (100, 40, 13), (5, 90, 7)];
    for (w, h, g) in cases {
        let g64 = g as i64;
        let half_x = ((w / 2) / g) as i64;
        let half_y = ((h / 2) / g) as i64;
        for p in build_grid(w, h, g).unwrap() {
            assert_eq!(p.x % g64, 0);
            assert_eq!(p.y % g64, 0);
            assert!(-half_x * g64 <= p.x && p.x < (half_x + g64) * g64);
            assert!(-half_y * g64 <= p.y && p.y < (half_y + g64) * g64);
        }
    }
}

#[test]
fn grid_reaches_further_on_the_positive_side() {
    let grid = build_grid(100, 100, 13).unwrap();
    let min_x = grid.iter().map(|p| p.x).min().unwrap();
    let max_x = grid.iter().map(|p| p.x).max().unwrap();
    assert_eq!(min_x, -3 * 13);
    assert_eq!(max_x, (3 + 13 - 1) * 13);
}

#[test]
fn grid_with_spacing_wider_than_the_region() {
    let grid = build_grid(4, 4, 3).unwrap();
    assert_eq!(grid.len(), 9);
    assert_eq!(grid[0], Position { x: 0, y: 0 });
    assert_eq!(grid[8], Position { x: 6, y: 6 });
}

#[test]
fn grid_of_unequal_sides() {
    let grid = build_grid(8, 2, 2).unwrap();
    assert_eq!(grid.len(), 6 * 2);
    assert_eq!(grid[0], Position { x: -4, y: 0 });
    assert_eq!(grid[1], Position { x: -4, y: 2 });
    assert_eq!(grid[2], Position { x: -2, y: 0 });
    assert_eq!(grid[11], Position { x: 6, y: 2 });
}

#[test]
fn zero_spacing_is_rejected() {
    assert_eq!(build_grid(20, 20, 0), Err(ConfigError::NonPositiveSpacing));
}

#[test]
fn negative_spacing_is_rejected() {
    assert_eq!(build_grid(20, 20, -10), Err(ConfigError::NonPositiveSpacing));
    assert_eq!(build_grid(20, 20, i32::MIN), Err(ConfigError::NonPositiveSpacing));
}

#[test]
fn non_positive_width_is_rejected() {
    assert_eq!(build_grid(0, 20, 10), Err(ConfigError::NonPositiveWidth));
    assert_eq!(build_grid(-5, 20, 10), Err(ConfigError::NonPositiveWidth));
}

#[test]
fn non_positive_height_is_rejected() {
    assert_eq!(build_grid(20, 0, 10), Err(ConfigError::NonPositiveHeight));
    assert_eq!(build_grid(20, i32::MIN, 10), Err(ConfigError::NonPositiveHeight));
}

#[test]
fn spacing_is_checked_before_width_and_width_before_height() {
    assert_eq!(build_grid(0, 0, 0), Err(ConfigError::NonPositiveSpacing));
    assert_eq!(build_grid(0, 0, 1), Err(ConfigError::NonPositiveWidth));
    assert_eq!(build_grid(1, 0, 1), Err(ConfigError::NonPositiveHeight));
}

#[test]
fn check_config_accepts_positive_values_only() {
    assert_eq!(check_config(1, 1, 1), Ok(()));
    assert_eq!(check_config(i32::MAX, i32::MAX, i32::MAX), Ok(()));
    assert_eq!(check_config(1, 1, 0), Err(ConfigError::NonPositiveSpacing));
    assert_eq!(check_config(0, 1, 1), Err(ConfigError::NonPositiveWidth));
    assert_eq!(check_config(1, -1, 1), Err(ConfigError::NonPositiveHeight));
}

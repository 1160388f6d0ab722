//! The grid builder: where the sample points of a region lie.
//!
//! A region of extent `e` along one axis, with points `g` apart, is covered by
//! the steps `-h, -h + 1, .., h + g - 1`, where `h = (e / 2) / g`, each step
//! standing at the coordinate `step * g`. The sweep thus reaches further on
//! the positive side than on the negative one. Points are listed with the x
//! step in the outer loop and the y step in the inner one.

use vstd::prelude::*;
use vstd::arithmetic::div_mod::lemma_fundamental_div_mod_converse;
use crate::error::{check_config, config_error, ConfigError};

verus! {

/// A point of the plane with whole-number coordinates.
#[derive(Clone, Copy, Debug, PartialEq, Eq, Structural)]
pub struct Position {
    pub x: i64,
    pub y: i64,
}

/// Number of whole spacings that fit into half of `extent`.
pub open spec fn half_steps(extent: int, spacing: int) -> int {
    (extent / 2) / spacing
}

/// First step of the sweep along an axis.
pub open spec fn axis_first(extent: int, spacing: int) -> int {
    -half_steps(extent, spacing)
}

/// One past the last step of the sweep along an axis.
pub open spec fn axis_end(extent: int, spacing: int) -> int {
    half_steps(extent, spacing) + spacing
}

/// Number of steps of the sweep along an axis.
pub open spec fn axis_count(extent: int, spacing: int) -> int {
    half_steps(extent, spacing) + half_steps(extent, spacing) + spacing
}

/// Number of points of the grid.
pub open spec fn grid_len(width: int, height: int, spacing: int) -> int {
    axis_count(width, spacing) * axis_count(height, spacing)
}

/// The point at the `col`-th x step and the `row`-th y step of the sweep, both
/// counted from 0.
pub open spec fn grid_cell(width: int, height: int, spacing: int, col: int, row: int) -> Position {
    Position {
        x: ((axis_first(width, spacing) + col) * spacing) as i64,
        y: ((axis_first(height, spacing) + row) * spacing) as i64,
    }
}

/// `p` stands on a step of the sweep along each axis: its coordinates are
/// multiples of the spacing, from the first step of the axis up to, but not
/// including, its end.
pub open spec fn in_sweep(p: Position, width: int, height: int, spacing: int) -> bool {
    &&& p.x as int % spacing == 0
    &&& p.y as int % spacing == 0
    &&& axis_first(width, spacing) * spacing <= p.x < axis_end(width, spacing) * spacing
    &&& axis_first(height, spacing) * spacing <= p.y < axis_end(height, spacing) * spacing
}

/// The `i`-th point of the grid in sweep order.
pub open spec fn grid_point(width: int, height: int, spacing: int, i: int) -> Position {
    let rows = axis_count(height, spacing);
    grid_cell(width, height, spacing, i / rows, i % rows)
}

/// All points of the grid, in sweep order.
pub open spec fn grid_positions(width: int, height: int, spacing: int) -> Seq<Position> {
    Seq::new(grid_len(width, height, spacing) as nat, |i: int| grid_point(width, height, spacing, i))
}

/// The sweep along one axis of a positive extent with a positive spacing:
/// it has at least `spacing` steps, and its steps fit in 32 bits.
pub proof fn lemma_axis_range(extent: i32, spacing: i32)
    requires
        extent > 0,
        spacing > 0,
    ensures
        0 <= half_steps(extent as int, spacing as int) <= extent / 2,
        axis_count(extent as int, spacing as int) == axis_end(extent as int, spacing as int)
            - axis_first(extent as int, spacing as int),
        axis_count(extent as int, spacing as int) >= spacing,
        axis_end(extent as int, spacing as int) <= i32::MAX,
{
    let e = extent as int / 2;
    let g = spacing as int;
    let h = e / g;
    assert(0 <= h <= e && h * g <= e) by (nonlinear_arith)
        requires
            0 <= e,
            0 < g,
            h == e / g,
    ;
    assert(h >= 1 ==> g <= h * g) by (nonlinear_arith)
        requires
            0 < g,
    ;
}

/// The point at given steps of the sweep: its coordinates are the steps times
/// the spacing, with no loss in 64 bits, and lie within the swept range.
pub proof fn lemma_grid_cell(width: i32, height: i32, spacing: i32, col: int, row: int)
    requires
        config_error(width as int, height as int, spacing as int) is None,
        0 <= col < axis_count(width as int, spacing as int),
        0 <= row < axis_count(height as int, spacing as int),
    ensures
        grid_cell(width as int, height as int, spacing as int, col, row).x == (axis_first(
            width as int,
            spacing as int,
        ) + col) * spacing,
        grid_cell(width as int, height as int, spacing as int, col, row).y == (axis_first(
            height as int,
            spacing as int,
        ) + row) * spacing,
        in_sweep(
            grid_cell(width as int, height as int, spacing as int, col, row),
            width as int,
            height as int,
            spacing as int,
        ),
{
    let g = spacing as int;
    lemma_axis_range(width, spacing);
    lemma_axis_range(height, spacing);
    lemma_step_coordinate(axis_first(width as int, g), axis_end(width as int, g), col, g);
    lemma_step_coordinate(axis_first(height as int, g), axis_end(height as int, g), row, g);
}

/// A step between `first` and `end`, both within 32 bits, times a 32-bit
/// spacing: the product fits in 64 bits, is a multiple of the spacing, and
/// lies between the products of the two ends.
proof fn lemma_step_coordinate(first: int, end: int, k: int, g: int)
    requires
        -0x8000_0000 <= first,
        end <= 0x7fff_ffff,
        0 <= k < end - first,
        0 < g <= 0x7fff_ffff,
    ensures
        i64::MIN <= (first + k) * g <= i64::MAX,
        ((first + k) * g) % g == 0,
        first * g <= (first + k) * g < end * g,
{
    let s = first + k;
    assert(-0x4000_0000_0000_0000 <= s * g <= 0x4000_0000_0000_0000 && first * g <= s * g < end
        * g) by (nonlinear_arith)
        requires
            -0x8000_0000 <= first <= s < end <= 0x7fff_ffff,
            0 < g <= 0x7fff_ffff,
    ;
    lemma_fundamental_div_mod_converse(s * g, g, s, 0);
}

/// Where the point of given steps stands in sweep order.
pub proof fn lemma_grid_index(width: i32, height: i32, spacing: i32, col: int, row: int)
    requires
        config_error(width as int, height as int, spacing as int) is None,
        0 <= col < axis_count(width as int, spacing as int),
        0 <= row < axis_count(height as int, spacing as int),
    ensures
        0 <= col * axis_count(height as int, spacing as int) + row < grid_len(
            width as int,
            height as int,
            spacing as int,
        ),
        grid_positions(width as int, height as int, spacing as int)[col * axis_count(
            height as int,
            spacing as int,
        ) + row] == grid_cell(width as int, height as int, spacing as int, col, row),
{
    let cols = axis_count(width as int, spacing as int);
    let rows = axis_count(height as int, spacing as int);
    assert(0 <= col * rows && col * rows + rows <= cols * rows) by (nonlinear_arith)
        requires
            0 <= col < cols,
            0 < rows,
    ;
    lemma_fundamental_div_mod_converse(col * rows + row, rows, col, row);
}

/// The steps of the `i`-th point in sweep order.
pub proof fn lemma_grid_steps(width: i32, height: i32, spacing: i32, i: int)
    requires
        config_error(width as int, height as int, spacing as int) is None,
        0 <= i < grid_len(width as int, height as int, spacing as int),
    ensures
        0 <= i / axis_count(height as int, spacing as int) < axis_count(
            width as int,
            spacing as int,
        ),
        0 <= i % axis_count(height as int, spacing as int) < axis_count(
            height as int,
            spacing as int,
        ),
{
    let cols = axis_count(width as int, spacing as int);
    let rows = axis_count(height as int, spacing as int);
    lemma_axis_range(width, spacing);
    lemma_axis_range(height, spacing);
    assert(0 <= i / rows < cols && 0 <= i % rows < rows) by (nonlinear_arith)
        requires
            0 <= i < cols * rows,
            0 < rows,
    ;
}

/// The grid of a valid configuration is not empty, its length is the product
/// of the step counts of the two axes, and every coordinate in it is a
/// multiple of the spacing within the swept range of its axis.
pub proof fn lemma_grid_shape(width: i32, height: i32, spacing: i32)
    requires
        config_error(width as int, height as int, spacing as int) is None,
    ensures
        grid_positions(width as int, height as int, spacing as int).len() == grid_len(
            width as int,
            height as int,
            spacing as int,
        ),
        grid_len(width as int, height as int, spacing as int) >= 1,
        forall|i: int|
            0 <= i < grid_len(width as int, height as int, spacing as int) ==> in_sweep(
                #[trigger] grid_positions(width as int, height as int, spacing as int)[i],
                width as int,
                height as int,
                spacing as int,
            ),
{
    let cols = axis_count(width as int, spacing as int);
    let rows = axis_count(height as int, spacing as int);
    lemma_axis_range(width, spacing);
    lemma_axis_range(height, spacing);
    assert(cols * rows >= 1) by (nonlinear_arith)
        requires
            cols >= 1,
            rows >= 1,
    ;
    assert forall|i: int|
        0 <= i < grid_len(width as int, height as int, spacing as int) implies in_sweep(
        #[trigger] grid_positions(width as int, height as int, spacing as int)[i],
        width as int,
        height as int,
        spacing as int,
    ) by {
        lemma_grid_steps(width, height, spacing, i);
        lemma_grid_cell(width, height, spacing, i / rows, i % rows);
    }
}

/// The grid builder. Rejects a spacing, width or height that is not positive;
/// otherwise returns the points of the grid in sweep order: at least one,
/// as many as the step counts of the two axes multiply to, and each on a
/// step of the sweep.
pub fn build_grid(width: i32, height: i32, spacing: i32) -> (r: Result<Vec<Position>, ConfigError>)
    ensures
        config_error(width as int, height as int, spacing as int) matches Some(e) ==> r == Err::<
            Vec<Position>,
            ConfigError,
        >(e),
        config_error(width as int, height as int, spacing as int) is None ==> r is Ok
            && r.unwrap()@ == grid_positions(width as int, height as int, spacing as int),
        r matches Ok(points) ==> points@.len() >= 1 && points@.len() == axis_count(
            width as int,
            spacing as int,
        ) * axis_count(height as int, spacing as int),
        r matches Ok(points) ==> forall|i: int|
            0 <= i < points@.len() ==> in_sweep(
                #[trigger] points@[i],
                width as int,
                height as int,
                spacing as int,
            ),
{
    match check_config(width, height, spacing) {
        Err(e) => {
            return Err(e);
        },
        Ok(()) => {},
    }
    proof {
        lemma_axis_range(width, spacing);
        lemma_axis_range(height, spacing);
        lemma_grid_shape(width, height, spacing);
    }
    let g: i64 = spacing as i64;
    let half_x: i64 = ((width / 2) / spacing) as i64;
    let half_y: i64 = ((height / 2) / spacing) as i64;
    let first_x: i64 = -half_x;
    let end_x: i64 = half_x + g;
    let first_y: i64 = -half_y;
    let end_y: i64 = half_y + g;
    let ghost rows = axis_count(height as int, spacing as int);
    let ghost cols = axis_count(width as int, spacing as int);
    let mut points: Vec<Position> = Vec::new();
    let mut x: i64 = first_x;
    assert((x - first_x) * rows == 0) by (nonlinear_arith)
        requires
            x == first_x,
    ;
    while x < end_x
        invariant
            config_error(width as int, height as int, spacing as int) is None,
            g == spacing,
            first_x == axis_first(width as int, spacing as int),
            end_x == axis_end(width as int, spacing as int),
            first_y == axis_first(height as int, spacing as int),
            end_y == axis_end(height as int, spacing as int),
            rows == axis_count(height as int, spacing as int),
            cols == axis_count(width as int, spacing as int),
            rows == end_y - first_y,
            cols == end_x - first_x,
            rows >= 1,
            first_x <= x <= end_x,
            points@.len() == (x - first_x) * rows,
            forall|k: int|
                0 <= k < points@.len() ==> points@[k] == grid_point(
                    width as int,
                    height as int,
                    spacing as int,
                    k,
                ),
        decreases end_x - x,
    {
        let mut y: i64 = first_y;
        while y < end_y
            invariant
                config_error(width as int, height as int, spacing as int) is None,
                g == spacing,
                first_x == axis_first(width as int, spacing as int),
                end_x == axis_end(width as int, spacing as int),
                first_y == axis_first(height as int, spacing as int),
                end_y == axis_end(height as int, spacing as int),
                rows == axis_count(height as int, spacing as int),
                cols == axis_count(width as int, spacing as int),
                rows == end_y - first_y,
                cols == end_x - first_x,
                first_x <= x < end_x,
                first_y <= y <= end_y,
                points@.len() == (x - first_x) * rows + (y - first_y),
                forall|k: int|
                    0 <= k < points@.len() ==> points@[k] == grid_point(
                        width as int,
                        height as int,
                        spacing as int,
                        k,
                    ),
            decreases end_y - y,
        {
            let ghost col = x - first_x;
            let ghost row = y - first_y;
            proof {
                lemma_grid_cell(width, height, spacing, col, row);
                lemma_grid_index(width, height, spacing, col, row);
                assert(first_x + col == x && first_y + row == y);
                assert(grid_point(width as int, height as int, spacing as int, col * rows + row)
                    == grid_cell(width as int, height as int, spacing as int, col, row));
            }
            points.push(Position { x: x * g, y: y * g });
            y = y + 1;
        }
        assert((x - first_x) * rows + rows == (x + 1 - first_x) * rows) by (nonlinear_arith);
        x = x + 1;
    }
    assert(points@ =~= grid_positions(width as int, height as int, spacing as int));
    Ok(points)
}

} // verus!

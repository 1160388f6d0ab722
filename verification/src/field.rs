//! The flow field: the points of a grid, each with the magnitude that a
//! sampler gave it last.

use vstd::prelude::*;
use crate::error::{config_error, ConfigError};
use crate::grid::{build_grid, grid_len, grid_positions, lemma_grid_shape, Position};
use crate::point::FlowPoint;
use crate::visual::{
    blue_level, circle, circle_at, green_level, lemma_circle_at, radius_length, red_level, Circle,
    BLUE_CEILING, RED_FLOOR, UNIT,
};

verus! {

/// A grid of sample points with their magnitudes.
///
/// A field is made by [`FlowField::build`], which lays out the grid once.
/// After that only magnitudes change, and only in [`FlowField::refresh`].
#[derive(Debug)]
pub struct FlowField {
    width: i32,
    height: i32,
    spacing: i32,
    points: Vec<FlowPoint>,
}

impl View for FlowField {
    type V = Seq<FlowPoint>;

    /// The points of the field, in the order in which the grid was swept.
    closed spec fn view(&self) -> Seq<FlowPoint> {
        self.points@
    }
}

impl FlowField {
    /// Width of the region that the field was built for.
    pub closed spec fn spec_width(&self) -> i32 {
        self.width
    }

    /// Height of the region that the field was built for.
    pub closed spec fn spec_height(&self) -> i32 {
        self.height
    }

    /// Distance between neighbouring points.
    pub closed spec fn spec_spacing(&self) -> i32 {
        self.spacing
    }

    /// The positions of the points, in order.
    pub open spec fn positions(&self) -> Seq<Position> {
        self@.map_values(|p: FlowPoint| p.pos)
    }

    /// The magnitudes of the points, in order.
    pub open spec fn magnitudes(&self) -> Seq<i64> {
        self@.map_values(|p: FlowPoint| p.mag)
    }

    /// The circles that the points are drawn as, in order.
    pub open spec fn circles(&self) -> Seq<Circle> {
        self@.map_values(|p: FlowPoint| circle_at(p.pos, p.mag))
    }

    /// A field is well formed when its region and spacing are positive and
    /// its points stand exactly on the grid of that region.
    pub open spec fn wf(&self) -> bool {
        &&& config_error(self.width() as int, self.height() as int, self.spacing() as int) is None
        &&& self.positions() == grid_positions(
            self.width() as int,
            self.height() as int,
            self.spacing() as int,
        )
    }

    /// Every magnitude is one that `sample` may return at the point's position.
    pub open spec fn sampled_by<F: Fn(i64, i64) -> i64>(&self, sample: F) -> bool {
        forall|i: int|
            0 <= i < self@.len() ==> sample.ensures(
                ((#[trigger] self@[i]).pos.x, self@[i].pos.y),
                self@[i].mag,
            )
    }

    /// `sample` may be called at the position of every point.
    pub open spec fn accepts<F: Fn(i64, i64) -> i64>(&self, sample: F) -> bool {
        forall|i: int|
            0 <= i < self@.len() ==> sample.requires(((#[trigger] self@[i]).pos.x, self@[i].pos.y))
    }

    /// This field has the region, the spacing and the positions of `before`.
    pub open spec fn same_grid_as(&self, before: &FlowField) -> bool {
        &&& self.width() == before.width()
        &&& self.height() == before.height()
        &&& self.spacing() == before.spacing()
        &&& self.positions() == before.positions()
    }

    /// Width of the region.
    #[verifier::when_used_as_spec(spec_width)]
    pub fn width(&self) -> (w: i32)
        ensures
            w == self.spec_width(),
    {
        self.width
    }

    /// Height of the region.
    #[verifier::when_used_as_spec(spec_height)]
    pub fn height(&self) -> (h: i32)
        ensures
            h == self.spec_height(),
    {
        self.height
    }

    /// Distance between neighbouring points.
    #[verifier::when_used_as_spec(spec_spacing)]
    pub fn spacing(&self) -> (g: i32)
        ensures
            g == self.spec_spacing(),
    {
        self.spacing
    }

    /// Number of points.
    pub fn len(&self) -> (n: usize)
        ensures
            n == self@.len(),
    {
        self.points.len()
    }

    /// The points, in the order in which the grid was swept.
    pub fn points(&self) -> (points: &[FlowPoint])
        ensures
            points@ == self@,
    {
        self.points.as_slice()
    }

    /// Builds the field of a region: lays out the grid and gives each point
    /// the magnitude that `sample` returns at its position.
    ///
    /// Fails, before anything is laid out or sampled, when the spacing, the
    /// width or the height is not positive.
    pub fn build<F: Fn(i64, i64) -> i64>(width: i32, height: i32, spacing: i32, sample: F) -> (r:
        Result<FlowField, ConfigError>)
        requires
            config_error(width as int, height as int, spacing as int) is None ==> forall|i: int|
                0 <= i < grid_positions(width as int, height as int, spacing as int).len()
                    ==> sample.requires(
                    (
                        (#[trigger] grid_positions(width as int, height as int, spacing as int)[i]).x,
                        grid_positions(width as int, height as int, spacing as int)[i].y,
                    ),
                ),
        ensures
            config_error(width as int, height as int, spacing as int) matches Some(e) ==> (r matches Err(
                x,
            ) && x == e),
            config_error(width as int, height as int, spacing as int) is None ==> (r matches Ok(f)
                && f.wf() && f.width() == width && f.height() == height && f.spacing() == spacing
                && f.sampled_by(sample)),
            r matches Ok(f) ==> f@.len() >= 1 && f@.len() == grid_len(
                width as int,
                height as int,
                spacing as int,
            ),
    {
        let grid = match build_grid(width, height, spacing) {
            Err(e) => {
                return Err(e);
            },
            Ok(grid) => grid,
        };
        let mut points: Vec<FlowPoint> = Vec::new();
        let mut i: usize = 0;
        while i < grid.len()
            invariant
                i <= grid.len(),
                points@.len() == i,
                forall|k: int| 0 <= k < grid@.len() ==> sample.requires((#[trigger] grid@[k].x, grid@[k].y)),
                forall|k: int|
                    0 <= k < i ==> (#[trigger] points@[k]).pos == grid@[k] && sample.ensures(
                        (grid@[k].x, grid@[k].y),
                        points@[k].mag,
                    ),
            decreases grid.len() - i,
        {
            let p: Position = grid[i];
            let mag: i64 = sample(p.x, p.y);
            points.push(FlowPoint::new(p.x, p.y, mag));
            i = i + 1;
        }
        let field = FlowField { width, height, spacing, points };
        assert(field.positions() =~= grid@);
        Ok(field)
    }

    /// Samples every point anew: each magnitude is replaced by what `sample`
    /// returns at the point's position. Positions, region and spacing stay.
    ///
    /// The sampler is only read during the pass, so whatever offset in time
    /// it carries is the same for every point.
    pub fn refresh<F: Fn(i64, i64) -> i64>(&mut self, sample: F)
        requires
            old(self).accepts(sample),
        ensures
            final(self).same_grid_as(old(self)),
            final(self)@.len() == old(self)@.len(),
            final(self).sampled_by(sample),
            old(self).wf() ==> final(self).wf(),
    {
        assert forall|k: int| 0 <= k < self.points@.len() implies sample.requires(
            ((#[trigger] self.points@[k]).pos.x, self.points@[k].pos.y),
        ) by {
            assert(self@[k] == self.points@[k]);
        }
        let mut i: usize = 0;
        while i < self.points.len()
            invariant
                i <= self.points@.len(),
                self.points@.len() == old(self).points@.len(),
                self.width == old(self).width,
                self.height == old(self).height,
                self.spacing == old(self).spacing,
                forall|k: int|
                    0 <= k < self.points@.len() ==> (#[trigger] self.points@[k]).pos == old(
                        self,
                    ).points@[k].pos,
                forall|k: int|
                    0 <= k < self.points@.len() ==> sample.requires(
                        ((#[trigger] self.points@[k]).pos.x, self.points@[k].pos.y),
                    ),
                forall|k: int|
                    0 <= k < i ==> sample.ensures(
                        ((#[trigger] self.points@[k]).pos.x, self.points@[k].pos.y),
                        self.points@[k].mag,
                    ),
            decreases self.points@.len() - i,
        {
            let pos: Position = self.points[i].pos;
            let mag: i64 = sample(pos.x, pos.y);
            self.points[i].set_mag(mag);
            i = i + 1;
        }
        assert(self.positions() =~= old(self).positions());
    }

    /// The circles to draw, one for each point and in the order of the points.
    pub fn emit(&self) -> (out: Vec<Circle>)
        ensures
            out@ == self.circles(),
    {
        let mut out: Vec<Circle> = Vec::new();
        let mut i: usize = 0;
        while i < self.points.len()
            invariant
                i <= self.points@.len(),
                out@.len() == i,
                forall|k: int|
                    0 <= k < i ==> #[trigger] out@[k] == circle_at(
                        self.points@[k].pos,
                        self.points@[k].mag,
                    ),
            decreases self.points@.len() - i,
        {
            let p: FlowPoint = self.points[i];
            out.push(circle(p.pos, p.mag));
            i = i + 1;
        }
        assert(out@ =~= self.circles());
        out
    }
}

/// A well-formed field is never empty: it has as many points as its grid,
/// which is the product of the step counts of the two axes.
pub proof fn lemma_field_len(field: FlowField)
    requires
        field.wf(),
    ensures
        field@.len() == grid_len(
            field.width() as int,
            field.height() as int,
            field.spacing() as int,
        ),
        field@.len() >= 1,
{
    lemma_grid_shape(field.width(), field.height(), field.spacing());
    assert(field@.len() == field.positions().len());
}

/// Positions are fixed for the life of a field: along any run of states in
/// which each has the grid of the one before it, as every refresh leaves it,
/// every state has the region, the spacing and the positions of the first.
pub proof fn lemma_positions_fixed(states: Seq<FlowField>, n: int)
    requires
        forall|k: int| 1 <= k < states.len() ==> (#[trigger] states[k]).same_grid_as(&states[k - 1]),
        0 <= n < states.len(),
    ensures
        states[n].same_grid_as(&states[0]),
        states[n].positions() == states[0].positions(),
        states[0].wf() ==> states[n].wf(),
    decreases n,
{
    if n > 0 {
        lemma_positions_fixed(states, n - 1);
        assert(states[n].same_grid_as(&states[n - 1]));
    }
}

/// With a sampler that returns `v` everywhere, every magnitude of a field
/// that it has sampled is `v`.
pub proof fn lemma_constant_sampler<F: Fn(i64, i64) -> i64>(field: FlowField, sample: F, v: i64)
    requires
        field.sampled_by(sample),
        forall|x: i64, y: i64, m: i64| #[trigger] sample.ensures((x, y), m) ==> m == v,
    ensures
        forall|i: int| 0 <= i < field@.len() ==> (#[trigger] field@[i]).mag == v,
        field.magnitudes() == Seq::new(field@.len(), |i: int| v),
{
    assert forall|i: int| 0 <= i < field@.len() implies (#[trigger] field@[i]).mag == v by {
        assert(sample.ensures((field@[i].pos.x, field@[i].pos.y), field@[i].mag));
    }
    assert(field.magnitudes() =~= Seq::new(field@.len(), |i: int| v));
}

/// What is drawn: one circle for each point, centred on the point, with the
/// radius and colour of the point's magnitude. The radius is never negative
/// and each channel lies in its own range, whatever the magnitude.
pub proof fn lemma_circles(field: FlowField, i: int)
    requires
        0 <= i < field@.len(),
    ensures
        field.circles().len() == field@.len(),
        field.circles()[i].x == field@[i].pos.x,
        field.circles()[i].y == field@[i].pos.y,
        field.circles()[i].radius == radius_length(field@[i].mag as int),
        field.circles()[i].red == red_level(field@[i].mag as int),
        field.circles()[i].green == green_level(field@[i].mag as int),
        field.circles()[i].blue == blue_level(field@[i].mag as int),
        0 <= field.circles()[i].radius,
        RED_FLOOR <= field.circles()[i].red <= UNIT,
        0 <= field.circles()[i].green <= UNIT,
        0 <= field.circles()[i].blue <= BLUE_CEILING,
{
    lemma_circle_at(field@[i].pos, field@[i].mag);
}

} // verus!

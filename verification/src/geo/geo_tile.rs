use vstd::prelude::*;
use crate::geo::geo_point::GeoPoint;
use crate::geo::grid::{floor_div, floor_index, lemma_floor_index_bounds};
use crate::geo::latitude::{clamp_latitude, Latitude, MAX_LATITUDE};
use crate::geo::longitude::{clamp_longitude, Longitude, MAX_LONGITUDE};

verus! {

/// The four edges of a tile, in microdegrees.
pub ghost struct Edges {
    pub bottom: int,
    pub top: int,
    pub left: int,
    pub right: int,
}

impl Edges {
    /// Whether the edges are in order and on the globe.
    pub open spec fn wf(self) -> bool {
        &&& -MAX_LATITUDE <= self.bottom <= self.top <= MAX_LATITUDE
        &&& -MAX_LONGITUDE <= self.left <= self.right <= MAX_LONGITUDE
    }

    /// Whether the position lies between the edges, the edges included.
    pub open spec fn contains(self, lat: int, lon: int) -> bool {
        &&& self.bottom <= lat <= self.top
        &&& self.left <= lon <= self.right
    }

    /// Whether the position lies between the edges and on none of them.
    pub open spec fn strictly_contains(self, lat: int, lon: int) -> bool {
        &&& self.bottom < lat < self.top
        &&& self.left < lon < self.right
    }
}

/// The index of the grid cell that holds `coord`, for cells `step` wide on an axis that ends at
/// `limit`: the floor index, lowered by one where it is the index at which the axis ends.
pub open spec fn cell_index(coord: int, step: int, limit: int) -> int {
    let index = floor_index(coord, step);
    if index == floor_index(limit, step) {
        index - 1
    } else {
        index
    }
}

/// The edges of the grid cell that holds the position, for square cells `step` wide.
pub open spec fn cell_edges(lat: int, lon: int, step: int) -> Edges {
    let row = cell_index(lat, step, MAX_LATITUDE as int);
    let column = cell_index(lon, step, MAX_LONGITUDE as int);
    Edges {
        bottom: clamp_latitude(row * step),
        top: clamp_latitude((row + 1) * step),
        left: clamp_longitude(column * step),
        right: clamp_longitude((column + 1) * step),
    }
}

/// The edges that `GeoTileBounds::new` keeps of the four given: an upper edge below its lower
/// edge is raised to it.
pub open spec fn ordered_edges(bottom: int, top: int, left: int, right: int) -> Edges {
    Edges {
        bottom,
        top: if top < bottom { bottom } else { top },
        left,
        right: if right < left { left } else { right },
    }
}

/// A rectangle on the globe.
pub trait GeoTile {
    /// The four edges of the tile.
    spec fn edges(&self) -> Edges;

    /// The southern edge.
    fn bottom_lat(&self) -> (result: Latitude)
        ensures
            result@ == self.edges().bottom,
    ;

    /// The northern edge.
    fn top_lat(&self) -> (result: Latitude)
        ensures
            result@ == self.edges().top,
    ;

    /// The western edge.
    fn left_lon(&self) -> (result: Longitude)
        ensures
            result@ == self.edges().left,
    ;

    /// The eastern edge.
    fn right_lon(&self) -> (result: Longitude)
        ensures
            result@ == self.edges().right,
    ;

    /// The point at sea level midway between the edges, rounded down to a microdegree.
    fn center_point(&self) -> (result: GeoPoint)
        ensures
            result.lat@ == (self.edges().bottom + self.edges().top) / 2,
            result.lon@ == (self.edges().left + self.edges().right) / 2,
            result.alt == 0,
    {
        let bottom: i64 = self.bottom_lat().as_microdegrees();
        let top: i64 = self.top_lat().as_microdegrees();
        let left: i64 = self.left_lon().as_microdegrees();
        let right: i64 = self.right_lon().as_microdegrees();
        let lat = Latitude::from_microdegrees(floor_div(bottom + top, 2));
        let lon = Longitude::nearest_to_microdegrees(floor_div(left + right, 2));
        GeoPoint::new(lat, lon, 0)
    }

    /// Whether the point lies in the tile, its edges included.
    fn is_point_in_tile(&self, point: &GeoPoint) -> (result: bool)
        ensures
            result == self.edges().contains(point.lat@, point.lon@),
    {
        let lat: i64 = point.lat.as_microdegrees();
        let lon: i64 = point.lon.as_microdegrees();
        lat >= self.bottom_lat().as_microdegrees() && lat <= self.top_lat().as_microdegrees()
            && lon >= self.left_lon().as_microdegrees() && lon <= self.right_lon().as_microdegrees()
    }
}

/// The bounds of a tile.
#[derive(Clone, Copy, PartialEq, Eq, Debug)]
pub struct GeoTileBounds {
    bot_lat: Latitude,
    top_lat: Latitude,
    left_lon: Longitude,
    right_lon: Longitude,
}

impl View for GeoTileBounds {
    type V = Edges;

    closed spec fn view(&self) -> Edges {
        Edges {
            bottom: self.bot_lat@,
            top: self.top_lat@,
            left: self.left_lon@,
            right: self.right_lon@,
        }
    }
}

impl GeoTile for GeoTileBounds {
    open spec fn edges(&self) -> Edges {
        self@
    }

    fn bottom_lat(&self) -> (result: Latitude) {
        assert(self.edges() == self@);
        self.bot_lat
    }

    fn top_lat(&self) -> (result: Latitude) {
        self.top_lat
    }

    fn left_lon(&self) -> (result: Longitude) {
        self.left_lon
    }

    fn right_lon(&self) -> (result: Longitude) {
        self.right_lon
    }
}

impl GeoTileBounds {
    #[verifier::type_invariant]
    closed spec fn inv(self) -> bool {
        self@.wf()
    }

    /// The bounds with the given edges, put in order.
    pub fn new(bot_lat: Latitude, top_lat: Latitude, left_lon: Longitude, right_lon: Longitude) -> (result: GeoTileBounds)
        ensures
            result@ == ordered_edges(bot_lat@, top_lat@, left_lon@, right_lon@),
            result@.wf(),
    {
        let bottom: i64 = bot_lat.as_microdegrees();
        let left: i64 = left_lon.as_microdegrees();
        let top = if top_lat.as_microdegrees() < bottom {
            bot_lat
        } else {
            top_lat
        };
        let right = if right_lon.as_microdegrees() < left {
            left_lon
        } else {
            right_lon
        };
        GeoTileBounds { bot_lat, top_lat: top, left_lon, right_lon: right }
    }

    /// The bounds of the grid cell that holds the point, for square cells `resolution`
    /// microdegrees wide.
    pub fn new_from_point(point: &GeoPoint, resolution: u32) -> (result: GeoTileBounds)
        requires
            resolution > 0,
        ensures
            result@ == cell_edges(point.lat@, point.lon@, resolution as int),
            result@.wf(),
    {
        let step: i64 = resolution as i64;
        let lat: i64 = point.lat.as_microdegrees();
        let lon: i64 = point.lon.as_microdegrees();
        let mut row: i64 = floor_div(lat, step);
        let mut column: i64 = floor_div(lon, step);
        proof {
            lemma_floor_index_bounds(lat as int, step as int);
            lemma_floor_index_bounds(lon as int, step as int);
            lemma_cell_edges_wf(lat as int, lon as int, step as int);
        }
        if row == floor_div(MAX_LATITUDE, step) {
            row = row - 1;
        }
        if column == floor_div(MAX_LONGITUDE, step) {
            column = column - 1;
        }
        assert(row * step + step == (row + 1) * step) by (nonlinear_arith);
        assert(column * step + step == (column + 1) * step) by (nonlinear_arith);
        let bottom: i64 = row * step;
        let left: i64 = column * step;
        GeoTileBounds {
            bot_lat: Latitude::from_microdegrees(bottom),
            top_lat: Latitude::from_microdegrees(bottom + step),
            left_lon: Longitude::nearest_to_microdegrees(left),
            right_lon: Longitude::nearest_to_microdegrees(left + step),
        }
    }
}

impl GeoTileBounds {
    /// Two bounds with the same edges are the same bounds.
    pub proof fn lemma_view_injective(self, other: GeoTileBounds)
        requires
            self@ == other@,
        ensures
            self == other,
    {
        self.bot_lat.lemma_view_injective(other.bot_lat);
        self.top_lat.lemma_view_injective(other.top_lat);
        self.left_lon.lemma_view_injective(other.left_lon);
        self.right_lon.lemma_view_injective(other.right_lon);
    }
}

/// Two positions with the same floor index on each axis lie in the same grid cell: their cells
/// have the same edges.
pub proof fn lemma_same_index_same_edges(lat_a: int, lon_a: int, lat_b: int, lon_b: int, step: int)
    requires
        step > 0,
        floor_index(lat_a, step) == floor_index(lat_b, step),
        floor_index(lon_a, step) == floor_index(lon_b, step),
    ensures
        cell_edges(lat_a, lon_a, step) == cell_edges(lat_b, lon_b, step),
{
}

/// Two points with the same floor index on each axis have the same bounds, field for field.
pub proof fn lemma_same_index_same_bounds(
    a: GeoTileBounds,
    point_a: GeoPoint,
    b: GeoTileBounds,
    point_b: GeoPoint,
    step: int,
)
    requires
        step > 0,
        a@ == cell_edges(point_a.lat@, point_a.lon@, step),
        b@ == cell_edges(point_b.lat@, point_b.lon@, step),
        floor_index(point_a.lat@, step) == floor_index(point_b.lat@, step),
        floor_index(point_a.lon@, step) == floor_index(point_b.lon@, step),
    ensures
        a == b,
{
    lemma_same_index_same_edges(point_a.lat@, point_a.lon@, point_b.lat@, point_b.lon@, step);
    a.lemma_view_injective(b);
}

/// A position strictly between the edges of a tile lies in the tile.
pub proof fn lemma_strictly_inside_is_inside(edges: Edges, lat: int, lon: int)
    requires
        edges.strictly_contains(lat, lon),
    ensures
        edges.contains(lat, lon),
{
}

/// The corner of the globe at the north pole and the eastern antimeridian lies in the last cell
/// of the grid on each axis, the one below the index at which the axis ends, and that cell does
/// not reach beyond the globe.
pub proof fn lemma_corner_in_last_cell(step: int)
    requires
        step > 0,
    ensures
        cell_edges(MAX_LATITUDE as int, MAX_LONGITUDE as int, step).wf(),
        cell_edges(MAX_LATITUDE as int, MAX_LONGITUDE as int, step).bottom == clamp_latitude(
            (floor_index(MAX_LATITUDE as int, step) - 1) * step,
        ),
        cell_edges(MAX_LATITUDE as int, MAX_LONGITUDE as int, step).top == floor_index(
            MAX_LATITUDE as int,
            step,
        ) * step,
        cell_edges(MAX_LATITUDE as int, MAX_LONGITUDE as int, step).left == clamp_longitude(
            (floor_index(MAX_LONGITUDE as int, step) - 1) * step,
        ),
        cell_edges(MAX_LATITUDE as int, MAX_LONGITUDE as int, step).right == floor_index(
            MAX_LONGITUDE as int,
            step,
        ) * step,
{
    lemma_cell_edges_wf(MAX_LATITUDE as int, MAX_LONGITUDE as int, step);
    lemma_floor_index_bounds(MAX_LATITUDE as int, step);
    lemma_floor_index_bounds(MAX_LONGITUDE as int, step);
    let rows = floor_index(MAX_LATITUDE as int, step);
    let columns = floor_index(MAX_LONGITUDE as int, step);
    assert(0 <= rows * step) by (nonlinear_arith)
        requires
            step > 0,
            (rows + 1) * step > 0,
    ;
    assert(0 <= columns * step) by (nonlinear_arith)
        requires
            step > 0,
            (columns + 1) * step > 0,
    ;
}

/// Whether cells `step` wide fill the axis that ends at `limit` exactly.
pub open spec fn divides_axis(step: int, limit: int) -> bool {
    limit % step == 0
}

/// A position on the globe lies in its own grid cell wherever, on each axis, the cells fill
/// the axis exactly or the position's floor index is below the index at which the axis ends.
pub proof fn lemma_cell_contains_position(lat: int, lon: int, step: int)
    requires
        step > 0,
        -MAX_LATITUDE <= lat <= MAX_LATITUDE,
        -MAX_LONGITUDE <= lon <= MAX_LONGITUDE,
        divides_axis(step, MAX_LATITUDE as int) || floor_index(lat, step) != floor_index(
            MAX_LATITUDE as int,
            step,
        ),
        divides_axis(step, MAX_LONGITUDE as int) || floor_index(lon, step) != floor_index(
            MAX_LONGITUDE as int,
            step,
        ),
    ensures
        cell_edges(lat, lon, step).contains(lat, lon),
{
    lemma_axis_contains(lat, step, MAX_LATITUDE as int);
    lemma_axis_contains(lon, step, MAX_LONGITUDE as int);
}

/// On one axis: the cell of a coordinate holds the coordinate.
proof fn lemma_axis_contains(coord: int, step: int, limit: int)
    requires
        step > 0,
        limit > 0,
        -limit <= coord <= limit,
        divides_axis(step, limit) || floor_index(coord, step) != floor_index(limit, step),
    ensures
        cell_index(coord, step, limit) * step <= coord,
        coord <= (cell_index(coord, step, limit) + 1) * step,
{
    lemma_floor_index_bounds(coord, step);
    lemma_floor_index_bounds(limit, step);
    let index = floor_index(coord, step);
    let end = floor_index(limit, step);
    if index == end {
        vstd::arithmetic::div_mod::lemma_fundamental_div_mod(limit, step);
        assert((end - 1) * step == end * step - step) by (nonlinear_arith);
    }
}

/// The edges of a grid cell are in order and on the globe.
pub proof fn lemma_cell_edges_wf(lat: int, lon: int, step: int)
    requires
        step > 0,
    ensures
        cell_edges(lat, lon, step).wf(),
{
    let row = cell_index(lat, step, MAX_LATITUDE as int);
    let column = cell_index(lon, step, MAX_LONGITUDE as int);
    assert(row * step <= (row + 1) * step) by (nonlinear_arith)
        requires
            step > 0,
    ;
    assert(column * step <= (column + 1) * step) by (nonlinear_arith)
        requires
            step > 0,
    ;
}

} // verus!

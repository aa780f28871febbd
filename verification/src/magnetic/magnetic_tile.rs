use vstd::prelude::*;
use crate::geo::geo_point::GeoPoint;
use crate::geo::geo_tile::{
    cell_edges, lemma_cell_contains_position, Edges, GeoTile, GeoTileBounds,
};
use crate::geo::grid::floor_index;
use crate::geo::latitude::{Latitude, MAX_LATITUDE};
use crate::geo::longitude::{Longitude, MAX_LONGITUDE};

verus! {

/// The width of a magnetic tile: a tenth of a radian, to the nearest microdegree.
pub const MAG_TILE_RES: u32 = 5_729_578;

/// The magnetic field over one cell of the globe on one day. The field itself is whatever the
/// magnetic model computes at the centre of the cell; the cache only keeps it.
#[derive(Clone, Copy, PartialEq, Debug)]
pub struct MagneticTile<F> {
    pub bounds: GeoTileBounds,
    /// The day, as its number in the calendar.
    pub date: i32,
    pub field: F,
}

impl<F> GeoTile for MagneticTile<F> {
    open spec fn edges(&self) -> Edges {
        self.bounds@
    }

    fn bottom_lat(&self) -> (result: Latitude) {
        self.bounds.bottom_lat()
    }

    fn top_lat(&self) -> (result: Latitude) {
        self.bounds.top_lat()
    }

    fn left_lon(&self) -> (result: Longitude) {
        self.bounds.left_lon()
    }

    fn right_lon(&self) -> (result: Longitude) {
        self.bounds.right_lon()
    }
}

/// The edges of the magnetic tile of a position.
pub open spec fn magnetic_edges(lat: int, lon: int) -> Edges {
    cell_edges(lat, lon, MAG_TILE_RES as int)
}

/// Whether `center` is the point at sea level midway between the edges of the magnetic tile
/// of a position, rounded down to a microdegree.
pub open spec fn is_magnetic_center(center: GeoPoint, lat: int, lon: int) -> bool {
    &&& center.lat@ == (magnetic_edges(lat, lon).bottom + magnetic_edges(lat, lon).top) / 2
    &&& center.lon@ == (magnetic_edges(lat, lon).left + magnetic_edges(lat, lon).right) / 2
    &&& center.alt == 0
}

impl<F> MagneticTile<F> {
    /// Whether the tile may serve a query for the position and the day: it covers the
    /// position and is of that day.
    pub open spec fn serves(self, lat: int, lon: int, date: i32) -> bool {
        self.bounds@.contains(lat, lon) && self.date == date
    }

    /// The point at which the field of the tile of `point` is computed.
    pub fn center_for(point: &GeoPoint) -> (result: GeoPoint)
        ensures
            is_magnetic_center(result, point.lat@, point.lon@),
    {
        GeoTileBounds::new_from_point(point, MAG_TILE_RES).center_point()
    }

    /// The tile of the cell that holds the point, on the given day, with the given field.
    pub fn new(point: &GeoPoint, date: i32, field: F) -> (result: MagneticTile<F>)
        ensures
            result.bounds@ == magnetic_edges(point.lat@, point.lon@),
            result.date == date,
            result.field == field,
    {
        MagneticTile { bounds: GeoTileBounds::new_from_point(point, MAG_TILE_RES), date, field }
    }

    /// Whether the tile may serve a query for the point and the day.
    pub fn is_valid(&self, point: &GeoPoint, date: i32) -> (result: bool)
        ensures
            result == self.serves(point.lat@, point.lon@, date),
    {
        self.is_point_in_tile(point) && self.date == date
    }
}

/// The index of the first tile at or after `from` that may serve a query for the position and
/// the day, or the number of tiles where none may.
pub open spec fn find_magnetic_from<F>(tiles: Seq<MagneticTile<F>>, lat: int, lon: int, date: i32, from: int) -> int
    decreases tiles.len() - from,
{
    if from < 0 || from >= tiles.len() {
        tiles.len() as int
    } else if tiles[from].serves(lat, lon, date) {
        from
    } else {
        find_magnetic_from(tiles, lat, lon, date, from + 1)
    }
}

/// The index of the first tile that may serve a query for the position and the day, or the
/// number of tiles where none may.
pub open spec fn find_magnetic<F>(tiles: Seq<MagneticTile<F>>, lat: int, lon: int, date: i32) -> int {
    find_magnetic_from(tiles, lat, lon, date, 0)
}

/// A cache of magnetic tiles. It grows by one tile for each query that no tile serves, and
/// never drops a tile.
#[derive(Debug)]
pub struct MagneticTileManager<F> {
    tiles: Vec<MagneticTile<F>>,
}

impl<F> View for MagneticTileManager<F> {
    type V = Seq<MagneticTile<F>>;

    closed spec fn view(&self) -> Seq<MagneticTile<F>> {
        self.tiles@
    }
}

impl<F> MagneticTileManager<F> {
    /// An empty cache.
    pub fn new() -> (result: MagneticTileManager<F>)
        ensures
            result@.len() == 0,
    {
        MagneticTileManager { tiles: Vec::new() }
    }

    /// The number of tiles in the cache.
    pub fn len(&self) -> (result: usize)
        ensures
            result == self@.len(),
    {
        self.tiles.len()
    }

    /// The tile at a place in the cache, or `None` where the cache holds fewer tiles.
    pub fn tile(&self, index: usize) -> (result: Option<&MagneticTile<F>>)
        ensures
            match result {
                Some(tile) => index < self@.len() && *tile == self@[index as int],
                None => index >= self@.len(),
            },
    {
        if index < self.tiles.len() {
            Some(&self.tiles[index])
        } else {
            None
        }
    }

    /// The place of the first tile that may serve a query for the point and the day, or
    /// `None` where no tile may.
    pub fn find_tile(&self, point: &GeoPoint, date: i32) -> (result: Option<usize>)
        ensures
            match result {
                Some(index) => index < self@.len() && index == find_magnetic(
                    self@,
                    point.lat@,
                    point.lon@,
                    date,
                ),
                None => find_magnetic(self@, point.lat@, point.lon@, date) == self@.len(),
            },
    {
        let mut index: usize = 0;
        while index < self.tiles.len()
            invariant
                index <= self.tiles@.len(),
                find_magnetic(self@, point.lat@, point.lon@, date) == find_magnetic_from(
                    self@,
                    point.lat@,
                    point.lon@,
                    date,
                    index as int,
                ),
            decreases self.tiles@.len() - index,
        {
            if self.tiles[index].is_valid(point, date) {
                return Some(index);
            }
            index = index + 1;
        }
        None
    }

    /// The place of the tile for a point and a day: the first tile that covers the point and
    /// is of that day, or, where there is none, a new tile at the end of the cache, with the
    /// field that `field_at` gives for the centre of the tile. The field is computed only
    /// where a tile is made, and the tiles that were in the cache stay as they were.
    pub fn find_or_create_tile<M: FnOnce(GeoPoint) -> F>(&mut self, point: &GeoPoint, date: i32, field_at: M) -> (result: usize)
        requires
            forall|center: GeoPoint|
                is_magnetic_center(center, point.lat@, point.lon@) ==> call_requires(
                    field_at,
                    (center,),
                ),
        ensures
            result == find_magnetic(old(self)@, point.lat@, point.lon@, date),
            result < old(self)@.len() ==> final(self)@ == old(self)@,
            result == old(self)@.len() ==> {
                &&& final(self)@.len() == old(self)@.len() + 1
                &&& final(self)@.take(old(self)@.len() as int) == old(self)@
                &&& final(self)@[result as int].bounds@ == magnetic_edges(point.lat@, point.lon@)
                &&& final(self)@[result as int].date == date
                &&& exists|center: GeoPoint|
                    is_magnetic_center(center, point.lat@, point.lon@) && call_ensures(
                        field_at,
                        (center,),
                        final(self)@[result as int].field,
                    )
            },
    {
        match self.find_tile(point, date) {
            Some(index) => index,
            None => {
                let index = self.tiles.len();
                let center = MagneticTile::<F>::center_for(point);
                let field = field_at(center);
                self.tiles.push(MagneticTile::new(point, date, field));
                index
            },
        }
    }
}

/// What a search of the cache finds: the first tile that may serve the query, or the number
/// of tiles where none may.
pub proof fn lemma_find_magnetic_from<F>(tiles: Seq<MagneticTile<F>>, lat: int, lon: int, date: i32, from: int)
    requires
        0 <= from <= tiles.len(),
    ensures
        from <= find_magnetic_from(tiles, lat, lon, date, from) <= tiles.len(),
        find_magnetic_from(tiles, lat, lon, date, from) < tiles.len() ==> tiles[find_magnetic_from(
            tiles,
            lat,
            lon,
            date,
            from,
        )].serves(lat, lon, date),
        forall|k: int|
            from <= k < find_magnetic_from(tiles, lat, lon, date, from) ==> !(#[trigger] tiles[k]).serves(
                lat,
                lon,
                date,
            ),
    decreases tiles.len() - from,
{
    if from < tiles.len() && !tiles[from].serves(lat, lon, date) {
        lemma_find_magnetic_from(tiles, lat, lon, date, from + 1);
    }
}

/// The magnetic tile of a position on the globe covers the position, unless the position lies
/// in the band along the north pole or along the eastern antimeridian that is left over by
/// cells that do not fill the axis.
pub proof fn lemma_magnetic_tile_covers(lat: int, lon: int)
    requires
        -MAX_LATITUDE <= lat <= MAX_LATITUDE,
        -MAX_LONGITUDE <= lon <= MAX_LONGITUDE,
        floor_index(lat, MAG_TILE_RES as int) != floor_index(MAX_LATITUDE as int, MAG_TILE_RES as int),
        floor_index(lon, MAG_TILE_RES as int) != floor_index(
            MAX_LONGITUDE as int,
            MAG_TILE_RES as int,
        ),
    ensures
        magnetic_edges(lat, lon).contains(lat, lon),
{
    lemma_cell_contains_position(lat, lon, MAG_TILE_RES as int);
}

/// A query asked again finds the tile of the first time, wherever the tile of the position
/// covers the position: the same place in the cache, and no new tile.
pub proof fn lemma_magnetic_same_query_same_tile<F>(
    tiles: Seq<MagneticTile<F>>,
    made: MagneticTile<F>,
    lat: int,
    lon: int,
    date: i32,
)
    requires
        magnetic_edges(lat, lon).contains(lat, lon),
        made.bounds@ == magnetic_edges(lat, lon),
        made.date == date,
    ensures
        ({
            let found = find_magnetic(tiles, lat, lon, date);
            let after = if found < tiles.len() {
                tiles
            } else {
                tiles.push(made)
            };
            &&& find_magnetic(after, lat, lon, date) == found
            &&& found < after.len()
        }),
{
    let found = find_magnetic(tiles, lat, lon, date);
    lemma_find_magnetic_from(tiles, lat, lon, date, 0);
    if found == tiles.len() {
        let after = tiles.push(made);
        lemma_find_magnetic_from(after, lat, lon, date, 0);
        assert(after[found].serves(lat, lon, date));
        assert forall|k: int| 0 <= k < found implies !(#[trigger] after[k]).serves(lat, lon, date) by {}
    }
}

} // verus!

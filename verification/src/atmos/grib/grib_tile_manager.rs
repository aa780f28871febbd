use vstd::prelude::*;
use crate::atmos::grib::grib_tile::{
    is_valid_for, tells, within_calendar, FetchAction, FetchEvent, FetchRequest, FetchState, GribTile, TileView,
    TILE_RESOLUTION,
};
use crate::geo::geo_point::GeoPoint;
use crate::geo::geo_tile::{cell_edges, lemma_cell_contains_position, lemma_cell_edges_wf, GeoTile};
use crate::geo::latitude::MAX_LATITUDE;
use crate::geo::longitude::MAX_LONGITUDE;
use crate::time::Timestamp;

verus! {

/// The index of the first tile at or after `from` that may serve a query for the position and
/// the time, or the number of tiles where none may.
pub open spec fn find_tile_from(tiles: Seq<TileView>, lat: int, lon: int, time: Timestamp, from: int) -> int
    decreases tiles.len() - from,
{
    if from < 0 || from >= tiles.len() {
        tiles.len() as int
    } else if tiles[from].serves(lat, lon, time) {
        from
    } else {
        find_tile_from(tiles, lat, lon, time, from + 1)
    }
}

/// The index of the first tile that may serve a query for the position and the time, or the
/// number of tiles where none may.
pub open spec fn find_tile(tiles: Seq<TileView>, lat: int, lon: int, time: Timestamp) -> int {
    find_tile_from(tiles, lat, lon, time, 0)
}

/// The tile that is made for a query that no tile serves, before its fetch is dispatched.
pub open spec fn fresh_tile(lat: int, lon: int, time: Timestamp, download_path: Seq<char>) -> TileView {
    TileView {
        edges: cell_edges(lat, lon, TILE_RESOLUTION as int),
        forecast: time,
        download_path,
        state: FetchState::Pending,
        samples: Seq::empty(),
    }
}

/// The tile that is made for a query that no tile serves, with its fetch dispatched.
pub open spec fn dispatched_tile(lat: int, lon: int, time: Timestamp, download_path: Seq<char>) -> TileView {
    fresh_tile(lat, lon, time, download_path).advanced(FetchEvent::Dispatched)
}

/// The tiles of a cache after a query: the same tiles where one of them serves the query, and
/// otherwise the same tiles and, after them, a tile made for the query.
pub open spec fn tiles_after_query(
    tiles: Seq<TileView>,
    lat: int,
    lon: int,
    time: Timestamp,
    download_path: Seq<char>,
) -> Seq<TileView> {
    if find_tile(tiles, lat, lon, time) < tiles.len() {
        tiles
    } else {
        tiles.push(dispatched_tile(lat, lon, time, download_path))
    }
}

/// A weather cache as contracts see it.
pub ghost struct ManagerView {
    pub tiles: Seq<TileView>,
    pub download_path: Seq<char>,
}

/// What a query to the cache returns.
#[derive(PartialEq, Eq, Debug)]
pub struct TileHandle {
    /// The place of the tile in the cache; it names the same tile for as long as the cache
    /// lives.
    pub index: usize,
    /// Whether the tile was made for this query.
    pub created: bool,
    /// What to fetch, where the tile was made for this query and a request can be made.
    pub request: Option<FetchRequest>,
}

/// A cache of weather tiles. It grows by one tile for each query that no tile serves, and
/// never drops a tile.
#[derive(Debug)]
pub struct GribTileManager {
    tiles: Vec<GribTile>,
    download_path: String,
}

impl View for GribTileManager {
    type V = ManagerView;

    closed spec fn view(&self) -> ManagerView {
        ManagerView {
            tiles: Seq::new(self.tiles@.len(), |i: int| self.tiles@[i]@),
            download_path: self.download_path@,
        }
    }
}

impl GribTileManager {
    /// An empty cache that keeps its payloads under the given directory.
    pub fn new(download_path: &str) -> (result: GribTileManager)
        ensures
            result@.tiles.len() == 0,
            result@.download_path == download_path@,
    {
        GribTileManager { tiles: Vec::new(), download_path: download_path.to_owned() }
    }

    /// The number of tiles in the cache.
    pub fn len(&self) -> (result: usize)
        ensures
            result == self@.tiles.len(),
    {
        self.tiles.len()
    }

    /// The tile at a place in the cache, or `None` where the cache holds fewer tiles.
    pub fn tile(&self, index: usize) -> (result: Option<&GribTile>)
        ensures
            match result {
                Some(tile) => index < self@.tiles.len() && tile@ == self@.tiles[index as int],
                None => index >= self@.tiles.len(),
            },
    {
        if index < self.tiles.len() {
            Some(&self.tiles[index])
        } else {
            None
        }
    }

    /// The place of the first tile that may serve a query for the point and the time, or the
    /// number of tiles where none may.
    fn find(&self, point: &GeoPoint, date: &Timestamp) -> (result: usize)
        ensures
            result == find_tile(self@.tiles, point.lat@, point.lon@, *date),
            result <= self@.tiles.len(),
    {
        let mut index: usize = 0;
        while index < self.tiles.len()
            invariant
                index <= self.tiles@.len(),
                find_tile(self@.tiles, point.lat@, point.lon@, *date) == find_tile_from(
                    self@.tiles,
                    point.lat@,
                    point.lon@,
                    *date,
                    index as int,
                ),
            decreases self.tiles@.len() - index,
        {
            let tile = &self.tiles[index];
            if tile.is_valid(date) && tile.is_point_in_tile(point) {
                return index;
            }
            index = index + 1;
        }
        index
    }

    /// The tile for a point and a time: the first tile that covers the point and whose time
    /// lies less than an hour from the given one, or, where there is none, a new tile at the
    /// end of the cache, made for the query, with its fetch dispatched. The tiles that were
    /// in the cache stay as they were.
    pub fn find_or_create_tile(&mut self, point: &GeoPoint, date: &Timestamp) -> (result: TileHandle)
        ensures
            final(self)@.download_path == old(self)@.download_path,
            final(self)@.tiles == tiles_after_query(
                old(self)@.tiles,
                point.lat@,
                point.lon@,
                *date,
                old(self)@.download_path,
            ),
            result.index == find_tile(old(self)@.tiles, point.lat@, point.lon@, *date),
            result.index < final(self)@.tiles.len(),
            result.created == (result.index == old(self)@.tiles.len()),
            match result.request {
                Some(request) => {
                    &&& result.created
                    &&& final(self)@.tiles[result.index as int].file_name() == Some(
                        request.file_name@,
                    )
                    &&& final(self)@.tiles[result.index as int].download_url() == Some(request.url@)
                },
                None => !result.created || final(self)@.tiles[result.index as int].file_name().is_none(),
            },
            result.created && within_calendar(*date) ==> result.request.is_some(),
    {
        let index = self.find(point, date);
        if index < self.tiles.len() {
            return TileHandle { index, created: false, request: None };
        }
        let mut tile = GribTile::new(point, date, self.download_path.as_str());
        let action = tile.advance(FetchEvent::Dispatched);
        self.tiles.push(tile);
        let request = match action {
            FetchAction::Download(request) => Some(request),
            _ => None,
        };
        TileHandle { index, created: true, request }
    }

    /// Takes an event of the fetch into the tile at a place in the cache and says what the
    /// worker is to do next. No other tile changes, and where the cache holds fewer tiles
    /// nothing changes and nothing is to be done.
    pub fn advance_tile(&mut self, index: usize, event: FetchEvent) -> (action: FetchAction)
        ensures
            final(self)@.download_path == old(self)@.download_path,
            index < old(self)@.tiles.len() ==> final(self)@.tiles == old(self)@.tiles.update(
                index as int,
                old(self)@.tiles[index as int].advanced(event),
            ) && tells(old(self)@.tiles[index as int], event, action),
            index >= old(self)@.tiles.len() ==> final(self)@ == old(self)@ && action
                == FetchAction::Idle,
    {
        if index >= self.tiles.len() {
            return FetchAction::Idle;
        }
        let tile = &mut self.tiles[index];
        let action = tile.advance(event);
        action
    }
}

/// What a search of the cache finds: the first tile that may serve the query, or the number
/// of tiles where none may.
pub proof fn lemma_find_tile_from(tiles: Seq<TileView>, lat: int, lon: int, time: Timestamp, from: int)
    requires
        0 <= from <= tiles.len(),
    ensures
        from <= find_tile_from(tiles, lat, lon, time, from) <= tiles.len(),
        find_tile_from(tiles, lat, lon, time, from) < tiles.len() ==> tiles[find_tile_from(
            tiles,
            lat,
            lon,
            time,
            from,
        )].serves(lat, lon, time),
        forall|k: int|
            from <= k < find_tile_from(tiles, lat, lon, time, from) ==> !(#[trigger] tiles[k]).serves(
                lat,
                lon,
                time,
            ),
    decreases tiles.len() - from,
{
    if from < tiles.len() && !tiles[from].serves(lat, lon, time) {
        lemma_find_tile_from(tiles, lat, lon, time, from + 1);
    }
}

/// The index `index` is what a search finds where the tile there may serve the query and no
/// tile before it may.
pub proof fn lemma_find_tile_is(tiles: Seq<TileView>, lat: int, lon: int, time: Timestamp, index: int)
    requires
        0 <= index < tiles.len(),
        tiles[index].serves(lat, lon, time),
        forall|k: int| 0 <= k < index ==> !(#[trigger] tiles[k]).serves(lat, lon, time),
    ensures
        find_tile(tiles, lat, lon, time) == index,
{
    lemma_find_tile_from(tiles, lat, lon, time, 0);
}

/// The tile made for a query on the globe serves that query, and every query for the same
/// position at a time less than an hour from it.
pub proof fn lemma_new_tile_serves_its_query(
    lat: int,
    lon: int,
    time: Timestamp,
    later: Timestamp,
    download_path: Seq<char>,
)
    requires
        -MAX_LATITUDE <= lat <= MAX_LATITUDE,
        -MAX_LONGITUDE <= lon <= MAX_LONGITUDE,
        is_valid_for(time, later),
    ensures
        dispatched_tile(lat, lon, time, download_path).serves(lat, lon, time),
        dispatched_tile(lat, lon, time, download_path).serves(lat, lon, later),
        dispatched_tile(lat, lon, time, download_path).wf(),
{
    lemma_cell_contains_position(lat, lon, TILE_RESOLUTION as int);
    lemma_cell_edges_wf(lat, lon, TILE_RESOLUTION as int);
}

/// A query asked again finds the tile of the first time: the same place in the cache, no new
/// tile and so no second fetch.
pub proof fn lemma_same_query_same_tile(
    tiles: Seq<TileView>,
    lat: int,
    lon: int,
    time: Timestamp,
    download_path: Seq<char>,
)
    requires
        -MAX_LATITUDE <= lat <= MAX_LATITUDE,
        -MAX_LONGITUDE <= lon <= MAX_LONGITUDE,
    ensures
        ({
            let after = tiles_after_query(tiles, lat, lon, time, download_path);
            &&& find_tile(after, lat, lon, time) == find_tile(tiles, lat, lon, time)
            &&& find_tile(after, lat, lon, time) < after.len()
            &&& tiles_after_query(after, lat, lon, time, download_path) == after
        }),
{
    let after = tiles_after_query(tiles, lat, lon, time, download_path);
    let index = find_tile(tiles, lat, lon, time);
    lemma_find_tile_from(tiles, lat, lon, time, 0);
    if index == tiles.len() {
        lemma_new_tile_serves_its_query(lat, lon, time, time, download_path);
        assert forall|k: int| 0 <= k < index implies !(#[trigger] after[k]).serves(lat, lon, time) by {}
        lemma_find_tile_is(after, lat, lon, time, index);
    }
}

/// An event of a fetch changes neither the bounds nor the time of a tile, so a tile serves
/// the same queries whatever has become of its fetch.
pub proof fn lemma_fetch_keeps_what_a_tile_serves(tile: TileView, event: FetchEvent, lat: int, lon: int, time: Timestamp)
    ensures
        tile.advanced(event).serves(lat, lon, time) == tile.serves(lat, lon, time),
{
}

/// An event of a fetch changes nothing in what a search of the cache finds: a query meets the
/// same tile before the fetch has finished and after it.
pub proof fn lemma_fetch_keeps_the_search(
    tiles: Seq<TileView>,
    index: int,
    event: FetchEvent,
    lat: int,
    lon: int,
    time: Timestamp,
    from: int,
)
    requires
        0 <= index < tiles.len(),
        0 <= from <= tiles.len(),
    ensures
        find_tile_from(tiles.update(index, tiles[index].advanced(event)), lat, lon, time, from)
            == find_tile_from(tiles, lat, lon, time, from),
    decreases tiles.len() - from,
{
    if from < tiles.len() {
        lemma_fetch_keeps_what_a_tile_serves(tiles[index], event, lat, lon, time);
        if !tiles[from].serves(lat, lon, time) {
            lemma_fetch_keeps_the_search(tiles, index, event, lat, lon, time, from + 1);
        }
    }
}

/// In a cache that was empty, a second query for the same position at a time less than an
/// hour from the first finds the tile of the first: no new tile and no second fetch.
pub proof fn lemma_nearby_query_same_tile(
    lat: int,
    lon: int,
    time: Timestamp,
    later: Timestamp,
    download_path: Seq<char>,
)
    requires
        -MAX_LATITUDE <= lat <= MAX_LATITUDE,
        -MAX_LONGITUDE <= lon <= MAX_LONGITUDE,
        is_valid_for(time, later),
    ensures
        ({
            let after = tiles_after_query(Seq::empty(), lat, lon, time, download_path);
            &&& after.len() == 1
            &&& find_tile(after, lat, lon, later) == 0
            &&& tiles_after_query(after, lat, lon, later, download_path) == after
        }),
{
    let after = tiles_after_query(Seq::empty(), lat, lon, time, download_path);
    lemma_new_tile_serves_its_query(lat, lon, time, later, download_path);
    lemma_find_tile_is(after, lat, lon, later, 0);
}

} // verus!

use vstd::prelude::*;
use crate::atmos::grib::grib_data_point::GribDataPoint;
use crate::atmos::grib::grib_decoder::extract_data_points;
use crate::atmos::grib::grib_message::{decoded_points, GribMessage};
use crate::atmos::grib::grib_request::{
    download_url_for, download_url_text, file_name_for, file_name_text,
};
use crate::geo::geo_point::GeoPoint;
use crate::geo::geo_tile::{cell_edges, lemma_cell_contains_position, Edges, GeoTile, GeoTileBounds};
use crate::geo::latitude::Latitude;
use crate::geo::longitude::Longitude;
use crate::time::{
    date_stamp, hour_of_day, utc_date_stamp, utc_hour, Timestamp, LAST_SECOND_OF_YEAR_9999,
};

verus! {

/// The width of a weather tile: one degree, in microdegrees.
pub const TILE_RESOLUTION: u32 = 1_000_000;

/// How long before the time of a tile its forecast cycle lies at the least: six hours, in
/// seconds.
pub const CYCLE_LEAD_SECONDS: i64 = 21_600;

/// The hours between two forecast cycles.
pub const HOURS_PER_CYCLE: u32 = 6;

/// How far from the time of a tile a query may lie and still use the tile: one hour, in
/// nanoseconds.
pub const VALIDITY_WINDOW_NANOS: i128 = 3_600_000_000_000;

/// How far the fetch of a tile has come.
#[derive(Clone, Copy, PartialEq, Eq, Structural, Debug)]
pub enum FetchState {
    /// The fetch has not been handed to a worker.
    Pending,
    /// The payload is on its way.
    Downloading,
    /// The payload is here and is being decoded.
    Decoding,
    /// The samples are published.
    Ready,
    /// The fetch has failed; the tile stays empty.
    Failed,
}

/// What a worker needs to fetch the payload of a tile.
#[derive(PartialEq, Eq, Debug)]
pub struct FetchRequest {
    /// The name of the file to which the payload goes, inside the download directory.
    pub file_name: String,
    /// The address from which the payload comes.
    pub url: String,
}

/// What has happened to the fetch of a tile.
#[derive(Debug)]
pub enum FetchEvent {
    /// The fetch was handed to a worker.
    Dispatched,
    /// The payload was written to its file.
    Downloaded,
    /// The payload was read; these are its messages.
    Decoded(Vec<GribMessage>),
    /// The transport, the file system or the payload's format failed.
    Failed,
}

/// What the worker is to do next.
#[derive(PartialEq, Eq, Debug)]
pub enum FetchAction {
    /// Nothing.
    Idle,
    /// Remove any file of that name, fetch the payload and write it to the file.
    Download(FetchRequest),
    /// Read the messages of the payload.
    Decode,
}

/// What a tile answers when asked for the sample nearest to a point.
#[derive(Clone, Copy, PartialEq, Eq, Debug)]
pub enum Lookup {
    /// The fetch has not finished.
    NotReady,
    /// The fetch has finished and the tile holds no sample.
    Unavailable,
    /// The nearest sample.
    Found(GribDataPoint),
}

/// Whether a fetch in this state has finished.
pub open spec fn is_settled(state: FetchState) -> bool {
    state == FetchState::Ready || state == FetchState::Failed
}

/// The start of the six hours before the time of a tile, in seconds since the start of 1970.
pub open spec fn cycle_window_start(forecast: Timestamp) -> int {
    forecast.secs - CYCLE_LEAD_SECONDS
}

/// The forecast cycle of a tile: the last hour divisible by six at or before the hour that
/// lies six hours before the time of the tile.
pub open spec fn cycle_of(forecast: Timestamp) -> int {
    hour_of_day(cycle_window_start(forecast)) / 6 * 6
}

/// The forecast hour of a tile: the hours from its forecast cycle to the hour of its time.
pub open spec fn forecast_hour_of(forecast: Timestamp) -> int {
    hour_of_day(cycle_window_start(forecast)) - cycle_of(forecast) + 6
}

/// The date stamp of the day on which the forecast cycle of a tile lies, where the calendar
/// reaches it.
pub open spec fn cycle_date_stamp(forecast: Timestamp) -> Option<Seq<char>> {
    if cycle_window_start(forecast) < i64::MIN {
        None
    } else {
        utc_date_stamp(cycle_window_start(forecast))
    }
}

/// Whether the time of a tile lies between six hours into 1970 and the end of the year 9999, so
/// that the calendar is sure to reach its forecast cycle.
pub open spec fn within_calendar(forecast: Timestamp) -> bool {
    CYCLE_LEAD_SECONDS <= forecast.secs <= LAST_SECOND_OF_YEAR_9999
}

/// Whether a tile for the time `forecast` may serve a query for `time`: the two lie less than
/// an hour apart.
pub open spec fn is_valid_for(forecast: Timestamp, time: Timestamp) -> bool {
    vstd::math::abs(forecast.total_nanos() - time.total_nanos()) < VALIDITY_WINDOW_NANOS
}

/// The index of the first least distance among the first `count`, or 0 where `count` is below
/// two.
pub open spec fn first_minimum_upto(distances: Seq<u64>, count: int) -> int
    decreases count,
{
    if count <= 1 {
        0
    } else {
        let best = first_minimum_upto(distances, count - 1);
        if distances[count - 1] < distances[best] {
            count - 1
        } else {
            best
        }
    }
}

/// The index of the first least distance.
pub open spec fn first_minimum(distances: Seq<u64>) -> int {
    first_minimum_upto(distances, distances.len() as int)
}

/// A tile as contracts see it.
pub ghost struct TileView {
    pub edges: Edges,
    pub forecast: Timestamp,
    pub download_path: Seq<char>,
    pub state: FetchState,
    pub samples: Seq<GribDataPoint>,
}

impl TileView {
    /// Whether the tile holds samples only once its fetch has succeeded.
    pub open spec fn wf(self) -> bool {
        &&& self.edges.wf()
        &&& self.state != FetchState::Ready ==> self.samples.len() == 0
    }

    /// The file name of the payload, where the calendar reaches the forecast cycle.
    pub open spec fn file_name(self) -> Option<Seq<char>> {
        match cycle_date_stamp(self.forecast) {
            Some(stamp) => Some(
                file_name_text(
                    stamp,
                    cycle_of(self.forecast) as nat,
                    forecast_hour_of(self.forecast) as nat,
                    self.edges,
                ),
            ),
            None => None,
        }
    }

    /// The address of the payload, where the calendar reaches the forecast cycle.
    pub open spec fn download_url(self) -> Option<Seq<char>> {
        match cycle_date_stamp(self.forecast) {
            Some(stamp) => Some(
                download_url_text(
                    stamp,
                    cycle_of(self.forecast) as nat,
                    forecast_hour_of(self.forecast) as nat,
                    self.edges,
                ),
            ),
            None => None,
        }
    }

    /// Whether the tile may serve a query for the position and the time.
    pub open spec fn serves(self, lat: int, lon: int, time: Timestamp) -> bool {
        is_valid_for(self.forecast, time) && self.edges.contains(lat, lon)
    }

    /// The state of the fetch after an event. A fetch moves from pending through downloading
    /// and decoding to ready, one step for each event in its turn, and to failed on a failure
    /// or where no request can be made; a finished fetch stays as it is, and an event out of
    /// turn changes nothing.
    pub open spec fn state_after(self, event: FetchEvent) -> FetchState {
        match (self.state, event) {
            (FetchState::Pending, FetchEvent::Dispatched) => {
                if self.file_name().is_some() {
                    FetchState::Downloading
                } else {
                    FetchState::Failed
                }
            },
            (FetchState::Downloading, FetchEvent::Downloaded) => FetchState::Decoding,
            (FetchState::Decoding, FetchEvent::Decoded(_)) => FetchState::Ready,
            (FetchState::Pending, FetchEvent::Failed) => FetchState::Failed,
            (FetchState::Downloading, FetchEvent::Failed) => FetchState::Failed,
            (FetchState::Decoding, FetchEvent::Failed) => FetchState::Failed,
            _ => self.state,
        }
    }

    /// The samples after an event: those that the messages decode to where decoding ends, and
    /// otherwise the samples that were there.
    pub open spec fn samples_after(self, event: FetchEvent) -> Seq<GribDataPoint> {
        match (self.state, event) {
            (FetchState::Decoding, FetchEvent::Decoded(messages)) => decoded_points(messages@),
            _ => self.samples,
        }
    }

    /// The tile after an event.
    pub open spec fn advanced(self, event: FetchEvent) -> TileView {
        TileView {
            state: self.state_after(event),
            samples: self.samples_after(event),
            ..self
        }
    }

    /// What a lookup answers for the given distances, one for each sample.
    pub open spec fn lookup(self, distances: Seq<u64>) -> Lookup {
        if !is_settled(self.state) {
            Lookup::NotReady
        } else if self.samples.len() == 0 {
            Lookup::Unavailable
        } else {
            Lookup::Found(self.samples[first_minimum(distances)])
        }
    }
}

/// Whether `action` is what the worker is told after `event` reaches a tile: to download,
/// with the tile's file name and address, exactly where the fetch was pending, is dispatched
/// and a request can be made; to decode exactly where the download has ended; and otherwise
/// nothing.
pub open spec fn tells(before: TileView, event: FetchEvent, action: FetchAction) -> bool {
    match action {
        FetchAction::Download(request) => {
            &&& before.state == FetchState::Pending
            &&& event == FetchEvent::Dispatched
            &&& before.file_name() == Some(request.file_name@)
            &&& before.download_url() == Some(request.url@)
        },
        FetchAction::Decode => {
            &&& before.state == FetchState::Downloading
            &&& event == FetchEvent::Downloaded
        },
        FetchAction::Idle => {
            &&& !(before.state == FetchState::Pending && event == FetchEvent::Dispatched
                && before.file_name().is_some())
            &&& !(before.state == FetchState::Downloading && event == FetchEvent::Downloaded)
        },
    }
}

/// The index of the first least of the distances, or `None` where there are none.
pub fn first_minimum_index(distances: &Vec<u64>) -> (result: Option<usize>)
    ensures
        match result {
            Some(index) => distances@.len() > 0 && index == first_minimum(distances@),
            None => distances@.len() == 0,
        },
{
    if distances.len() == 0 {
        return None;
    }
    let mut best: usize = 0;
    let mut index: usize = 1;
    while index < distances.len()
        invariant
            1 <= index <= distances@.len(),
            best < index,
            best == first_minimum_upto(distances@, index as int),
        decreases distances@.len() - index,
    {
        if distances[index] < distances[best] {
            best = index;
        }
        index = index + 1;
    }
    Some(best)
}

/// The first least distance is a least distance, and every distance before it is greater.
pub proof fn lemma_first_minimum(distances: Seq<u64>, count: int)
    requires
        1 <= count <= distances.len(),
    ensures
        0 <= first_minimum_upto(distances, count) < count,
        forall|k: int|
            0 <= k < count ==> distances[first_minimum_upto(distances, count)] <= #[trigger] distances[k],
        forall|k: int|
            0 <= k < first_minimum_upto(distances, count) ==> distances[first_minimum_upto(
                distances,
                count,
            )] < #[trigger] distances[k],
    decreases count,
{
    if count > 1 {
        lemma_first_minimum(distances, count - 1);
    }
}

/// A lookup answers that the tile is not ready exactly while the fetch has not finished; once
/// it has, the answer is a sample of the tile, or that none is available where the tile is
/// empty.
pub proof fn lemma_lookup_follows_the_fetch(tile: TileView, distances: Seq<u64>)
    requires
        tile.wf(),
        distances.len() == tile.samples.len(),
    ensures
        !is_settled(tile.state) <==> tile.lookup(distances) == Lookup::NotReady,
        tile.samples.len() == 0 && is_settled(tile.state) <==> tile.lookup(distances)
            == Lookup::Unavailable,
        tile.samples.len() > 0 ==> exists|i: int|
            0 <= i < tile.samples.len() && tile.lookup(distances) == Lookup::Found(tile.samples[i]),
{
    if tile.samples.len() > 0 {
        lemma_first_minimum(distances, distances.len() as int);
        let i = first_minimum(distances);
        assert(0 <= i < tile.samples.len() && tile.lookup(distances) == Lookup::Found(tile.samples[i]));
    }
}

/// A finished fetch is final: no event changes the state or the samples of a tile whose fetch
/// is ready or has failed, so a fetch never restarts.
pub proof fn lemma_settled_tile_never_changes(tile: TileView, event: FetchEvent)
    requires
        is_settled(tile.state),
    ensures
        tile.advanced(event) == tile,
{
}

/// The samples of a tile change at most once: an event changes them only where it ends
/// decoding, and then the tile had none and is ready.
pub proof fn lemma_samples_are_published_once(tile: TileView, event: FetchEvent)
    requires
        tile.wf(),
    ensures
        tile.advanced(event).wf(),
        tile.advanced(event).samples != tile.samples ==> {
            &&& tile.state == FetchState::Decoding
            &&& tile.samples.len() == 0
            &&& tile.advanced(event).state == FetchState::Ready
        },
{
}

/// One entry of the weather cache: a one-degree cell of the globe at a forecast time, the
/// state of its fetch, and the samples that the fetch brought.
#[derive(Debug)]
pub struct GribTile {
    bounds: GeoTileBounds,
    data_points: Vec<GribDataPoint>,
    forecast_date_utc: Timestamp,
    download_path: String,
    state: FetchState,
}

impl View for GribTile {
    type V = TileView;

    closed spec fn view(&self) -> TileView {
        TileView {
            edges: self.bounds@,
            forecast: self.forecast_date_utc,
            download_path: self.download_path@,
            state: self.state,
            samples: self.data_points@,
        }
    }
}

impl GeoTile for GribTile {
    open spec fn edges(&self) -> Edges {
        self@.edges
    }

    fn bottom_lat(&self) -> (result: Latitude) {
        self.bounds.bottom_lat()
    }

    fn top_lat(&self) -> (result: Latitude) {
        self.bounds.top_lat()
    }

    fn left_lon(&self) -> (result: Longitude) {
        self.bounds.left_lon()
    }

    fn right_lon(&self) -> (result: Longitude) {
        self.bounds.right_lon()
    }
}

impl GribTile {
    #[verifier::type_invariant]
    closed spec fn inv(self) -> bool {
        self@.wf()
    }

    /// A tile for the one-degree cell that holds the point, at the given time, whose fetch is
    /// pending. The tile covers the point.
    pub fn new(point: &GeoPoint, date_time: &Timestamp, download_path: &str) -> (result: GribTile)
        ensures
            result@ == (TileView {
                edges: cell_edges(point.lat@, point.lon@, TILE_RESOLUTION as int),
                forecast: *date_time,
                download_path: download_path@,
                state: FetchState::Pending,
                samples: Seq::empty(),
            }),
            result@.wf(),
            result@.edges.contains(point.lat@, point.lon@),
    {
        let lat: i64 = point.lat.as_microdegrees();
        let lon: i64 = point.lon.as_microdegrees();
        proof {
            lemma_cell_contains_position(lat as int, lon as int, TILE_RESOLUTION as int);
        }
        let tile = GribTile {
            bounds: GeoTileBounds::new_from_point(point, TILE_RESOLUTION),
            data_points: Vec::new(),
            forecast_date_utc: *date_time,
            download_path: download_path.to_owned(),
            state: FetchState::Pending,
        };
        tile
    }

    /// The bounds of the tile.
    pub fn bounds(&self) -> (result: GeoTileBounds)
        ensures
            result@ == self@.edges,
    {
        self.bounds
    }

    /// The time that the data of the tile stands for.
    pub fn forecast_date_utc(&self) -> (result: Timestamp)
        ensures
            result == self@.forecast,
    {
        self.forecast_date_utc
    }

    /// The directory under which the payload of the tile is kept.
    pub fn download_path(&self) -> (result: &String)
        ensures
            result@ == self@.download_path,
    {
        &self.download_path
    }

    /// How far the fetch of the tile has come.
    pub fn state(&self) -> (result: FetchState)
        ensures
            result == self@.state,
            self@.wf(),
    {
        proof {
            use_type_invariant(self);
        }
        self.state
    }

    /// The samples of the tile: none until its fetch has succeeded.
    pub fn data_points(&self) -> (result: &Vec<GribDataPoint>)
        ensures
            result@ == self@.samples,
            self@.wf(),
    {
        proof {
            use_type_invariant(self);
        }
        &self.data_points
    }

    /// The hour of the day that lies six hours before the time of the tile.
    fn cycle_window_hour(&self) -> (result: u32)
        ensures
            result == hour_of_day(cycle_window_start(self@.forecast)),
            result < 24,
    {
        let hour: u32 = utc_hour(self.forecast_date_utc.secs);
        (hour + 18) % 24
    }

    /// The forecast cycle of the tile.
    pub fn cycle(&self) -> (result: i16)
        ensures
            result == cycle_of(self@.forecast),
            result == 0 || result == 6 || result == 12 || result == 18,
    {
        let hour: u32 = self.cycle_window_hour();
        (hour / HOURS_PER_CYCLE * HOURS_PER_CYCLE) as i16
    }

    /// The forecast hour of the tile.
    pub fn forecast_hour(&self) -> (result: i16)
        ensures
            result == forecast_hour_of(self@.forecast),
            6 <= result <= 11,
    {
        let hour: u32 = self.cycle_window_hour();
        let cycle: u32 = hour / HOURS_PER_CYCLE * HOURS_PER_CYCLE;
        (hour - cycle + HOURS_PER_CYCLE) as i16
    }

    /// The date stamp of the day on which the forecast cycle lies, where the calendar reaches
    /// it.
    fn cycle_stamp(&self) -> (result: Option<String>)
        ensures
            match result {
                Some(text) => cycle_date_stamp(self@.forecast) == Some(text@),
                None => cycle_date_stamp(self@.forecast).is_none(),
            },
            within_calendar(self@.forecast) ==> result.is_some(),
    {
        if self.forecast_date_utc.secs < i64::MIN + CYCLE_LEAD_SECONDS {
            None
        } else {
            date_stamp(self.forecast_date_utc.secs - CYCLE_LEAD_SECONDS)
        }
    }

    /// The name of the file that holds the payload of the tile, inside the download
    /// directory, or `None` where the calendar does not reach the forecast cycle. A tile for
    /// a time from six hours into 1970 to the end of 9999 has a file name.
    pub fn grib_file_name(&self) -> (result: Option<String>)
        ensures
            match result {
                Some(name) => self@.file_name() == Some(name@),
                None => self@.file_name().is_none(),
            },
            within_calendar(self@.forecast) ==> result.is_some(),
    {
        match self.cycle_stamp() {
            Some(stamp) => Some(
                file_name_for(
                    stamp.as_str(),
                    self.cycle() as u32,
                    self.forecast_hour() as u32,
                    &self.bounds,
                ),
            ),
            None => None,
        }
    }

    /// The address from which the payload of the tile is fetched, or `None` where the
    /// calendar does not reach the forecast cycle. A tile for a time from six hours into 1970
    /// to the end of 9999 has an address.
    pub fn download_url(&self) -> (result: Option<String>)
        ensures
            match result {
                Some(url) => self@.download_url() == Some(url@),
                None => self@.download_url().is_none(),
            },
            within_calendar(self@.forecast) ==> result.is_some(),
    {
        match self.cycle_stamp() {
            Some(stamp) => Some(
                download_url_for(
                    stamp.as_str(),
                    self.cycle() as u32,
                    self.forecast_hour() as u32,
                    &self.bounds,
                ),
            ),
            None => None,
        }
    }

    /// Whether the tile may serve a query for the given time: the time lies less than an hour
    /// from the time of the tile.
    pub fn is_valid(&self, date_time: &Timestamp) -> (result: bool)
        ensures
            result == is_valid_for(self@.forecast, *date_time),
    {
        self.forecast_date_utc.nanos_between(date_time) < VALIDITY_WINDOW_NANOS
    }

    /// Takes an event of the fetch into the tile and says what the worker is to do next. The
    /// worker downloads once the fetch is dispatched and a request can be made, decodes once
    /// the payload is here, and otherwise does nothing. The samples go from none to all in
    /// the one step that ends decoding.
    pub fn advance(&mut self, event: FetchEvent) -> (action: FetchAction)
        ensures
            final(self)@ == old(self)@.advanced(event),
            final(self)@.wf(),
            tells(old(self)@, event, action),
            old(self)@.state == FetchState::Pending && event == FetchEvent::Dispatched
                && within_calendar(old(self)@.forecast) ==> matches!(action, FetchAction::Download(_)),
    {
        proof {
            use_type_invariant(&*self);
        }
        match (self.state, event) {
            (FetchState::Pending, FetchEvent::Dispatched) => {
                match (self.grib_file_name(), self.download_url()) {
                    (Some(file_name), Some(url)) => {
                        self.state = FetchState::Downloading;
                        FetchAction::Download(FetchRequest { file_name, url })
                    },
                    _ => {
                        self.state = FetchState::Failed;
                        FetchAction::Idle
                    },
                }
            },
            (FetchState::Downloading, FetchEvent::Downloaded) => {
                self.state = FetchState::Decoding;
                FetchAction::Decode
            },
            (FetchState::Decoding, FetchEvent::Decoded(messages)) => {
                self.state = FetchState::Ready;
                self.data_points = extract_data_points(&messages);
                FetchAction::Idle
            },
            (FetchState::Pending, FetchEvent::Failed) => {
                self.state = FetchState::Failed;
                FetchAction::Idle
            },
            (FetchState::Downloading, FetchEvent::Failed) => {
                self.state = FetchState::Failed;
                FetchAction::Idle
            },
            (FetchState::Decoding, FetchEvent::Failed) => {
                self.state = FetchState::Failed;
                FetchAction::Idle
            },
            _ => FetchAction::Idle,
        }
    }

    /// The sample nearest to a point, given the distance from the point to each sample of the
    /// tile in the order of the samples; a smaller number is nearer. Before the fetch has
    /// finished the answer is that the tile is not ready. After it, the answer is the first
    /// of the nearest samples, or that none is available where the tile is empty.
    pub fn closest_point(&self, distances: &Vec<u64>) -> (result: Lookup)
        requires
            distances@.len() == self@.samples.len(),
        ensures
            result == self@.lookup(distances@),
    {
        proof {
            use_type_invariant(self);
        }
        match self.state {
            FetchState::Ready | FetchState::Failed => {
                match first_minimum_index(distances) {
                    Some(index) => {
                        proof {
                            lemma_first_minimum(distances@, distances@.len() as int);
                        }
                        Lookup::Found(self.data_points[index])
                    },
                    None => Lookup::Unavailable,
                }
            },
            _ => Lookup::NotReady,
        }
    }
}

} // verus!

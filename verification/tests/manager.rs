use aviation_calc_util::atmos::grib::grib_message::{GribCell, GribLevel, GribMessage};
use aviation_calc_util::atmos::grib::grib_tile::{
    FetchAction, FetchEvent, FetchRequest, FetchState, Lookup,
};
use aviation_calc_util::atmos::grib::grib_tile_manager::GribTileManager;
use aviation_calc_util::geo::geo_point::GeoPoint;
use aviation_calc_util::geo::geo_tile::GeoTile;
use aviation_calc_util::geo::latitude::Latitude;
use aviation_calc_util::geo::longitude::Longitude;
use aviation_calc_util::time::Timestamp;

const NOON: i64 = 1_704_810_600;

fn point(lat: i64, lon: i64) -> GeoPoint {
    GeoPoint::new(Latitude::from_microdegrees(lat), Longitude::from_microdegrees(lon), 0)
}

fn at(secs: i64) -> Timestamp {
    Timestamp::new(secs, 0)
}

fn payload() -> Vec<GribMessage> {
    vec![GribMessage {
        level: Some(GribLevel { surface_type: 100, scaled_value: 50_000 }),
        parameter_category: Some(0),
        parameter_number: Some(0),
        cells: vec![GribCell {
            lat: Latitude::from_microdegrees(0),
            lon: Longitude::from_microdegrees(0),
            value: 250.0f32.to_bits(),
        }],
    }]
}

#[test]
fn a_new_cache_is_empty() {
    let manager = GribTileManager::new("gribtiles");
    assert_eq!(manager.len(), 0);
    assert!(manager.tile(0).is_none());
}

#[test]
fn the_first_query_makes_a_tile_and_dispatches_its_fetch() {
    let mut manager = GribTileManager::new("gribtiles");
    let handle = manager.find_or_create_tile(&point(54_663_158, -6_196_602), &at(NOON));
    assert_eq!(handle.index, 0);
    assert!(handle.created);
    assert_eq!(manager.len(), 1);
    let tile = manager.tile(0).unwrap();
    assert_eq!(tile.state(), FetchState::Downloading);
    assert_eq!(tile.forecast_date_utc(), at(NOON));
    assert_eq!(tile.download_path(), "gribtiles");
    assert_eq!(tile.bottom_lat().as_microdegrees(), 54_000_000);
    assert_eq!(tile.left_lon().as_microdegrees(), -7_000_000);
    assert_eq!(
        handle.request,
        Some(FetchRequest {
            file_name: String::from("GribTile_20240109_t06z_f008_l-7_t55_r-6_b54.grb"),
            url: tile.download_url().unwrap(),
        })
    );
}

#[test]
fn the_same_query_finds_the_same_tile_and_no_second_fetch() {
    let mut manager = GribTileManager::new("gribtiles");
    let first = manager.find_or_create_tile(&point(500_000, 500_000), &at(NOON));
    let second = manager.find_or_create_tile(&point(500_000, 500_000), &at(NOON));
    let third = manager.find_or_create_tile(&point(500_000, 500_000), &at(NOON));
    assert_eq!(first.index, second.index);
    assert_eq!(first.index, third.index);
    assert!(first.created);
    assert!(!second.created);
    assert!(!third.created);
    assert_eq!(second.request, None);
    assert_eq!(third.request, None);
    assert_eq!(manager.len(), 1);
}

#[test]
fn queries_ten_minutes_apart_find_the_same_tile() {
    let mut manager = GribTileManager::new("gribtiles");
    let first = manager.find_or_create_tile(&point(54_663_158, -6_196_602), &at(NOON));
    let second = manager.find_or_create_tile(&point(54_663_158, -6_196_602), &at(NOON + 600));
    assert_eq!(first.index, second.index);
    assert!(!second.created);
    assert_eq!(second.request, None);
    assert_eq!(manager.len(), 1);
}

#[test]
fn a_query_an_hour_later_makes_a_new_tile() {
    let mut manager = GribTileManager::new("gribtiles");
    manager.find_or_create_tile(&point(0, 0), &at(NOON));
    let near = manager.find_or_create_tile(&point(0, 0), &at(NOON + 3_599));
    assert_eq!((near.index, near.created), (0, false));
    let later = manager.find_or_create_tile(&point(0, 0), &at(NOON + 3_600));
    assert_eq!((later.index, later.created), (1, true));
    assert!(later.request.is_some());
    assert_eq!(manager.len(), 2);
}

#[test]
fn a_query_in_another_cell_makes_a_new_tile() {
    let mut manager = GribTileManager::new("gribtiles");
    manager.find_or_create_tile(&point(500_000, 500_000), &at(NOON));
    let edge = manager.find_or_create_tile(&point(1_000_000, 1_000_000), &at(NOON));
    assert_eq!((edge.index, edge.created), (0, false));
    let beyond = manager.find_or_create_tile(&point(1_000_001, 500_000), &at(NOON));
    assert_eq!((beyond.index, beyond.created), (1, true));
    let back = manager.find_or_create_tile(&point(250_000, 750_000), &at(NOON + 60));
    assert_eq!((back.index, back.created), (0, false));
    assert_eq!(manager.len(), 2);
}

#[test]
fn the_first_serving_tile_is_found() {
    let mut manager = GribTileManager::new("gribtiles");
    manager.find_or_create_tile(&point(0, 0), &at(NOON));
    manager.find_or_create_tile(&point(0, 0), &at(NOON + 3_600));
    // Both tiles serve a time between the two; the first one is taken.
    let between = manager.find_or_create_tile(&point(0, 0), &at(NOON + 1_800));
    assert_eq!((between.index, between.created), (0, false));
    // The second tile was made for a later time, yet a time ten minutes before it goes to the
    // first tile.
    let before = manager.find_or_create_tile(&point(0, 0), &at(NOON + 3_000));
    assert_eq!((before.index, before.created), (0, false));
    let after = manager.find_or_create_tile(&point(0, 0), &at(NOON + 4_200));
    assert_eq!((after.index, after.created), (1, false));
}

#[test]
fn a_query_beyond_the_calendar_makes_a_failed_tile() {
    let mut manager = GribTileManager::new("gribtiles");
    let handle = manager.find_or_create_tile(&point(0, 0), &at(i64::MAX));
    assert!(handle.created);
    assert_eq!(handle.request, None);
    assert_eq!(manager.tile(0).unwrap().state(), FetchState::Failed);
    let again = manager.find_or_create_tile(&point(0, 0), &at(i64::MAX));
    assert_eq!((again.index, again.created), (0, false));
}

#[test]
fn events_reach_the_tile_at_their_place_and_no_other() {
    let mut manager = GribTileManager::new("gribtiles");
    manager.find_or_create_tile(&point(0, 0), &at(NOON));
    manager.find_or_create_tile(&point(5_000_000, 5_000_000), &at(NOON));
    assert_eq!(manager.advance_tile(1, FetchEvent::Downloaded), FetchAction::Decode);
    assert_eq!(manager.tile(0).unwrap().state(), FetchState::Downloading);
    assert_eq!(manager.tile(1).unwrap().state(), FetchState::Decoding);
    assert_eq!(manager.advance_tile(1, FetchEvent::Decoded(payload())), FetchAction::Idle);
    assert_eq!(manager.tile(1).unwrap().state(), FetchState::Ready);
    assert_eq!(manager.tile(1).unwrap().data_points().len(), 1);
    assert!(manager.tile(0).unwrap().data_points().is_empty());
    assert_eq!(manager.advance_tile(0, FetchEvent::Failed), FetchAction::Idle);
    assert_eq!(manager.tile(0).unwrap().state(), FetchState::Failed);
    assert_eq!(manager.tile(1).unwrap().state(), FetchState::Ready);
    assert_eq!(manager.advance_tile(2, FetchEvent::Failed), FetchAction::Idle);
    assert_eq!(manager.len(), 2);
}

#[test]
fn handles_to_one_tile_see_the_same_samples_once_the_fetch_ends() {
    let mut manager = GribTileManager::new("gribtiles");
    let first = manager.find_or_create_tile(&point(0, 0), &at(NOON));
    let second = manager.find_or_create_tile(&point(100_000, 100_000), &at(NOON + 5));
    assert_eq!(manager.tile(first.index).unwrap().closest_point(&vec![]), Lookup::NotReady);
    assert_eq!(manager.tile(second.index).unwrap().closest_point(&vec![]), Lookup::NotReady);
    manager.advance_tile(first.index, FetchEvent::Downloaded);
    manager.advance_tile(first.index, FetchEvent::Decoded(payload()));
    let through_first = manager.tile(first.index).unwrap().data_points().clone();
    let through_second = manager.tile(second.index).unwrap().data_points().clone();
    assert_eq!(through_first, through_second);
    assert_eq!(through_first.len(), 1);
    assert_eq!(
        manager.tile(second.index).unwrap().closest_point(&vec![0]),
        Lookup::Found(through_first[0])
    );
}

use std::cell::Cell;

use aviation_calc_util::geo::geo_point::GeoPoint;
use aviation_calc_util::geo::geo_tile::GeoTile;
use aviation_calc_util::geo::latitude::Latitude;
use aviation_calc_util::geo::longitude::Longitude;
use aviation_calc_util::magnetic::magnetic_tile::{MagneticTile, MagneticTileManager, MAG_TILE_RES};

const DAY: i32 = 738_894;

fn point(lat: i64, lon: i64) -> GeoPoint {
    GeoPoint::new(Latitude::from_microdegrees(lat), Longitude::from_microdegrees(lon), 0)
}

#[test]
fn the_resolution_is_a_tenth_of_a_radian() {
    assert_eq!(MAG_TILE_RES as f64, (0.1f64.to_degrees() * 1e6).round());
}

#[test]
fn a_magnetic_tile_is_the_cell_of_its_point() {
    let tile = MagneticTile::new(&point(10_000_000, 20_000_000), DAY, 2.5f64);
    assert_eq!(tile.bottom_lat().as_microdegrees(), 5_729_578);
    assert_eq!(tile.top_lat().as_microdegrees(), 11_459_156);
    assert_eq!(tile.left_lon().as_microdegrees(), 17_188_734);
    assert_eq!(tile.right_lon().as_microdegrees(), 22_918_312);
    assert_eq!(tile.date, DAY);
    assert_eq!(tile.field, 2.5);
    let south = MagneticTile::new(&point(-1, -1), DAY, 0u8);
    assert_eq!(south.bottom_lat().as_microdegrees(), -5_729_578);
    assert_eq!(south.top_lat().as_microdegrees(), 0);
    assert_eq!(south.left_lon().as_microdegrees(), -5_729_578);
    assert_eq!(south.right_lon().as_microdegrees(), 0);
}

#[test]
fn the_field_is_computed_at_the_centre_of_the_tile() {
    let center = MagneticTile::<u8>::center_for(&point(10_000_000, 20_000_000));
    assert_eq!(center.lat.as_microdegrees(), 8_594_367);
    assert_eq!(center.lon.as_microdegrees(), 20_053_523);
    assert_eq!(center.alt, 0);
}

#[test]
fn a_magnetic_tile_is_valid_for_its_cell_on_its_day() {
    let tile = MagneticTile::new(&point(10_000_000, 20_000_000), DAY, ());
    assert!(tile.is_valid(&point(10_000_000, 20_000_000), DAY));
    assert!(tile.is_valid(&point(5_729_578, 22_918_312), DAY));
    assert!(!tile.is_valid(&point(10_000_000, 20_000_000), DAY + 1));
    assert!(!tile.is_valid(&point(5_729_577, 20_000_000), DAY));
    assert!(!tile.is_valid(&point(10_000_000, 22_918_313), DAY));
}

#[test]
fn the_magnetic_cache_makes_one_tile_for_a_cell_and_a_day() {
    let calls = Cell::new(0);
    let mut manager: MagneticTileManager<i64> = MagneticTileManager::new();
    assert_eq!(manager.len(), 0);
    assert_eq!(manager.find_tile(&point(10_000_000, 20_000_000), DAY), None);
    let field_at = |center: GeoPoint| {
        calls.set(calls.get() + 1);
        center.lat.as_microdegrees() + center.lon.as_microdegrees()
    };
    let first = manager.find_or_create_tile(&point(10_000_000, 20_000_000), DAY, field_at);
    let second = manager.find_or_create_tile(&point(10_000_000, 20_000_000), DAY, field_at);
    let third = manager.find_or_create_tile(&point(11_000_000, 18_000_000), DAY, field_at);
    assert_eq!((first, second, third), (0, 0, 0));
    assert_eq!(calls.get(), 1);
    assert_eq!(manager.len(), 1);
    assert_eq!(manager.tile(0).unwrap().field, 8_594_367 + 20_053_523);
    assert_eq!(manager.find_tile(&point(10_000_000, 20_000_000), DAY), Some(0));
    let next_day = manager.find_or_create_tile(&point(10_000_000, 20_000_000), DAY + 1, field_at);
    let next_cell = manager.find_or_create_tile(&point(12_000_000, 20_000_000), DAY, field_at);
    assert_eq!((next_day, next_cell), (1, 2));
    assert_eq!(calls.get(), 3);
    assert_eq!(manager.len(), 3);
    assert_eq!(manager.tile(1).unwrap().date, DAY + 1);
    assert_eq!(manager.tile(2).unwrap().bottom_lat().as_microdegrees(), 11_459_156);
    assert!(manager.tile(3).is_none());
    assert_eq!(manager.find_or_create_tile(&point(10_000_000, 20_000_000), DAY, field_at), 0);
    assert_eq!(manager.len(), 3);
}

#[test]
fn a_point_in_the_band_along_the_pole_is_outside_its_tile() {
    // Fifteen cells reach up to 85.94 degrees; a point above them gets the fifteenth cell.
    let tile = MagneticTile::new(&point(87_000_000, 0), DAY, ());
    assert_eq!(tile.bottom_lat().as_microdegrees(), 80_214_092);
    assert_eq!(tile.top_lat().as_microdegrees(), 85_943_670);
    assert!(!tile.is_valid(&point(87_000_000, 0), DAY));
    let mut manager: MagneticTileManager<()> = MagneticTileManager::new();
    assert_eq!(manager.find_or_create_tile(&point(87_000_000, 0), DAY, |_| ()), 0);
    assert_eq!(manager.find_or_create_tile(&point(87_000_000, 0), DAY, |_| ()), 1);
    assert_eq!(manager.len(), 2);
}

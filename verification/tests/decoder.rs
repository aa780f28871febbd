use aviation_calc_util::atmos::grib::grib_data_point::{
    GribDataPoint, MISSING_VALUE, STANDARD_PRESSURE, STANDARD_TEMPERATURE, ZERO_READING,
};
use aviation_calc_util::atmos::grib::grib_decoder::{
    absorb, absorb_into, assign_field, extract_data_points, find_point, level_kind,
    merge_surface_pressure, select_field,
};
use aviation_calc_util::atmos::grib::grib_message::{
    Field, GribCell, GribLevel, GribMessage, LevelKind,
};
use aviation_calc_util::geo::latitude::Latitude;
use aviation_calc_util::geo::longitude::Longitude;

fn cell(lat: i64, lon: i64, value: f32) -> GribCell {
    GribCell {
        lat: Latitude::from_microdegrees(lat),
        lon: Longitude::from_microdegrees(lon),
        value: value.to_bits(),
    }
}

fn message(surface_type: u8, level: i32, category: u8, number: u8, cells: Vec<GribCell>) -> GribMessage {
    GribMessage {
        level: Some(GribLevel { surface_type, scaled_value: level }),
        parameter_category: Some(category),
        parameter_number: Some(number),
        cells,
    }
}

fn sample(lat: i64, lon: i64, level: i32) -> GribDataPoint {
    GribDataPoint::new(Latitude::from_microdegrees(lat), Longitude::from_microdegrees(lon), level)
}

#[test]
fn readings_are_the_bits_of_their_numbers() {
    assert_eq!(ZERO_READING, 0.0f32.to_bits());
    assert_eq!(STANDARD_TEMPERATURE, 288.15f32.to_bits());
    assert_eq!(STANDARD_PRESSURE, 101325.0f32.to_bits());
    assert_eq!(MISSING_VALUE, 1e20f32.to_bits());
    assert_eq!(f32::from_bits(MISSING_VALUE), 1e20 as f32);
}

#[test]
fn new_sample_holds_the_standard_atmosphere() {
    let point = sample(1_250_000, -3_750_000, 50_000);
    assert_eq!(point.lat.as_microdegrees(), 1_250_000);
    assert_eq!(point.lon.as_microdegrees(), -3_750_000);
    assert_eq!(point.level_pressure, 50_000);
    assert_eq!(f32::from_bits(point.geo_pot_height), 0.0);
    assert_eq!(f32::from_bits(point.temp), 288.15);
    assert_eq!(f32::from_bits(point.u), 0.0);
    assert_eq!(f32::from_bits(point.v), 0.0);
    assert_eq!(f32::from_bits(point.rh), 0.0);
    assert_eq!(f32::from_bits(point.sfc_press), 101325.0);
}

#[test]
fn level_codes_have_their_kinds() {
    assert_eq!(level_kind(100), LevelKind::Isobaric);
    assert_eq!(level_kind(101), LevelKind::Surface);
    assert_eq!(level_kind(1), LevelKind::Surface);
    assert_eq!(level_kind(0), LevelKind::Other);
    assert_eq!(level_kind(103), LevelKind::Other);
    assert_eq!(level_kind(255), LevelKind::Other);
}

#[test]
fn parameters_select_their_fields() {
    assert_eq!(select_field(LevelKind::Isobaric, 2, 2), Some(Field::WindU));
    assert_eq!(select_field(LevelKind::Isobaric, 2, 3), Some(Field::WindV));
    assert_eq!(select_field(LevelKind::Isobaric, 0, 0), Some(Field::Temperature));
    assert_eq!(select_field(LevelKind::Isobaric, 3, 5), Some(Field::GeopotentialHeight));
    assert_eq!(select_field(LevelKind::Isobaric, 3, 0), None);
    assert_eq!(select_field(LevelKind::Isobaric, 1, 1), None);
    assert_eq!(select_field(LevelKind::Surface, 3, 0), Some(Field::SurfacePressure));
    assert_eq!(select_field(LevelKind::Surface, 0, 0), None);
    assert_eq!(select_field(LevelKind::Surface, 2, 2), None);
    assert_eq!(select_field(LevelKind::Other, 0, 0), None);
    assert_eq!(select_field(LevelKind::Other, 3, 0), None);
}

#[test]
fn a_field_is_assigned_and_the_rest_kept() {
    let base = sample(0, 0, 85_000);
    let value = 12.5f32.to_bits();
    let u = assign_field(base, Some(Field::WindU), value);
    assert_eq!(u, GribDataPoint { u: value, ..base });
    let v = assign_field(base, Some(Field::WindV), value);
    assert_eq!(v, GribDataPoint { v: value, ..base });
    let t = assign_field(base, Some(Field::Temperature), value);
    assert_eq!(t, GribDataPoint { temp: value, ..base });
    let h = assign_field(base, Some(Field::GeopotentialHeight), value);
    assert_eq!(h, GribDataPoint { geo_pot_height: value, ..base });
    let p = assign_field(base, Some(Field::SurfacePressure), value);
    assert_eq!(p, GribDataPoint { sfc_press: value, ..base });
    assert_eq!(assign_field(base, None, value), base);
}

#[test]
fn find_point_gives_the_first_match_or_the_length() {
    let points = vec![sample(0, 0, 100), sample(0, 0, 200), sample(1, 0, 100), sample(0, 0, 200)];
    let lat = Latitude::from_microdegrees(0);
    let lon = Longitude::from_microdegrees(0);
    assert_eq!(find_point(&points, &lat, &lon, Some(200)), 1);
    assert_eq!(find_point(&points, &lat, &lon, Some(100)), 0);
    assert_eq!(find_point(&points, &lat, &lon, Some(300)), 4);
    assert_eq!(find_point(&points, &lat, &lon, None), 0);
    assert_eq!(find_point(&points, &Latitude::from_microdegrees(1), &lon, None), 2);
    assert_eq!(find_point(&points, &Latitude::from_microdegrees(2), &lon, None), 4);
    assert_eq!(find_point(&Vec::new(), &lat, &lon, None), 0);
}

#[test]
fn absorb_finds_or_inserts_by_position_and_level() {
    let mut points = Vec::new();
    let field = Some(Field::Temperature);
    absorb(&mut points, LevelKind::Isobaric, 50_000, field, &cell(0, 0, 250.0));
    absorb(&mut points, LevelKind::Isobaric, 50_000, field, &cell(0, 250_000, 251.0));
    absorb(&mut points, LevelKind::Isobaric, 70_000, field, &cell(0, 0, 270.0));
    absorb(&mut points, LevelKind::Isobaric, 50_000, Some(Field::WindU), &cell(0, 0, 3.0));
    assert_eq!(points.len(), 3);
    assert_eq!(
        points[0],
        GribDataPoint { temp: 250.0f32.to_bits(), u: 3.0f32.to_bits(), ..sample(0, 0, 50_000) }
    );
    assert_eq!(points[1], GribDataPoint { temp: 251.0f32.to_bits(), ..sample(0, 250_000, 50_000) });
    assert_eq!(points[2], GribDataPoint { temp: 270.0f32.to_bits(), ..sample(0, 0, 70_000) });
}

#[test]
fn absorb_keeps_surface_samples_by_position_alone() {
    let mut points = Vec::new();
    let field = Some(Field::SurfacePressure);
    absorb(&mut points, LevelKind::Surface, 0, field, &cell(0, 0, 100_000.0));
    absorb(&mut points, LevelKind::Surface, 7, field, &cell(0, 0, 100_500.0));
    absorb(&mut points, LevelKind::Surface, 7, field, &cell(250_000, 0, 99_000.0));
    assert_eq!(points.len(), 2);
    assert_eq!(points[0], GribDataPoint { sfc_press: 100_500.0f32.to_bits(), ..sample(0, 0, 0) });
    assert_eq!(points[1], GribDataPoint { sfc_press: 99_000.0f32.to_bits(), ..sample(250_000, 0, 7) });
}

#[test]
fn absorb_skips_a_missing_value() {
    let mut points = vec![sample(0, 0, 50_000)];
    let before = points.clone();
    absorb(&mut points, LevelKind::Isobaric, 50_000, Some(Field::Temperature), &cell(0, 0, 1e20));
    assert_eq!(points, before);
    absorb(&mut points, LevelKind::Isobaric, 50_000, Some(Field::Temperature), &cell(5, 5, 1e20));
    assert_eq!(points, before);
}

#[test]
fn absorb_inserts_a_sample_for_a_parameter_that_fills_no_field() {
    let mut points = Vec::new();
    absorb(&mut points, LevelKind::Isobaric, 50_000, None, &cell(0, 0, 42.0));
    assert_eq!(points, vec![sample(0, 0, 50_000)]);
}

#[test]
fn messages_are_accepted_by_level_and_parameter() {
    assert_eq!(message(100, 50_000, 0, 0, vec![]).accepted(), Some(LevelKind::Isobaric));
    assert_eq!(message(101, 0, 3, 1, vec![]).accepted(), Some(LevelKind::Surface));
    assert_eq!(message(1, 0, 3, 0, vec![]).accepted(), Some(LevelKind::Surface));
    assert_eq!(message(103, 2, 0, 0, vec![]).accepted(), None);
    let mut no_level = message(100, 50_000, 0, 0, vec![]);
    no_level.level = None;
    assert_eq!(no_level.accepted(), None);
    let mut no_category = message(100, 50_000, 0, 0, vec![]);
    no_category.parameter_category = None;
    assert_eq!(no_category.accepted(), None);
    let mut no_number = message(100, 50_000, 0, 0, vec![]);
    no_number.parameter_number = None;
    assert_eq!(no_number.accepted(), None);
}

#[test]
fn absorb_into_fills_the_list_of_the_message_kind() {
    let mut isobaric = Vec::new();
    let mut surface = Vec::new();
    absorb_into(&mut isobaric, &mut surface, &message(100, 50_000, 0, 0, vec![cell(0, 0, 250.0)]));
    absorb_into(&mut isobaric, &mut surface, &message(1, 0, 3, 0, vec![cell(0, 0, 100_100.0)]));
    absorb_into(&mut isobaric, &mut surface, &message(103, 2, 0, 0, vec![cell(0, 0, 280.0)]));
    assert_eq!(isobaric, vec![GribDataPoint { temp: 250.0f32.to_bits(), ..sample(0, 0, 50_000) }]);
    assert_eq!(surface, vec![GribDataPoint { sfc_press: 100_100.0f32.to_bits(), ..sample(0, 0, 0) }]);
}

#[test]
fn surface_pressure_goes_to_its_position_and_no_other() {
    let mut isobaric = vec![
        sample(0, 0, 50_000),
        sample(0, 250_000, 50_000),
        sample(0, 0, 70_000),
        sample(250_000, 250_000, 50_000),
    ];
    let there = 100_100.0f32.to_bits();
    let elsewhere = 99_900.0f32.to_bits();
    let surface = vec![
        GribDataPoint { sfc_press: there, ..sample(0, 0, 0) },
        GribDataPoint { sfc_press: elsewhere, ..sample(250_000, 0, 0) },
    ];
    merge_surface_pressure(&mut isobaric, &surface);
    assert_eq!(isobaric[0], GribDataPoint { sfc_press: there, ..sample(0, 0, 50_000) });
    assert_eq!(isobaric[1], sample(0, 250_000, 50_000));
    assert_eq!(isobaric[2], GribDataPoint { sfc_press: there, ..sample(0, 0, 70_000) });
    assert_eq!(isobaric[3], sample(250_000, 250_000, 50_000));
}

#[test]
fn a_payload_decodes_to_merged_samples_in_order_of_first_occurrence() {
    let messages = vec![
        message(100, 50_000, 0, 0, vec![cell(0, 0, 250.0), cell(0, 250_000, 1e20), cell(250_000, 0, 252.0)]),
        message(1, 0, 3, 0, vec![cell(0, 0, 100_100.0), cell(0, 250_000, 100_200.0)]),
        message(100, 50_000, 2, 2, vec![cell(0, 0, 10.0), cell(0, 250_000, 11.0), cell(250_000, 0, 12.0)]),
        message(100, 50_000, 2, 3, vec![cell(0, 0, -4.0)]),
        message(100, 50_000, 3, 5, vec![cell(0, 0, 5_500.0)]),
        message(100, 70_000, 0, 0, vec![cell(0, 0, 270.0)]),
        message(103, 2, 0, 0, vec![cell(0, 0, 280.0)]),
        message(100, 50_000, 1, 1, vec![cell(750_000, 750_000, 55.0)]),
    ];
    let points = extract_data_points(&messages);
    assert_eq!(points.len(), 5);
    assert_eq!(
        points[0],
        GribDataPoint {
            temp: 250.0f32.to_bits(),
            u: 10.0f32.to_bits(),
            v: (-4.0f32).to_bits(),
            geo_pot_height: 5_500.0f32.to_bits(),
            sfc_press: 100_100.0f32.to_bits(),
            ..sample(0, 0, 50_000)
        }
    );
    assert_eq!(
        points[1],
        GribDataPoint { temp: 252.0f32.to_bits(), u: 12.0f32.to_bits(), ..sample(250_000, 0, 50_000) }
    );
    assert_eq!(
        points[2],
        GribDataPoint {
            u: 11.0f32.to_bits(),
            sfc_press: 100_200.0f32.to_bits(),
            ..sample(0, 250_000, 50_000)
        }
    );
    assert_eq!(
        points[3],
        GribDataPoint {
            temp: 270.0f32.to_bits(),
            sfc_press: 100_100.0f32.to_bits(),
            ..sample(0, 0, 70_000)
        }
    );
    assert_eq!(points[4], sample(750_000, 750_000, 50_000));
}

#[test]
fn a_missing_value_never_reaches_the_samples() {
    let with_gaps = vec![
        message(100, 50_000, 0, 0, vec![cell(0, 0, 1e20), cell(0, 250_000, 251.0), cell(5, 5, 1e20)]),
        message(1, 0, 3, 0, vec![cell(0, 250_000, 1e20), cell(0, 0, 100_100.0)]),
    ];
    let without = vec![
        message(100, 50_000, 0, 0, vec![cell(0, 250_000, 251.0)]),
        message(1, 0, 3, 0, vec![cell(0, 0, 100_100.0)]),
    ];
    let points = extract_data_points(&with_gaps);
    assert_eq!(points, extract_data_points(&without));
    assert_eq!(points, vec![GribDataPoint { temp: 251.0f32.to_bits(), ..sample(0, 250_000, 50_000) }]);
    for point in points.iter() {
        assert_ne!(point.temp, MISSING_VALUE);
        assert_ne!(point.sfc_press, MISSING_VALUE);
        assert_ne!(point.u, MISSING_VALUE);
        assert_ne!(point.v, MISSING_VALUE);
        assert_ne!(point.geo_pot_height, MISSING_VALUE);
    }
}

#[test]
fn an_empty_payload_decodes_to_nothing() {
    assert_eq!(extract_data_points(&Vec::new()), Vec::new());
    let only_surface = vec![message(1, 0, 3, 0, vec![cell(0, 0, 100_100.0)])];
    assert_eq!(extract_data_points(&only_surface), Vec::new());
}

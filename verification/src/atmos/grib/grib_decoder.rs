use vstd::prelude::*;
use crate::atmos::grib::grib_data_point::{GribDataPoint, Reading, MISSING_VALUE};
use crate::atmos::grib::grib_message::{
    absorb_cell, absorb_cells, absorb_message, absorb_messages, accepted_kind, decoded_points,
    field_of, find_from, find_key, level_kind_of, merge_surface, with_field,
    with_surface_pressure, Accumulators, Field, GribCell, GribMessage, LevelKind, GROUND_SURFACE,
    ISOBARIC_SURFACE, MEAN_SEA_LEVEL,
};
use crate::geo::latitude::Latitude;
use crate::geo::longitude::Longitude;

verus! {

/// The kind of level that a level code stands for.
pub fn level_kind(surface_type: u8) -> (result: LevelKind)
    ensures
        result == level_kind_of(surface_type),
{
    if surface_type == ISOBARIC_SURFACE {
        LevelKind::Isobaric
    } else if surface_type == MEAN_SEA_LEVEL || surface_type == GROUND_SURFACE {
        LevelKind::Surface
    } else {
        LevelKind::Other
    }
}

/// The field that a parameter fills in a message of the given kind, if it fills any.
pub fn select_field(kind: LevelKind, category: u8, number: u8) -> (result: Option<Field>)
    ensures
        result == field_of(kind, category, number),
{
    match kind {
        LevelKind::Isobaric => {
            if category == 2 && number == 2 {
                Some(Field::WindU)
            } else if category == 2 && number == 3 {
                Some(Field::WindV)
            } else if category == 0 && number == 0 {
                Some(Field::Temperature)
            } else if category == 3 && number == 5 {
                Some(Field::GeopotentialHeight)
            } else {
                None
            }
        },
        LevelKind::Surface => {
            if category == 3 && number == 0 {
                Some(Field::SurfacePressure)
            } else {
                None
            }
        },
        LevelKind::Other => None,
    }
}

/// The sample with one field replaced, or the sample itself where no field is named.
pub fn assign_field(point: GribDataPoint, field: Option<Field>, value: Reading) -> (result: GribDataPoint)
    ensures
        result == with_field(point, field, value),
{
    match field {
        Some(Field::WindU) => GribDataPoint { u: value, ..point },
        Some(Field::WindV) => GribDataPoint { v: value, ..point },
        Some(Field::Temperature) => GribDataPoint { temp: value, ..point },
        Some(Field::GeopotentialHeight) => GribDataPoint { geo_pot_height: value, ..point },
        Some(Field::SurfacePressure) => GribDataPoint { sfc_press: value, ..point },
        None => point,
    }
}

/// The index of the first sample with the key, or the length where there is none.
pub fn find_point(points: &Vec<GribDataPoint>, lat: &Latitude, lon: &Longitude, level: Option<i32>) -> (result: usize)
    ensures
        result == find_key(points@, lat@, lon@, level),
        result <= points@.len(),
{
    let lat_value: i64 = lat.as_microdegrees();
    let lon_value: i64 = lon.as_microdegrees();
    let mut index: usize = 0;
    while index < points.len()
        invariant
            index <= points@.len(),
            lat_value == lat@,
            lon_value == lon@,
            find_key(points@, lat@, lon@, level) == find_from(points@, lat@, lon@, level, index as int),
        decreases points@.len() - index,
    {
        let point = &points[index];
        let level_matches = match level {
            Some(l) => point.level_pressure == l,
            None => true,
        };
        if point.lat.as_microdegrees() == lat_value && point.lon.as_microdegrees() == lon_value
            && level_matches {
            return index;
        }
        index = index + 1;
    }
    index
}

/// Takes one cell into the samples of a kind of level.
pub fn absorb(points: &mut Vec<GribDataPoint>, kind: LevelKind, level: i32, field: Option<Field>, cell: &GribCell)
    ensures
        final(points)@ == absorb_cell(old(points)@, kind, level, field, *cell),
{
    if cell.value == MISSING_VALUE {
        return ;
    }
    let key: Option<i32> = match kind {
        LevelKind::Isobaric => Some(level),
        _ => None,
    };
    let index = find_point(points, &cell.lat, &cell.lon, key);
    if index == points.len() {
        points.push(GribDataPoint::new(cell.lat, cell.lon, level));
    }
    let updated = assign_field(points[index], field, cell.value);
    points.set(index, updated);
}

impl GribMessage {
    /// The kind of level of the message, where it is one that the decoder takes in; its grid
    /// is read for no other message.
    pub fn accepted(&self) -> (result: Option<LevelKind>)
        ensures
            result == accepted_kind(*self),
    {
        match (self.level, self.parameter_category, self.parameter_number) {
            (Some(level), Some(_), Some(_)) => {
                let kind = level_kind(level.surface_type);
                match kind {
                    LevelKind::Other => None,
                    _ => Some(kind),
                }
            },
            _ => None,
        }
    }
}

/// Takes the cells of one message into a list of samples.
fn absorb_all(points: &mut Vec<GribDataPoint>, kind: LevelKind, level: i32, field: Option<Field>, cells: &Vec<GribCell>)
    ensures
        final(points)@ == absorb_cells(old(points)@, kind, level, field, cells@, cells@.len() as int),
{
    let ghost start = points@;
    let mut index: usize = 0;
    while index < cells.len()
        invariant
            index <= cells@.len(),
            points@ == absorb_cells(start, kind, level, field, cells@, index as int),
        decreases cells@.len() - index,
    {
        absorb(points, kind, level, field, &cells[index]);
        index = index + 1;
    }
}

/// Takes one message into the two lists of samples.
pub fn absorb_into(isobaric: &mut Vec<GribDataPoint>, surface: &mut Vec<GribDataPoint>, message: &GribMessage)
    ensures
        (Accumulators { isobaric: final(isobaric)@, surface: final(surface)@ }) == absorb_message(
            Accumulators { isobaric: old(isobaric)@, surface: old(surface)@ },
            *message,
        ),
{
    match message.accepted() {
        Some(kind) => {
            let level = message.level.unwrap().scaled_value;
            let field = select_field(
                kind,
                message.parameter_category.unwrap(),
                message.parameter_number.unwrap(),
            );
            match kind {
                LevelKind::Isobaric => absorb_all(isobaric, kind, level, field, &message.cells),
                _ => absorb_all(surface, kind, level, field, &message.cells),
            }
        },
        None => {},
    }
}

/// Gives each isobaric sample the surface pressure recorded at its position.
pub fn merge_surface_pressure(isobaric: &mut Vec<GribDataPoint>, surface: &Vec<GribDataPoint>)
    ensures
        final(isobaric)@ == merge_surface(old(isobaric)@, surface@),
{
    let ghost start = isobaric@;
    let mut index: usize = 0;
    while index < isobaric.len()
        invariant
            index <= isobaric@.len(),
            isobaric@.len() == start.len(),
            forall|i: int| 0 <= i < index ==> isobaric@[i] == with_surface_pressure(start[i], surface@),
            forall|i: int| index <= i < start.len() ==> isobaric@[i] == start[i],
        decreases isobaric@.len() - index,
    {
        let point = isobaric[index];
        let at = find_point(surface, &point.lat, &point.lon, None);
        if at < surface.len() {
            let merged = GribDataPoint { sfc_press: surface[at].sfc_press, ..point };
            isobaric.set(index, merged);
        }
        index = index + 1;
    }
}

/// Decodes the messages of a payload to its samples: the isobaric samples in the order in
/// which their keys first occur, each with the surface pressure recorded at its position.
pub fn extract_data_points(messages: &Vec<GribMessage>) -> (result: Vec<GribDataPoint>)
    ensures
        result@ == decoded_points(messages@),
{
    let mut isobaric: Vec<GribDataPoint> = Vec::new();
    let mut surface: Vec<GribDataPoint> = Vec::new();
    let mut index: usize = 0;
    while index < messages.len()
        invariant
            index <= messages@.len(),
            (Accumulators { isobaric: isobaric@, surface: surface@ }) == absorb_messages(
                messages@,
                index as int,
            ),
        decreases messages@.len() - index,
    {
        absorb_into(&mut isobaric, &mut surface, &messages[index]);
        index = index + 1;
    }
    merge_surface_pressure(&mut isobaric, &surface);
    isobaric
}

} // verus!

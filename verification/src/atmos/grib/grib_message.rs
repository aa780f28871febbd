use vstd::prelude::*;
use crate::atmos::grib::grib_data_point::{fresh_point, GribDataPoint, Reading, MISSING_VALUE};
use crate::geo::latitude::Latitude;
use crate::geo::longitude::Longitude;

verus! {

/// The code of a level of constant pressure.
pub const ISOBARIC_SURFACE: u8 = 100;

/// The code of the mean sea level.
pub const MEAN_SEA_LEVEL: u8 = 101;

/// The code of the ground or water surface.
pub const GROUND_SURFACE: u8 = 1;

/// What a message's vertical level means to the decoder.
#[derive(Clone, Copy, PartialEq, Eq, Structural, Debug)]
pub enum LevelKind {
    /// A level of constant pressure.
    Isobaric,
    /// The surface or the mean sea level.
    Surface,
    /// Any other level; such messages are skipped.
    Other,
}

/// The field of a sample that a message fills.
#[derive(Clone, Copy, PartialEq, Eq, Structural, Debug)]
pub enum Field {
    WindU,
    WindV,
    Temperature,
    GeopotentialHeight,
    SurfacePressure,
}

/// The vertical level that a message declares.
#[derive(Clone, Copy, PartialEq, Eq, Debug)]
pub struct GribLevel {
    pub surface_type: u8,
    pub scaled_value: i32,
}

/// One cell of a message's grid.
#[derive(Clone, Copy, PartialEq, Eq, Debug)]
pub struct GribCell {
    pub lat: Latitude,
    pub lon: Longitude,
    pub value: Reading,
}

/// One message of a payload: what it declares of itself, and its grid.
#[derive(PartialEq, Eq, Debug)]
pub struct GribMessage {
    /// The vertical level, where the message declares one.
    pub level: Option<GribLevel>,
    pub parameter_category: Option<u8>,
    pub parameter_number: Option<u8>,
    pub cells: Vec<GribCell>,
}

/// The kind of level that a level code stands for.
pub open spec fn level_kind_of(surface_type: u8) -> LevelKind {
    if surface_type == ISOBARIC_SURFACE {
        LevelKind::Isobaric
    } else if surface_type == MEAN_SEA_LEVEL || surface_type == GROUND_SURFACE {
        LevelKind::Surface
    } else {
        LevelKind::Other
    }
}

/// The field that a parameter fills in a message of the given kind, if it fills any.
pub open spec fn field_of(kind: LevelKind, category: u8, number: u8) -> Option<Field> {
    match kind {
        LevelKind::Isobaric => {
            if category == 2 && number == 2 {
                Some(Field::WindU)
            } else if category == 2 && number == 3 {
                Some(Field::WindV)
            } else if category == 0 && number == 0 {
                Some(Field::Temperature)
            } else if category == 3 && number == 5 {
                Some(Field::GeopotentialHeight)
            } else {
                None
            }
        },
        LevelKind::Surface => {
            if category == 3 && number == 0 {
                Some(Field::SurfacePressure)
            } else {
                None
            }
        },
        LevelKind::Other => None,
    }
}

/// The sample with one field replaced, or the sample itself where no field is named.
pub open spec fn with_field(point: GribDataPoint, field: Option<Field>, value: Reading) -> GribDataPoint {
    match field {
        Some(Field::WindU) => GribDataPoint { u: value, ..point },
        Some(Field::WindV) => GribDataPoint { v: value, ..point },
        Some(Field::Temperature) => GribDataPoint { temp: value, ..point },
        Some(Field::GeopotentialHeight) => GribDataPoint { geo_pot_height: value, ..point },
        Some(Field::SurfacePressure) => GribDataPoint { sfc_press: value, ..point },
        None => point,
    }
}

/// Whether the sample stands at the position and, where a level is given, at that level.
pub open spec fn has_key(point: GribDataPoint, lat: int, lon: int, level: Option<i32>) -> bool {
    &&& point.lat@ == lat
    &&& point.lon@ == lon
    &&& match level {
        Some(l) => point.level_pressure == l,
        None => true,
    }
}

/// The index of the first sample at or after `from` with the key, or the length where there is
/// none.
pub open spec fn find_from(points: Seq<GribDataPoint>, lat: int, lon: int, level: Option<i32>, from: int) -> int
    decreases points.len() - from,
{
    if from < 0 || from >= points.len() {
        points.len() as int
    } else if has_key(points[from], lat, lon, level) {
        from
    } else {
        find_from(points, lat, lon, level, from + 1)
    }
}

/// The index of the first sample with the key, or the length where there is none.
pub open spec fn find_key(points: Seq<GribDataPoint>, lat: int, lon: int, level: Option<i32>) -> int {
    find_from(points, lat, lon, level, 0)
}

/// The key under which samples of a kind of level are kept: position and level for isobaric
/// samples, position alone for surface samples.
pub open spec fn key_level(kind: LevelKind, level: i32) -> Option<i32> {
    if kind == LevelKind::Isobaric {
        Some(level)
    } else {
        None
    }
}

/// The samples after one cell is taken in. A cell that holds the missing value changes
/// nothing. Any other cell goes to the first sample with its key, or to a fresh sample at the
/// end where there is none, and its value fills the named field.
pub open spec fn absorb_cell(
    points: Seq<GribDataPoint>,
    kind: LevelKind,
    level: i32,
    field: Option<Field>,
    cell: GribCell,
) -> Seq<GribDataPoint> {
    if cell.value == MISSING_VALUE {
        points
    } else {
        let index = find_key(points, cell.lat@, cell.lon@, key_level(kind, level));
        let found = if index == points.len() {
            points.push(fresh_point(cell.lat, cell.lon, level))
        } else {
            points
        };
        found.update(index, with_field(found[index], field, cell.value))
    }
}

/// The samples after the first `count` cells are taken in, in order.
pub open spec fn absorb_cells(
    points: Seq<GribDataPoint>,
    kind: LevelKind,
    level: i32,
    field: Option<Field>,
    cells: Seq<GribCell>,
    count: int,
) -> Seq<GribDataPoint>
    decreases count,
{
    if count <= 0 {
        points
    } else {
        absorb_cell(
            absorb_cells(points, kind, level, field, cells, count - 1),
            kind,
            level,
            field,
            cells[count - 1],
        )
    }
}

/// The two lists that decoding fills: the samples at pressure levels and those at the surface.
pub ghost struct Accumulators {
    pub isobaric: Seq<GribDataPoint>,
    pub surface: Seq<GribDataPoint>,
}

/// The kind of level of a message, where the message is one that the decoder takes in: one
/// that declares an isobaric or a surface level and both parts of its parameter.
pub open spec fn accepted_kind(message: GribMessage) -> Option<LevelKind> {
    match (message.level, message.parameter_category, message.parameter_number) {
        (Some(level), Some(_), Some(_)) => {
            let kind = level_kind_of(level.surface_type);
            if kind == LevelKind::Other {
                None
            } else {
                Some(kind)
            }
        },
        _ => None,
    }
}

/// The accumulators after one message is taken in.
pub open spec fn absorb_message(acc: Accumulators, message: GribMessage) -> Accumulators {
    match accepted_kind(message) {
        Some(kind) => {
            let level = message.level.unwrap().scaled_value;
            let field = field_of(
                kind,
                message.parameter_category.unwrap(),
                message.parameter_number.unwrap(),
            );
            if kind == LevelKind::Isobaric {
                Accumulators {
                    isobaric: absorb_cells(
                        acc.isobaric,
                        kind,
                        level,
                        field,
                        message.cells@,
                        message.cells@.len() as int,
                    ),
                    surface: acc.surface,
                }
            } else {
                Accumulators {
                    isobaric: acc.isobaric,
                    surface: absorb_cells(
                        acc.surface,
                        kind,
                        level,
                        field,
                        message.cells@,
                        message.cells@.len() as int,
                    ),
                }
            }
        },
        None => acc,
    }
}

/// The accumulators after the first `count` messages are taken in, in order, starting from
/// empty lists.
pub open spec fn absorb_messages(messages: Seq<GribMessage>, count: int) -> Accumulators
    decreases count,
{
    if count <= 0 {
        Accumulators { isobaric: Seq::empty(), surface: Seq::empty() }
    } else {
        absorb_message(absorb_messages(messages, count - 1), messages[count - 1])
    }
}

/// The sample with the surface pressure of the first surface sample at its position, or the
/// sample itself where the surface list holds none there.
pub open spec fn with_surface_pressure(point: GribDataPoint, surface: Seq<GribDataPoint>) -> GribDataPoint {
    let index = find_key(surface, point.lat@, point.lon@, None);
    if index == surface.len() {
        point
    } else {
        GribDataPoint { sfc_press: surface[index].sfc_press, ..point }
    }
}

/// The isobaric samples, each with the surface pressure recorded at its position.
pub open spec fn merge_surface(isobaric: Seq<GribDataPoint>, surface: Seq<GribDataPoint>) -> Seq<GribDataPoint> {
    Seq::new(isobaric.len(), |i: int| with_surface_pressure(isobaric[i], surface))
}

/// The samples that a payload's messages decode to.
pub open spec fn decoded_points(messages: Seq<GribMessage>) -> Seq<GribDataPoint> {
    let acc = absorb_messages(messages, messages.len() as int);
    merge_surface(acc.isobaric, acc.surface)
}

} // verus!

use vstd::prelude::*;
use crate::atmos::grib::grib_data_point::{fresh_point, GribDataPoint, MISSING_VALUE};
use crate::atmos::grib::grib_message::{
    absorb_cell, absorb_cells, absorb_messages, accepted_kind, decoded_points,
    field_of, find_from, find_key, has_key, key_level, merge_surface, with_field,
    Accumulators, Field, GribCell, GribMessage, LevelKind,
};

verus! {

/// What a search from `from` finds: the first sample with the key at or after `from`.
pub proof fn lemma_find_from(points: Seq<GribDataPoint>, lat: int, lon: int, level: Option<i32>, from: int)
    requires
        0 <= from <= points.len(),
    ensures
        from <= find_from(points, lat, lon, level, from) <= points.len(),
        find_from(points, lat, lon, level, from) < points.len() ==> has_key(
            points[find_from(points, lat, lon, level, from)],
            lat,
            lon,
            level,
        ),
        forall|k: int|
            from <= k < find_from(points, lat, lon, level, from) ==> !has_key(
                #[trigger] points[k],
                lat,
                lon,
                level,
            ),
    decreases points.len() - from,
{
    if from < points.len() && !has_key(points[from], lat, lon, level) {
        lemma_find_from(points, lat, lon, level, from + 1);
    }
}

/// What a search finds: the first sample with the key, or the length where no sample has it.
pub proof fn lemma_find_key(points: Seq<GribDataPoint>, lat: int, lon: int, level: Option<i32>)
    ensures
        0 <= find_key(points, lat, lon, level) <= points.len(),
        find_key(points, lat, lon, level) < points.len() ==> has_key(
            points[find_key(points, lat, lon, level)],
            lat,
            lon,
            level,
        ),
        forall|k: int|
            0 <= k < find_key(points, lat, lon, level) ==> !has_key(
                #[trigger] points[k],
                lat,
                lon,
                level,
            ),
{
    lemma_find_from(points, lat, lon, level, 0);
}

/// The key of a sample in a list of the given kind.
pub open spec fn key_of(point: GribDataPoint, kind: LevelKind) -> Option<i32> {
    key_level(kind, point.level_pressure)
}

/// Whether no two samples of the list share a key of the given kind.
pub open spec fn distinct_keys(points: Seq<GribDataPoint>, kind: LevelKind) -> bool {
    forall|j: int, k: int|
        0 <= j < k < points.len() ==> !has_key(
            #[trigger] points[k],
            (#[trigger] points[j]).lat@,
            points[j].lon@,
            key_of(points[j], kind),
        )
}

/// Whether no reading of the sample is the missing value.
pub open spec fn holds_no_missing_value(point: GribDataPoint) -> bool {
    &&& point.geo_pot_height != MISSING_VALUE
    &&& point.temp != MISSING_VALUE
    &&& point.u != MISSING_VALUE
    &&& point.v != MISSING_VALUE
    &&& point.rh != MISSING_VALUE
    &&& point.sfc_press != MISSING_VALUE
}

/// Whether no reading of any sample of the list is the missing value.
pub open spec fn free_of_missing_values(points: Seq<GribDataPoint>) -> bool {
    forall|i: int| 0 <= i < points.len() ==> holds_no_missing_value(#[trigger] points[i])
}

/// Taking a cell in keeps the length or adds one sample, and keeps the list free of repeated
/// keys and of missing values.
pub proof fn lemma_absorb_cell_keeps(
    points: Seq<GribDataPoint>,
    kind: LevelKind,
    level: i32,
    field: Option<Field>,
    cell: GribCell,
)
    ensures
        points.len() <= absorb_cell(points, kind, level, field, cell).len() <= points.len() + 1,
        distinct_keys(points, kind) ==> distinct_keys(
            absorb_cell(points, kind, level, field, cell),
            kind,
        ),
        free_of_missing_values(points) ==> free_of_missing_values(
            absorb_cell(points, kind, level, field, cell),
        ),
{
    let after = absorb_cell(points, kind, level, field, cell);
    if cell.value != MISSING_VALUE {
        let key = key_level(kind, level);
        lemma_find_key(points, cell.lat@, cell.lon@, key);
        let index = find_key(points, cell.lat@, cell.lon@, key);
        let found = if index == points.len() {
            points.push(fresh_point(cell.lat, cell.lon, level))
        } else {
            points
        };
        assert forall|i: int| 0 <= i < after.len() implies (#[trigger] after[i]).lat == found[i].lat
            && after[i].lon == found[i].lon && after[i].level_pressure
            == found[i].level_pressure by {}
        if distinct_keys(points, kind) {
            assert forall|j: int, k: int| 0 <= j < k < after.len() implies !has_key(
                #[trigger] after[k],
                (#[trigger] after[j]).lat@,
                after[j].lon@,
                key_of(after[j], kind),
            ) by {}
        }
        if free_of_missing_values(points) {
            assert forall|i: int| 0 <= i < after.len() implies holds_no_missing_value(
                #[trigger] after[i],
            ) by {}
        }
    }
}

/// Taking cells in keeps the list free of repeated keys and of missing values.
pub proof fn lemma_absorb_cells_keeps(
    points: Seq<GribDataPoint>,
    kind: LevelKind,
    level: i32,
    field: Option<Field>,
    cells: Seq<GribCell>,
    count: int,
)
    ensures
        distinct_keys(points, kind) ==> distinct_keys(
            absorb_cells(points, kind, level, field, cells, count),
            kind,
        ),
        free_of_missing_values(points) ==> free_of_missing_values(
            absorb_cells(points, kind, level, field, cells, count),
        ),
    decreases count,
{
    if count > 0 {
        lemma_absorb_cells_keeps(points, kind, level, field, cells, count - 1);
        lemma_absorb_cell_keeps(
            absorb_cells(points, kind, level, field, cells, count - 1),
            kind,
            level,
            field,
            cells[count - 1],
        );
    }
}

/// Whether both lists are free of repeated keys and of missing values.
pub open spec fn accumulators_wf(acc: Accumulators) -> bool {
    &&& distinct_keys(acc.isobaric, LevelKind::Isobaric)
    &&& distinct_keys(acc.surface, LevelKind::Surface)
    &&& free_of_missing_values(acc.isobaric)
    &&& free_of_missing_values(acc.surface)
}

/// However many messages are taken in, no isobaric sample shares position and level with
/// another, no surface sample shares its position with another, and no reading of any sample
/// is the missing value.
pub proof fn lemma_accumulators_wf(messages: Seq<GribMessage>, count: int)
    ensures
        accumulators_wf(absorb_messages(messages, count)),
    decreases count,
{
    if count > 0 {
        lemma_accumulators_wf(messages, count - 1);
        let before = absorb_messages(messages, count - 1);
        let message = messages[count - 1];
        match accepted_kind(message) {
            Some(kind) => {
                let level = message.level.unwrap().scaled_value;
                let field = field_of(
                    kind,
                    message.parameter_category.unwrap(),
                    message.parameter_number.unwrap(),
                );
                if kind == LevelKind::Isobaric {
                    lemma_absorb_cells_keeps(
                        before.isobaric,
                        kind,
                        level,
                        field,
                        message.cells@,
                        message.cells@.len() as int,
                    );
                } else {
                    lemma_absorb_cells_keeps(
                        before.surface,
                        kind,
                        level,
                        field,
                        message.cells@,
                        message.cells@.len() as int,
                    );
                }
            },
            None => {},
        }
    }
}

/// Whether a cell holds data.
pub open spec fn holds_data(cell: GribCell) -> bool {
    cell.value != MISSING_VALUE
}

/// What the first `count` cells leave behind depends on those cells alone.
pub proof fn lemma_absorb_cells_prefix(
    points: Seq<GribDataPoint>,
    kind: LevelKind,
    level: i32,
    field: Option<Field>,
    cells: Seq<GribCell>,
    others: Seq<GribCell>,
    count: int,
)
    requires
        count <= cells.len(),
        count <= others.len(),
        forall|i: int| 0 <= i < count ==> cells[i] == others[i],
    ensures
        absorb_cells(points, kind, level, field, cells, count) == absorb_cells(
            points,
            kind,
            level,
            field,
            others,
            count,
        ),
    decreases count,
{
    if count > 0 {
        lemma_absorb_cells_prefix(points, kind, level, field, cells, others, count - 1);
    }
}

/// Cells that hold the missing value leave no trace: a grid decodes to the same samples as
/// the grid without them.
pub proof fn lemma_missing_cells_leave_no_trace(
    points: Seq<GribDataPoint>,
    kind: LevelKind,
    level: i32,
    field: Option<Field>,
    cells: Seq<GribCell>,
)
    ensures
        absorb_cells(points, kind, level, field, cells, cells.len() as int) == absorb_cells(
            points,
            kind,
            level,
            field,
            cells.filter(|cell: GribCell| holds_data(cell)),
            cells.filter(|cell: GribCell| holds_data(cell)).len() as int,
        ),
    decreases cells.len(),
{
    let keep = |cell: GribCell| holds_data(cell);
    reveal(Seq::filter);
    if cells.len() > 0 {
        let init = cells.drop_last();
        let last = cells.last();
        let kept = init.filter(keep);
        lemma_missing_cells_leave_no_trace(points, kind, level, field, init);
        lemma_absorb_cells_prefix(points, kind, level, field, cells, init, init.len() as int);
        if holds_data(last) {
            lemma_absorb_cells_prefix(
                points,
                kind,
                level,
                field,
                kept.push(last),
                kept,
                kept.len() as int,
            );
        }
    }
}

/// No reading of a decoded sample is the missing value.
pub proof fn lemma_decoded_points_hold_no_missing_value(messages: Seq<GribMessage>)
    ensures
        free_of_missing_values(decoded_points(messages)),
{
    lemma_accumulators_wf(messages, messages.len() as int);
    let acc = absorb_messages(messages, messages.len() as int);
    let decoded = decoded_points(messages);
    assert forall|i: int| 0 <= i < decoded.len() implies holds_no_missing_value(
        #[trigger] decoded[i],
    ) by {
        lemma_find_key(acc.surface, acc.isobaric[i].lat@, acc.isobaric[i].lon@, None);
    }
}

/// Whether two samples stand at the same horizontal position.
pub open spec fn same_position(a: GribDataPoint, b: GribDataPoint) -> bool {
    a.lat@ == b.lat@ && a.lon@ == b.lon@
}

/// Merging changes the surface pressure of a sample and nothing else, and keeps the number
/// and the order of the samples.
pub proof fn lemma_merge_keeps_the_rest(isobaric: Seq<GribDataPoint>, surface: Seq<GribDataPoint>, i: int)
    requires
        0 <= i < isobaric.len(),
    ensures
        merge_surface(isobaric, surface).len() == isobaric.len(),
        merge_surface(isobaric, surface)[i] == (GribDataPoint {
            sfc_press: merge_surface(isobaric, surface)[i].sfc_press,
            ..isobaric[i]
        }),
{
}

/// The surface pressure recorded at a position is copied onto every isobaric sample at that
/// position.
pub proof fn lemma_surface_pressure_reaches_its_position(
    isobaric: Seq<GribDataPoint>,
    surface: Seq<GribDataPoint>,
    i: int,
    j: int,
)
    requires
        distinct_keys(surface, LevelKind::Surface),
        0 <= i < isobaric.len(),
        0 <= j < surface.len(),
        same_position(isobaric[i], surface[j]),
    ensures
        merge_surface(isobaric, surface)[i].sfc_press == surface[j].sfc_press,
{
    lemma_find_key(surface, isobaric[i].lat@, isobaric[i].lon@, None);
}

/// An isobaric sample at whose position no surface pressure was recorded is left as it was.
pub proof fn lemma_surface_pressure_reaches_no_other(
    isobaric: Seq<GribDataPoint>,
    surface: Seq<GribDataPoint>,
    i: int,
)
    requires
        0 <= i < isobaric.len(),
        forall|j: int| 0 <= j < surface.len() ==> !same_position(isobaric[i], #[trigger] surface[j]),
    ensures
        merge_surface(isobaric, surface)[i] == isobaric[i],
{
    lemma_find_key(surface, isobaric[i].lat@, isobaric[i].lon@, None);
}

/// In what a payload decodes to, the sample at index `i` is the isobaric sample at `i` with
/// the surface pressure that was recorded at its position, where one was recorded there, and
/// the isobaric sample unchanged where none was.
pub proof fn lemma_decoded_surface_pressure(messages: Seq<GribMessage>, i: int)
    requires
        0 <= i < decoded_points(messages).len(),
    ensures
        ({
            let acc = absorb_messages(messages, messages.len() as int);
            &&& decoded_points(messages).len() == acc.isobaric.len()
            &&& forall|j: int|
                0 <= j < acc.surface.len() && same_position(acc.isobaric[i], #[trigger] acc.surface[j])
                    ==> decoded_points(messages)[i] == (GribDataPoint {
                    sfc_press: acc.surface[j].sfc_press,
                    ..acc.isobaric[i]
                })
            &&& (forall|j: int|
                0 <= j < acc.surface.len() ==> !same_position(acc.isobaric[i], #[trigger] acc.surface[j]))
                ==> decoded_points(messages)[i] == acc.isobaric[i]
        }),
{
    let acc = absorb_messages(messages, messages.len() as int);
    lemma_accumulators_wf(messages, messages.len() as int);
    lemma_merge_keeps_the_rest(acc.isobaric, acc.surface, i);
    assert forall|j: int|
        0 <= j < acc.surface.len() && same_position(
            acc.isobaric[i],
            #[trigger] acc.surface[j],
        ) implies decoded_points(messages)[i] == (GribDataPoint {
        sfc_press: acc.surface[j].sfc_press,
        ..acc.isobaric[i]
    }) by {
        lemma_surface_pressure_reaches_its_position(acc.isobaric, acc.surface, i, j);
    }
    if forall|j: int|
        0 <= j < acc.surface.len() ==> !same_position(acc.isobaric[i], #[trigger] acc.surface[j]) {
        lemma_surface_pressure_reaches_no_other(acc.isobaric, acc.surface, i);
    }
}

/// Whether `stripped` is `message` without the cells that hold the missing value.
pub open spec fn is_stripped(message: GribMessage, stripped: GribMessage) -> bool {
    &&& stripped.level == message.level
    &&& stripped.parameter_category == message.parameter_category
    &&& stripped.parameter_number == message.parameter_number
    &&& stripped.cells@ == message.cells@.filter(|cell: GribCell| holds_data(cell))
}

/// A payload fills the accumulators as the same payload does without its missing cells.
pub proof fn lemma_stripped_messages_absorb_alike(
    messages: Seq<GribMessage>,
    stripped: Seq<GribMessage>,
    count: int,
)
    requires
        0 <= count <= messages.len(),
        stripped.len() == messages.len(),
        forall|i: int| 0 <= i < messages.len() ==> is_stripped(#[trigger] messages[i], stripped[i]),
    ensures
        absorb_messages(messages, count) == absorb_messages(stripped, count),
    decreases count,
{
    if count > 0 {
        lemma_stripped_messages_absorb_alike(messages, stripped, count - 1);
        let before = absorb_messages(messages, count - 1);
        let message = messages[count - 1];
        match accepted_kind(message) {
            Some(kind) => {
                let level = message.level.unwrap().scaled_value;
                let field = field_of(
                    kind,
                    message.parameter_category.unwrap(),
                    message.parameter_number.unwrap(),
                );
                if kind == LevelKind::Isobaric {
                    lemma_missing_cells_leave_no_trace(before.isobaric, kind, level, field, message.cells@);
                } else {
                    lemma_missing_cells_leave_no_trace(before.surface, kind, level, field, message.cells@);
                }
            },
            None => {},
        }
    }
}

/// A grid cell that holds the missing value never reaches the samples: a payload decodes to
/// the same samples as the same payload without its missing cells.
pub proof fn lemma_missing_cells_never_decoded(messages: Seq<GribMessage>, stripped: Seq<GribMessage>)
    requires
        stripped.len() == messages.len(),
        forall|i: int| 0 <= i < messages.len() ==> is_stripped(#[trigger] messages[i], stripped[i]),
    ensures
        decoded_points(messages) == decoded_points(stripped),
{
    lemma_stripped_messages_absorb_alike(messages, stripped, messages.len() as int);
}

} // verus!

//! Classification of a raw progress record into the operational state of the train.

use vstd::prelude::*;
use crate::error::TrainError;
use crate::model::{MARKER_NOT_PASSED, MARKER_PASSED};
use crate::record::{ProgressRecord, RawStop, RawStopView, RecordView, MEASURE_CANCELED};
use crate::text::{or_text, text_or};
use crate::time::{decode, decode_spec, estimate_spec, estimate_with_delay, format_time, time_text, TimeOfDay};

verus! {

/// The stop that an en-route train calls at next.
#[derive(Clone, Debug, PartialEq, Eq)]
pub struct NextStopInfo {
    pub station_name: String,
    pub scheduled_arrival: Option<TimeOfDay>,
    /// The scheduled arrival moved by the delay that the train reports now.
    pub estimated_arrival: Option<TimeOfDay>,
}

pub struct NextStopView {
    pub station_name: Seq<char>,
    pub scheduled_arrival: Option<int>,
    pub estimated_arrival: Option<int>,
}

impl View for NextStopInfo {
    type V = NextStopView;

    open spec fn view(&self) -> NextStopView {
        NextStopView {
            station_name: self.station_name@,
            scheduled_arrival: self.scheduled_arrival.deep_view(),
            estimated_arrival: self.estimated_arrival.deep_view(),
        }
    }
}

impl DeepView for NextStopInfo {
    type V = NextStopView;

    open spec fn deep_view(&self) -> NextStopView {
        self@
    }
}

/// The operational state of a train, computed afresh from each snapshot.
#[derive(Clone, Debug, PartialEq, Eq)]
pub enum TrackedTrainStatus {
    NotDeparted { scheduled_departure: String },
    Canceled,
    EnRoute {
        last_update_station: String,
        last_update_time: Option<TimeOfDay>,
        delay_minutes: Option<i64>,
        next_stop_info: Option<NextStopInfo>,
    },
    Arrived { delay_minutes: Option<i64> },
}

pub enum StatusView {
    NotDeparted { scheduled_departure: Seq<char> },
    Canceled,
    EnRoute {
        last_update_station: Seq<char>,
        last_update_time: Option<int>,
        delay_minutes: Option<i64>,
        next_stop_info: Option<NextStopView>,
    },
    Arrived { delay_minutes: Option<i64> },
}

impl View for TrackedTrainStatus {
    type V = StatusView;

    open spec fn view(&self) -> StatusView {
        match *self {
            TrackedTrainStatus::NotDeparted { scheduled_departure } => StatusView::NotDeparted {
                scheduled_departure: scheduled_departure@,
            },
            TrackedTrainStatus::Canceled => StatusView::Canceled,
            TrackedTrainStatus::EnRoute {
                last_update_station,
                last_update_time,
                delay_minutes,
                next_stop_info,
            } => StatusView::EnRoute {
                last_update_station: last_update_station@,
                last_update_time: last_update_time.deep_view(),
                delay_minutes,
                next_stop_info: next_stop_info.deep_view(),
            },
            TrackedTrainStatus::Arrived { delay_minutes } => StatusView::Arrived { delay_minutes },
        }
    }
}

/// The four states without their details.
#[derive(Clone, Copy, Debug, PartialEq, Eq, Structural)]
pub enum StatusKind {
    Canceled,
    NotDeparted,
    Arrived,
    EnRoute,
}

/// The state that the two flags of the source and the progress marker of the last
/// stop decide, the first match winning: canceled, not yet departed, arrived where
/// the last stop is passed, en route otherwise.
pub open spec fn status_kind(canceled: bool, not_departed: bool, last_stop_marker: u64) -> StatusKind {
    if canceled {
        StatusKind::Canceled
    } else if not_departed {
        StatusKind::NotDeparted
    } else if last_stop_marker == 1 {
        StatusKind::Arrived
    } else {
        StatusKind::EnRoute
    }
}

pub open spec fn kind_of(status: StatusView) -> StatusKind {
    match status {
        StatusView::Canceled => StatusKind::Canceled,
        StatusView::NotDeparted { .. } => StatusKind::NotDeparted,
        StatusView::Arrived { .. } => StatusKind::Arrived,
        StatusView::EnRoute { .. } => StatusKind::EnRoute,
    }
}

/// The source marks a train canceled by the measure 1.
pub open spec fn is_canceled(record: RecordView) -> bool {
    record.measure == Some(1u64)
}

/// The source marks a train that has not left yet; an absent flag counts as departed.
pub open spec fn is_not_departed(record: RecordView) -> bool {
    record.not_departed == Some(true)
}

/// The train has called at the stop: its marker is present and not zero.
pub open spec fn is_passed(stop: RawStopView) -> bool {
    stop.marker matches Some(m) && m != 0
}

/// The index of the first stop at or after `from` that the train has not passed, or
/// the number of stops where it has passed them all.
pub open spec fn first_unpassed_from(stops: Seq<RawStopView>, from: int) -> int
    decreases stops.len() - from,
{
    if from < 0 || from >= stops.len() {
        stops.len() as int
    } else if is_passed(stops[from]) {
        first_unpassed_from(stops, from + 1)
    } else {
        from
    }
}

/// What is reported of one stop as the next stop under a delay.
pub open spec fn next_stop_of(stop: RawStopView, delay_minutes: int, offset_seconds: int) -> Result<NextStopView, TrainError> {
    if stop.marker is None || stop.station is None {
        Err(TrainError::IncompleteTrainData)
    } else {
        match estimate_spec(stop.scheduled_arrival, delay_minutes, offset_seconds) {
            Err(e) => Err(e),
            Ok(estimated) => Ok(
                NextStopView {
                    station_name: stop.station->0,
                    scheduled_arrival: decode_spec(stop.scheduled_arrival, offset_seconds),
                    estimated_arrival: estimated,
                },
            ),
        }
    }
}

/// The next stop of a train: the first stop in timetable order that it has not
/// passed, or nothing where every stop is passed.
pub open spec fn next_stop_spec(stops: Seq<RawStopView>, delay_minutes: int, offset_seconds: int) -> Result<Option<NextStopView>, TrainError> {
    let k = first_unpassed_from(stops, 0);
    if k >= stops.len() {
        Ok(None)
    } else {
        match next_stop_of(stops[k], delay_minutes, offset_seconds) {
            Ok(next) => Ok(Some(next)),
            Err(e) => Err(e),
        }
    }
}

/// The scheduled departure shown for a train that has not left: for a train that
/// starts abroad the departure abroad as a clock reading, else the wording of the
/// service, and `--:--` where that is absent.
pub open spec fn departure_text(record: RecordView, offset_seconds: int) -> Seq<char> {
    if record.foreign_origin is Some {
        time_text(decode_spec(record.foreign_departure, offset_seconds))
    } else {
        or_text(record.scheduled_departure_text, "--:--"@)
    }
}

/// The delay that estimates are made with: the reported one, or none.
pub open spec fn delay_or_zero(delay: Option<i64>) -> int {
    match delay {
        Some(d) => d as int,
        None => 0,
    }
}

/// The state of the train that a record describes.
///
/// A canceled train is canceled whatever else the record holds. Otherwise the stop
/// sequence is needed; a train that has left is arrived where its last stop is
/// passed, and else en route towards its first stop not passed.
pub open spec fn classify_spec(record: RecordView, offset_seconds: int) -> Result<StatusView, TrainError> {
    if is_canceled(record) {
        Ok(StatusView::Canceled)
    } else if record.stops is None {
        Err(TrainError::IncompleteTrainData)
    } else if is_not_departed(record) {
        Ok(StatusView::NotDeparted { scheduled_departure: departure_text(record, offset_seconds) })
    } else if record.stops->0.len() == 0 || record.stops->0.last().marker is None {
        Err(TrainError::IncompleteTrainData)
    } else if record.stops->0.last().marker == Some(1u64) {
        Ok(StatusView::Arrived { delay_minutes: record.delay })
    } else {
        match next_stop_spec(record.stops->0, delay_or_zero(record.delay), offset_seconds) {
            Err(e) => Err(e),
            Ok(next) => Ok(
                StatusView::EnRoute {
                    last_update_station: or_text(record.last_update_station, "--"@),
                    last_update_time: decode_spec(record.last_update, offset_seconds),
                    delay_minutes: record.delay,
                    next_stop_info: next,
                },
            ),
        }
    }
}

pub open spec fn next_result_view(r: Result<Option<NextStopInfo>, TrainError>) -> Result<Option<NextStopView>, TrainError> {
    match r {
        Ok(next) => Ok(next.deep_view()),
        Err(e) => Err(e),
    }
}

pub open spec fn status_result_view(r: Result<TrackedTrainStatus, TrainError>) -> Result<StatusView, TrainError> {
    match r {
        Ok(status) => Ok(status@),
        Err(e) => Err(e),
    }
}

/// Decides the state from the two flags and the marker of the last stop.
pub fn classify_flags(canceled: bool, not_departed: bool, last_stop_marker: u64) -> (kind: StatusKind)
    ensures
        kind == status_kind(canceled, not_departed, last_stop_marker),
{
    if canceled {
        StatusKind::Canceled
    } else if not_departed {
        StatusKind::NotDeparted
    } else if last_stop_marker == MARKER_PASSED {
        StatusKind::Arrived
    } else {
        StatusKind::EnRoute
    }
}

/// Scans the stops in order for the first one that the train has not passed and
/// reports its station, its scheduled arrival and the arrival estimated under the
/// delay.
pub fn next_stop(stops: &Vec<RawStop>, delay_minutes: i64, offset_seconds: i32) -> (r: Result<Option<NextStopInfo>, TrainError>)
    ensures
        next_result_view(r) == next_stop_spec(stops.deep_view(), delay_minutes as int, offset_seconds as int),
{
    let mut i: usize = 0;
    while i < stops.len()
        invariant
            i <= stops.len(),
            first_unpassed_from(stops.deep_view(), 0) == first_unpassed_from(stops.deep_view(), i as int),
        decreases stops.len() - i,
    {
        let stop = &stops[i];
        match stop.marker {
            None => {
                return Err(TrainError::IncompleteTrainData);
            },
            Some(marker) => {
                if marker == MARKER_NOT_PASSED {
                    let station_name = match &stop.station {
                        Some(name) => name.clone(),
                        None => {
                            return Err(TrainError::IncompleteTrainData);
                        },
                    };
                    let scheduled_arrival = match decode(stop.scheduled_arrival, offset_seconds) {
                        Ok(t) => t,
                        Err(e) => {
                            return Err(e);
                        },
                    };
                    let estimated_arrival = match estimate_with_delay(stop.scheduled_arrival, delay_minutes, offset_seconds) {
                        Ok(t) => t,
                        Err(e) => {
                            return Err(e);
                        },
                    };
                    return Ok(Some(NextStopInfo { station_name, scheduled_arrival, estimated_arrival }));
                }
            },
        }
        i += 1;
    }
    Ok(None)
}

/// The scheduled departure shown for a train that has not left.
pub fn scheduled_departure(record: &ProgressRecord, offset_seconds: i32) -> (text: String)
    ensures
        text@ == departure_text(record@, offset_seconds as int),
{
    if record.foreign_origin.is_some() {
        format_time(record.foreign_departure, offset_seconds)
    } else {
        text_or(&record.scheduled_departure_text, "--:--")
    }
}

/// Derives the state of a train from its raw progress record.
pub fn classify(record: &ProgressRecord, offset_seconds: i32) -> (r: Result<TrackedTrainStatus, TrainError>)
    ensures
        status_result_view(r) == classify_spec(record@, offset_seconds as int),
{
    let canceled = match record.measure {
        Some(m) => m == MEASURE_CANCELED,
        None => false,
    };
    if canceled {
        return Ok(TrackedTrainStatus::Canceled);
    }
    let stops = match &record.stops {
        Some(stops) => stops,
        None => {
            return Err(TrainError::IncompleteTrainData);
        },
    };
    let not_departed = match record.not_departed {
        Some(flag) => flag,
        None => false,
    };
    if not_departed {
        return Ok(TrackedTrainStatus::NotDeparted { scheduled_departure: scheduled_departure(record, offset_seconds) });
    }
    if stops.len() == 0 {
        return Err(TrainError::IncompleteTrainData);
    }
    let last = &stops[stops.len() - 1];
    let last_marker = match last.marker {
        Some(m) => m,
        None => {
            return Err(TrainError::IncompleteTrainData);
        },
    };
    if last_marker == MARKER_PASSED {
        return Ok(TrackedTrainStatus::Arrived { delay_minutes: record.delay });
    }
    let delay = match record.delay {
        Some(d) => d,
        None => 0,
    };
    let next_stop_info = match next_stop(stops, delay, offset_seconds) {
        Ok(next) => next,
        Err(e) => {
            return Err(e);
        },
    };
    let last_update_time = match decode(record.last_update, offset_seconds) {
        Ok(t) => t,
        Err(e) => {
            return Err(e);
        },
    };
    Ok(
        TrackedTrainStatus::EnRoute {
            last_update_station: text_or(&record.last_update_station, "--"),
            last_update_time,
            delay_minutes: record.delay,
            next_stop_info,
        },
    )
}

/// The flags and the marker decide the state in every combination, the first match
/// winning: a canceled train is canceled whatever the other two say.
pub proof fn lemma_status_kind_total(canceled: bool, not_departed: bool, last_stop_marker: u64)
    ensures
        canceled ==> status_kind(canceled, not_departed, last_stop_marker) == StatusKind::Canceled,
        !canceled && not_departed ==> status_kind(canceled, not_departed, last_stop_marker) == StatusKind::NotDeparted,
        !canceled && !not_departed && last_stop_marker == 1 ==> status_kind(canceled, not_departed, last_stop_marker) == StatusKind::Arrived,
        !canceled && !not_departed && last_stop_marker != 1 ==> status_kind(canceled, not_departed, last_stop_marker) == StatusKind::EnRoute,
{
}

/// A record that the source marks canceled classifies as canceled, whatever its other
/// fields hold or lack.
pub proof fn lemma_canceled_wins(record: RecordView, offset_seconds: int)
    requires
        is_canceled(record),
    ensures
        classify_spec(record, offset_seconds) == Ok::<StatusView, TrainError>(StatusView::Canceled),
{
}

/// Whenever a record classifies at all, its state is the one that its two flags and
/// the marker of its last stop decide.
pub proof fn lemma_classification_follows_flags(record: RecordView, offset_seconds: int, last_stop_marker: u64)
    requires
        classify_spec(record, offset_seconds) is Ok,
        !is_canceled(record) && !is_not_departed(record) ==> record.stops->0.last().marker == Some(last_stop_marker),
    ensures
        kind_of(classify_spec(record, offset_seconds)->Ok_0) == status_kind(
            is_canceled(record),
            is_not_departed(record),
            last_stop_marker,
        ),
{
}

/// The scan never skips a stop that is not passed.
proof fn lemma_scan_stays(stops: Seq<RawStopView>, from: int, k: int)
    requires
        0 <= from <= k < stops.len(),
        forall|j: int| from <= j < k ==> is_passed(#[trigger] stops[j]),
        !is_passed(stops[k]),
    ensures
        first_unpassed_from(stops, from) == k,
    decreases k - from,
{
    if from < k {
        lemma_scan_stays(stops, from + 1, k);
    }
}

/// The scan for the next stop settles on the first stop that is not passed: on no
/// stop before it, and on no stop after it.
pub proof fn lemma_next_stop_is_first_unpassed(stops: Seq<RawStopView>, k: int)
    requires
        0 <= k < stops.len(),
        forall|j: int| 0 <= j < k ==> is_passed(#[trigger] stops[j]),
        !is_passed(stops[k]),
    ensures
        first_unpassed_from(stops, 0) == k,
{
    lemma_scan_stays(stops, 0, k);
}

} // verus!

//! What is reported of one train: its itinerary, its delay, its state and its stops.

use vstd::prelude::*;
use crate::error::TrainError;
use crate::model::MARKER_NOT_PASSED;
use crate::record::{ProgressRecord, RawStop, RawStopView, RecordView, MEASURE_CANCELED};
use crate::status::{classify, classify_spec, delay_or_zero, is_canceled, StatusView, TrackedTrainStatus};
use crate::text::{or_text, same_text, signed_chars, signed_text, string_of, text_or, trimmed};
use crate::time::{decode, decode_spec, estimate_spec, estimate_with_delay, rome_offset_seconds, TimeOfDay};

verus! {

/// The stations of the itinerary in order: origin and destination, with `--` for one
/// that is absent, preceded by the origin abroad and followed by the destination
/// abroad where the record names one that differs from the domestic name.
pub open spec fn itinerary_spec(record: RecordView) -> Seq<Seq<char>> {
    let origin = or_text(record.origin, "--"@);
    let destination = or_text(record.destination, "--"@);
    let before = if record.foreign_origin is Some && record.foreign_origin->0 != origin {
        seq![record.foreign_origin->0]
    } else {
        Seq::<Seq<char>>::empty()
    };
    let after = if record.foreign_destination is Some && record.foreign_destination->0 != destination {
        seq![record.foreign_destination->0]
    } else {
        Seq::<Seq<char>>::empty()
    };
    before + seq![origin, destination] + after
}

/// The stations of the itinerary of a train, in order.
pub fn itinerary(record: &ProgressRecord) -> (names: Vec<String>)
    ensures
        names.deep_view() == itinerary_spec(record@),
{
    let origin = text_or(&record.origin, "--");
    let destination = text_or(&record.destination, "--");
    let mut names: Vec<String> = Vec::new();
    match &record.foreign_origin {
        Some(foreign) => {
            if !same_text(foreign.as_str(), origin.as_str()) {
                names.push(foreign.clone());
            }
        },
        None => {},
    }
    names.push(origin);
    names.push(destination.clone());
    match &record.foreign_destination {
        Some(foreign) => {
            if !same_text(foreign.as_str(), destination.as_str()) {
                names.push(foreign.clone());
            }
        },
        None => {},
    }
    names
}

/// The text of a delay: `--` where none is reported, else the signed minutes.
pub open spec fn delay_text_spec(delay: Option<i64>) -> Seq<char> {
    match delay {
        Some(d) => signed_text(d as int),
        None => "--"@,
    }
}

/// The text of a delay in minutes.
pub fn delay_text(delay: Option<i64>) -> (text: String)
    ensures
        text@ == delay_text_spec(delay),
{
    match delay {
        Some(d) => {
            let chars = signed_chars(d);
            string_of(&chars)
        },
        None => String::from_str("--"),
    }
}

/// A scheduled time beside the time that counts now: the actual one at a stop that
/// the train has passed, the one estimated under the delay at a stop still ahead.
#[derive(Clone, Copy, Debug, PartialEq, Eq)]
pub struct ShownTimes {
    pub scheduled: Option<TimeOfDay>,
    pub effective: Option<TimeOfDay>,
}

pub struct ShownTimesView {
    pub scheduled: Option<int>,
    pub effective: Option<int>,
}

impl View for ShownTimes {
    type V = ShownTimesView;

    open spec fn view(&self) -> ShownTimesView {
        ShownTimesView { scheduled: self.scheduled.deep_view(), effective: self.effective.deep_view() }
    }
}

impl DeepView for ShownTimes {
    type V = ShownTimesView;

    open spec fn deep_view(&self) -> ShownTimesView {
        self@
    }
}

/// One stop of the stop listing.
#[derive(Clone, Debug, PartialEq, Eq)]
pub struct StopLine {
    pub station: String,
    /// The train has called at the stop.
    pub passed: bool,
    pub platform: String,
    /// The platform is the one actually used, not only the scheduled one.
    pub platform_confirmed: bool,
    /// Absent at the first stop.
    pub arrival: Option<ShownTimes>,
    /// Absent at the last stop.
    pub departure: Option<ShownTimes>,
}

pub struct StopLineView {
    pub station: Seq<char>,
    pub passed: bool,
    pub platform: Seq<char>,
    pub platform_confirmed: bool,
    pub arrival: Option<ShownTimesView>,
    pub departure: Option<ShownTimesView>,
}

impl View for StopLine {
    type V = StopLineView;

    open spec fn view(&self) -> StopLineView {
        StopLineView {
            station: self.station@,
            passed: self.passed,
            platform: self.platform@,
            platform_confirmed: self.platform_confirmed,
            arrival: self.arrival.deep_view(),
            departure: self.departure.deep_view(),
        }
    }
}

impl DeepView for StopLine {
    type V = StopLineView;

    open spec fn deep_view(&self) -> StopLineView {
        self@
    }
}

/// The scheduled platform of a stop: that of the arrival, else that of the departure,
/// else `--`.
pub open spec fn scheduled_platform(stop: RawStopView) -> Seq<char> {
    or_text(stop.scheduled_arrival_platform, or_text(stop.scheduled_departure_platform, "--"@))
}

/// The platform actually used at a stop, found as the scheduled one is.
pub open spec fn actual_platform(stop: RawStopView) -> Seq<char> {
    or_text(stop.actual_arrival_platform, or_text(stop.actual_departure_platform, "--"@))
}

/// The two times shown for one event of a stop.
pub open spec fn shown_times_spec(scheduled: Option<u64>, actual: Option<u64>, passed: bool, delay_minutes: int, offset_seconds: int) -> Result<ShownTimesView, TrainError> {
    if passed {
        Ok(ShownTimesView { scheduled: decode_spec(scheduled, offset_seconds), effective: decode_spec(actual, offset_seconds) })
    } else {
        match estimate_spec(scheduled, delay_minutes, offset_seconds) {
            Ok(estimated) => Ok(ShownTimesView { scheduled: decode_spec(scheduled, offset_seconds), effective: estimated }),
            Err(e) => Err(e),
        }
    }
}

/// The times of an event that the listing shows only where `shown` holds.
pub open spec fn optional_times_spec(shown: bool, scheduled: Option<u64>, actual: Option<u64>, passed: bool, delay_minutes: int, offset_seconds: int) -> Result<Option<ShownTimesView>, TrainError> {
    if !shown {
        Ok(None)
    } else {
        match shown_times_spec(scheduled, actual, passed, delay_minutes, offset_seconds) {
            Ok(times) => Ok(Some(times)),
            Err(e) => Err(e),
        }
    }
}

/// The line of the stop at `index` among `count` stops. Marker and station are
/// needed; the arrival is shown but at the first stop, the departure but at the last.
pub open spec fn stop_line_spec(stop: RawStopView, index: int, count: int, delay_minutes: int, offset_seconds: int) -> Result<StopLineView, TrainError> {
    if stop.marker is None || stop.station is None {
        Err(TrainError::IncompleteTrainData)
    } else {
        let passed = stop.marker->0 != 0;
        let arrival = optional_times_spec(index != 0, stop.scheduled_arrival, stop.actual_arrival, passed, delay_minutes, offset_seconds);
        let departure = optional_times_spec(index != count - 1, stop.scheduled_departure, stop.actual_departure, passed, delay_minutes, offset_seconds);
        if arrival is Err {
            Err(arrival->Err_0)
        } else if departure is Err {
            Err(departure->Err_0)
        } else {
            Ok(
                StopLineView {
                    station: stop.station->0,
                    passed,
                    platform: if actual_platform(stop) == "--"@ {
                        scheduled_platform(stop)
                    } else {
                        actual_platform(stop)
                    },
                    platform_confirmed: actual_platform(stop) != "--"@,
                    arrival: arrival->Ok_0,
                    departure: departure->Ok_0,
                },
            )
        }
    }
}

pub open spec fn line_result_view(r: Result<StopLine, TrainError>) -> Result<StopLineView, TrainError> {
    match r {
        Ok(line) => Ok(line@),
        Err(e) => Err(e),
    }
}

/// Whether a result is the listing of the stops: a line for every stop in order, or
/// the error of the first stop that has no line.
pub open spec fn is_stop_listing(stops: Seq<RawStopView>, delay_minutes: int, offset_seconds: int, result: Result<Seq<StopLineView>, TrainError>) -> bool {
    match result {
        Ok(lines) => {
            &&& lines.len() == stops.len()
            &&& forall|i: int| 0 <= i < stops.len() ==> stop_line_spec(#[trigger] stops[i], i, stops.len() as int, delay_minutes, offset_seconds) == Ok::<StopLineView, TrainError>(lines[i])
        },
        Err(e) => exists|k: int| {
            &&& 0 <= k < stops.len()
            &&& stop_line_spec(#[trigger] stops[k], k, stops.len() as int, delay_minutes, offset_seconds) == Err::<StopLineView, TrainError>(e)
            &&& forall|i: int| 0 <= i < k ==> stop_line_spec(#[trigger] stops[i], i, stops.len() as int, delay_minutes, offset_seconds) is Ok
        },
    }
}

pub open spec fn listing_result_view(r: Result<Vec<StopLine>, TrainError>) -> Result<Seq<StopLineView>, TrainError> {
    match r {
        Ok(lines) => Ok(lines.deep_view()),
        Err(e) => Err(e),
    }
}

fn shown_times(scheduled: Option<u64>, actual: Option<u64>, passed: bool, delay_minutes: i64, offset_seconds: i32) -> (r: Result<ShownTimes, TrainError>)
    ensures
        match r {
            Ok(times) => shown_times_spec(scheduled, actual, passed, delay_minutes as int, offset_seconds as int) == Ok::<ShownTimesView, TrainError>(times@),
            Err(e) => shown_times_spec(scheduled, actual, passed, delay_minutes as int, offset_seconds as int) == Err::<ShownTimesView, TrainError>(e),
        },
{
    let scheduled_time = match decode(scheduled, offset_seconds) {
        Ok(t) => t,
        Err(e) => {
            return Err(e);
        },
    };
    let effective = if passed {
        match decode(actual, offset_seconds) {
            Ok(t) => t,
            Err(e) => {
                return Err(e);
            },
        }
    } else {
        match estimate_with_delay(scheduled, delay_minutes, offset_seconds) {
            Ok(t) => t,
            Err(e) => {
                return Err(e);
            },
        }
    };
    Ok(ShownTimes { scheduled: scheduled_time, effective })
}

/// The line of one stop of the listing.
pub fn stop_line(stop: &RawStop, index: usize, count: usize, delay_minutes: i64, offset_seconds: i32) -> (r: Result<StopLine, TrainError>)
    ensures
        line_result_view(r) == stop_line_spec(stop@, index as int, count as int, delay_minutes as int, offset_seconds as int),
{
    let marker = match stop.marker {
        Some(m) => m,
        None => {
            return Err(TrainError::IncompleteTrainData);
        },
    };
    let station = match &stop.station {
        Some(name) => name.clone(),
        None => {
            return Err(TrainError::IncompleteTrainData);
        },
    };
    let passed = marker != MARKER_NOT_PASSED;
    let scheduled = match &stop.scheduled_arrival_platform {
        Some(p) => p.clone(),
        None => text_or(&stop.scheduled_departure_platform, "--"),
    };
    let actual = match &stop.actual_arrival_platform {
        Some(p) => p.clone(),
        None => text_or(&stop.actual_departure_platform, "--"),
    };
    let platform_confirmed = !same_text(actual.as_str(), "--");
    let platform = if platform_confirmed {
        actual
    } else {
        scheduled
    };
    let arrival = if index != 0 {
        match shown_times(stop.scheduled_arrival, stop.actual_arrival, passed, delay_minutes, offset_seconds) {
            Ok(times) => Some(times),
            Err(e) => {
                return Err(e);
            },
        }
    } else {
        None
    };
    let departure = if count == 0 || index != count - 1 {
        match shown_times(stop.scheduled_departure, stop.actual_departure, passed, delay_minutes, offset_seconds) {
            Ok(times) => Some(times),
            Err(e) => {
                return Err(e);
            },
        }
    } else {
        None
    };
    Ok(StopLine { station, passed, platform, platform_confirmed, arrival, departure })
}

/// The listing of all stops of a train under a delay.
pub fn stop_lines(stops: &Vec<RawStop>, delay_minutes: i64, offset_seconds: i32) -> (r: Result<Vec<StopLine>, TrainError>)
    ensures
        is_stop_listing(stops.deep_view(), delay_minutes as int, offset_seconds as int, listing_result_view(r)),
{
    let mut lines: Vec<StopLine> = Vec::new();
    let mut i: usize = 0;
    let count = stops.len();
    while i < count
        invariant
            count == stops.len(),
            i <= count,
            lines.len() == i,
            forall|j: int| 0 <= j < i ==> stop_line_spec(#[trigger] stops.deep_view()[j], j, count as int, delay_minutes as int, offset_seconds as int) == Ok::<StopLineView, TrainError>(lines[j]@),
        decreases count - i,
    {
        assert(stops.deep_view()[i as int] == stops[i as int]@);
        match stop_line(&stops[i], i, count, delay_minutes, offset_seconds) {
            Ok(line) => {
                lines.push(line);
            },
            Err(e) => {
                return Err(e);
            },
        }
        i += 1;
    }
    assert forall|j: int| 0 <= j < stops.deep_view().len() implies stop_line_spec(#[trigger] stops.deep_view()[j], j, stops.deep_view().len() as int, delay_minutes as int, offset_seconds as int) == Ok::<StopLineView, TrainError>(lines.deep_view()[j]) by {
    }
    Ok(lines)
}

/// Everything that is said of one train, in the order in which it is said: label,
/// itinerary, last update, delay, state, and the stops where they are asked for.
#[derive(Clone, Debug, PartialEq, Eq)]
pub struct TrainReport {
    pub label: String,
    pub itinerary: Vec<String>,
    pub last_update_station: String,
    pub last_update_time: Option<TimeOfDay>,
    pub delay: String,
    pub status: TrackedTrainStatus,
    pub stops: Option<Vec<StopLine>>,
}

pub struct TrainReportView {
    pub label: Seq<char>,
    pub itinerary: Seq<Seq<char>>,
    pub last_update_station: Seq<char>,
    pub last_update_time: Option<int>,
    pub delay: Seq<char>,
    pub status: StatusView,
    pub stops: Option<Seq<StopLineView>>,
}

impl View for TrainReport {
    type V = TrainReportView;

    open spec fn view(&self) -> TrainReportView {
        TrainReportView {
            label: self.label@,
            itinerary: self.itinerary.deep_view(),
            last_update_station: self.last_update_station@,
            last_update_time: self.last_update_time.deep_view(),
            delay: self.delay@,
            status: self.status@,
            stops: self.stops.deep_view(),
        }
    }
}

pub open spec fn report_result_view(r: Result<TrainReport, TrainError>) -> Result<TrainReportView, TrainError> {
    match r {
        Ok(report) => Ok(report@),
        Err(e) => Err(e),
    }
}

/// The stops are listed where they are asked for and the train is not canceled.
pub open spec fn lists_stops(record: RecordView, with_stops: bool) -> bool {
    with_stops && !is_canceled(record)
}

/// Whether a result is the report of a record.
///
/// The label is needed before anything else, then the state. The report fails with
/// the error of the state, or else with that of the stop listing where stops are
/// listed. The label is reported without the white space around it.
pub open spec fn is_track_report(record: RecordView, with_stops: bool, offset_seconds: int, result: Result<TrainReportView, TrainError>) -> bool {
    if record.train_label is None {
        result == Err::<TrainReportView, TrainError>(TrainError::IncompleteTrainData)
    } else if classify_spec(record, offset_seconds) is Err {
        result == Err::<TrainReportView, TrainError>(classify_spec(record, offset_seconds)->Err_0)
    } else {
        match result {
            Ok(report) => {
                &&& report.label == trimmed(record.train_label->0)
                &&& report.itinerary == itinerary_spec(record)
                &&& report.last_update_station == or_text(record.last_update_station, "--"@)
                &&& report.last_update_time == decode_spec(record.last_update, offset_seconds)
                &&& report.delay == delay_text_spec(record.delay)
                &&& report.status == classify_spec(record, offset_seconds)->Ok_0
                &&& report.stops is Some <==> lists_stops(record, with_stops)
                &&& report.stops is Some ==> is_stop_listing(record.stops->0, delay_or_zero(record.delay), offset_seconds, Ok(report.stops->0))
            },
            Err(e) => lists_stops(record, with_stops) && is_stop_listing(record.stops->0, delay_or_zero(record.delay), offset_seconds, Err(e)),
        }
    }
}

/// Builds the report of one train from its raw progress record.
pub fn track_report(record: &ProgressRecord, with_stops: bool, offset_seconds: i32) -> (r: Result<TrainReport, TrainError>)
    ensures
        is_track_report(record@, with_stops, offset_seconds as int, report_result_view(r)),
{
    let label = match &record.train_label {
        Some(label) => String::from_str(label.as_str().trim()),
        None => {
            return Err(TrainError::IncompleteTrainData);
        },
    };
    let status = match classify(record, offset_seconds) {
        Ok(status) => status,
        Err(e) => {
            return Err(e);
        },
    };
    let canceled = match record.measure {
        Some(m) => m == MEASURE_CANCELED,
        None => false,
    };
    let delay = match record.delay {
        Some(d) => d,
        None => 0,
    };
    let stops = if with_stops && !canceled {
        match &record.stops {
            Some(stops) => match stop_lines(stops, delay, offset_seconds) {
                Ok(lines) => Some(lines),
                Err(e) => {
                    return Err(e);
                },
            },
            None => {
                return Err(TrainError::IncompleteTrainData);
            },
        }
    } else {
        None
    };
    let last_update_time = match decode(record.last_update, offset_seconds) {
        Ok(t) => t,
        Err(e) => {
            return Err(e);
        },
    };
    Ok(
        TrainReport {
            label,
            itinerary: itinerary(record),
            last_update_station: text_or(&record.last_update_station, "--"),
            last_update_time,
            delay: delay_text(record.delay),
            status,
            stops,
        },
    )
}

/// Builds the report of one train under the offset that the home time zone has at
/// the time of the call. The contract holds for whichever offset was in force.
pub fn track_report_now(record: &ProgressRecord, with_stops: bool) -> (r: Result<TrainReport, TrainError>)
    ensures
        exists|offset: int|
            #![trigger is_track_report(record@, with_stops, offset, report_result_view(r))]
            -86_400 < offset < 86_400 && is_track_report(record@, with_stops, offset, report_result_view(r)),
{
    let offset = rome_offset_seconds();
    let r = track_report(record, with_stops, offset);
    r
}

} // verus!

//! Building the trains of a corridor from the service's answers: the train codes of
//! a day, the reference of each train, and the train with its stops.

use vstd::prelude::*;
use crate::error::TrainError;
use crate::lookup::{TrainReference, TrainReferenceView, reference_result_view};
use crate::model::{category_of, Stop, StopView, Train, TrainType, TrainView, MARKER_NOT_PASSED};
use crate::record::{ProgressRecord, RawStop, RawStopView, RecordView};
use crate::text::{chars_of, fields_of, lines_of, lines_spec, mentions_any, mentions_one_of, parse_number, parse_number_spec, split_spec, trimmed};
use crate::time::{decode, decode_spec, rome_offset_seconds};

verus! {

/// The stations at which the trains of the corridor start or end.
pub open spec fn corridor_terminals_spec() -> Seq<Seq<char>> {
    seq![
        "FINALE LIGURE MARINA"@,
        "ALBENGA"@,
        "ALASSIO"@,
        "IMPERIA"@,
        "TAGGIA ARMA"@,
        "SANREMO"@,
        "VENTIMIGLIA"@,
    ]
}

/// The stations at which the intercity trains of the corridor start or end.
pub open spec fn intercity_terminals_spec() -> Seq<Seq<char>> {
    seq!["MILANO CENTRALE"@, "VENTIMIGLIA"@, "ROMA TERMINI"@]
}

pub fn corridor_terminals() -> (names: Vec<String>)
    ensures
        names.deep_view() == corridor_terminals_spec(),
{
    let mut names: Vec<String> = Vec::new();
    names.push(String::from_str("FINALE LIGURE MARINA"));
    names.push(String::from_str("ALBENGA"));
    names.push(String::from_str("ALASSIO"));
    names.push(String::from_str("IMPERIA"));
    names.push(String::from_str("TAGGIA ARMA"));
    names.push(String::from_str("SANREMO"));
    names.push(String::from_str("VENTIMIGLIA"));
    names
}

pub fn intercity_terminals() -> (names: Vec<String>)
    ensures
        names.deep_view() == intercity_terminals_spec(),
{
    let mut names: Vec<String> = Vec::new();
    names.push(String::from_str("MILANO CENTRALE"));
    names.push(String::from_str("VENTIMIGLIA"));
    names.push(String::from_str("ROMA TERMINI"));
    names
}

/// The train code in one line of the day's list: its second field between commas.
pub open spec fn code_of_line(line: Seq<char>) -> Result<u32, TrainError> {
    let fields = split_spec(line, ',');
    if fields.len() < 2 {
        Err(TrainError::MalformedResponse)
    } else {
        match parse_number_spec(fields[1], u32::MAX as nat) {
            Some(code) => Ok(code as u32),
            None => Err(TrainError::MalformedResponse),
        }
    }
}

/// The train codes of the lines that mention a terminal of the corridor, in the order
/// of the lines; `MalformedResponse` where such a line bears no code.
pub open spec fn codes_of(lines: Seq<Seq<char>>) -> Result<Seq<u32>, TrainError>
    decreases lines.len(),
{
    if lines.len() == 0 {
        Ok(Seq::<u32>::empty())
    } else {
        match codes_of(lines.drop_last()) {
            Err(e) => Err(e),
            Ok(codes) => if !mentions_any(lines.last(), corridor_terminals_spec()) {
                Ok(codes)
            } else {
                match code_of_line(lines.last()) {
                    Ok(code) => Ok(codes.push(code)),
                    Err(e) => Err(e),
                }
            },
        }
    }
}

pub open spec fn codes_result_view(r: Result<Vec<u32>, TrainError>) -> Result<Seq<u32>, TrainError> {
    match r {
        Ok(codes) => Ok(codes@),
        Err(e) => Err(e),
    }
}

fn line_code(line: &str) -> (r: Result<u32, TrainError>)
    ensures
        r == code_of_line(line@),
{
    let fields = fields_of(line, ',');
    if fields.len() < 2 {
        return Err(TrainError::MalformedResponse);
    }
    let digits = chars_of(fields[1].as_str());
    match parse_number(&digits, 0xffff_ffff) {
        Some(code) => Ok(code as u32),
        None => Err(TrainError::MalformedResponse),
    }
}

/// Reads the codes of the trains of the corridor from the list of a day's trains.
pub fn train_codes(list: &str) -> (r: Result<Vec<u32>, TrainError>)
    ensures
        codes_result_view(r) == codes_of(lines_spec(list@)),
{
    let lines = lines_of(list);
    let terminals = corridor_terminals();
    let ghost views = lines.deep_view();
    let mut codes: Vec<u32> = Vec::new();
    let mut i: usize = 0;
    while i < lines.len()
        invariant
            views == lines.deep_view(),
            views == lines_spec(list@),
            terminals.deep_view() == corridor_terminals_spec(),
            i <= lines.len(),
            codes_of(views.take(i as int)) == Ok::<Seq<u32>, TrainError>(codes@),
        decreases lines.len() - i,
    {
        proof {
            assert(views.take(i + 1).drop_last() =~= views.take(i as int));
        }
        if mentions_one_of(lines[i].as_str(), &terminals) {
            match line_code(lines[i].as_str()) {
                Ok(code) => {
                    codes.push(code);
                },
                Err(e) => {
                    proof {
                        lemma_codes_fail_for_good(views, i + 1);
                    }
                    return Err(e);
                },
            }
        }
        i += 1;
    }
    assert(views.take(i as int) =~= views);
    Ok(codes)
}

/// Once the lines up to some point bear no code where they should, no further line
/// mends the list.
proof fn lemma_codes_fail_for_good(lines: Seq<Seq<char>>, k: int)
    requires
        0 <= k <= lines.len(),
        codes_of(lines.take(k)) is Err,
    ensures
        codes_of(lines) == codes_of(lines.take(k)),
    decreases lines.len() - k,
{
    if k < lines.len() {
        assert(lines.take(k + 1).drop_last() =~= lines.take(k));
        lemma_codes_fail_for_good(lines, k + 1);
    } else {
        assert(lines.take(k) =~= lines);
    }
}

/// A train between 500 and 799 is an intercity train, of which only those that run
/// to or from one of the intercity terminals belong to the corridor; for every other
/// train any line will do.
pub open spec fn is_eligible(code: u32, line: Seq<char>) -> bool {
    code < 500 || code >= 800 || mentions_any(line, intercity_terminals_spec())
}

/// The index of the first eligible line at or after `from`, or the number of lines.
pub open spec fn first_eligible_from(code: u32, lines: Seq<Seq<char>>, from: int) -> int
    decreases lines.len() - from,
{
    if from < 0 || from >= lines.len() {
        lines.len() as int
    } else if is_eligible(code, lines[from]) {
        from
    } else {
        first_eligible_from(code, lines, from + 1)
    }
}

/// The reference of the train of a code in the answer to the search for that code:
/// in the first eligible line, the third field between hyphens is the identifier of
/// the origin and the last field the timestamp, each without white space around it.
pub open spec fn timetable_reference_spec(code: u32, answer: Seq<char>) -> Result<TrainReferenceView, TrainError> {
    let lines = lines_spec(answer);
    let k = first_eligible_from(code, lines, 0);
    if k >= lines.len() {
        Err(TrainError::MalformedResponse)
    } else {
        let fields = split_spec(lines[k], '-');
        if fields.len() < 3 {
            Err(TrainError::MalformedResponse)
        } else {
            Ok(TrainReferenceView { origin_id: trimmed(fields[2]), timestamp: trimmed(fields.last()) })
        }
    }
}

/// Finds the reference of the train of a code in the answer to the search for it.
pub fn timetable_reference(code: u32, answer: &str) -> (r: Result<TrainReference, TrainError>)
    ensures
        reference_result_view(r) == timetable_reference_spec(code, answer@),
{
    let lines = lines_of(answer);
    let terminals = intercity_terminals();
    let ghost views = lines.deep_view();
    let mut k: usize = 0;
    while k < lines.len()
        invariant
            views == lines.deep_view(),
            views == lines_spec(answer@),
            terminals.deep_view() == intercity_terminals_spec(),
            k <= lines.len(),
            first_eligible_from(code, views, 0) == first_eligible_from(code, views, k as int),
        decreases lines.len() - k,
    {
        if code < 500 || code >= 800 || mentions_one_of(lines[k].as_str(), &terminals) {
            let fields = fields_of(lines[k].as_str(), '-');
            let n = fields.len();
            if n < 3 {
                return Err(TrainError::MalformedResponse);
            }
            return Ok(
                TrainReference {
                    origin_id: String::from_str(fields[2].as_str().trim()),
                    timestamp: String::from_str(fields[n - 1].as_str().trim()),
                },
            );
        }
        k += 1;
    }
    Err(TrainError::MalformedResponse)
}

/// The stop that a raw stop describes. The station is needed; a marker that the
/// service omits counts as not yet passed.
pub open spec fn stop_of(raw: RawStopView, offset_seconds: int) -> Result<StopView, TrainError> {
    match raw.station {
        None => Err(TrainError::IncompleteTrainData),
        Some(name) => Ok(
            StopView {
                station_name: name,
                arrival_time: decode_spec(raw.scheduled_arrival, offset_seconds),
                departure_time: decode_spec(raw.scheduled_departure, offset_seconds),
                actual_arrival_time: decode_spec(raw.actual_arrival, offset_seconds),
                actual_departure_time: decode_spec(raw.actual_departure, offset_seconds),
                progress_marker: match raw.marker {
                    Some(m) => m,
                    None => 0u64,
                },
            },
        ),
    }
}

/// The stops that the raw stops describe, in their order, or the error of the first
/// that describes none.
pub open spec fn stops_of(raws: Seq<RawStopView>, offset_seconds: int) -> Result<Seq<StopView>, TrainError>
    decreases raws.len(),
{
    if raws.len() == 0 {
        Ok(Seq::<StopView>::empty())
    } else {
        match stops_of(raws.drop_last(), offset_seconds) {
            Err(e) => Err(e),
            Ok(stops) => match stop_of(raws.last(), offset_seconds) {
                Ok(stop) => Ok(stops.push(stop)),
                Err(e) => Err(e),
            },
        }
    }
}

/// The train that a progress record describes. Category and stops are needed.
pub open spec fn train_spec(code: u32, origin_id: Seq<char>, record: RecordView, offset_seconds: int) -> Result<TrainView, TrainError> {
    if record.category is None || record.stops is None {
        Err(TrainError::IncompleteTrainData)
    } else {
        match stops_of(record.stops->0, offset_seconds) {
            Err(e) => Err(e),
            Ok(stops) => Ok(
                TrainView { code, origin_id, train_type: category_of(record.category->0), stops },
            ),
        }
    }
}

pub open spec fn stop_result_view(r: Result<Stop, TrainError>) -> Result<StopView, TrainError> {
    match r {
        Ok(stop) => Ok(stop@),
        Err(e) => Err(e),
    }
}

pub open spec fn train_result_view(r: Result<Train, TrainError>) -> Result<TrainView, TrainError> {
    match r {
        Ok(train) => Ok(train@),
        Err(e) => Err(e),
    }
}

/// Builds one stop from its raw record.
pub fn stop_from_raw(raw: &RawStop, offset_seconds: i32) -> (r: Result<Stop, TrainError>)
    ensures
        stop_result_view(r) == stop_of(raw@, offset_seconds as int),
{
    let station_name = match &raw.station {
        Some(name) => name.clone(),
        None => {
            return Err(TrainError::IncompleteTrainData);
        },
    };
    let arrival_time = match decode(raw.scheduled_arrival, offset_seconds) {
        Ok(t) => t,
        Err(e) => {
            return Err(e);
        },
    };
    let departure_time = match decode(raw.scheduled_departure, offset_seconds) {
        Ok(t) => t,
        Err(e) => {
            return Err(e);
        },
    };
    let actual_arrival_time = match decode(raw.actual_arrival, offset_seconds) {
        Ok(t) => t,
        Err(e) => {
            return Err(e);
        },
    };
    let actual_departure_time = match decode(raw.actual_departure, offset_seconds) {
        Ok(t) => t,
        Err(e) => {
            return Err(e);
        },
    };
    let progress_marker = match raw.marker {
        Some(m) => m,
        None => MARKER_NOT_PASSED,
    };
    Ok(Stop { station_name, arrival_time, departure_time, actual_arrival_time, actual_departure_time, progress_marker })
}

proof fn lemma_stops_fail_for_good(raws: Seq<RawStopView>, offset_seconds: int, k: int)
    requires
        0 <= k <= raws.len(),
        stops_of(raws.take(k), offset_seconds) is Err,
    ensures
        stops_of(raws, offset_seconds) == stops_of(raws.take(k), offset_seconds),
    decreases raws.len() - k,
{
    if k < raws.len() {
        assert(raws.take(k + 1).drop_last() =~= raws.take(k));
        lemma_stops_fail_for_good(raws, offset_seconds, k + 1);
    } else {
        assert(raws.take(k) =~= raws);
    }
}

/// Builds the train of a code from the progress record that the service returned
/// for it.
pub fn train_from_record(code: u32, origin_id: &str, record: &ProgressRecord, offset_seconds: i32) -> (r: Result<Train, TrainError>)
    ensures
        train_result_view(r) == train_spec(code, origin_id@, record@, offset_seconds as int),
{
    let train_type = match &record.category {
        Some(category) => TrainType::from_code(category.as_str()),
        None => {
            return Err(TrainError::IncompleteTrainData);
        },
    };
    let raws = match &record.stops {
        Some(raws) => raws,
        None => {
            return Err(TrainError::IncompleteTrainData);
        },
    };
    let ghost views = raws.deep_view();
    let mut stops: Vec<Stop> = Vec::new();
    let mut i: usize = 0;
    assert(stops.deep_view() =~= Seq::<StopView>::empty());
    while i < raws.len()
        invariant
            views == raws.deep_view(),
            record@.stops == Some(views),
            record@.category is Some,
            i <= raws.len(),
            stops_of(views.take(i as int), offset_seconds as int) == Ok::<Seq<StopView>, TrainError>(stops.deep_view()),
        decreases raws.len() - i,
    {
        proof {
            assert(views.take(i + 1).drop_last() =~= views.take(i as int));
        }
        let ghost before = stops.deep_view();
        match stop_from_raw(&raws[i], offset_seconds) {
            Ok(stop) => {
                let ghost view = stop@;
                stops.push(stop);
                assert(stops.deep_view() =~= before.push(view));
            },
            Err(e) => {
                proof {
                    lemma_stops_fail_for_good(views, offset_seconds as int, i + 1);
                }
                return Err(e);
            },
        }
        i += 1;
    }
    assert(views.take(i as int) =~= views);
    Ok(Train { code, origin_id: String::from_str(origin_id), train_type, stops })
}

/// Builds the train of a code under the offset that the home time zone has at the
/// time of the call. The contract holds for whichever offset was in force.
pub fn train_from_record_now(code: u32, origin_id: &str, record: &ProgressRecord) -> (r: Result<Train, TrainError>)
    ensures
        exists|offset: int|
            #![trigger train_spec(code, origin_id@, record@, offset)]
            -86_400 < offset < 86_400 && train_result_view(r) == train_spec(code, origin_id@, record@, offset),
{
    let offset = rome_offset_seconds();
    let r = train_from_record(code, origin_id, record, offset);
    r
}

} // verus!

use train_tracker::error::TrainError;
use train_tracker::record::{ProgressRecord, RawStop};
use train_tracker::report::{
    delay_text, itinerary, stop_line, stop_lines, track_report, track_report_now, ShownTimes,
    StopLine,
};
use train_tracker::status::{classify, TrackedTrainStatus};
use train_tracker::time::TimeOfDay;

const NINE_UTC: u64 = 1_700_038_800_000; // 09:00:00 UTC

fn hm(hour: u32, minute: u32) -> Option<TimeOfDay> {
    TimeOfDay::from_hms(hour, minute, 0)
}

fn bare_record() -> ProgressRecord {
    ProgressRecord {
        train_label: Some(" IC 631 ".to_string()),
        category: Some("IC".to_string()),
        origin: Some("MILANO CENTRALE".to_string()),
        destination: Some("VENTIMIGLIA".to_string()),
        foreign_origin: None,
        foreign_destination: None,
        measure: None,
        not_departed: None,
        delay: None,
        scheduled_departure_text: None,
        foreign_departure: None,
        last_update_station: None,
        last_update: None,
        stops: None,
    }
}

fn full_stop(name: &str, marker: u64, minute: u64) -> RawStop {
    RawStop {
        station: Some(name.to_string()),
        scheduled_arrival: Some(NINE_UTC + minute * 60_000),
        scheduled_departure: Some(NINE_UTC + (minute + 2) * 60_000),
        actual_arrival: Some(NINE_UTC + (minute + 1) * 60_000),
        actual_departure: Some(NINE_UTC + (minute + 4) * 60_000),
        marker: Some(marker),
        scheduled_arrival_platform: None,
        scheduled_departure_platform: None,
        actual_arrival_platform: None,
        actual_departure_platform: None,
    }
}

#[test]
fn delay_text_has_no_plus_for_negative_delays() {
    assert_eq!(delay_text(Some(-3)), "-3");
    assert_eq!(delay_text(Some(3)), "+3");
    assert_eq!(delay_text(Some(0)), "0");
    assert_eq!(delay_text(None), "--");
    assert_eq!(delay_text(Some(125)), "+125");
}

#[test]
fn round_trip_of_a_negative_delay() {
    let mut record = bare_record();
    record.delay = Some(-3);
    record.stops = Some(vec![full_stop("A", 1, 0), full_stop("B", 0, 30)]);
    let report = track_report(&record, false, 3600).unwrap();
    assert_eq!(report.delay, "-3");
    match report.status {
        TrackedTrainStatus::EnRoute { next_stop_info: Some(next), delay_minutes, .. } => {
            assert_eq!(delay_minutes, Some(-3));
            assert_eq!(next.scheduled_arrival, hm(10, 30));
            assert_eq!(next.estimated_arrival, hm(10, 27));
        },
        other => panic!("unexpected status {:?}", other),
    }
}

#[test]
fn itinerary_names_origin_and_destination() {
    let record = bare_record();
    assert_eq!(itinerary(&record), vec!["MILANO CENTRALE", "VENTIMIGLIA"]);
    let mut blank = bare_record();
    blank.origin = None;
    blank.destination = None;
    assert_eq!(itinerary(&blank), vec!["--", "--"]);
}

#[test]
fn itinerary_adds_places_abroad_only_when_they_differ() {
    let mut record = bare_record();
    record.foreign_origin = Some("ZUERICH HB".to_string());
    record.foreign_destination = Some("NICE VILLE".to_string());
    assert_eq!(itinerary(&record), vec!["ZUERICH HB", "MILANO CENTRALE", "VENTIMIGLIA", "NICE VILLE"]);
    record.foreign_origin = Some("MILANO CENTRALE".to_string());
    assert_eq!(itinerary(&record), vec!["MILANO CENTRALE", "VENTIMIGLIA", "NICE VILLE"]);
    record.foreign_destination = Some("VENTIMIGLIA".to_string());
    assert_eq!(itinerary(&record), vec!["MILANO CENTRALE", "VENTIMIGLIA"]);
    record.foreign_origin = Some("VENTIMIGLIA".to_string());
    assert_eq!(itinerary(&record), vec!["VENTIMIGLIA", "MILANO CENTRALE", "VENTIMIGLIA"]);
}

#[test]
fn itinerary_compares_with_the_dashes_of_an_absent_name() {
    let mut record = bare_record();
    record.origin = None;
    record.foreign_origin = Some("--".to_string());
    assert_eq!(itinerary(&record), vec!["--", "VENTIMIGLIA"]);
    record.foreign_origin = Some("PARIS".to_string());
    assert_eq!(itinerary(&record), vec!["PARIS", "--", "VENTIMIGLIA"]);
}

#[test]
fn passed_stop_shows_actual_times() {
    let stop = full_stop("SAVONA", 1, 10);
    let line = stop_line(&stop, 1, 3, 5, 3600).unwrap();
    assert_eq!(
        line,
        StopLine {
            station: "SAVONA".to_string(),
            passed: true,
            platform: "--".to_string(),
            platform_confirmed: false,
            arrival: Some(ShownTimes { scheduled: hm(10, 10), effective: hm(10, 11) }),
            departure: Some(ShownTimes { scheduled: hm(10, 12), effective: hm(10, 14) }),
        }
    );
}

#[test]
fn stop_ahead_shows_estimated_times() {
    let stop = full_stop("SAVONA", 0, 10);
    let line = stop_line(&stop, 1, 3, 5, 3600).unwrap();
    assert!(!line.passed);
    assert_eq!(line.arrival, Some(ShownTimes { scheduled: hm(10, 10), effective: hm(10, 15) }));
    assert_eq!(line.departure, Some(ShownTimes { scheduled: hm(10, 12), effective: hm(10, 17) }));
}

#[test]
fn first_stop_has_no_arrival_and_last_no_departure() {
    let stop = full_stop("SAVONA", 1, 10);
    let first = stop_line(&stop, 0, 3, 0, 0).unwrap();
    assert_eq!(first.arrival, None);
    assert!(first.departure.is_some());
    let last = stop_line(&stop, 2, 3, 0, 0).unwrap();
    assert!(last.arrival.is_some());
    assert_eq!(last.departure, None);
    let only = stop_line(&stop, 0, 1, 0, 0).unwrap();
    assert_eq!(only.arrival, None);
    assert_eq!(only.departure, None);
}

#[test]
fn platform_prefers_the_actual_one() {
    let mut stop = full_stop("SAVONA", 1, 10);
    stop.scheduled_departure_platform = Some("2".to_string());
    let line = stop_line(&stop, 1, 3, 0, 0).unwrap();
    assert_eq!((line.platform.as_str(), line.platform_confirmed), ("2", false));
    stop.scheduled_arrival_platform = Some("3".to_string());
    let line = stop_line(&stop, 1, 3, 0, 0).unwrap();
    assert_eq!((line.platform.as_str(), line.platform_confirmed), ("3", false));
    stop.actual_departure_platform = Some("4".to_string());
    let line = stop_line(&stop, 1, 3, 0, 0).unwrap();
    assert_eq!((line.platform.as_str(), line.platform_confirmed), ("4", true));
    stop.actual_arrival_platform = Some("5".to_string());
    let line = stop_line(&stop, 1, 3, 0, 0).unwrap();
    assert_eq!((line.platform.as_str(), line.platform_confirmed), ("5", true));
    stop.actual_arrival_platform = Some("--".to_string());
    let line = stop_line(&stop, 1, 3, 0, 0).unwrap();
    assert_eq!((line.platform.as_str(), line.platform_confirmed), ("3", false));
}

#[test]
fn stop_line_needs_marker_and_station() {
    let mut stop = full_stop("SAVONA", 1, 10);
    stop.marker = None;
    assert_eq!(stop_line(&stop, 0, 1, 0, 0), Err(TrainError::IncompleteTrainData));
    let mut nameless = full_stop("SAVONA", 1, 10);
    nameless.station = None;
    assert_eq!(stop_line(&nameless, 0, 1, 0, 0), Err(TrainError::IncompleteTrainData));
}

#[test]
fn stop_line_fails_only_on_a_time_that_is_shown() {
    let mut stop = full_stop("A", 0, 0);
    stop.scheduled_arrival = Some(0);
    assert_eq!(stop_line(&stop, 1, 3, -1, 0), Err(TrainError::MalformedTimestamp));
    assert!(stop_line(&stop, 0, 3, -1, 0).is_ok());
}

#[test]
fn stop_lines_keep_the_order_of_the_stops() {
    let stops = vec![full_stop("A", 1, 0), full_stop("B", 1, 10), full_stop("C", 0, 20)];
    let lines = stop_lines(&stops, 2, 3600).unwrap();
    let names: Vec<&str> = lines.iter().map(|l| l.station.as_str()).collect();
    assert_eq!(names, vec!["A", "B", "C"]);
    assert_eq!(lines[0].arrival, None);
    assert_eq!(lines[2].departure, None);
    assert_eq!(lines[2].arrival, Some(ShownTimes { scheduled: hm(10, 20), effective: hm(10, 22) }));
    assert_eq!(stop_lines(&Vec::new(), 0, 0), Ok(Vec::new()));
}

#[test]
fn stop_lines_fail_with_the_first_bad_stop() {
    let mut stops = vec![full_stop("A", 1, 0), full_stop("B", 1, 10), full_stop("C", 0, 20)];
    stops[1].marker = None;
    stops[2].scheduled_arrival = Some(0);
    assert_eq!(stop_lines(&stops, -1, 0), Err(TrainError::IncompleteTrainData));
    stops[1].marker = Some(1);
    assert_eq!(stop_lines(&stops, -1, 0), Err(TrainError::MalformedTimestamp));
}

#[test]
fn report_needs_the_label_first() {
    let mut record = bare_record();
    record.train_label = None;
    record.measure = Some(1);
    assert_eq!(track_report(&record, false, 3600), Err(TrainError::IncompleteTrainData));
    assert_eq!(classify(&record, 3600), Ok(TrackedTrainStatus::Canceled));
}

#[test]
fn report_trims_the_label() {
    let mut record = bare_record();
    record.measure = Some(1);
    let report = track_report(&record, true, 3600).unwrap();
    assert_eq!(report.label, "IC 631");
    assert_eq!(report.status, TrackedTrainStatus::Canceled);
    assert_eq!(report.stops, None);
    assert_eq!(report.itinerary, vec!["MILANO CENTRALE", "VENTIMIGLIA"]);
    assert_eq!(report.delay, "--");
    assert_eq!(report.last_update_station, "--");
    assert_eq!(report.last_update_time, None);
}

#[test]
fn report_lists_stops_only_when_asked() {
    let mut record = bare_record();
    record.stops = Some(vec![full_stop("A", 1, 0), full_stop("B", 1, 10)]);
    record.delay = Some(1);
    record.last_update_station = Some("B".to_string());
    record.last_update = Some(NINE_UTC + 11 * 60_000);
    let short = track_report(&record, false, 3600).unwrap();
    assert_eq!(short.stops, None);
    assert_eq!(short.status, TrackedTrainStatus::Arrived { delay_minutes: Some(1) });
    assert_eq!(short.last_update_station, "B");
    assert_eq!(short.last_update_time, hm(10, 11));
    assert_eq!(short.delay, "+1");
    let long = track_report(&record, true, 3600).unwrap();
    assert_eq!(long.stops.map(|s| s.len()), Some(2));
}

#[test]
fn report_lists_stops_of_a_train_not_departed() {
    let mut record = bare_record();
    record.not_departed = Some(true);
    record.stops = Some(vec![full_stop("A", 0, 0), full_stop("B", 0, 10)]);
    let report = track_report(&record, true, 0).unwrap();
    assert_eq!(report.stops.map(|s| s.len()), Some(2));
}

#[test]
fn report_fails_with_the_state_or_the_listing() {
    let mut record = bare_record();
    assert_eq!(track_report(&record, false, 0), Err(TrainError::IncompleteTrainData));
    record.not_departed = Some(true);
    let mut stop = full_stop("A", 0, 0);
    stop.marker = None;
    record.stops = Some(vec![full_stop("Z", 0, 0), stop]);
    assert!(track_report(&record, false, 0).is_ok());
    assert_eq!(track_report(&record, true, 0), Err(TrainError::IncompleteTrainData));
}

#[test]
fn report_now_is_made_under_the_home_offset() {
    let mut record = bare_record();
    record.stops = Some(vec![full_stop("A", 1, 0), full_stop("B", 0, 10)]);
    let now = track_report_now(&record, true);
    assert!(now == track_report(&record, true, 3600) || now == track_report(&record, true, 7200));
    assert_ne!(now, track_report(&record, true, 0));
}

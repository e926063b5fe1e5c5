use train_tracker::board::{
    board_delay, board_flags, board_row, board_rows, is_station_code, matches_filter,
    station_query, BoardEntry, BoardRow, StationQuery,
};
use train_tracker::error::TrainError;

fn entry(label: &str, category: &str, delay: Option<i64>) -> BoardEntry {
    BoardEntry {
        train_label: Some(label.to_string()),
        place: Some("GENOVA BRIGNOLE".to_string()),
        time: Some("10:35".to_string()),
        delay,
        category: Some(category.to_string()),
        scheduled_platform: Some(" 3 ".to_string()),
        actual_platform: None,
    }
}

#[test]
fn both_boards_are_shown_when_none_is_asked_for() {
    assert_eq!(board_flags(false, false), (true, true));
    assert_eq!(board_flags(true, false), (true, false));
    assert_eq!(board_flags(false, true), (false, true));
    assert_eq!(board_flags(true, true), (true, true));
}

#[test]
fn station_code_is_an_s_before_five_digits() {
    assert!(is_station_code("S01700"));
    assert!(is_station_code("S00000"));
    assert!(is_station_code("xxS12345yy"));
    assert!(is_station_code("S123456"));
    assert!(is_station_code("SS12345"));
}

#[test]
fn station_names_are_no_codes() {
    assert!(!is_station_code("Milano Centrale"));
    assert!(!is_station_code("S0170"));
    assert!(!is_station_code("s01700"));
    assert!(!is_station_code("S0170A"));
    assert!(!is_station_code("S 01700"));
    assert!(!is_station_code("01700"));
    assert!(!is_station_code(""));
    assert!(!is_station_code("S٠١٢٣٤"));
}

#[test]
fn station_is_asked_for_by_code_or_by_trimmed_name() {
    assert_eq!(station_query("S01700"), StationQuery::Code("S01700".to_string()));
    assert_eq!(station_query(" S01700 "), StationQuery::Code(" S01700 ".to_string()));
    assert_eq!(station_query("  Milano C "), StationQuery::Name("Milano C".to_string()));
    assert_eq!(station_query(""), StationQuery::Name("".to_string()));
}

#[test]
fn board_delay_is_empty_for_a_train_on_time() {
    assert_eq!(board_delay(0), "");
    assert_eq!(board_delay(5), "+5");
    assert_eq!(board_delay(-5), "-5");
    assert_eq!(board_delay(90), "+90");
}

#[test]
fn filter_ignores_case_and_surrounding_space() {
    let train = entry("REG 1", " Reg ", None);
    assert!(matches_filter(None, &train));
    assert!(matches_filter(Some("REG"), &train));
    assert!(matches_filter(Some("  reg\t"), &train));
    assert!(!matches_filter(Some("IC"), &train));
    assert!(!matches_filter(Some("R E G"), &train));
}

#[test]
fn filter_takes_a_missing_category_as_empty() {
    let mut train = entry("REG 1", "", None);
    train.category = None;
    assert!(matches_filter(Some(""), &train));
    assert!(matches_filter(Some("  "), &train));
    assert!(!matches_filter(Some("REG"), &train));
}

#[test]
fn row_shows_label_place_time_delay_and_platform() {
    assert_eq!(
        board_row(&entry("REG 2131", "REG", Some(7))),
        Ok(BoardRow {
            train_label: "REG 2131".to_string(),
            place: "GENOVA BRIGNOLE".to_string(),
            time: "10:35".to_string(),
            delay: "+7".to_string(),
            platform: "3".to_string(),
            platform_confirmed: false,
        })
    );
    assert_eq!(board_row(&entry("REG 2131", "REG", None)).map(|r| r.delay), Ok("".to_string()));
    assert_eq!(board_row(&entry("REG 2131", "REG", Some(-2))).map(|r| r.delay), Ok("-2".to_string()));
}

#[test]
fn row_prefers_the_actual_platform() {
    let mut train = entry("IC 631", "IC", None);
    train.actual_platform = Some(" 5\n".to_string());
    let row = board_row(&train).unwrap();
    assert_eq!((row.platform.as_str(), row.platform_confirmed), ("5", true));
    train.actual_platform = Some("   ".to_string());
    let row = board_row(&train).unwrap();
    assert_eq!((row.platform.as_str(), row.platform_confirmed), ("3", false));
    train.scheduled_platform = None;
    let row = board_row(&train).unwrap();
    assert_eq!((row.platform.as_str(), row.platform_confirmed), ("", false));
}

#[test]
fn row_needs_label_place_and_time() {
    let mut train = entry("IC 631", "IC", None);
    train.train_label = None;
    assert_eq!(board_row(&train), Err(TrainError::IncompleteTrainData));
    let mut train = entry("IC 631", "IC", None);
    train.place = None;
    assert_eq!(board_row(&train), Err(TrainError::IncompleteTrainData));
    let mut train = entry("IC 631", "IC", None);
    train.time = None;
    assert_eq!(board_row(&train), Err(TrainError::IncompleteTrainData));
}

#[test]
fn rows_keep_the_trains_that_pass_the_filter() {
    let entries = vec![entry("REG 1", "REG", None), entry("IC 2", "IC", Some(1)), entry("REG 3", "reg", Some(-1))];
    let all = board_rows(&entries, None).unwrap();
    assert_eq!(all.iter().map(|r| r.train_label.as_str()).collect::<Vec<_>>(), vec!["REG 1", "IC 2", "REG 3"]);
    let regional = board_rows(&entries, Some("Reg")).unwrap();
    assert_eq!(regional.iter().map(|r| r.train_label.as_str()).collect::<Vec<_>>(), vec!["REG 1", "REG 3"]);
    assert_eq!(board_rows(&entries, Some("EC")), Ok(Vec::new()));
    assert_eq!(board_rows(&Vec::new(), None), Ok(Vec::new()));
}

#[test]
fn rows_fail_only_on_a_train_that_passes_the_filter() {
    let mut broken = entry("IC 2", "IC", None);
    broken.time = None;
    let entries = vec![entry("REG 1", "REG", None), broken];
    assert_eq!(board_rows(&entries, None), Err(TrainError::IncompleteTrainData));
    assert_eq!(board_rows(&entries, Some("ic")), Err(TrainError::IncompleteTrainData));
    assert_eq!(board_rows(&entries, Some("reg")).map(|r| r.len()), Ok(1));
}

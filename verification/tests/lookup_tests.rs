use train_tracker::error::TrainError;
use train_tracker::lookup::{
    candidate_label, resolve_answer, select_candidate, station_candidate, train_reference,
    typed_number, Selection, StationCandidate, TrainReference,
};

#[test]
fn no_candidate_when_nothing_matches() {
    assert_eq!(select_candidate(0, None), Selection::NoCandidate);
    assert_eq!(select_candidate(0, Some(0)), Selection::NoCandidate);
}

#[test]
fn single_candidate_is_taken() {
    assert_eq!(select_candidate(1, None), Selection::Chosen(0));
    assert_eq!(select_candidate(1, Some(0)), Selection::Chosen(0));
    assert_eq!(select_candidate(1, Some(1)), Selection::Invalid);
}

#[test]
fn several_candidates_call_for_a_question() {
    assert_eq!(select_candidate(2, None), Selection::Ask);
    assert_eq!(select_candidate(3, Some(2)), Selection::Chosen(2));
    assert_eq!(select_candidate(3, Some(3)), Selection::Invalid);
    assert_eq!(select_candidate(3, Some(usize::MAX)), Selection::Invalid);
}

#[test]
fn answers_count_from_one() {
    assert_eq!(resolve_answer(3, 1), Selection::Chosen(0));
    assert_eq!(resolve_answer(3, 3), Selection::Chosen(2));
    assert_eq!(resolve_answer(3, 0), Selection::Invalid);
    assert_eq!(resolve_answer(3, 4), Selection::Invalid);
    assert_eq!(resolve_answer(0, 1), Selection::Invalid);
}

#[test]
fn candidate_label_is_the_text_before_the_bar() {
    assert_eq!(candidate_label("2131 - MILANO CENTRALE - 28/10/26|2131-S01700-1793142000000"), "2131 - MILANO CENTRALE - 28/10/26");
    assert_eq!(candidate_label("no bar"), "no bar");
    assert_eq!(candidate_label("|x"), "");
    assert_eq!(candidate_label(""), "");
}

#[test]
fn train_reference_follows_the_bar() {
    assert_eq!(
        train_reference("2131 - MILANO CENTRALE - 28/10/26|2131-S01700-1793142000000"),
        Ok(TrainReference { origin_id: "S01700".to_string(), timestamp: "1793142000000".to_string() })
    );
    assert_eq!(
        train_reference("x|1-a-b-c|y-z"),
        Ok(TrainReference { origin_id: "a".to_string(), timestamp: "b".to_string() })
    );
    assert_eq!(
        train_reference("x|1--"),
        Ok(TrainReference { origin_id: "".to_string(), timestamp: "".to_string() })
    );
}

#[test]
fn train_reference_of_a_malformed_line_fails() {
    assert_eq!(train_reference("no bar at all"), Err(TrainError::MalformedResponse));
    assert_eq!(train_reference("label|2131-S01700"), Err(TrainError::MalformedResponse));
    assert_eq!(train_reference("label|"), Err(TrainError::MalformedResponse));
    assert_eq!(train_reference(""), Err(TrainError::MalformedResponse));
}

#[test]
fn station_candidate_is_name_and_code() {
    assert_eq!(
        station_candidate("MILANO CENTRALE|S01700"),
        Ok(StationCandidate { name: "MILANO CENTRALE".to_string(), code: "S01700".to_string() })
    );
    assert_eq!(
        station_candidate("A|B|C"),
        Ok(StationCandidate { name: "A".to_string(), code: "B".to_string() })
    );
    assert_eq!(station_candidate("MILANO"), Err(TrainError::MalformedResponse));
}

#[test]
fn typed_number_allows_white_space_around_it() {
    assert_eq!(typed_number("3\n"), Some(3));
    assert_eq!(typed_number("  12  "), Some(12));
    assert_eq!(typed_number("0"), Some(0));
    assert_eq!(typed_number(""), None);
    assert_eq!(typed_number("\n"), None);
    assert_eq!(typed_number("three"), None);
    assert_eq!(typed_number("-1"), None);
    assert_eq!(typed_number("1 2"), None);
    assert_eq!(typed_number("99999999999999999999999999"), None);
}

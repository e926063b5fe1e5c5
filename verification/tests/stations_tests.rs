use train_tracker::error::TrainError;
use train_tracker::stations::{Station, StationIndex};

fn station(name: &str, position: u32) -> Station {
    Station { name: name.to_string(), position }
}

fn riviera() -> StationIndex {
    StationIndex::new(vec![
        station("FINALE LIGURE MARINA", 0),
        station("ALBENGA", 1950),
        station("ALASSIO", 2600),
        station("IMPERIA", 4900),
        station("SANREMO", 7300),
        station("VENTIMIGLIA", 8900),
    ])
    .unwrap()
}

#[test]
fn index_accepts_stations_in_line_order() {
    assert_eq!(riviera().len(), 6);
    assert_eq!(StationIndex::new(Vec::new()).map(|i| i.len()), Some(0));
    assert_eq!(StationIndex::new(vec![station("A", u32::MAX)]).map(|i| i.len()), Some(1));
}

#[test]
fn index_rejects_positions_out_of_order() {
    assert!(StationIndex::new(vec![station("A", 5), station("B", 5)]).is_none());
    assert!(StationIndex::new(vec![station("A", 5), station("B", 4)]).is_none());
    assert!(StationIndex::new(vec![station("A", 1), station("B", 3), station("C", 2)]).is_none());
}

#[test]
fn index_rejects_a_name_twice() {
    assert!(StationIndex::new(vec![station("A", 1), station("B", 2), station("A", 3)]).is_none());
    assert!(StationIndex::new(vec![station("A", 1), station("A", 2)]).is_none());
    assert!(StationIndex::new(vec![station("A", 1), station("a", 2)]).is_some());
}

#[test]
fn lookup_gives_the_position_of_a_name() {
    let index = riviera();
    assert_eq!(index.lookup("FINALE LIGURE MARINA"), Ok(0));
    assert_eq!(index.lookup("ALASSIO"), Ok(2600));
    assert_eq!(index.lookup("VENTIMIGLIA"), Ok(8900));
}

#[test]
fn lookup_of_an_unknown_name_fails() {
    let index = riviera();
    assert_eq!(index.lookup("GENOVA"), Err(TrainError::UnknownStation));
    assert_eq!(index.lookup("alassio"), Err(TrainError::UnknownStation));
    assert_eq!(index.lookup(""), Err(TrainError::UnknownStation));
    assert_eq!(StationIndex::new(Vec::new()).unwrap().lookup("A"), Err(TrainError::UnknownStation));
}

#[test]
fn lookup_is_monotonic_along_the_line() {
    let index = riviera();
    let names = ["FINALE LIGURE MARINA", "ALBENGA", "ALASSIO", "IMPERIA", "SANREMO", "VENTIMIGLIA"];
    for a in 0..names.len() {
        for b in (a + 1)..names.len() {
            assert!(index.lookup(names[a]).unwrap() < index.lookup(names[b]).unwrap());
        }
    }
}

#[test]
fn label_is_the_name_at_the_exact_position() {
    let index = riviera();
    assert_eq!(index.position_to_label(0), Some("FINALE LIGURE MARINA".to_string()));
    assert_eq!(index.position_to_label(1950), Some("ALBENGA".to_string()));
    assert_eq!(index.position_to_label(4900), Some("IMPERIA".to_string()));
    assert_eq!(index.position_to_label(8900), Some("VENTIMIGLIA".to_string()));
}

#[test]
fn label_is_absent_between_stations() {
    let index = riviera();
    assert_eq!(index.position_to_label(1), None);
    assert_eq!(index.position_to_label(1949), None);
    assert_eq!(index.position_to_label(1951), None);
    assert_eq!(index.position_to_label(8901), None);
    assert_eq!(index.position_to_label(u32::MAX), None);
    assert_eq!(StationIndex::new(Vec::new()).unwrap().position_to_label(0), None);
}

#[test]
fn label_and_lookup_agree_on_every_station() {
    let index = riviera();
    for name in ["FINALE LIGURE MARINA", "ALBENGA", "ALASSIO", "IMPERIA", "SANREMO", "VENTIMIGLIA"] {
        let position = index.lookup(name).unwrap();
        assert_eq!(index.position_to_label(position), Some(name.to_string()));
    }
}

#[test]
fn max_position_is_that_of_the_last_station() {
    assert_eq!(riviera().max_position(), Some(8900));
    assert_eq!(StationIndex::new(Vec::new()).unwrap().max_position(), None);
    assert_eq!(StationIndex::new(vec![station("A", 7)]).unwrap().max_position(), Some(7));
}

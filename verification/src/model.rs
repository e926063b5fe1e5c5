//! Trains and their stops, as built once from a parsed answer of the service.

use vstd::prelude::*;
use crate::text::same_text;
use crate::time::TimeOfDay;

verus! {

/// The commercial category of a train.
#[derive(Clone, Copy, Debug, PartialEq, Eq, Structural)]
pub enum TrainType {
    /// Regional.
    REG,
    /// Intercity.
    IC,
    /// Eurocity.
    EC,
    /// High speed.
    AV,
    /// Any other category.
    Other,
}

/// The category that a category code of the service stands for. The service leaves
/// the code of high-speed trains empty; a code it is not known to use falls under
/// `Other`.
pub open spec fn category_of(code: Seq<char>) -> TrainType {
    if code == "REG"@ {
        TrainType::REG
    } else if code == "IC"@ {
        TrainType::IC
    } else if code == "EC"@ {
        TrainType::EC
    } else if code == ""@ {
        TrainType::AV
    } else {
        TrainType::Other
    }
}

impl TrainType {
    /// Reads a category code of the service.
    pub fn from_code(code: &str) -> (t: TrainType)
        ensures
            t == category_of(code@),
    {
        if same_text(code, "REG") {
            TrainType::REG
        } else if same_text(code, "IC") {
            TrainType::IC
        } else if same_text(code, "EC") {
            TrainType::EC
        } else if same_text(code, "") {
            TrainType::AV
        } else {
            TrainType::Other
        }
    }
}

/// What the source says of a train's progress at one stop: 0 while the stop is still
/// ahead, 1 once the train has called there, other values for irregular calls.
pub const MARKER_NOT_PASSED: u64 = 0;

pub const MARKER_PASSED: u64 = 1;

/// One call of a train at a station. A time that the service omits is absent, not zero:
/// an origin has no arrival and a destination no departure.
#[derive(Clone, Debug, PartialEq, Eq)]
pub struct Stop {
    pub station_name: String,
    pub arrival_time: Option<TimeOfDay>,
    pub departure_time: Option<TimeOfDay>,
    pub actual_arrival_time: Option<TimeOfDay>,
    pub actual_departure_time: Option<TimeOfDay>,
    pub progress_marker: u64,
}

/// A stop as plain values: the name as characters, each time as its second of the day.
pub struct StopView {
    pub station_name: Seq<char>,
    pub arrival_time: Option<int>,
    pub departure_time: Option<int>,
    pub actual_arrival_time: Option<int>,
    pub actual_departure_time: Option<int>,
    pub progress_marker: u64,
}

impl View for Stop {
    type V = StopView;

    open spec fn view(&self) -> StopView {
        StopView {
            station_name: self.station_name@,
            arrival_time: self.arrival_time.deep_view(),
            departure_time: self.departure_time.deep_view(),
            actual_arrival_time: self.actual_arrival_time.deep_view(),
            actual_departure_time: self.actual_departure_time.deep_view(),
            progress_marker: self.progress_marker,
        }
    }
}

impl DeepView for Stop {
    type V = StopView;

    open spec fn deep_view(&self) -> StopView {
        self@
    }
}

/// A train with its stops in timetable order: the first is the origin, the last the
/// destination. A code does not identify a train for good: trains of different days
/// or routes may share it.
#[derive(Clone, Debug, PartialEq, Eq)]
pub struct Train {
    pub code: u32,
    pub origin_id: String,
    pub train_type: TrainType,
    pub stops: Vec<Stop>,
}

pub struct TrainView {
    pub code: u32,
    pub origin_id: Seq<char>,
    pub train_type: TrainType,
    pub stops: Seq<StopView>,
}

impl View for Train {
    type V = TrainView;

    open spec fn view(&self) -> TrainView {
        TrainView {
            code: self.code,
            origin_id: self.origin_id@,
            train_type: self.train_type,
            stops: self.stops.deep_view(),
        }
    }
}

impl DeepView for Train {
    type V = TrainView;

    open spec fn deep_view(&self) -> TrainView {
        self@
    }
}

impl Stop {
    /// A stop with the same contents.
    pub fn duplicate(&self) -> (s: Stop)
        ensures
            s@ == self@,
    {
        Stop {
            station_name: self.station_name.clone(),
            arrival_time: self.arrival_time,
            departure_time: self.departure_time,
            actual_arrival_time: self.actual_arrival_time,
            actual_departure_time: self.actual_departure_time,
            progress_marker: self.progress_marker,
        }
    }
}

} // verus!

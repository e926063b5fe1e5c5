//! The raw progress record of one train, with every field of the service's answer
//! declared up front as present or absent.

use vstd::prelude::*;

verus! {

/// The measure by which the source marks a train canceled.
pub const MEASURE_CANCELED: u64 = 1;

/// One stop of a raw progress record. Timestamps are the service's milliseconds.
#[derive(Clone, Debug, PartialEq, Eq)]
pub struct RawStop {
    /// Name of the station.
    pub station: Option<String>,
    pub scheduled_arrival: Option<u64>,
    pub scheduled_departure: Option<u64>,
    pub actual_arrival: Option<u64>,
    pub actual_departure: Option<u64>,
    /// Progress marker: 0 while the stop is ahead of the train.
    pub marker: Option<u64>,
    pub scheduled_arrival_platform: Option<String>,
    pub scheduled_departure_platform: Option<String>,
    pub actual_arrival_platform: Option<String>,
    pub actual_departure_platform: Option<String>,
}

pub struct RawStopView {
    pub station: Option<Seq<char>>,
    pub scheduled_arrival: Option<u64>,
    pub scheduled_departure: Option<u64>,
    pub actual_arrival: Option<u64>,
    pub actual_departure: Option<u64>,
    pub marker: Option<u64>,
    pub scheduled_arrival_platform: Option<Seq<char>>,
    pub scheduled_departure_platform: Option<Seq<char>>,
    pub actual_arrival_platform: Option<Seq<char>>,
    pub actual_departure_platform: Option<Seq<char>>,
}

impl View for RawStop {
    type V = RawStopView;

    open spec fn view(&self) -> RawStopView {
        RawStopView {
            station: self.station.deep_view(),
            scheduled_arrival: self.scheduled_arrival,
            scheduled_departure: self.scheduled_departure,
            actual_arrival: self.actual_arrival,
            actual_departure: self.actual_departure,
            marker: self.marker,
            scheduled_arrival_platform: self.scheduled_arrival_platform.deep_view(),
            scheduled_departure_platform: self.scheduled_departure_platform.deep_view(),
            actual_arrival_platform: self.actual_arrival_platform.deep_view(),
            actual_departure_platform: self.actual_departure_platform.deep_view(),
        }
    }
}

impl DeepView for RawStop {
    type V = RawStopView;

    open spec fn deep_view(&self) -> RawStopView {
        self@
    }
}

/// The raw progress snapshot of one train, as the source stamped it at fetch time.
#[derive(Clone, Debug, PartialEq, Eq)]
pub struct ProgressRecord {
    /// Label of the train: category and number.
    pub train_label: Option<String>,
    /// Category code; empty for high-speed trains.
    pub category: Option<String>,
    pub origin: Option<String>,
    pub destination: Option<String>,
    /// Origin abroad, for a train that starts outside the home network.
    pub foreign_origin: Option<String>,
    /// Destination abroad, for a train that ends outside the home network.
    pub foreign_destination: Option<String>,
    /// Measure taken on the train; 1 means that it is canceled.
    pub measure: Option<u64>,
    pub not_departed: Option<bool>,
    /// Delay in minutes: negative when early.
    pub delay: Option<i64>,
    /// Scheduled departure as the service words it.
    pub scheduled_departure_text: Option<String>,
    /// Scheduled departure abroad, in milliseconds.
    pub foreign_departure: Option<u64>,
    pub last_update_station: Option<String>,
    pub last_update: Option<u64>,
    pub stops: Option<Vec<RawStop>>,
}

pub struct RecordView {
    pub train_label: Option<Seq<char>>,
    pub category: Option<Seq<char>>,
    pub origin: Option<Seq<char>>,
    pub destination: Option<Seq<char>>,
    pub foreign_origin: Option<Seq<char>>,
    pub foreign_destination: Option<Seq<char>>,
    pub measure: Option<u64>,
    pub not_departed: Option<bool>,
    pub delay: Option<i64>,
    pub scheduled_departure_text: Option<Seq<char>>,
    pub foreign_departure: Option<u64>,
    pub last_update_station: Option<Seq<char>>,
    pub last_update: Option<u64>,
    pub stops: Option<Seq<RawStopView>>,
}

impl View for ProgressRecord {
    type V = RecordView;

    open spec fn view(&self) -> RecordView {
        RecordView {
            train_label: self.train_label.deep_view(),
            category: self.category.deep_view(),
            origin: self.origin.deep_view(),
            destination: self.destination.deep_view(),
            foreign_origin: self.foreign_origin.deep_view(),
            foreign_destination: self.foreign_destination.deep_view(),
            measure: self.measure,
            not_departed: self.not_departed,
            delay: self.delay,
            scheduled_departure_text: self.scheduled_departure_text.deep_view(),
            foreign_departure: self.foreign_departure,
            last_update_station: self.last_update_station.deep_view(),
            last_update: self.last_update,
            stops: self.stops.deep_view(),
        }
    }
}

impl DeepView for ProgressRecord {
    type V = RecordView;

    open spec fn deep_view(&self) -> RecordView {
        self@
    }
}

} // verus!

//! The time-distance diagram of several trains along one line: what is plotted, in
//! which ranges and under which labels. Drawing the raster is left to the caller.

use vstd::prelude::*;
use crate::error::TrainError;
use crate::model::{Stop, StopView, Train, TrainType, TrainView};
use crate::stations::{is_known, label_spec, lookup_spec, max_position_spec, StationIndex, StationView};
use crate::text::{digit, digit_char, digits_of, push_digits, string_of};

verus! {

/// Minutes added after the last arrival on the time axis.
pub const TIME_PADDING_MINUTES: u32 = 15;

/// Distance added beyond the last station on the distance axis.
pub const DISTANCE_PADDING: u64 = 100;

/// Only every eighth minute of the time axis bears a label.
pub const X_LABEL_STRIDE: u32 = 8;

/// The colors of the fixed palette in which trains are drawn.
#[derive(Clone, Copy, Debug, PartialEq, Eq, Structural)]
pub enum LineColor {
    Blue,
    Green,
    Yellow,
    Red,
    Purple,
}

/// The color of a category. Every category has one, the categories without a color
/// of their own sharing purple by falling under `Other`.
pub open spec fn color_of(train_type: TrainType) -> LineColor {
    match train_type {
        TrainType::REG => LineColor::Blue,
        TrainType::IC => LineColor::Green,
        TrainType::EC => LineColor::Yellow,
        TrainType::AV => LineColor::Red,
        TrainType::Other => LineColor::Purple,
    }
}

/// The color in which the trains of a category are drawn.
pub fn line_color(train_type: TrainType) -> (color: LineColor)
    ensures
        color == color_of(train_type),
{
    match train_type {
        TrainType::REG => LineColor::Blue,
        TrainType::IC => LineColor::Green,
        TrainType::EC => LineColor::Yellow,
        TrainType::AV => LineColor::Red,
        TrainType::Other => LineColor::Purple,
    }
}

/// Two different categories never share a color.
pub proof fn lemma_colors_distinct(a: TrainType, b: TrainType)
    requires
        a != b,
    ensures
        color_of(a) != color_of(b),
{
}

/// The minute of the day of a time that may be absent.
pub open spec fn minute_of(seconds: Option<int>) -> Option<int> {
    match seconds {
        Some(s) => Some(s / 60),
        None => None,
    }
}

/// The minute at which a train leaves its first stop.
pub open spec fn first_departure(train: TrainView) -> Option<int> {
    if train.stops.len() == 0 {
        None
    } else {
        minute_of(train.stops.first().departure_time)
    }
}

/// The minute at which a train reaches its last stop.
pub open spec fn last_arrival(train: TrainView) -> Option<int> {
    if train.stops.len() == 0 {
        None
    } else {
        minute_of(train.stops.last().arrival_time)
    }
}

/// A train bounds the time axis where it has stops, a departure at the first and an
/// arrival at the last.
pub open spec fn has_boundaries(train: TrainView) -> bool {
    first_departure(train) is Some && last_arrival(train) is Some
}

/// Whether a result is the time range of the trains: from the earliest first
/// departure to the latest last arrival plus the padding, or `EmptyPlotInput` where
/// there is no train or a train lacks a boundary.
pub open spec fn is_time_range(trains: Seq<TrainView>, result: Result<(u32, u32), TrainError>) -> bool {
    match result {
        Err(e) => {
            &&& e == TrainError::EmptyPlotInput
            &&& trains.len() == 0 || exists|i: int| 0 <= i < trains.len() && !has_boundaries(#[trigger] trains[i])
        },
        Ok((low, high)) => {
            &&& trains.len() > 0
            &&& forall|i: int| 0 <= i < trains.len() ==> has_boundaries(#[trigger] trains[i])
            &&& forall|i: int| 0 <= i < trains.len() ==> low <= first_departure(#[trigger] trains[i])->0
            &&& forall|i: int| 0 <= i < trains.len() ==> last_arrival(#[trigger] trains[i])->0 + 15 <= high
            &&& exists|i: int| 0 <= i < trains.len() && first_departure(#[trigger] trains[i]) == Some(low as int)
            &&& exists|i: int| 0 <= i < trains.len() && last_arrival(#[trigger] trains[i]) == Some(high - 15)
        },
    }
}

/// The minute at which a train leaves its first stop and the minute at which it
/// reaches its last.
fn boundaries(train: &Train) -> (r: Option<(u32, u32)>)
    ensures
        r is Some <==> has_boundaries(train@),
        r matches Some((departure, arrival)) ==> first_departure(train@) == Some(departure as int) && last_arrival(train@) == Some(arrival as int) && departure < 1440 && arrival < 1440,
{
    let n = train.stops.len();
    if n == 0 {
        return None;
    }
    let departure = match train.stops[0].departure_time {
        Some(t) => t.minutes_from_midnight(),
        None => {
            return None;
        },
    };
    let arrival = match train.stops[n - 1].arrival_time {
        Some(t) => t.minutes_from_midnight(),
        None => {
            return None;
        },
    };
    Some((departure, arrival))
}

/// The range of the time axis, in minutes of the day.
pub fn time_range(trains: &Vec<Train>) -> (r: Result<(u32, u32), TrainError>)
    ensures
        is_time_range(trains.deep_view(), r),
        r matches Ok((low, high)) ==> low < 1440 && 15 <= high < 1455,
{
    let n = trains.len();
    if n == 0 {
        return Err(TrainError::EmptyPlotInput);
    }
    let ghost views = trains.deep_view();
    let mut low: u32 = 0;
    let mut high: u32 = 0;
    let mut i: usize = 0;
    while i < n
        invariant
            n == trains.len(),
            views == trains.deep_view(),
            i <= n,
            low < 1440,
            high < 1440,
            forall|j: int| 0 <= j < i ==> has_boundaries(#[trigger] views[j]),
            forall|j: int| 0 <= j < i ==> low <= first_departure(#[trigger] views[j])->0,
            forall|j: int| 0 <= j < i ==> last_arrival(#[trigger] views[j])->0 <= high,
            i > 0 ==> exists|j: int| 0 <= j < i && first_departure(#[trigger] views[j]) == Some(low as int),
            i > 0 ==> exists|j: int| 0 <= j < i && last_arrival(#[trigger] views[j]) == Some(high as int),
        decreases n - i,
    {
        assert(views[i as int] == trains[i as int]@);
        match boundaries(&trains[i]) {
            None => {
                return Err(TrainError::EmptyPlotInput);
            },
            Some((departure, arrival)) => {
                if i == 0 || departure < low {
                    low = departure;
                }
                if i == 0 || arrival > high {
                    high = arrival;
                }
            },
        }
        i += 1;
    }
    Ok((low, high + TIME_PADDING_MINUTES))
}

/// Whether a result is the range of the distance axis: from zero to the padding
/// beyond the last station, or `EmptyPlotInput` where the index has no station.
pub open spec fn distance_range_spec(entries: Seq<StationView>) -> Result<(u64, u64), TrainError> {
    match max_position_spec(entries) {
        Some(max) => Ok((0u64, (max + 100) as u64)),
        None => Err(TrainError::EmptyPlotInput),
    }
}

/// The range of the distance axis.
pub fn distance_range(index: &StationIndex) -> (r: Result<(u64, u64), TrainError>)
    ensures
        r == distance_range_spec(index@),
{
    match index.max_position() {
        Some(max) => Ok((0, max as u64 + DISTANCE_PADDING)),
        None => Err(TrainError::EmptyPlotInput),
    }
}

/// The points that one stop adds to the line of its train: one for the arrival and
/// one for the departure, as far as the stop has them.
pub open spec fn stop_points(stop: StopView, position: u32) -> Seq<(u32, u32)> {
    let arrival = match stop.arrival_time {
        Some(t) => seq![((t / 60) as u32, position)],
        None => Seq::<(u32, u32)>::empty(),
    };
    let departure = match stop.departure_time {
        Some(t) => seq![((t / 60) as u32, position)],
        None => Seq::<(u32, u32)>::empty(),
    };
    arrival + departure
}

/// The line of a train: the points of its stops in timetable order.
pub open spec fn polyline_spec(stops: Seq<StopView>, entries: Seq<StationView>) -> Seq<(u32, u32)>
    decreases stops.len(),
{
    if stops.len() == 0 {
        Seq::<(u32, u32)>::empty()
    } else {
        polyline_spec(stops.drop_last(), entries) + stop_points(stops.last(), lookup_spec(entries, stops.last().station_name)->Ok_0)
    }
}

/// Every stop calls at a station of the index.
pub open spec fn all_known(stops: Seq<StopView>, entries: Seq<StationView>) -> bool {
    forall|i: int| 0 <= i < stops.len() ==> is_known(entries, (#[trigger] stops[i]).station_name)
}

/// The line of one train over the stations of the index. A stop at a station that
/// the index lacks gives `UnknownStation`.
pub fn polyline(train: &Train, index: &StationIndex) -> (r: Result<Vec<(u32, u32)>, TrainError>)
    ensures
        match r {
            Ok(points) => all_known(train@.stops, index@) && points@ == polyline_spec(train@.stops, index@),
            Err(e) => e == TrainError::UnknownStation && !all_known(train@.stops, index@),
        },
{
    let ghost stops = train@.stops;
    let mut points: Vec<(u32, u32)> = Vec::new();
    let mut i: usize = 0;
    while i < train.stops.len()
        invariant
            stops == train@.stops,
            i <= train.stops.len(),
            all_known(stops.take(i as int), index@),
            points@ == polyline_spec(stops.take(i as int), index@),
        decreases train.stops.len() - i,
    {
        let stop = &train.stops[i];
        let position = match index.lookup(stop.station_name.as_str()) {
            Ok(position) => position,
            Err(_) => {
                return Err(TrainError::UnknownStation);
            },
        };
        proof {
            assert(stops.take(i + 1).drop_last() =~= stops.take(i as int));
        }
        match stop.arrival_time {
            Some(t) => {
                points.push((t.minutes_from_midnight(), position));
            },
            None => {},
        }
        match stop.departure_time {
            Some(t) => {
                points.push((t.minutes_from_midnight(), position));
            },
            None => {},
        }
        i += 1;
    }
    assert(stops.take(i as int) =~= stops);
    Ok(points)
}

/// The stops that call at a station of the index, in their order.
pub open spec fn known_stops(stops: Seq<StopView>, entries: Seq<StationView>) -> Seq<StopView>
    decreases stops.len(),
{
    if stops.len() == 0 {
        Seq::<StopView>::empty()
    } else if is_known(entries, stops.last().station_name) {
        known_stops(stops.drop_last(), entries).push(stops.last())
    } else {
        known_stops(stops.drop_last(), entries)
    }
}

/// A train with only the stops that call at a station of the index.
pub open spec fn known_part(train: TrainView, entries: Seq<StationView>) -> TrainView {
    TrainView {
        code: train.code,
        origin_id: train.origin_id,
        train_type: train.train_type,
        stops: known_stops(train.stops, entries),
    }
}

/// The trains that are plotted, in their order: each with its stops at stations of
/// the index, and without the trains that no such stop is left of.
pub open spec fn plot_input_spec(trains: Seq<TrainView>, entries: Seq<StationView>) -> Seq<TrainView>
    decreases trains.len(),
{
    if trains.len() == 0 {
        Seq::<TrainView>::empty()
    } else if known_stops(trains.last().stops, entries).len() == 0 {
        plot_input_spec(trains.drop_last(), entries)
    } else {
        plot_input_spec(trains.drop_last(), entries).push(known_part(trains.last(), entries))
    }
}

/// A train with only those of its stops that call at a station of the index.
pub fn filter_stops(train: &Train, index: &StationIndex) -> (r: Train)
    ensures
        r@ == known_part(train@, index@),
{
    let ghost stops = train@.stops;
    let mut kept: Vec<Stop> = Vec::new();
    let mut i: usize = 0;
    while i < train.stops.len()
        invariant
            stops == train@.stops,
            i <= train.stops.len(),
            kept.deep_view() == known_stops(stops.take(i as int), index@),
        decreases train.stops.len() - i,
    {
        let stop = &train.stops[i];
        proof {
            assert(stops.take(i + 1).drop_last() =~= stops.take(i as int));
        }
        if index.lookup(stop.station_name.as_str()).is_ok() {
            kept.push(stop.duplicate());
        }
        i += 1;
    }
    assert(stops.take(i as int) =~= stops);
    Train { code: train.code, origin_id: train.origin_id.clone(), train_type: train.train_type, stops: kept }
}

/// The trains that are plotted: see [`plot_input_spec`].
pub fn plot_input(trains: &Vec<Train>, index: &StationIndex) -> (r: Vec<Train>)
    ensures
        r.deep_view() == plot_input_spec(trains.deep_view(), index@),
{
    let ghost views = trains.deep_view();
    let mut kept: Vec<Train> = Vec::new();
    let mut i: usize = 0;
    while i < trains.len()
        invariant
            views == trains.deep_view(),
            i <= trains.len(),
            kept.deep_view() == plot_input_spec(views.take(i as int), index@),
        decreases trains.len() - i,
    {
        proof {
            assert(views.take(i + 1).drop_last() =~= views.take(i as int));
        }
        let train = filter_stops(&trains[i], index);
        if train.stops.len() > 0 {
            kept.push(train);
        }
        i += 1;
    }
    assert(views.take(i as int) =~= views);
    kept
}

/// Every stop that filtering keeps calls at a station of the index.
pub proof fn lemma_known_stops_are_known(stops: Seq<StopView>, entries: Seq<StationView>)
    ensures
        all_known(known_stops(stops, entries), entries),
        known_stops(stops, entries).len() <= stops.len(),
    decreases stops.len(),
{
    if stops.len() > 0 {
        lemma_known_stops_are_known(stops.drop_last(), entries);
    }
}

/// Filtering removes a train from the plot input exactly where none of its stops is
/// left: every train that is plotted has a stop, and all its stops call at stations
/// of the index.
pub proof fn lemma_plot_input_has_stops(trains: Seq<TrainView>, entries: Seq<StationView>)
    ensures
        plot_input_spec(trains, entries).len() <= trains.len(),
        forall|i: int| 0 <= i < plot_input_spec(trains, entries).len() ==> (#[trigger] plot_input_spec(trains, entries)[i]).stops.len() > 0,
        forall|i: int| 0 <= i < plot_input_spec(trains, entries).len() ==> all_known((#[trigger] plot_input_spec(trains, entries)[i]).stops, entries),
    decreases trains.len(),
{
    if trains.len() > 0 {
        lemma_plot_input_has_stops(trains.drop_last(), entries);
        lemma_known_stops_are_known(trains.last().stops, entries);
    }
}

/// Where no train has a stop at a station of the index, nothing is left to plot.
pub proof fn lemma_nothing_known_nothing_plotted(trains: Seq<TrainView>, entries: Seq<StationView>)
    requires
        forall|i: int| 0 <= i < trains.len() ==> known_stops((#[trigger] trains[i]).stops, entries).len() == 0,
    ensures
        plot_input_spec(trains, entries).len() == 0,
    decreases trains.len(),
{
    if trains.len() > 0 {
        assert forall|i: int| 0 <= i < trains.drop_last().len() implies known_stops((#[trigger] trains.drop_last()[i]).stops, entries).len() == 0 by {
        }
        lemma_nothing_known_nothing_plotted(trains.drop_last(), entries);
    }
}

/// A number in at least two digits, with a zero before a single digit.
pub open spec fn two_digits(n: nat) -> Seq<char> {
    if n < 10 {
        seq!['0', digit_char(n as int)]
    } else {
        digits_of(n)
    }
}

/// The label of a minute of the time axis: `HH:MM` at every eighth minute, and
/// nothing in between.
pub open spec fn x_label_spec(minute: u32) -> Seq<char> {
    if minute % 8 == 0 {
        two_digits((minute / 60) as nat) + seq![':'] + two_digits((minute % 60) as nat)
    } else {
        Seq::<char>::empty()
    }
}

fn push_two_digits(out: &mut Vec<char>, n: u32)
    ensures
        final(out)@ == old(out)@ + two_digits(n as nat),
{
    if n < 10 {
        out.push('0');
        out.push(digit(n as u8));
    } else {
        push_digits(out, n as u64);
    }
}

/// The label of a minute of the time axis.
pub fn x_label(minute: u32) -> (label: String)
    ensures
        label@ == x_label_spec(minute),
{
    let mut chars: Vec<char> = Vec::new();
    if minute % X_LABEL_STRIDE == 0 {
        push_two_digits(&mut chars, minute / 60);
        chars.push(':');
        push_two_digits(&mut chars, minute % 60);
    }
    string_of(&chars)
}

/// The label of a position of the distance axis: the name of the station that lies
/// exactly there, followed by a space, and nothing where no station lies.
pub open spec fn y_label_spec(entries: Seq<StationView>, position: u32) -> Seq<char> {
    match label_spec(entries, position) {
        Some(name) => name.push(' '),
        None => Seq::<char>::empty(),
    }
}

/// The label of a position of the distance axis.
pub fn y_label(index: &StationIndex, position: u32) -> (label: String)
    ensures
        label@ == y_label_spec(index@, position),
{
    match index.position_to_label(position) {
        Some(name) => {
            let mut label = name;
            label.push(' ');
            label
        },
        None => String::new(),
    }
}

/// The line of one train, ready to be drawn.
#[derive(Clone, Debug, PartialEq, Eq)]
pub struct Polyline {
    pub color: LineColor,
    /// Minute of the day and position, stop by stop.
    pub points: Vec<(u32, u32)>,
}

pub struct PolylineView {
    pub color: LineColor,
    pub points: Seq<(u32, u32)>,
}

impl View for Polyline {
    type V = PolylineView;

    open spec fn view(&self) -> PolylineView {
        PolylineView { color: self.color, points: self.points@ }
    }
}

impl DeepView for Polyline {
    type V = PolylineView;

    open spec fn deep_view(&self) -> PolylineView {
        self@
    }
}

/// All that a diagram shows: the two ranges, how many labels each axis is asked to
/// bear, and one line per train in the order of the trains.
#[derive(Clone, Debug, PartialEq, Eq)]
pub struct PlotPlan {
    /// First minute of the time axis.
    pub time_low: u32,
    /// Minute at which the time axis ends.
    pub time_high: u32,
    pub distance_low: u64,
    pub distance_high: u64,
    pub time_labels: u32,
    pub distance_labels: u64,
    pub lines: Vec<Polyline>,
}

pub struct PlotPlanView {
    pub time_range: (u32, u32),
    pub distance_range: (u64, u64),
    pub time_labels: u32,
    pub distance_labels: u64,
    pub lines: Seq<PolylineView>,
}

impl View for PlotPlan {
    type V = PlotPlanView;

    open spec fn view(&self) -> PlotPlanView {
        PlotPlanView {
            time_range: (self.time_low, self.time_high),
            distance_range: (self.distance_low, self.distance_high),
            time_labels: self.time_labels,
            distance_labels: self.distance_labels,
            lines: self.lines.deep_view(),
        }
    }
}

pub open spec fn plan_result_view(r: Result<PlotPlan, TrainError>) -> Result<PlotPlanView, TrainError> {
    match r {
        Ok(plan) => Ok(plan@),
        Err(e) => Err(e),
    }
}

/// The line of a train that is plotted.
pub open spec fn line_of(train: TrainView, entries: Seq<StationView>) -> PolylineView {
    PolylineView { color: color_of(train.train_type), points: polyline_spec(train.stops, entries) }
}

/// The number of labels that the time axis is asked to bear: one per minute between
/// the earliest departure and the latest arrival, none where the arrival is earlier.
pub open spec fn time_label_count(range: (u32, u32)) -> int {
    if range.1 - 15 >= range.0 {
        range.1 - 15 - range.0
    } else {
        0
    }
}

/// Whether a result is the plan of the diagram of the trains over the index.
///
/// What is plotted is what station filtering leaves. Where that bounds no time
/// range, the result is `EmptyPlotInput` and nothing is planned.
pub open spec fn is_plot_plan(trains: Seq<TrainView>, entries: Seq<StationView>, result: Result<PlotPlanView, TrainError>) -> bool {
    let input = plot_input_spec(trains, entries);
    match result {
        Err(e) => is_time_range(input, Err(e)),
        Ok(plan) => {
            &&& is_time_range(input, Ok(plan.time_range))
            &&& distance_range_spec(entries) == Ok::<(u64, u64), TrainError>(plan.distance_range)
            &&& plan.time_labels == time_label_count(plan.time_range)
            &&& max_position_spec(entries) is Some
            &&& plan.distance_labels == max_position_spec(entries)->0 * 2
            &&& plan.lines.len() == input.len()
            &&& forall|i: int| 0 <= i < input.len() ==> #[trigger] plan.lines[i] == line_of(input[i], entries)
        },
    }
}

/// Plans the diagram of the trains over the stations of the index.
pub fn plot_plan(trains: &Vec<Train>, index: &StationIndex) -> (r: Result<PlotPlan, TrainError>)
    ensures
        is_plot_plan(trains.deep_view(), index@, plan_result_view(r)),
{
    let input = plot_input(trains, index);
    let ghost views = input.deep_view();
    proof {
        lemma_plot_input_has_stops(trains.deep_view(), index@);
    }
    let time_range = match time_range(&input) {
        Ok(range) => range,
        Err(e) => {
            return Err(e);
        },
    };
    let max = match index.max_position() {
        Some(max) => max,
        None => {
            // An index without stations knows no stop, so no train is left to bound a
            // time range: this point is never reached.
            proof {
                reveal_with_fuel(crate::stations::name_index_from, 1);
            }
            return Err(TrainError::EmptyPlotInput);
        },
    };
    let mut lines: Vec<Polyline> = Vec::new();
    let mut i: usize = 0;
    while i < input.len()
        invariant
            views == input.deep_view(),
            i <= input.len(),
            lines.len() == i,
            forall|j: int| 0 <= j < views.len() ==> all_known((#[trigger] views[j]).stops, index@),
            forall|j: int| 0 <= j < i ==> (#[trigger] lines[j])@ == line_of(views[j], index@),
        decreases input.len() - i,
    {
        assert(views[i as int] == input[i as int]@);
        match polyline(&input[i], index) {
            Ok(points) => {
                lines.push(Polyline { color: line_color(input[i].train_type), points });
            },
            Err(e) => {
                return Err(e);
            },
        }
        i += 1;
    }
    let time_labels = if time_range.1 - TIME_PADDING_MINUTES >= time_range.0 {
        time_range.1 - TIME_PADDING_MINUTES - time_range.0
    } else {
        0
    };
    let plan = PlotPlan {
        time_low: time_range.0,
        time_high: time_range.1,
        distance_low: 0,
        distance_high: max as u64 + DISTANCE_PADDING,
        time_labels,
        distance_labels: max as u64 * 2,
        lines,
    };
    assert forall|j: int| 0 <= j < views.len() implies #[trigger] plan@.lines[j] == line_of(views[j], index@) by {}
    Ok(plan)
}

} // verus!

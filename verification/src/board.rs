//! The arrivals and departures board of a station.

use vstd::prelude::*;
use regex::Regex;
use crate::error::TrainError;
use crate::text::{lowercased, or_text, signed_chars, signed_text, string_of, text_or, trimmed};

verus! {

/// Which boards are shown: both where neither was asked for, else those asked for.
pub open spec fn board_flags_spec(arrivals: bool, departures: bool) -> (bool, bool) {
    if !arrivals && !departures {
        (true, true)
    } else {
        (arrivals, departures)
    }
}

/// Decides which of the two boards are shown.
pub fn board_flags(arrivals: bool, departures: bool) -> (r: (bool, bool))
    ensures
        r == board_flags_spec(arrivals, departures),
{
    if !(arrivals || departures) {
        (true, true)
    } else {
        (arrivals, departures)
    }
}

/// The pattern of a station code of the service.
pub const STATION_CODE_PATTERN: &'static str = "S[0-9]{5}";

/// A station code stands in the text at the index: a capital S before five decimal
/// digits.
pub open spec fn is_code_at(text: Seq<char>, at: int) -> bool {
    &&& 0 <= at
    &&& at + 6 <= text.len()
    &&& text[at] == 'S'
    &&& forall|k: int| 1 <= k <= 5 ==> '0' <= #[trigger] text[at + k] <= '9'
}

/// A station code stands somewhere in the text.
pub open spec fn holds_station_code(text: Seq<char>) -> bool {
    exists|at: int| is_code_at(text, at)
}

/// Compiles the pattern with `regex::Regex::new` and asks `Regex::is_match` whether it
/// matches anywhere in the text. For the pattern of a station code that is the case
/// exactly where a capital S stands before five characters from 0 to 9.
#[verifier::external_body]
fn station_code_matches(pattern: &str, text: &str) -> (r: bool)
    requires
        pattern@ == STATION_CODE_PATTERN@,
    ensures
        r == holds_station_code(text@),
{
    Regex::new(pattern).unwrap().is_match(text)
}

/// Whether what the user typed names a station by its code rather than by its name.
pub fn is_station_code(text: &str) -> (r: bool)
    ensures
        r == holds_station_code(text@),
{
    station_code_matches(STATION_CODE_PATTERN, text)
}

/// How a station is asked for.
#[derive(Clone, Debug, PartialEq, Eq)]
pub enum StationQuery {
    /// By the code of the station, which is used as it stands.
    Code(String),
    /// By the beginning of its name, for which the service is searched.
    Name(String),
}

pub enum StationQueryView {
    Code(Seq<char>),
    Name(Seq<char>),
}

impl View for StationQuery {
    type V = StationQueryView;

    open spec fn view(&self) -> StationQueryView {
        match *self {
            StationQuery::Code(code) => StationQueryView::Code(code@),
            StationQuery::Name(name) => StationQueryView::Name(name@),
        }
    }
}

/// What the user typed asks for a station by code where it holds a station code, and
/// else by name, without the white space around it.
pub open spec fn station_query_spec(text: Seq<char>) -> StationQueryView {
    if holds_station_code(text) {
        StationQueryView::Code(text)
    } else {
        StationQueryView::Name(trimmed(text))
    }
}

/// Decides how the station that the user typed is asked for.
pub fn station_query(text: &str) -> (query: StationQuery)
    ensures
        query@ == station_query_spec(text@),
{
    if is_station_code(text) {
        StationQuery::Code(String::from_str(text))
    } else {
        StationQuery::Name(String::from_str(text.trim()))
    }
}

/// The delay shown on a board: nothing for a train on time, else the signed minutes.
pub open spec fn board_delay_spec(delay: int) -> Seq<char> {
    if delay == 0 {
        Seq::<char>::empty()
    } else {
        signed_text(delay)
    }
}

/// The delay shown on a board.
pub fn board_delay(delay: i64) -> (text: String)
    ensures
        text@ == board_delay_spec(delay as int),
{
    if delay == 0 {
        String::new()
    } else {
        let chars = signed_chars(delay);
        string_of(&chars)
    }
}

/// One train of the service's answer for a board.
#[derive(Clone, Debug, PartialEq, Eq)]
pub struct BoardEntry {
    pub train_label: Option<String>,
    /// Where the train comes from on an arrivals board, where it goes on a departures
    /// board.
    pub place: Option<String>,
    /// The time of the arrival or departure, as the service words it.
    pub time: Option<String>,
    pub delay: Option<i64>,
    /// The category of the train, written out.
    pub category: Option<String>,
    pub scheduled_platform: Option<String>,
    pub actual_platform: Option<String>,
}

pub struct BoardEntryView {
    pub train_label: Option<Seq<char>>,
    pub place: Option<Seq<char>>,
    pub time: Option<Seq<char>>,
    pub delay: Option<i64>,
    pub category: Option<Seq<char>>,
    pub scheduled_platform: Option<Seq<char>>,
    pub actual_platform: Option<Seq<char>>,
}

impl View for BoardEntry {
    type V = BoardEntryView;

    open spec fn view(&self) -> BoardEntryView {
        BoardEntryView {
            train_label: self.train_label.deep_view(),
            place: self.place.deep_view(),
            time: self.time.deep_view(),
            delay: self.delay,
            category: self.category.deep_view(),
            scheduled_platform: self.scheduled_platform.deep_view(),
            actual_platform: self.actual_platform.deep_view(),
        }
    }
}

impl DeepView for BoardEntry {
    type V = BoardEntryView;

    open spec fn deep_view(&self) -> BoardEntryView {
        self@
    }
}

/// One row of a board.
#[derive(Clone, Debug, PartialEq, Eq)]
pub struct BoardRow {
    pub train_label: String,
    pub place: String,
    pub time: String,
    pub delay: String,
    pub platform: String,
    /// The platform is the one actually used, not only the scheduled one.
    pub platform_confirmed: bool,
}

pub struct BoardRowView {
    pub train_label: Seq<char>,
    pub place: Seq<char>,
    pub time: Seq<char>,
    pub delay: Seq<char>,
    pub platform: Seq<char>,
    pub platform_confirmed: bool,
}

impl View for BoardRow {
    type V = BoardRowView;

    open spec fn view(&self) -> BoardRowView {
        BoardRowView {
            train_label: self.train_label@,
            place: self.place@,
            time: self.time@,
            delay: self.delay@,
            platform: self.platform@,
            platform_confirmed: self.platform_confirmed,
        }
    }
}

impl DeepView for BoardRow {
    type V = BoardRowView;

    open spec fn deep_view(&self) -> BoardRowView {
        self@
    }
}

/// A text as it is compared by a filter: without white space around it, in lower case.
pub open spec fn folded(text: Seq<char>) -> Seq<char> {
    lowercased(trimmed(text))
}

/// A train passes where no filter is set, or where its category is the filter's but
/// for case and surrounding white space. A train without a category has the empty one.
pub open spec fn passes_filter(filter: Option<Seq<char>>, entry: BoardEntryView) -> bool {
    match filter {
        None => true,
        Some(wanted) => folded(wanted) == folded(or_text(entry.category, Seq::<char>::empty())),
    }
}

/// The delay that a board shows for a train; none reported counts as on time.
pub open spec fn entry_delay(entry: BoardEntryView) -> int {
    match entry.delay {
        Some(d) => d as int,
        None => 0,
    }
}

/// The row of a train. Label, place and time are needed. The platform is the actual
/// one where the service names it, else the scheduled one, without white space
/// around it.
pub open spec fn row_of(entry: BoardEntryView) -> Result<BoardRowView, TrainError> {
    if entry.train_label is None || entry.place is None || entry.time is None {
        Err(TrainError::IncompleteTrainData)
    } else {
        let actual = trimmed(or_text(entry.actual_platform, Seq::<char>::empty()));
        let scheduled = trimmed(or_text(entry.scheduled_platform, Seq::<char>::empty()));
        Ok(
            BoardRowView {
                train_label: entry.train_label->0,
                place: entry.place->0,
                time: entry.time->0,
                delay: board_delay_spec(entry_delay(entry)),
                platform: if actual.len() == 0 {
                    scheduled
                } else {
                    actual
                },
                platform_confirmed: actual.len() != 0,
            },
        )
    }
}

/// The rows of the trains that pass the filter, in their order, or the error of the
/// first such train that has no row.
pub open spec fn rows_of(entries: Seq<BoardEntryView>, filter: Option<Seq<char>>) -> Result<Seq<BoardRowView>, TrainError>
    decreases entries.len(),
{
    if entries.len() == 0 {
        Ok(Seq::<BoardRowView>::empty())
    } else {
        match rows_of(entries.drop_last(), filter) {
            Err(e) => Err(e),
            Ok(rows) => if !passes_filter(filter, entries.last()) {
                Ok(rows)
            } else {
                match row_of(entries.last()) {
                    Ok(row) => Ok(rows.push(row)),
                    Err(e) => Err(e),
                }
            },
        }
    }
}

pub open spec fn row_result_view(r: Result<BoardRow, TrainError>) -> Result<BoardRowView, TrainError> {
    match r {
        Ok(row) => Ok(row@),
        Err(e) => Err(e),
    }
}

pub open spec fn rows_result_view(r: Result<Vec<BoardRow>, TrainError>) -> Result<Seq<BoardRowView>, TrainError> {
    match r {
        Ok(rows) => Ok(rows.deep_view()),
        Err(e) => Err(e),
    }
}

fn fold(text: &str) -> (r: String)
    ensures
        r@ == folded(text@),
{
    text.trim().to_lowercase()
}

/// Whether a train passes the filter on its category.
pub fn matches_filter(filter: Option<&str>, entry: &BoardEntry) -> (r: bool)
    ensures
        r == passes_filter(filter.deep_view(), entry@),
{
    match filter {
        None => true,
        Some(wanted) => {
            let category = text_or(&entry.category, "");
            assert(""@ =~= Seq::<char>::empty()) by {
                reveal_strlit("");
            }
            fold(wanted) == fold(category.as_str())
        },
    }
}

/// The row of one train.
pub fn board_row(entry: &BoardEntry) -> (r: Result<BoardRow, TrainError>)
    ensures
        row_result_view(r) == row_of(entry@),
{
    let train_label = match &entry.train_label {
        Some(label) => label.clone(),
        None => {
            return Err(TrainError::IncompleteTrainData);
        },
    };
    let place = match &entry.place {
        Some(place) => place.clone(),
        None => {
            return Err(TrainError::IncompleteTrainData);
        },
    };
    let time = match &entry.time {
        Some(time) => time.clone(),
        None => {
            return Err(TrainError::IncompleteTrainData);
        },
    };
    let delay = match entry.delay {
        Some(d) => d,
        None => 0,
    };
    proof {
        reveal_strlit("");
        assert(""@ =~= Seq::<char>::empty());
    }
    let actual_text = text_or(&entry.actual_platform, "");
    let actual = String::from_str(actual_text.as_str().trim());
    let scheduled_text = text_or(&entry.scheduled_platform, "");
    let scheduled = String::from_str(scheduled_text.as_str().trim());
    let platform_confirmed = !actual.as_str().is_empty();
    let platform = if platform_confirmed {
        actual
    } else {
        scheduled
    };
    Ok(BoardRow { train_label, place, time, delay: board_delay(delay), platform, platform_confirmed })
}

proof fn lemma_rows_fail_for_good(entries: Seq<BoardEntryView>, filter: Option<Seq<char>>, k: int)
    requires
        0 <= k <= entries.len(),
        rows_of(entries.take(k), filter) is Err,
    ensures
        rows_of(entries, filter) == rows_of(entries.take(k), filter),
    decreases entries.len() - k,
{
    if k < entries.len() {
        assert(entries.take(k + 1).drop_last() =~= entries.take(k));
        lemma_rows_fail_for_good(entries, filter, k + 1);
    } else {
        assert(entries.take(k) =~= entries);
    }
}

/// The rows of a board: one for each train that passes the filter.
pub fn board_rows(entries: &Vec<BoardEntry>, filter: Option<&str>) -> (r: Result<Vec<BoardRow>, TrainError>)
    ensures
        rows_result_view(r) == rows_of(entries.deep_view(), filter.deep_view()),
{
    let ghost views = entries.deep_view();
    let ghost wanted = filter.deep_view();
    let mut rows: Vec<BoardRow> = Vec::new();
    let mut i: usize = 0;
    assert(rows.deep_view() =~= Seq::<BoardRowView>::empty());
    while i < entries.len()
        invariant
            views == entries.deep_view(),
            wanted == filter.deep_view(),
            i <= entries.len(),
            rows_of(views.take(i as int), wanted) == Ok::<Seq<BoardRowView>, TrainError>(rows.deep_view()),
        decreases entries.len() - i,
    {
        proof {
            assert(views.take(i + 1).drop_last() =~= views.take(i as int));
        }
        let ghost before = rows.deep_view();
        if matches_filter(filter, &entries[i]) {
            match board_row(&entries[i]) {
                Ok(row) => {
                    let ghost view = row@;
                    rows.push(row);
                    assert(rows.deep_view() =~= before.push(view));
                },
                Err(e) => {
                    proof {
                        lemma_rows_fail_for_good(views, wanted, i + 1);
                    }
                    return Err(e);
                },
            }
        }
        i += 1;
    }
    assert(views.take(i as int) =~= views);
    Ok(rows)
}

} // verus!

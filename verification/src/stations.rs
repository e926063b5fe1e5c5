//! The station distance index of one rail corridor: its stations in line order, each
//! with its distance along the line.

use vstd::prelude::*;
use crate::error::TrainError;
use crate::text::same_text;

verus! {

/// A station and its distance along the line, in decameters.
#[derive(Clone, Debug, PartialEq, Eq)]
pub struct Station {
    pub name: String,
    pub position: u32,
}

pub struct StationView {
    pub name: Seq<char>,
    pub position: u32,
}

impl View for Station {
    type V = StationView;

    open spec fn view(&self) -> StationView {
        StationView { name: self.name@, position: self.position }
    }
}

impl DeepView for Station {
    type V = StationView;

    open spec fn deep_view(&self) -> StationView {
        self@
    }
}

/// The stations stand in line order: positions strictly ascending, and no name twice.
pub open spec fn is_line_ordered(entries: Seq<StationView>) -> bool {
    &&& forall|i: int, j: int| 0 <= i < j < entries.len() ==> (#[trigger] entries[i]).position < (#[trigger] entries[j]).position
    &&& forall|i: int, j: int| 0 <= i < j < entries.len() ==> (#[trigger] entries[i]).name != (#[trigger] entries[j]).name
}

/// The index of the first station at or after `from` that bears the name, or the
/// number of stations where none does.
pub open spec fn name_index_from(entries: Seq<StationView>, name: Seq<char>, from: int) -> int
    decreases entries.len() - from,
{
    if from < 0 || from >= entries.len() {
        entries.len() as int
    } else if entries[from].name == name {
        from
    } else {
        name_index_from(entries, name, from + 1)
    }
}

/// The position of the station of a name, or `UnknownStation`.
pub open spec fn lookup_spec(entries: Seq<StationView>, name: Seq<char>) -> Result<u32, TrainError> {
    let i = name_index_from(entries, name, 0);
    if i < entries.len() {
        Ok(entries[i].position)
    } else {
        Err(TrainError::UnknownStation)
    }
}

/// Whether the index holds a station of the name.
pub open spec fn is_known(entries: Seq<StationView>, name: Seq<char>) -> bool {
    lookup_spec(entries, name) is Ok
}

/// The index of the first station at or after `from` that lies at the position, or
/// the number of stations where none does.
pub open spec fn position_index_from(entries: Seq<StationView>, position: u32, from: int) -> int
    decreases entries.len() - from,
{
    if from < 0 || from >= entries.len() {
        entries.len() as int
    } else if entries[from].position == position {
        from
    } else {
        position_index_from(entries, position, from + 1)
    }
}

/// The name of the station that lies exactly at a position, if there is one.
pub open spec fn label_spec(entries: Seq<StationView>, position: u32) -> Option<Seq<char>> {
    let i = position_index_from(entries, position, 0);
    if i < entries.len() {
        Some(entries[i].name)
    } else {
        None
    }
}

/// The largest position of the index, which its last station has.
pub open spec fn max_position_spec(entries: Seq<StationView>) -> Option<u32> {
    if entries.len() == 0 {
        None
    } else {
        Some(entries.last().position)
    }
}

/// The ordered table of the stations of one corridor. It is built once and only read
/// afterwards.
#[derive(Debug)]
pub struct StationIndex {
    stations: Vec<Station>,
}

impl View for StationIndex {
    type V = Seq<StationView>;

    closed spec fn view(&self) -> Seq<StationView> {
        self.stations.deep_view()
    }
}

proof fn lemma_name_scan(entries: Seq<StationView>, name: Seq<char>, from: int)
    requires
        0 <= from <= entries.len(),
    ensures
        from <= name_index_from(entries, name, from) <= entries.len(),
        name_index_from(entries, name, from) < entries.len() ==> entries[name_index_from(entries, name, from)].name == name,
        forall|j: int| from <= j < name_index_from(entries, name, from) ==> (#[trigger] entries[j]).name != name,
    decreases entries.len() - from,
{
    if from < entries.len() && entries[from].name != name {
        lemma_name_scan(entries, name, from + 1);
    }
}

proof fn lemma_position_scan(entries: Seq<StationView>, position: u32, from: int)
    requires
        0 <= from <= entries.len(),
    ensures
        from <= position_index_from(entries, position, from) <= entries.len(),
        position_index_from(entries, position, from) < entries.len() ==> entries[position_index_from(entries, position, from)].position == position,
        forall|j: int| from <= j < position_index_from(entries, position, from) ==> (#[trigger] entries[j]).position != position,
    decreases entries.len() - from,
{
    if from < entries.len() && entries[from].position != position {
        lemma_position_scan(entries, position, from + 1);
    }
}

impl StationIndex {
    #[verifier::type_invariant]
    closed spec fn ordered(self) -> bool {
        is_line_ordered(self.stations.deep_view())
    }

    /// Makes the index of the given stations, which must stand in line order.
    pub fn new(stations: Vec<Station>) -> (r: Option<StationIndex>)
        ensures
            is_line_ordered(stations.deep_view()) ==> (r matches Some(index) && index@ == stations.deep_view()),
            !is_line_ordered(stations.deep_view()) ==> r is None,
    {
        let n = stations.len();
        let mut j: usize = 1;
        while j < n
            invariant
                n == stations.len(),
                1 <= j || n == 0,
                j <= n || n == 0,
                forall|a: int, b: int| 0 <= a < b < j && b < n ==> (#[trigger] stations.deep_view()[a]).position < (#[trigger] stations.deep_view()[b]).position,
                forall|a: int, b: int| 0 <= a < b < j && b < n ==> (#[trigger] stations.deep_view()[a]).name != (#[trigger] stations.deep_view()[b]).name,
            decreases n - j,
        {
            assert(stations.deep_view()[j as int] == stations[j as int]@);
            assert(stations.deep_view()[j - 1] == stations[j - 1]@);
            if stations[j - 1].position >= stations[j].position {
                return None;
            }
            let mut i: usize = 0;
            while i < j
                invariant
                    n == stations.len(),
                    i <= j < n,
                    stations.deep_view()[j as int] == stations[j as int]@,
                    forall|a: int| 0 <= a < i ==> (#[trigger] stations.deep_view()[a]).name != stations.deep_view()[j as int].name,
                decreases j - i,
            {
                assert(stations.deep_view()[i as int] == stations[i as int]@);
                if same_text(stations[i].name.as_str(), stations[j].name.as_str()) {
                    return None;
                }
                i += 1;
            }
            j += 1;
        }
        Some(StationIndex { stations })
    }

    /// The number of stations.
    pub fn len(&self) -> (n: usize)
        ensures
            n == self@.len(),
            is_line_ordered(self@),
    {
        proof {
            use_type_invariant(self);
        }
        self.stations.len()
    }

    /// The position of the station of a name.
    pub fn lookup(&self, name: &str) -> (r: Result<u32, TrainError>)
        ensures
            r == lookup_spec(self@, name@),
    {
        let mut i: usize = 0;
        while i < self.stations.len()
            invariant
                i <= self.stations.len(),
                name_index_from(self@, name@, 0) == name_index_from(self@, name@, i as int),
            decreases self.stations.len() - i,
        {
            if same_text(self.stations[i].name.as_str(), name) {
                return Ok(self.stations[i].position);
            }
            i += 1;
        }
        Err(TrainError::UnknownStation)
    }

    /// The index of the station that lies exactly at a position, by binary search.
    fn find_position(&self, position: u32) -> (r: Option<usize>)
        ensures
            r matches Some(i) ==> i < self@.len() && self@[i as int].position == position,
            r is None ==> forall|j: int| 0 <= j < self@.len() ==> (#[trigger] self@[j]).position != position,
    {
        proof {
            use_type_invariant(self);
        }
        let mut low: usize = 0;
        let mut high: usize = self.stations.len();
        while low < high
            invariant
                low <= high <= self.stations.len(),
                is_line_ordered(self@),
                forall|j: int| 0 <= j < low ==> (#[trigger] self@[j]).position < position,
                forall|j: int| high <= j < self@.len() ==> (#[trigger] self@[j]).position > position,
            decreases high - low,
        {
            let mid = low + (high - low) / 2;
            assert(self@[mid as int] == self.stations[mid as int]@);
            let here = self.stations[mid].position;
            if here == position {
                return Some(mid);
            } else if here < position {
                low = mid + 1;
            } else {
                high = mid;
            }
        }
        None
    }

    /// The name of the station that lies exactly at a position; nothing for a position
    /// between stations, as a grid line there bears no name.
    pub fn position_to_label(&self, position: u32) -> (r: Option<String>)
        ensures
            r.deep_view() == label_spec(self@, position),
    {
        proof {
            use_type_invariant(self);
            lemma_position_scan(self@, position, 0);
        }
        match self.find_position(position) {
            Some(i) => {
                Some(self.stations[i].name.clone())
            },
            None => None,
        }
    }

    /// The largest position of the index.
    pub fn max_position(&self) -> (r: Option<u32>)
        ensures
            r == max_position_spec(self@),
    {
        let n = self.stations.len();
        if n == 0 {
            None
        } else {
            Some(self.stations[n - 1].position)
        }
    }
}

/// A station that stands before another in the line order lies at a smaller
/// position, and looking the two up by name gives exactly those positions.
pub proof fn lemma_lookup_monotonic(entries: Seq<StationView>, a: int, b: int)
    requires
        is_line_ordered(entries),
        0 <= a < b < entries.len(),
    ensures
        lookup_spec(entries, entries[a].name) == Ok::<u32, TrainError>(entries[a].position),
        lookup_spec(entries, entries[b].name) == Ok::<u32, TrainError>(entries[b].position),
        entries[a].position < entries[b].position,
{
    lemma_name_scan(entries, entries[a].name, 0);
    lemma_name_scan(entries, entries[b].name, 0);
}

/// A position bears the name of a station exactly where a station lies at it.
pub proof fn lemma_label_exact(entries: Seq<StationView>, position: u32)
    requires
        is_line_ordered(entries),
    ensures
        label_spec(entries, position) is Some <==> exists|i: int| 0 <= i < entries.len() && (#[trigger] entries[i]).position == position,
        forall|i: int| 0 <= i < entries.len() && (#[trigger] entries[i]).position == position ==> label_spec(entries, position) == Some(entries[i].name),
{
    lemma_position_scan(entries, position, 0);
}

} // verus!

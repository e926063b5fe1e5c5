//! Reading the service's answers to a search: the candidates that a train code or a
//! station name matches, the choice among them, and the reference under which the
//! progress of a train is asked for.

use vstd::prelude::*;
use crate::error::TrainError;
use crate::text::{chars_of, parse_number, parse_number_spec, split_chars, split_spec, trimmed};

verus! {

/// What to do with the candidates that a search returned.
#[derive(Clone, Copy, Debug, PartialEq, Eq, Structural)]
pub enum Selection {
    /// The search matched nothing.
    NoCandidate,
    /// Several candidates match and none was asked for: the user has to choose.
    Ask,
    /// The candidate at this index is taken.
    Chosen(usize),
    /// The index asked for names no candidate.
    Invalid,
}

/// The choice among `count` candidates when the caller asked for `requested`.
///
/// Several candidates without a request call for a question. Otherwise the
/// requested index counts, or the first candidate where none was requested.
pub open spec fn selection_spec(count: nat, requested: Option<usize>) -> Selection {
    if count == 0 {
        Selection::NoCandidate
    } else if count > 1 && requested is None {
        Selection::Ask
    } else {
        let index = match requested {
            Some(i) => i,
            None => 0usize,
        };
        if index >= count {
            Selection::Invalid
        } else {
            Selection::Chosen(index)
        }
    }
}

/// The candidate that an answer to the question names. Answers count from one.
pub open spec fn answer_spec(count: nat, answer: usize) -> Selection {
    if 1 <= answer <= count {
        Selection::Chosen((answer - 1) as usize)
    } else {
        Selection::Invalid
    }
}

/// Decides among the candidates of a search.
pub fn select_candidate(count: usize, requested: Option<usize>) -> (r: Selection)
    ensures
        r == selection_spec(count as nat, requested),
{
    if count == 0 {
        Selection::NoCandidate
    } else if count > 1 && requested.is_none() {
        Selection::Ask
    } else {
        let index = match requested {
            Some(i) => i,
            None => 0,
        };
        if index >= count {
            Selection::Invalid
        } else {
            Selection::Chosen(index)
        }
    }
}

/// Turns the user's answer to the question into a choice.
pub fn resolve_answer(count: usize, answer: usize) -> (r: Selection)
    ensures
        r == answer_spec(count as nat, answer),
{
    if answer >= 1 && answer <= count {
        Selection::Chosen(answer - 1)
    } else {
        Selection::Invalid
    }
}

/// An answer is taken exactly when it names one of the candidates, and then it takes
/// a candidate that exists.
pub proof fn lemma_answer_in_range(count: nat, answer: usize)
    ensures
        answer_spec(count, answer) matches Selection::Chosen(i) ==> i < count && i + 1 == answer,
        answer_spec(count, answer) is Chosen <==> 1 <= answer <= count,
{
}

/// The reference under which the service reports the progress of one train.
#[derive(Clone, Debug, PartialEq, Eq)]
pub struct TrainReference {
    /// The service's identifier of the station of origin.
    pub origin_id: String,
    /// The service's timestamp of the day of the run.
    pub timestamp: String,
}

pub struct TrainReferenceView {
    pub origin_id: Seq<char>,
    pub timestamp: Seq<char>,
}

impl View for TrainReference {
    type V = TrainReferenceView;

    open spec fn view(&self) -> TrainReferenceView {
        TrainReferenceView { origin_id: self.origin_id@, timestamp: self.timestamp@ }
    }
}

pub open spec fn reference_result_view(r: Result<TrainReference, TrainError>) -> Result<TrainReferenceView, TrainError> {
    match r {
        Ok(reference) => Ok(reference@),
        Err(e) => Err(e),
    }
}

/// What a candidate line shows to the user: the text before its first bar.
pub open spec fn candidate_label_spec(line: Seq<char>) -> Seq<char> {
    split_spec(line, '|')[0]
}

/// The reference in a candidate line of a train search. After the first bar stand
/// the train number, the identifier of the origin and the timestamp, with hyphens
/// between them.
pub open spec fn train_reference_spec(line: Seq<char>) -> Result<TrainReferenceView, TrainError> {
    let fields = split_spec(line, '|');
    if fields.len() < 2 {
        Err(TrainError::MalformedResponse)
    } else {
        let parts = split_spec(fields[1], '-');
        if parts.len() < 3 {
            Err(TrainError::MalformedResponse)
        } else {
            Ok(TrainReferenceView { origin_id: parts[1], timestamp: parts[2] })
        }
    }
}

/// What a candidate line shows to the user.
pub fn candidate_label(line: &str) -> (label: String)
    ensures
        label@ == candidate_label_spec(line@),
{
    let chars = chars_of(line);
    let fields = split_chars(&chars, '|');
    fields[0].clone()
}

/// Reads the reference of a train from its candidate line.
pub fn train_reference(line: &str) -> (r: Result<TrainReference, TrainError>)
    ensures
        reference_result_view(r) == train_reference_spec(line@),
{
    let chars = chars_of(line);
    let fields = split_chars(&chars, '|');
    if fields.len() < 2 {
        return Err(TrainError::MalformedResponse);
    }
    let inner = chars_of(fields[1].as_str());
    let parts = split_chars(&inner, '-');
    if parts.len() < 3 {
        return Err(TrainError::MalformedResponse);
    }
    Ok(TrainReference { origin_id: parts[1].clone(), timestamp: parts[2].clone() })
}

/// A station that a search by name matched.
#[derive(Clone, Debug, PartialEq, Eq)]
pub struct StationCandidate {
    pub name: String,
    /// The service's code of the station.
    pub code: String,
}

pub struct StationCandidateView {
    pub name: Seq<char>,
    pub code: Seq<char>,
}

impl View for StationCandidate {
    type V = StationCandidateView;

    open spec fn view(&self) -> StationCandidateView {
        StationCandidateView { name: self.name@, code: self.code@ }
    }
}

pub open spec fn candidate_result_view(r: Result<StationCandidate, TrainError>) -> Result<StationCandidateView, TrainError> {
    match r {
        Ok(candidate) => Ok(candidate@),
        Err(e) => Err(e),
    }
}

/// The station in a candidate line of a station search: its name, a bar, its code.
pub open spec fn station_candidate_spec(line: Seq<char>) -> Result<StationCandidateView, TrainError> {
    let fields = split_spec(line, '|');
    if fields.len() < 2 {
        Err(TrainError::MalformedResponse)
    } else {
        Ok(StationCandidateView { name: fields[0], code: fields[1] })
    }
}

/// Reads a station from its candidate line.
pub fn station_candidate(line: &str) -> (r: Result<StationCandidate, TrainError>)
    ensures
        candidate_result_view(r) == station_candidate_spec(line@),
{
    let chars = chars_of(line);
    let fields = split_chars(&chars, '|');
    if fields.len() < 2 {
        return Err(TrainError::MalformedResponse);
    }
    Ok(StationCandidate { name: fields[0].clone(), code: fields[1].clone() })
}

/// The number that the user typed as an answer: a decimal number with white space
/// around it at most.
pub open spec fn typed_number_spec(input: Seq<char>) -> Option<nat> {
    parse_number_spec(trimmed(input), usize::MAX as nat)
}

/// Reads the number that the user typed as an answer.
pub fn typed_number(input: &str) -> (r: Option<usize>)
    ensures
        match r {
            Some(n) => typed_number_spec(input@) == Some(n as nat),
            None => typed_number_spec(input@) is None,
        },
{
    let chars = chars_of(input.trim());
    match parse_number(&chars, usize::MAX as u64) {
        Some(n) => Some(n as usize),
        None => None,
    }
}

} // verus!

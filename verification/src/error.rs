use vstd::prelude::*;

verus! {

/// Everything that can end an operation on one train or one diagram.
///
/// Nothing is retried: each failure is final for the operation in which it occurs.
#[derive(Clone, Copy, Debug, PartialEq, Eq, Structural)]
pub enum TrainError {
    /// The network request could not be completed.
    TransportError,
    /// The service answered with text or a record of an unexpected shape.
    MalformedResponse,
    /// A timestamp does not describe a moment that a 24-hour clock can show.
    MalformedTimestamp,
    /// A field that the computation cannot do without is absent.
    IncompleteTrainData,
    /// A station name is not in the station distance index.
    UnknownStation,
    /// No time or distance range can be computed for a diagram.
    EmptyPlotInput,
}

/// What the user is told of a failure.
pub open spec fn message_spec(error: TrainError) -> Seq<char> {
    match error {
        TrainError::TransportError => "Cannot complete request."@,
        TrainError::MalformedResponse => "Error: the service returned an unexpected answer."@,
        TrainError::MalformedTimestamp => "Error: a timestamp does not fit the clock."@,
        TrainError::IncompleteTrainData => "Error: the data of the train is incomplete."@,
        TrainError::UnknownStation => "Error: unknown station."@,
        TrainError::EmptyPlotInput => "Error: nothing to plot."@,
    }
}

impl TrainError {
    /// What the user is told of the failure.
    pub fn message(&self) -> (text: &'static str)
        ensures
            text@ == message_spec(*self),
    {
        match self {
            TrainError::TransportError => "Cannot complete request.",
            TrainError::MalformedResponse => "Error: the service returned an unexpected answer.",
            TrainError::MalformedTimestamp => "Error: a timestamp does not fit the clock.",
            TrainError::IncompleteTrainData => "Error: the data of the train is incomplete.",
            TrainError::UnknownStation => "Error: unknown station.",
            TrainError::EmptyPlotInput => "Error: nothing to plot.",
        }
    }
}

} // verus!

//! What the agents see of the store: the values it hands back, and the ways
//! in which an agent can fail on them.
use vstd::prelude::*;

verus! {

/// A value from the store, as far as the agents read it.
#[derive(Clone, Debug)]
pub enum StoreValue {
    /// An identifier of a record.
    Id(String),
    /// A signal.
    Boolean(bool),
    /// A piece of text, such as the name of a job.
    Text(String),
    /// Anything else, a failed function run included.
    Other,
}

/// Why an agent stopped.
#[derive(Clone, Copy, Debug, PartialEq, Eq, Structural)]
pub enum ErrorKind {
    /// A call to the store failed, or a subscription ended.
    StoreCallFailed,
    /// The store answered with a value of another shape than the protocol
    /// gives.
    UnexpectedResponseShape,
    /// An event came that the agent was not waiting for.
    OutOfTurn,
}

/// The store's functions that the agents and the supervisor use.
#[derive(Clone, Copy, Debug, PartialEq, Eq, Structural)]
pub enum Operation {
    Reset,
    NewGroupReady,
    DispatchGroup,
    ReleaseGroup,
    InsertReadyWorker,
    IsTimeToWork,
    IsTimeToVacation,
    MarkBackFromVacation,
    WorkDone,
    GetSpeeds,
}

impl Operation {
    /// The name under which the store knows the function.
    pub open spec fn name_text(self) -> Seq<char> {
        match self {
            Operation::Reset => "santa:reset"@,
            Operation::NewGroupReady => "santa:newGroupReady"@,
            Operation::DispatchGroup => "santa:dispatchGroup"@,
            Operation::ReleaseGroup => "santa:releaseGroup"@,
            Operation::InsertReadyWorker => "workers:insertReadyWorker"@,
            Operation::IsTimeToWork => "workers:isTimeToWork"@,
            Operation::IsTimeToVacation => "workers:isTimeToVacation"@,
            Operation::MarkBackFromVacation => "workers:markBackFromVacation"@,
            Operation::WorkDone => "workers:workDone"@,
            Operation::GetSpeeds => "speed:getSpeeds"@,
        }
    }

    /// Whether the function is a query to subscribe to, and not a mutation.
    pub open spec fn is_query(self) -> bool {
        self == Operation::NewGroupReady || self == Operation::IsTimeToWork || self
            == Operation::IsTimeToVacation || self == Operation::GetSpeeds
    }

    /// The name under which the store knows the function.
    pub fn name(&self) -> (name: &'static str)
        ensures
            name@ == self.name_text(),
    {
        match self {
            Operation::Reset => "santa:reset",
            Operation::NewGroupReady => "santa:newGroupReady",
            Operation::DispatchGroup => "santa:dispatchGroup",
            Operation::ReleaseGroup => "santa:releaseGroup",
            Operation::InsertReadyWorker => "workers:insertReadyWorker",
            Operation::IsTimeToWork => "workers:isTimeToWork",
            Operation::IsTimeToVacation => "workers:isTimeToVacation",
            Operation::MarkBackFromVacation => "workers:markBackFromVacation",
            Operation::WorkDone => "workers:workDone",
            Operation::GetSpeeds => "speed:getSpeeds",
        }
    }

    /// Whether the function is a query to subscribe to.
    pub fn subscribes(&self) -> (query: bool)
        ensures
            query == self.is_query(),
    {
        match self {
            Operation::NewGroupReady => true,
            Operation::IsTimeToWork => true,
            Operation::IsTimeToVacation => true,
            Operation::GetSpeeds => true,
            _ => false,
        }
    }
}

/// Whether two texts are the same.
pub fn same_text(left: &str, right: &str) -> (same: bool)
    ensures
        same == (left@ == right@),
{
    let a = left.to_owned();
    let b = right.to_owned();
    a == b
}

} // verus!

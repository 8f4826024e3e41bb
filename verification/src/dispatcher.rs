//! The dispatcher's state machine: wait for a group, dispatch it, work with
//! it, release it, and wait again.
//!
//! Which workers form a group, and when, is the store's decision: the
//! dispatcher only answers the store's notice that a group is ready.
use crate::kind::WorkerType;
use crate::rate::RateState;
use crate::store::{ErrorKind, Operation, StoreValue};
use crate::worker::Variant;
use rand::rngs::StdRng;
use vstd::prelude::*;

verus! {

/// A group of one kind that is ready to be dispatched.
#[derive(Clone, Copy, Debug, PartialEq, Eq, Structural)]
pub struct GroupJob {
    pub kind: WorkerType,
}

/// Where the dispatcher stands in its cycle.
#[derive(Clone, Copy, Debug, PartialEq, Eq, Structural)]
pub enum DispatcherPhase {
    /// It is subscribed to the notice that a group is ready.
    AwaitingGroup,
    /// Its call of this group is with the store.
    Dispatching(GroupJob),
    /// It spends time with the group.
    WorkingWithGroup,
    /// Its release of the group is with the store.
    Releasing,
    /// It has stopped, for good.
    Stopped(ErrorKind),
}

/// What a driver tells the dispatcher.
#[derive(Clone, Debug)]
pub enum DispatcherEvent {
    /// The subscription delivered a value.
    GroupReady(StoreValue),
    /// The store took the call that the last action asked for.
    Acknowledged,
    /// The delay that the last action asked for is over.
    Elapsed,
    /// A call to the store failed, or the subscription ended.
    CallFailed,
}

/// What the dispatcher asks of its driver.
#[derive(Clone, Debug)]
pub enum DispatcherAction {
    /// Subscribe to the notice that a group is ready, and hand on what it
    /// delivers.
    AwaitGroup,
    /// Hand on what the open subscription delivers next.
    KeepWaiting,
    /// Close the subscription, show the announcement, and call the group to
    /// work, naming the work.
    Dispatch { job: GroupJob, work: String, announcement: String },
    /// Sleep so many milliseconds.
    WorkTogether { sleep_ms: u64 },
    /// Release the group.
    Release,
    /// End the task.
    Stop { reason: ErrorKind },
}

impl DispatcherAction {
    /// The store's function that the action calls, if it calls one.
    pub open spec fn operation_spec(self) -> Option<Operation> {
        match self {
            DispatcherAction::AwaitGroup => Some(Operation::NewGroupReady),
            DispatcherAction::Dispatch { .. } => Some(Operation::DispatchGroup),
            DispatcherAction::Release => Some(Operation::ReleaseGroup),
            _ => None,
        }
    }

    /// The store's function that the action calls, if it calls one.
    pub fn operation(&self) -> (op: Option<Operation>)
        ensures
            op == self.operation_spec(),
    {
        match self {
            DispatcherAction::AwaitGroup => Some(Operation::NewGroupReady),
            DispatcherAction::Dispatch { .. } => Some(Operation::DispatchGroup),
            DispatcherAction::Release => Some(Operation::ReleaseGroup),
            _ => None,
        }
    }
}

/// The dispatcher as the contracts see it.
pub ghost struct DispatcherModel {
    pub variant: Variant,
    pub phase: DispatcherPhase,
}

/// Whether an event is the notice of a ready group of a known kind.
pub open spec fn is_group_notice(event: DispatcherEvent) -> bool {
    event matches DispatcherEvent::GroupReady(StoreValue::Text(name)) && WorkerType::named(
        name@,
    ) is Some
}

/// The phase after an event.
pub open spec fn next_phase(m: DispatcherModel, event: DispatcherEvent) -> DispatcherPhase {
    match (m.phase, event) {
        (DispatcherPhase::Stopped(reason), _) => DispatcherPhase::Stopped(reason),
        (_, DispatcherEvent::CallFailed) => DispatcherPhase::Stopped(ErrorKind::StoreCallFailed),
        (DispatcherPhase::AwaitingGroup, DispatcherEvent::GroupReady(StoreValue::Text(name))) => {
            match WorkerType::named(name@) {
                Some(kind) => DispatcherPhase::Dispatching(GroupJob { kind }),
                None => DispatcherPhase::Stopped(ErrorKind::UnexpectedResponseShape),
            }
        },
        (DispatcherPhase::AwaitingGroup, DispatcherEvent::GroupReady(_)) => {
            DispatcherPhase::AwaitingGroup
        },
        (DispatcherPhase::Dispatching(_), DispatcherEvent::Acknowledged) => {
            match m.variant {
                Variant::Dynamic => DispatcherPhase::WorkingWithGroup,
                Variant::Simple => DispatcherPhase::Releasing,
            }
        },
        (DispatcherPhase::WorkingWithGroup, DispatcherEvent::Elapsed) => DispatcherPhase::Releasing,
        (DispatcherPhase::Releasing, DispatcherEvent::Acknowledged) => {
            DispatcherPhase::AwaitingGroup
        },
        _ => DispatcherPhase::Stopped(ErrorKind::OutOfTurn),
    }
}

/// The dispatcher after an event.
pub open spec fn next_model(m: DispatcherModel, event: DispatcherEvent) -> DispatcherModel {
    DispatcherModel { phase: next_phase(m, event), ..m }
}

/// Whether an action is the one that a step from `before` to `after` asks
/// for. Every part of the action is fixed but the length of the delay, which
/// is drawn below the bound on work.
pub open spec fn action_fits(
    before: DispatcherModel,
    after: DispatcherModel,
    rates: RateState,
    action: DispatcherAction,
) -> bool {
    match after.phase {
        DispatcherPhase::Stopped(why) => action matches DispatcherAction::Stop { reason } && reason
            == why,
        DispatcherPhase::AwaitingGroup => if before.phase is Releasing {
            action is AwaitGroup
        } else {
            action is KeepWaiting
        },
        DispatcherPhase::Dispatching(group) => action matches DispatcherAction::Dispatch {
            job,
            work,
            announcement,
        } && job == group && work@ == group.kind.table_name_text() && announcement@
            == group.kind.announcement_text(),
        DispatcherPhase::WorkingWithGroup => action matches DispatcherAction::WorkTogether {
            sleep_ms,
        } && 0 <= sleep_ms < rates.work.bound(),
        DispatcherPhase::Releasing => action is Release,
    }
}

/// The dispatcher after a run of events, taken in order.
pub open spec fn run(m: DispatcherModel, events: Seq<DispatcherEvent>) -> DispatcherModel
    decreases events.len(),
{
    if events.len() == 0 {
        m
    } else {
        next_model(run(m, events.drop_last()), events.last())
    }
}

/// How many groups a run of events has the dispatcher call to work.
pub open spec fn dispatches(m: DispatcherModel, events: Seq<DispatcherEvent>) -> nat
    decreases events.len(),
{
    if events.len() == 0 {
        0
    } else {
        dispatches(m, events.drop_last()) + if run(m, events).phase is Dispatching {
            1nat
        } else {
            0nat
        }
    }
}

/// How many groups a run of events has the dispatcher release.
pub open spec fn releases(m: DispatcherModel, events: Seq<DispatcherEvent>) -> nat
    decreases events.len(),
{
    if events.len() == 0 {
        0
    } else {
        releases(m, events.drop_last()) + if run(m, events).phase is Releasing {
            1nat
        } else {
            0nat
        }
    }
}

/// The dispatcher calls a group to work on the notice of a ready group, met
/// while it waits for one, and on nothing else; and each such notice has it
/// call that one group.
pub proof fn lemma_dispatch_needs_notice(m: DispatcherModel, event: DispatcherEvent)
    ensures
        next_phase(m, event) is Dispatching <==> m.phase is AwaitingGroup && is_group_notice(
            event,
        ),
{
}

/// The dispatcher comes to wait for a group only from the release of the
/// last one, once the store has taken it.
pub proof fn lemma_wait_follows_release(m: DispatcherModel, event: DispatcherEvent)
    requires
        !(m.phase is AwaitingGroup),
        next_phase(m, event) is AwaitingGroup,
    ensures
        m.phase is Releasing,
        event is Acknowledged,
{
}

/// At most one group is called and not yet released. From a dispatcher that
/// waits for a group, after any run of events: while it waits, or while its
/// release is with the store, every group it called has been released; while
/// a call is with the store or it works with the group, exactly one has not;
/// and once it has stopped, at most one has not.
pub proof fn lemma_one_group_at_a_time(m: DispatcherModel, events: Seq<DispatcherEvent>)
    requires
        m.phase is AwaitingGroup,
    ensures
        releases(m, events) <= dispatches(m, events) <= releases(m, events) + 1,
        run(m, events).phase is AwaitingGroup || run(m, events).phase is Releasing ==> dispatches(
            m,
            events,
        ) == releases(m, events),
        run(m, events).phase is Dispatching || run(m, events).phase is WorkingWithGroup
            ==> dispatches(m, events) == releases(m, events) + 1,
    decreases events.len(),
{
    if events.len() > 0 {
        lemma_one_group_at_a_time(m, events.drop_last());
    }
}

/// The one dispatcher.
pub struct DispatcherAgent {
    variant: Variant,
    phase: DispatcherPhase,
}

impl View for DispatcherAgent {
    type V = DispatcherModel;

    closed spec fn view(&self) -> DispatcherModel {
        DispatcherModel { variant: self.variant, phase: self.phase }
    }
}

impl DispatcherAgent {
    /// A dispatcher that waits for a group.
    pub fn new(variant: Variant) -> (agent: DispatcherAgent)
        ensures
            agent@ == (DispatcherModel { variant, phase: DispatcherPhase::AwaitingGroup }),
    {
        DispatcherAgent { variant, phase: DispatcherPhase::AwaitingGroup }
    }

    /// The pace of the dispatcher.
    pub fn variant(&self) -> (variant: Variant)
        ensures
            variant == self@.variant,
    {
        self.variant
    }

    /// The phase that the dispatcher is in.
    pub fn phase(&self) -> (phase: DispatcherPhase)
        ensures
            phase == self@.phase,
    {
        self.phase
    }

    /// The action that opens the dispatcher's first cycle: to wait for a
    /// group.
    pub fn start(&self) -> (action: DispatcherAction)
        ensures
            action is AwaitGroup,
    {
        DispatcherAction::AwaitGroup
    }

    fn stop(&mut self, reason: ErrorKind) -> (action: DispatcherAction)
        ensures
            final(self)@ == (DispatcherModel {
                phase: DispatcherPhase::Stopped(reason),
                ..old(self)@
            }),
            (action matches DispatcherAction::Stop { reason: given } && given == reason),
    {
        self.phase = DispatcherPhase::Stopped(reason);
        DispatcherAction::Stop { reason }
    }

    /// Takes one event and gives the next action. The dispatcher moves as
    /// `next_model` says: one notice of a ready group has it call that one
    /// group, and it waits for the next only after the release.
    pub fn step(&mut self, event: DispatcherEvent, rates: &RateState, rng: &mut StdRng) -> (action:
        DispatcherAction)
        ensures
            final(self)@ == next_model(old(self)@, event),
            action_fits(old(self)@, final(self)@, *rates, action),
            action is Dispatch <==> old(self)@.phase is AwaitingGroup && is_group_notice(event),
            action is AwaitGroup <==> old(self)@.phase is Releasing && event is Acknowledged,
    {
        match self.phase {
            DispatcherPhase::Stopped(reason) => DispatcherAction::Stop { reason },
            DispatcherPhase::AwaitingGroup => match event {
                DispatcherEvent::CallFailed => self.stop(ErrorKind::StoreCallFailed),
                DispatcherEvent::GroupReady(StoreValue::Text(name)) => {
                    match WorkerType::from(name.as_str()) {
                        Ok(kind) => {
                            let job = GroupJob { kind };
                            self.phase = DispatcherPhase::Dispatching(job);
                            DispatcherAction::Dispatch {
                                job,
                                work: name,
                                announcement: kind.announcement(),
                            }
                        },
                        Err(reason) => self.stop(reason),
                    }
                },
                DispatcherEvent::GroupReady(_) => DispatcherAction::KeepWaiting,
                _ => self.stop(ErrorKind::OutOfTurn),
            },
            DispatcherPhase::Dispatching(_) => match event {
                DispatcherEvent::CallFailed => self.stop(ErrorKind::StoreCallFailed),
                DispatcherEvent::Acknowledged => match self.variant {
                    Variant::Dynamic => {
                        self.phase = DispatcherPhase::WorkingWithGroup;
                        let sleep_ms: u64 = rates.work.draw_delay(rng);
                        DispatcherAction::WorkTogether { sleep_ms }
                    },
                    Variant::Simple => {
                        self.phase = DispatcherPhase::Releasing;
                        DispatcherAction::Release
                    },
                },
                _ => self.stop(ErrorKind::OutOfTurn),
            },
            DispatcherPhase::WorkingWithGroup => match event {
                DispatcherEvent::CallFailed => self.stop(ErrorKind::StoreCallFailed),
                DispatcherEvent::Elapsed => {
                    self.phase = DispatcherPhase::Releasing;
                    DispatcherAction::Release
                },
                _ => self.stop(ErrorKind::OutOfTurn),
            },
            DispatcherPhase::Releasing => match event {
                DispatcherEvent::CallFailed => self.stop(ErrorKind::StoreCallFailed),
                DispatcherEvent::Acknowledged => {
                    self.phase = DispatcherPhase::AwaitingGroup;
                    DispatcherAction::AwaitGroup
                },
                _ => self.stop(ErrorKind::OutOfTurn),
            },
        }
    }
}

/// The line that the dispatcher shows once the store has taken a call to
/// work.
pub fn separator() -> (line: &'static str)
    ensures
        line@ == "----------"@,
{
    "----------"
}

} // verus!

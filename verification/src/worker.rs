//! The worker's state machine: register, wait to be called, work, wait to be
//! released, go on vacation, and register again.
//!
//! The machine decides; a driver performs. Each step takes what happened
//! (an event) and gives what to do next (an action). Store calls and sleeps
//! are the driver's part.
use crate::chance::{random_tag, uniform_between};
use crate::kind::{hex_label, hex_text, WorkerType};
use crate::rate::RateState;
use crate::store::{same_text, ErrorKind, Operation, StoreValue};
use rand::rngs::StdRng;
use vstd::prelude::*;

verus! {

/// Lower end of a work delay where the pace is fixed, in milliseconds.
pub const FIXED_WORK_MIN_MS: u64 = 200;

/// Upper end (not reached) of a work delay where the pace is fixed.
pub const FIXED_WORK_MAX_MS: u64 = 1_500;

/// Lower end of a vacation delay where the pace is fixed.
pub const FIXED_VACATION_MIN_MS: u64 = 700;

/// Upper end (not reached) of a vacation delay where the pace is fixed.
pub const FIXED_VACATION_MAX_MS: u64 = 4_000;

/// How the agents pace themselves.
#[derive(Clone, Copy, Debug, PartialEq, Eq, Structural)]
pub enum Variant {
    /// Fixed delay ranges; a worker reports its work done and is not held
    /// until a release.
    Simple,
    /// Delays drawn below the shared bounds; a worker waits for its release.
    Dynamic,
}

/// Where a worker stands in its cycle.
#[derive(Clone, Copy, Debug, PartialEq, Eq, Structural)]
pub enum WorkerPhase {
    /// Its registration is with the store.
    Registering,
    /// It is idle, subscribed to its call to work.
    AwaitingCall,
    /// It works.
    Working,
    /// Its report that the work is done is with the store.
    ReportingDone,
    /// It is subscribed to its release.
    AwaitingRelease,
    /// It is on vacation.
    OnVacation,
    /// Its report that it is back is with the store.
    ReportingBack,
    /// It has stopped, for good.
    Stopped(ErrorKind),
}

/// What a driver tells a worker.
#[derive(Clone, Debug)]
pub enum WorkerEvent {
    /// The store answered the registration.
    Registered(StoreValue),
    /// A subscription keyed by `id` delivered `value`.
    Snapshot { id: String, value: StoreValue },
    /// The delay that the last action asked for is over.
    Elapsed,
    /// The store took the report that the last action asked for.
    Acknowledged,
    /// A call to the store failed, or a subscription ended.
    CallFailed,
}

/// What a worker asks of its driver.
#[derive(Clone, Debug)]
pub enum WorkerAction {
    /// Insert a ready worker of this kind, and come back with the answer.
    Register { worker_type: WorkerType },
    /// Subscribe to the call to work of this identifier, and hand on what it
    /// delivers.
    AwaitCall { id: String },
    /// Hand on what the open subscription delivers next.
    KeepWaiting,
    /// Close the subscription, show the line, sleep so many milliseconds.
    Work { description: String, sleep_ms: u64 },
    /// Report the work of this identifier done.
    ReportDone { id: String },
    /// Subscribe to the release of this identifier.
    AwaitRelease { id: String },
    /// Close any subscription and sleep so many milliseconds.
    Vacation { sleep_ms: u64 },
    /// Mark this identifier back from vacation.
    ReportBack { id: String },
    /// End the task.
    Stop { reason: ErrorKind },
}

impl WorkerAction {
    /// The store's function that the action calls, if it calls one.
    pub open spec fn operation_spec(self) -> Option<Operation> {
        match self {
            WorkerAction::Register { .. } => Some(Operation::InsertReadyWorker),
            WorkerAction::AwaitCall { .. } => Some(Operation::IsTimeToWork),
            WorkerAction::ReportDone { .. } => Some(Operation::WorkDone),
            WorkerAction::AwaitRelease { .. } => Some(Operation::IsTimeToVacation),
            WorkerAction::ReportBack { .. } => Some(Operation::MarkBackFromVacation),
            _ => None,
        }
    }

    /// The store's function that the action calls, if it calls one.
    pub fn operation(&self) -> (op: Option<Operation>)
        ensures
            op == self.operation_spec(),
    {
        match self {
            WorkerAction::Register { .. } => Some(Operation::InsertReadyWorker),
            WorkerAction::AwaitCall { .. } => Some(Operation::IsTimeToWork),
            WorkerAction::ReportDone { .. } => Some(Operation::WorkDone),
            WorkerAction::AwaitRelease { .. } => Some(Operation::IsTimeToVacation),
            WorkerAction::ReportBack { .. } => Some(Operation::MarkBackFromVacation),
            _ => None,
        }
    }
}

/// A worker as the contracts see it.
pub ghost struct WorkerModel {
    pub worker_type: WorkerType,
    pub variant: Variant,
    pub label: Seq<char>,
    pub phase: WorkerPhase,
    pub id: Seq<char>,
}

/// Whether an event is the signal `true` on the subscription of `own`.
pub open spec fn is_true_signal_for(event: WorkerEvent, own: Seq<char>) -> bool {
    match event {
        WorkerEvent::Snapshot { id, value: StoreValue::Boolean(signal) } => signal && id@ == own,
        _ => false,
    }
}

/// The phase after an event.
pub open spec fn next_phase(m: WorkerModel, event: WorkerEvent) -> WorkerPhase {
    match (m.phase, event) {
        (WorkerPhase::Stopped(reason), _) => WorkerPhase::Stopped(reason),
        (_, WorkerEvent::CallFailed) => WorkerPhase::Stopped(ErrorKind::StoreCallFailed),
        (WorkerPhase::Registering, WorkerEvent::Registered(StoreValue::Id(_))) => {
            WorkerPhase::AwaitingCall
        },
        (WorkerPhase::Registering, WorkerEvent::Registered(_)) => {
            WorkerPhase::Stopped(ErrorKind::UnexpectedResponseShape)
        },
        (WorkerPhase::AwaitingCall, WorkerEvent::Snapshot { .. }) => {
            if is_true_signal_for(event, m.id) {
                WorkerPhase::Working
            } else {
                WorkerPhase::AwaitingCall
            }
        },
        (WorkerPhase::Working, WorkerEvent::Elapsed) => {
            match m.variant {
                Variant::Dynamic => WorkerPhase::AwaitingRelease,
                Variant::Simple => WorkerPhase::ReportingDone,
            }
        },
        (WorkerPhase::ReportingDone, WorkerEvent::Acknowledged) => WorkerPhase::OnVacation,
        (WorkerPhase::AwaitingRelease, WorkerEvent::Snapshot { .. }) => {
            if is_true_signal_for(event, m.id) {
                WorkerPhase::OnVacation
            } else {
                WorkerPhase::AwaitingRelease
            }
        },
        (WorkerPhase::OnVacation, WorkerEvent::Elapsed) => {
            match m.variant {
                Variant::Dynamic => WorkerPhase::ReportingBack,
                Variant::Simple => WorkerPhase::Registering,
            }
        },
        (WorkerPhase::ReportingBack, WorkerEvent::Acknowledged) => WorkerPhase::Registering,
        _ => WorkerPhase::Stopped(ErrorKind::OutOfTurn),
    }
}

/// The identifier after an event: the one that a registration brought, and
/// else the one held before.
pub open spec fn next_id(m: WorkerModel, event: WorkerEvent) -> Seq<char> {
    match (m.phase, event) {
        (WorkerPhase::Registering, WorkerEvent::Registered(StoreValue::Id(id))) => id@,
        _ => m.id,
    }
}

/// The worker after an event.
pub open spec fn next_model(m: WorkerModel, event: WorkerEvent) -> WorkerModel {
    WorkerModel { phase: next_phase(m, event), id: next_id(m, event), ..m }
}

/// Whether a work delay fits the pace.
pub open spec fn work_delay_fits(variant: Variant, rates: RateState, ms: u64) -> bool {
    match variant {
        Variant::Dynamic => 0 <= ms < rates.work.bound(),
        Variant::Simple => FIXED_WORK_MIN_MS <= ms < FIXED_WORK_MAX_MS,
    }
}

/// Whether a vacation delay fits the pace.
pub open spec fn vacation_delay_fits(variant: Variant, rates: RateState, ms: u64) -> bool {
    match variant {
        Variant::Dynamic => 0 <= ms < rates.vacation.bound(),
        Variant::Simple => FIXED_VACATION_MIN_MS <= ms < FIXED_VACATION_MAX_MS,
    }
}

/// Whether an action is the one that a step from `before` to `after` asks
/// for. Every part of the action is fixed but the length of a delay, which
/// is drawn and only has to fit the pace.
pub open spec fn action_fits(
    before: WorkerModel,
    after: WorkerModel,
    rates: RateState,
    action: WorkerAction,
) -> bool {
    match after.phase {
        WorkerPhase::Stopped(why) => action matches WorkerAction::Stop { reason } && reason == why,
        WorkerPhase::Registering => action matches WorkerAction::Register { worker_type }
            && worker_type == after.worker_type,
        WorkerPhase::AwaitingCall => if before.phase is Registering {
            action matches WorkerAction::AwaitCall { id } && id@ == after.id
        } else {
            action is KeepWaiting
        },
        WorkerPhase::Working => action matches WorkerAction::Work { description, sleep_ms }
            && description@ == after.worker_type.work_text(after.label) && work_delay_fits(
            after.variant,
            rates,
            sleep_ms,
        ),
        WorkerPhase::ReportingDone => action matches WorkerAction::ReportDone { id } && id@
            == after.id,
        WorkerPhase::AwaitingRelease => if before.phase is Working {
            action matches WorkerAction::AwaitRelease { id } && id@ == after.id
        } else {
            action is KeepWaiting
        },
        WorkerPhase::OnVacation => action matches WorkerAction::Vacation { sleep_ms }
            && vacation_delay_fits(after.variant, rates, sleep_ms),
        WorkerPhase::ReportingBack => action matches WorkerAction::ReportBack { id } && id@
            == after.id,
    }
}

/// The worker after a run of events, taken in order.
pub open spec fn run(m: WorkerModel, events: Seq<WorkerEvent>) -> WorkerModel
    decreases events.len(),
{
    if events.len() == 0 {
        m
    } else {
        next_model(run(m, events.drop_last()), events.last())
    }
}

/// A worker is at work only through its own call: a step ends in `Working`
/// only from `AwaitingCall`, and only on the signal `true` for the
/// identifier that the worker holds.
pub proof fn lemma_work_needs_own_call(m: WorkerModel, event: WorkerEvent)
    ensures
        next_phase(m, event) is Working <==> m.phase is AwaitingCall && is_true_signal_for(
            event,
            m.id,
        ),
{
}

/// Whatever events come, a worker that is found at work was called just
/// before: the last event was the signal `true` for its own identifier, and
/// met it waiting for the call.
pub proof fn lemma_run_work_follows_call(m: WorkerModel, events: Seq<WorkerEvent>)
    requires
        events.len() > 0,
        run(m, events).phase is Working,
    ensures
        run(m, events.drop_last()).phase is AwaitingCall,
        is_true_signal_for(events.last(), run(m, events.drop_last()).id),
{
    lemma_work_needs_own_call(run(m, events.drop_last()), events.last());
}

/// A worker keeps its kind, its pace and its label through every run.
pub proof fn lemma_run_keeps_identity(m: WorkerModel, events: Seq<WorkerEvent>)
    ensures
        run(m, events).worker_type == m.worker_type,
        run(m, events).variant == m.variant,
        run(m, events).label == m.label,
    decreases events.len(),
{
    if events.len() > 0 {
        lemma_run_keeps_identity(m, events.drop_last());
    }
}

/// How many times a run of events has the worker register anew.
pub open spec fn registrations(m: WorkerModel, events: Seq<WorkerEvent>) -> nat
    decreases events.len(),
{
    if events.len() == 0 {
        0
    } else {
        registrations(m, events.drop_last()) + if run(m, events).phase is Registering {
            1nat
        } else {
            0nat
        }
    }
}

/// How many times a run of events has the worker report itself back from
/// vacation.
pub open spec fn reports_back(m: WorkerModel, events: Seq<WorkerEvent>) -> nat
    decreases events.len(),
{
    if events.len() == 0 {
        0
    } else {
        reports_back(m, events.drop_last()) + if run(m, events).phase is ReportingBack {
            1nat
        } else {
            0nat
        }
    }
}

/// A worker that waits for its release registers once for each time it
/// comes back. From such a worker about to register, after any run of
/// events: it has registered anew as often as it has reported back, but for
/// the one report that the store has yet to take.
pub proof fn lemma_one_registration_per_cycle(m: WorkerModel, events: Seq<WorkerEvent>)
    requires
        m.phase is Registering,
        m.variant is Dynamic,
    ensures
        registrations(m, events) <= reports_back(m, events) <= registrations(m, events) + 1,
        run(m, events).phase is ReportingBack ==> reports_back(m, events) == registrations(
            m,
            events,
        ) + 1,
        !(run(m, events).phase is ReportingBack) && !(run(m, events).phase is Stopped)
            ==> reports_back(m, events) == registrations(m, events),
    decreases events.len(),
{
    lemma_run_keeps_identity(m, events);
    if events.len() > 0 {
        lemma_one_registration_per_cycle(m, events.drop_last());
        lemma_run_keeps_identity(m, events.drop_last());
    }
}

/// One worker.
pub struct WorkerAgent {
    worker_type: WorkerType,
    variant: Variant,
    label: String,
    phase: WorkerPhase,
    id: String,
}

impl View for WorkerAgent {
    type V = WorkerModel;

    closed spec fn view(&self) -> WorkerModel {
        WorkerModel {
            worker_type: self.worker_type,
            variant: self.variant,
            label: self.label@,
            phase: self.phase,
            id: self.id@,
        }
    }
}

impl WorkerAgent {
    /// A worker about to register, whose label is the given tag in
    /// hexadecimal. It holds no identifier yet.
    pub fn with_tag(worker_type: WorkerType, variant: Variant, tag: u16) -> (agent: WorkerAgent)
        ensures
            agent@ == (WorkerModel {
                worker_type,
                variant,
                label: hex_text(tag as nat),
                phase: WorkerPhase::Registering,
                id: Seq::<char>::empty(),
            }),
    {
        WorkerAgent {
            worker_type,
            variant,
            label: hex_label(tag),
            phase: WorkerPhase::Registering,
            id: String::new(),
        }
    }

    /// A worker about to register, with a tag drawn at random.
    pub fn new(worker_type: WorkerType, variant: Variant, rng: &mut StdRng) -> (agent: WorkerAgent)
        ensures
            agent@.worker_type == worker_type,
            agent@.variant == variant,
            agent@.phase == WorkerPhase::Registering,
            agent@.id == Seq::<char>::empty(),
            exists|tag: u16| agent@.label == hex_text(tag as nat),
    {
        let tag: u16 = random_tag(rng);
        Self::with_tag(worker_type, variant, tag)
    }

    /// The kind of the worker.
    pub fn worker_type(&self) -> (kind: WorkerType)
        ensures
            kind == self@.worker_type,
    {
        self.worker_type
    }

    /// The pace of the worker.
    pub fn variant(&self) -> (variant: Variant)
        ensures
            variant == self@.variant,
    {
        self.variant
    }

    /// The phase that the worker is in.
    pub fn phase(&self) -> (phase: WorkerPhase)
        ensures
            phase == self@.phase,
    {
        self.phase
    }

    /// The label by which the worker's lines are told apart.
    pub fn label(&self) -> (label: &str)
        ensures
            label@ == self@.label,
    {
        self.label.as_str()
    }

    /// The identifier that the worker holds, empty before the first
    /// registration.
    pub fn id(&self) -> (id: &str)
        ensures
            id@ == self@.id,
    {
        self.id.as_str()
    }

    /// The action that opens the worker's first cycle: to register.
    pub fn start(&self) -> (action: WorkerAction)
        ensures
            (action matches WorkerAction::Register { worker_type } && worker_type
                == self@.worker_type),
    {
        WorkerAction::Register { worker_type: self.worker_type }
    }

    fn draw_work_delay(&self, rates: &RateState, rng: &mut StdRng) -> (ms: u64)
        ensures
            work_delay_fits(self@.variant, *rates, ms),
    {
        match self.variant {
            Variant::Dynamic => rates.work.draw_delay(rng),
            Variant::Simple => uniform_between(rng, FIXED_WORK_MIN_MS, FIXED_WORK_MAX_MS),
        }
    }

    fn draw_vacation_delay(&self, rates: &RateState, rng: &mut StdRng) -> (ms: u64)
        ensures
            vacation_delay_fits(self@.variant, *rates, ms),
    {
        match self.variant {
            Variant::Dynamic => rates.vacation.draw_delay(rng),
            Variant::Simple => uniform_between(rng, FIXED_VACATION_MIN_MS, FIXED_VACATION_MAX_MS),
        }
    }

    fn stop(&mut self, reason: ErrorKind) -> (action: WorkerAction)
        ensures
            final(self)@ == (WorkerModel { phase: WorkerPhase::Stopped(reason), ..old(self)@ }),
            (action matches WorkerAction::Stop { reason: given } && given == reason),
    {
        self.phase = WorkerPhase::Stopped(reason);
        WorkerAction::Stop { reason }
    }

    /// Takes one event and gives the next action. The worker moves as
    /// `next_model` says. It starts to work on nothing but the signal `true`
    /// for its own identifier, met while it waits for the call.
    pub fn step(&mut self, event: WorkerEvent, rates: &RateState, rng: &mut StdRng) -> (action:
        WorkerAction)
        ensures
            final(self)@ == next_model(old(self)@, event),
            action_fits(old(self)@, final(self)@, *rates, action),
            action is Work <==> old(self)@.phase is AwaitingCall && is_true_signal_for(
                event,
                old(self)@.id,
            ),
            final(self)@.phase is Working <==> action is Work,
    {
        match self.phase {
            WorkerPhase::Stopped(reason) => WorkerAction::Stop { reason },
            WorkerPhase::Registering => match event {
                WorkerEvent::CallFailed => self.stop(ErrorKind::StoreCallFailed),
                WorkerEvent::Registered(StoreValue::Id(id)) => {
                    self.id = id;
                    self.phase = WorkerPhase::AwaitingCall;
                    WorkerAction::AwaitCall { id: self.id.clone() }
                },
                WorkerEvent::Registered(_) => self.stop(ErrorKind::UnexpectedResponseShape),
                _ => self.stop(ErrorKind::OutOfTurn),
            },
            WorkerPhase::AwaitingCall => match event {
                WorkerEvent::CallFailed => self.stop(ErrorKind::StoreCallFailed),
                WorkerEvent::Snapshot { id, value } => {
                    if self.is_own_true_signal(&id, &value) {
                        self.phase = WorkerPhase::Working;
                        let sleep_ms: u64 = self.draw_work_delay(rates, rng);
                        let description = self.worker_type.describe_work(self.label.as_str());
                        WorkerAction::Work { description, sleep_ms }
                    } else {
                        WorkerAction::KeepWaiting
                    }
                },
                _ => self.stop(ErrorKind::OutOfTurn),
            },
            WorkerPhase::Working => match event {
                WorkerEvent::CallFailed => self.stop(ErrorKind::StoreCallFailed),
                WorkerEvent::Elapsed => match self.variant {
                    Variant::Dynamic => {
                        self.phase = WorkerPhase::AwaitingRelease;
                        WorkerAction::AwaitRelease { id: self.id.clone() }
                    },
                    Variant::Simple => {
                        self.phase = WorkerPhase::ReportingDone;
                        WorkerAction::ReportDone { id: self.id.clone() }
                    },
                },
                _ => self.stop(ErrorKind::OutOfTurn),
            },
            WorkerPhase::ReportingDone => match event {
                WorkerEvent::CallFailed => self.stop(ErrorKind::StoreCallFailed),
                WorkerEvent::Acknowledged => {
                    self.phase = WorkerPhase::OnVacation;
                    let sleep_ms: u64 = self.draw_vacation_delay(rates, rng);
                    WorkerAction::Vacation { sleep_ms }
                },
                _ => self.stop(ErrorKind::OutOfTurn),
            },
            WorkerPhase::AwaitingRelease => match event {
                WorkerEvent::CallFailed => self.stop(ErrorKind::StoreCallFailed),
                WorkerEvent::Snapshot { id, value } => {
                    if self.is_own_true_signal(&id, &value) {
                        self.phase = WorkerPhase::OnVacation;
                        let sleep_ms: u64 = self.draw_vacation_delay(rates, rng);
                        WorkerAction::Vacation { sleep_ms }
                    } else {
                        WorkerAction::KeepWaiting
                    }
                },
                _ => self.stop(ErrorKind::OutOfTurn),
            },
            WorkerPhase::OnVacation => match event {
                WorkerEvent::CallFailed => self.stop(ErrorKind::StoreCallFailed),
                WorkerEvent::Elapsed => match self.variant {
                    Variant::Dynamic => {
                        self.phase = WorkerPhase::ReportingBack;
                        WorkerAction::ReportBack { id: self.id.clone() }
                    },
                    Variant::Simple => {
                        self.phase = WorkerPhase::Registering;
                        WorkerAction::Register { worker_type: self.worker_type }
                    },
                },
                _ => self.stop(ErrorKind::OutOfTurn),
            },
            WorkerPhase::ReportingBack => match event {
                WorkerEvent::CallFailed => self.stop(ErrorKind::StoreCallFailed),
                WorkerEvent::Acknowledged => {
                    self.phase = WorkerPhase::Registering;
                    WorkerAction::Register { worker_type: self.worker_type }
                },
                _ => self.stop(ErrorKind::OutOfTurn),
            },
        }
    }

    fn is_own_true_signal(&self, id: &String, value: &StoreValue) -> (own: bool)
        ensures
            own == (*value matches StoreValue::Boolean(signal) && signal && id@ == self@.id),
    {
        match value {
            StoreValue::Boolean(signal) => *signal && same_text(id.as_str(), self.id.as_str()),
            _ => false,
        }
    }
}

} // verus!

//! The supervisor's plan: which tasks a configuration starts.
use crate::kind::WorkerType;
use crate::worker::Variant;
use vstd::prelude::*;

verus! {

/// How many reindeer run where the configuration names no number.
pub const DEFAULT_REINDEER: u8 = 9;

/// How many elves run where the configuration names no number.
pub const DEFAULT_ELVES: u8 = 10;

/// What the supervisor is configured with.
#[derive(Clone, Copy, Debug)]
pub struct Config {
    /// Clear the store's state and leave.
    pub reset: bool,
    /// Run without the dispatcher.
    pub no_santa: bool,
    /// The size of the pool of reindeer.
    pub reindeer: u8,
    /// The size of the pool of elves.
    pub elves: u8,
    /// The pace of every agent.
    pub variant: Variant,
}

/// One task for the supervisor to start.
#[derive(Clone, Copy, Debug, PartialEq, Eq, Structural)]
pub enum Task {
    Dispatcher,
    Worker(WorkerType),
}

/// What the supervisor does with a configuration.
#[derive(Clone, Debug)]
pub enum Plan {
    /// Clear the store's state, start nothing, and leave.
    ResetAndExit,
    /// Start these tasks, in this order, and then follow the speeds.
    Run { tasks: Vec<Task> },
}

/// The tasks of a configuration that asks for no reset: the dispatcher
/// first, unless it is switched off, then each reindeer, then each elf.
pub open spec fn tasks_of(config: Config) -> Seq<Task> {
    (if config.no_santa {
        Seq::<Task>::empty()
    } else {
        seq![Task::Dispatcher]
    }) + Seq::new(config.reindeer as nat, |i: int| Task::Worker(WorkerType::Reindeer)) + Seq::new(
        config.elves as nat,
        |i: int| Task::Worker(WorkerType::Elf),
    )
}

impl Config {
    /// The configuration that runs everything at its default size.
    pub fn new(variant: Variant) -> (config: Config)
        ensures
            config == (Config {
                reset: false,
                no_santa: false,
                reindeer: DEFAULT_REINDEER,
                elves: DEFAULT_ELVES,
                variant,
            }),
    {
        Config {
            reset: false,
            no_santa: false,
            reindeer: DEFAULT_REINDEER,
            elves: DEFAULT_ELVES,
            variant,
        }
    }

    /// Lays out what the supervisor does: a reset starts nothing; anything
    /// else starts exactly the tasks of the configuration.
    pub fn plan(&self) -> (plan: Plan)
        ensures
            self.reset ==> plan is ResetAndExit,
            !self.reset ==> (plan matches Plan::Run { tasks } && tasks@ == tasks_of(*self)),
    {
        if self.reset {
            return Plan::ResetAndExit;
        }
        let mut tasks: Vec<Task> = Vec::new();
        if !self.no_santa {
            tasks.push(Task::Dispatcher);
        }
        let ghost head = tasks@;
        let mut started: u8 = 0;
        while started < self.reindeer
            invariant
                started <= self.reindeer,
                tasks@ == head + Seq::new(
                    started as nat,
                    |i: int| Task::Worker(WorkerType::Reindeer),
                ),
            decreases self.reindeer - started,
        {
            tasks.push(Task::Worker(WorkerType::Reindeer));
            started = started + 1;
            assert(tasks@ =~= head + Seq::new(
                started as nat,
                |i: int| Task::Worker(WorkerType::Reindeer),
            ));
        }
        let ghost herd = tasks@;
        let mut started: u8 = 0;
        while started < self.elves
            invariant
                started <= self.elves,
                tasks@ == herd + Seq::new(started as nat, |i: int| Task::Worker(WorkerType::Elf)),
            decreases self.elves - started,
        {
            tasks.push(Task::Worker(WorkerType::Elf));
            started = started + 1;
            assert(tasks@ =~= herd + Seq::new(
                started as nat,
                |i: int| Task::Worker(WorkerType::Elf),
            ));
        }
        assert(tasks@ =~= tasks_of(*self));
        Plan::Run { tasks }
    }
}

} // verus!

//! Coordination of a dispatcher and two pools of workers through a shared
//! reactive store: the speed curve and the delay bounds drawn from it, the
//! worker's and the dispatcher's state machines, and the supervisor's plan.
pub mod chance;
pub mod curve;
pub mod dispatcher;
pub mod kind;
pub mod rate;
pub mod store;
pub mod supervisor;
pub mod worker;

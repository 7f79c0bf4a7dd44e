//! The decisions of one turn of the supervisor loop: keep the agent alive, wait for
//! orders from central, carry them out.

use vstd::prelude::*;
use crate::supervisor::control::Order;

verus! {

/// What one turn of the loop did.
#[derive(Debug, Clone, PartialEq, Eq)]
pub enum Step {
    /// Central's wait expired with nothing to do.
    Quiet,
    /// The agent had exited and was launched again.
    ChildRestarted,
    /// An order was carried out; `acked` is false when central was not told.
    OrderExecuted { request_id: String, acked: bool },
    /// Central could not be reached or refused us. The caller backs off.
    ControlFailed(String),
}

/// What woke the loop while the agent was running.
#[derive(Debug, PartialEq, Eq)]
pub enum Wake {
    ChildDied,
    Order(Result<Order, String>),
}

/// What the loop must do next.
#[derive(Debug, Clone, PartialEq, Eq)]
pub enum Plan {
    /// Relaunch the agent (after the restart delay) and report `ChildRestarted`.
    Relaunch,
    /// Kill and relaunch the agent at once, then acknowledge the order.
    ExecuteRestart { request_id: String },
    /// Report the step as it is.
    Report(Step),
}

/// A dead agent is relaunched before anything else; otherwise what woke the loop
/// decides.
pub fn plan_step(child_running: bool, wake: Option<Wake>) -> (r: Plan)
    requires
        child_running ==> wake is Some,
    ensures
        !child_running ==> r == Plan::Relaunch,
        child_running ==> match wake->0 {
            Wake::ChildDied => r == Plan::Relaunch,
            Wake::Order(Err(e)) => r == Plan::Report(Step::ControlFailed(e)),
            Wake::Order(Ok(Order::Idle)) => r == Plan::Report(Step::Quiet),
            Wake::Order(Ok(Order::Restart { request_id })) => r == Plan::ExecuteRestart { request_id },
        },
{
    if !child_running {
        return Plan::Relaunch;
    }
    match wake {
        Some(Wake::ChildDied) => Plan::Relaunch,
        Some(Wake::Order(Err(e))) => Plan::Report(Step::ControlFailed(e)),
        Some(Wake::Order(Ok(Order::Idle))) => Plan::Report(Step::Quiet),
        Some(Wake::Order(Ok(Order::Restart { request_id }))) => Plan::ExecuteRestart { request_id },
        None => Plan::Relaunch,
    }
}

/// The step reported after an order was carried out: acknowledged only when a control
/// channel exists and the acknowledgement succeeded.
pub fn order_executed(request_id: String, ack: Option<Result<(), String>>) -> (r: Step)
    ensures
        r == (Step::OrderExecuted { request_id, acked: ack is Some && ack->0 is Ok }),
{
    let acked = match ack {
        Some(Ok(())) => true,
        _ => false,
    };
    Step::OrderExecuted { request_id, acked }
}

} // verus!

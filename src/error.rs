use vstd::prelude::*;

verus! {

/// Failures reported to the callers of the goal coordinator.
#[derive(Clone, Debug, PartialEq, Eq)]
#[non_exhaustive]
pub enum Error {
    /// A cancel was requested while no accepted goal is in flight.
    NoValidGoalExists,
    /// The actuator did not become reachable within the connect timeout.
    ActuatorUnavailable,
    /// The actuator declined the goal.
    GoalRejected,
    /// An execute was requested while a goal session is still live.
    GoalInProgress,
    /// Any other failure, with its description.
    Other(String),
}

impl Error {
    /// The description of each failure.
    pub open spec fn spec_message(&self) -> Seq<char> {
        match self {
            Error::NoValidGoalExists => "rust_axum_ros2: No joint_state is available"@,
            Error::ActuatorUnavailable => "rust_axum_ros2: action server is not available"@,
            Error::GoalRejected => "rust_axum_ros2: goal rejected by action server"@,
            Error::GoalInProgress => "rust_axum_ros2: a goal is already in progress"@,
            Error::Other(s) => s@,
        }
    }

    /// A one-line description of the failure.
    pub fn message(&self) -> (r: String)
        ensures
            r@ == self.spec_message(),
    {
        match self {
            Error::NoValidGoalExists => String::from_str("rust_axum_ros2: No joint_state is available"),
            Error::ActuatorUnavailable => String::from_str("rust_axum_ros2: action server is not available"),
            Error::GoalRejected => String::from_str("rust_axum_ros2: goal rejected by action server"),
            Error::GoalInProgress => String::from_str("rust_axum_ros2: a goal is already in progress"),
            Error::Other(s) => s.clone(),
        }
    }
}

} // verus!

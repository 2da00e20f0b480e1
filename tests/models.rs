use rust_axum_ros2::error::Error;
use rust_axum_ros2::payload::goal_payload;
use rust_axum_ros2::session::GoalStatus;
use rust_axum_ros2::task::{CreateTask, Task};
use rust_axum_ros2::user::{CreateUser, User};

#[test]
fn task_new_and_message() {
    let t = Task::new(2222, "clean".to_string());
    assert_eq!(t.id(), 2222);
    assert_eq!(t.taskname(), "clean");
    assert_eq!(t.to_msg(), "clean".to_string());
    assert_eq!(t.clone(), t);
}

#[test]
fn user_new_and_message() {
    let u = User::new(1111, "alice".to_string());
    assert_eq!(u.id(), 1111);
    assert_eq!(u.username(), "alice");
    assert_eq!(u.to_msg(), "alice".to_string());
    assert_ne!(u, User::new(1112, "alice".to_string()));
}

#[test]
fn create_requests_hold_names() {
    let ct = CreateTask { taskname: "move".to_string() };
    let cu = CreateUser { username: "bob".to_string() };
    assert_eq!(Task::new(1, ct.taskname.clone()).to_msg(), "move");
    assert_eq!(User::new(1, cu.username.clone()).to_msg(), "bob");
}

#[test]
fn payload_is_fixed_but_for_stamp() {
    let g = goal_payload(42, 500);
    assert_eq!(g.frame_id, "");
    assert_eq!(g.stamp_sec, 42);
    assert_eq!(g.stamp_nanosec, 500);
    assert_eq!(g.joint_names, vec!["joint1".to_string(), "joint2".to_string()]);
    assert_eq!(g.point_count, 0);
}

#[test]
fn payload_stamp_seconds_cut_to_32_bits() {
    let g = goal_payload((1u64 << 32) + 5, 0);
    assert_eq!(g.stamp_sec, 5);
}

#[test]
fn error_messages() {
    assert_eq!(
        Error::NoValidGoalExists.message(),
        "rust_axum_ros2: No joint_state is available"
    );
    assert_eq!(Error::Other("boom".to_string()).message(), "boom");
    assert_ne!(Error::GoalRejected.message(), Error::ActuatorUnavailable.message());
}

#[test]
fn terminal_statuses() {
    assert!(!GoalStatus::Pending.is_terminal());
    assert!(!GoalStatus::Accepted.is_terminal());
    assert!(!GoalStatus::Active.is_terminal());
    assert!(GoalStatus::Succeeded.is_terminal());
    assert!(GoalStatus::Failed.is_terminal());
    assert!(GoalStatus::Rejected.is_terminal());
    assert!(GoalStatus::Canceled.is_terminal());
    assert!(GoalStatus::TimedOut.is_terminal());
}

#[test]
fn error_messages_of_each_failure() {
    assert_eq!(
        Error::ActuatorUnavailable.message(),
        "rust_axum_ros2: action server is not available"
    );
    assert_eq!(Error::GoalRejected.message(), "rust_axum_ros2: goal rejected by action server");
    assert_eq!(Error::GoalInProgress.message(), "rust_axum_ros2: a goal is already in progress");
}

use vstd::prelude::*;

verus! {

/// The names of the two axes every goal moves.
pub open spec fn spec_joint_names() -> Seq<Seq<char>> {
    seq![seq!['j', 'o', 'i', 'n', 't', '1'], seq!['j', 'o', 'i', 'n', 't', '2']]
}

/// The goal submitted to the actuator: a trajectory header (frame and
/// stamp), the axes it names, and no points.
pub struct GoalPayload {
    pub frame_id: String,
    pub stamp_sec: i32,
    pub stamp_nanosec: u32,
    pub joint_names: Vec<String>,
    pub point_count: usize,
}

/// The goal for a submission at middleware time `secs` seconds and
/// `subsec_nanos` nanoseconds: an empty frame, that stamp (seconds cut to
/// 32 bits), the two fixed axes, and no points.
pub fn goal_payload(secs: u64, subsec_nanos: u32) -> (g: GoalPayload)
    ensures
        g.frame_id@ == Seq::<char>::empty(),
        g.stamp_sec == #[verifier::truncate] (secs as i32),
        g.stamp_nanosec == subsec_nanos,
        g.joint_names@.map_values(|n: String| n@) == spec_joint_names(),
        g.point_count == 0,
{
    let mut joint_names: Vec<String> = Vec::new();
    let j1 = String::from_str("joint1");
    let j2 = String::from_str("joint2");
    proof {
        reveal_strlit("joint1");
        reveal_strlit("joint2");
    }
    joint_names.push(j1);
    joint_names.push(j2);
    proof {
        assert(joint_names@[0]@ == spec_joint_names()[0]);
        assert(joint_names@[1]@ == spec_joint_names()[1]);
        assert(joint_names@.map_values(|n: String| n@) =~= spec_joint_names());
    }
    let frame_id = String::new();
    GoalPayload {
        frame_id,
        stamp_sec: #[verifier::truncate] (secs as i32),
        stamp_nanosec: subsec_nanos,
        joint_names,
        point_count: 0,
    }
}

} // verus!

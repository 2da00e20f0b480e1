use vstd::prelude::*;

verus! {

/// The body of a request that creates a task.
#[derive(Clone, Debug)]
pub struct CreateTask {
    pub taskname: String,
}

/// A task known to the gateway: a numeric identifier and a name.
#[derive(Clone, Debug, PartialEq, Eq, Hash)]
pub struct Task {
    id: u64,
    taskname: String,
}

impl Task {
    pub closed spec fn spec_id(&self) -> u64 {
        self.id
    }

    pub closed spec fn spec_taskname(&self) -> Seq<char> {
        self.taskname@
    }

    pub fn new(id: u64, taskname: String) -> (r: Task)
        ensures
            r.spec_id() == id,
            r.spec_taskname() == taskname@,
    {
        Task { id, taskname }
    }

    pub fn id(&self) -> (r: u64)
        ensures
            r == self.spec_id(),
    {
        self.id
    }

    pub fn taskname(&self) -> (r: &str)
        ensures
            r@ == self.spec_taskname(),
    {
        self.taskname.as_str()
    }

    /// The data of the message sent on the "task" topic: the name.
    pub fn to_msg(&self) -> (r: String)
        ensures
            r@ == self.spec_taskname(),
    {
        self.taskname.clone()
    }
}

} // verus!

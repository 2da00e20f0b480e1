use vstd::prelude::*;

verus! {

/// The body of a request that creates a user.
#[derive(Clone, Debug)]
pub struct CreateUser {
    pub username: String,
}

/// A user known to the gateway: a numeric identifier and a name.
#[derive(Clone, Debug, PartialEq, Eq, Hash)]
pub struct User {
    id: u64,
    username: String,
}

impl User {
    pub closed spec fn spec_id(&self) -> u64 {
        self.id
    }

    pub closed spec fn spec_username(&self) -> Seq<char> {
        self.username@
    }

    pub fn new(id: u64, username: String) -> (r: User)
        ensures
            r.spec_id() == id,
            r.spec_username() == username@,
    {
        User { id, username }
    }

    pub fn id(&self) -> (r: u64)
        ensures
            r == self.spec_id(),
    {
        self.id
    }

    pub fn username(&self) -> (r: &str)
        ensures
            r@ == self.spec_username(),
    {
        self.username.as_str()
    }

    /// The data of the message sent on the "user" topic: the name.
    pub fn to_msg(&self) -> (r: String)
        ensures
            r@ == self.spec_username(),
    {
        self.username.clone()
    }
}

} // verus!

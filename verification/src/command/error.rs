use vstd::prelude::*;

verus! {

/// The error that a command reports to the user interface: a message.
#[derive(Clone, Debug)]
pub struct Error {
    pub msg: String,
}

impl Error {
    /// A failed result carrying `msg`.
    pub fn init_rs<T>(msg: String) -> (r: Result<T, Self>)
        ensures
            r matches Err(e) && e.msg == msg,
    {
        Err(Error { msg })
    }

    /// An error carrying `msg`.
    pub fn init(msg: String) -> (r: Self)
        ensures
            r.msg == msg,
    {
        Error { msg }
    }
}

impl From<String> for Error {
    fn from(msg: String) -> (r: Self) {
        Self { msg }
    }
}

impl vstd::std_specs::convert::FromSpecImpl<String> for Error {
    open spec fn obeys_from_spec() -> bool {
        true
    }

    open spec fn from_spec(msg: String) -> Self {
        Error { msg }
    }
}

} // verus!

//! The one kind of error that operations give: a message for the requester.

use vstd::prelude::*;

verus! {

#[derive(Debug)]
pub struct Failure {
    pub message: String,
}

impl View for Failure {
    type V = Seq<char>;

    open spec fn view(&self) -> Seq<char> {
        self.message@
    }
}

impl Failure {
    pub fn new(message: String) -> (r: Failure)
        ensures
            r@ == message@,
    {
        Failure { message }
    }

    pub fn to_string(&self) -> (r: String)
        ensures
            r@ == self@,
    {
        self.message.clone()
    }
}

/// What an operation gave: the model of its result, or the message.
pub open spec fn seen<T: View>(r: Result<T, Failure>) -> Result<T::V, Seq<char>> {
    match r {
        Ok(t) => Ok(t@),
        Err(e) => Err(e@),
    }
}

} // verus!

//! The response that a handler hands back: a status code and a text body.

use vstd::prelude::*;

verus! {

pub struct Reply {
    pub status: u16,
    pub body: String,
}

impl Reply {
    pub open spec fn is(&self, status: u16, body: Seq<char>) -> bool {
        self.status == status && self.body@ == body
    }

    pub fn new(status: u16, body: &str) -> (r: Reply)
        ensures
            r.is(status, body@),
    {
        Reply { status, body: String::from_str(body) }
    }

    pub fn status(&self) -> (r: u16)
        ensures
            r == self.status,
    {
        self.status
    }

    pub fn body(&self) -> (r: &str)
        ensures
            r@ == self.body@,
    {
        self.body.as_str()
    }
}

} // verus!

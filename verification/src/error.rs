use vstd::prelude::*;

verus! {

/// An error of the BlueZ side: a message for the log.
#[derive(Debug)]
pub struct BlueZError {
    message: String,
}

impl View for BlueZError {
    type V = Seq<char>;

    closed spec fn view(&self) -> Seq<char> {
        self.message@
    }
}

impl BlueZError {
    pub fn new(message: String) -> (r: BlueZError)
        ensures
            r@ == message@,
    {
        BlueZError { message }
    }

    /// The message, as it was given to `new`.
    pub fn description(&self) -> (r: &str)
        ensures
            r@ == self@,
    {
        self.message.as_str()
    }

    /// The message as an owned string.
    pub fn to_string(&self) -> (r: String)
        ensures
            r@ == self@,
    {
        self.message.clone()
    }
}

} // verus!

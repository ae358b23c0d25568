use vstd::prelude::*;

verus! {

/// Error raised when bundling one target fails; carries a human-readable
/// message. Its view is the message's character sequence.
pub struct BundleError {
    msg: String,
}

impl View for BundleError {
    type V = Seq<char>;

    closed spec fn view(&self) -> Seq<char> {
        self.msg@
    }
}

impl BundleError {
    /// Builds an error carrying the given message.
    pub fn new(msg: &str) -> (e: BundleError)
        ensures
            e@ == msg@,
    {
        BundleError { msg: msg.to_owned() }
    }

    /// The message this error carries.
    pub fn message(&self) -> (m: &str)
        ensures
            m@ == self@,
    {
        self.msg.as_str()
    }
}

} // verus!

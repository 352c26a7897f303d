//! Translation of the synthesizer's return codes into typed results.
use vstd::prelude::*;

verus! {

/// A failure reported by the synthesizer.
#[derive(Debug)]
pub enum Error {
    /// The synthesizer's own error text at the moment of the failure.
    Fluid(String),
}

/// Outcome of a call whose code carries no value.
pub type Status = core::result::Result<(), Error>;

/// The failure that carries exactly `text`.
pub open spec fn is_failure_with<T>(r: core::result::Result<T, Error>, text: Seq<char>) -> bool {
    match r {
        Err(Error::Fluid(s)) => s@ == text,
        Ok(_) => false,
    }
}

/// A synthesizer instance, as far as its error reporting goes: one slot that
/// holds the text of the last error.
pub struct Synth {
    last_error: String,
}

impl Synth {
    /// The text in the synthesizer's last-error slot.
    pub closed spec fn last_error(&self) -> Seq<char> {
        self.last_error@
    }

    /// A synthesizer whose last-error slot is empty.
    pub fn new() -> (r: Synth)
        ensures
            r.last_error() == Seq::<char>::empty(),
    {
        Synth { last_error: String::new() }
    }

    /// Records `text` in the last-error slot, as the synthesizer does when a call fails.
    pub fn set_last_error(&mut self, text: String)
        ensures
            final(self).last_error() == text@,
    {
        self.last_error = text;
    }

    /// Get a textual representation of the last error
    pub fn error(&self) -> (r: String)
        ensures
            r@ == self.last_error(),
    {
        self.last_error.clone()
    }

    /// A negative code is a failure carrying the current error text; any other
    /// code is passed through as success.
    pub fn neg_err(&self, ret: i32) -> (r: core::result::Result<i32, Error>)
        ensures
            ret < 0 ==> is_failure_with(r, self.last_error()),
            ret >= 0 ==> r == Ok::<i32, Error>(ret),
    {
        if ret < 0 {
            Err(Error::Fluid(self.error()))
        } else {
            Ok(ret)
        }
    }

    /// Code zero is success; any other code is a failure carrying the current error text.
    pub fn zero_ok(&self, ret: i32) -> (r: Status)
        ensures
            ret == 0 ==> r is Ok,
            ret != 0 ==> is_failure_with(r, self.last_error()),
    {
        if ret == 0 {
            Ok(())
        } else {
            Err(Error::Fluid(self.error()))
        }
    }
}

} // verus!

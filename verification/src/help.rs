//! The transient status message: a text with the time it was set,
//! treated as absent once its age exceeds a fixed display timeout, with
//! no explicit clearing step.
use vstd::prelude::*;

verus! {

/// How long a status message stays readable, in seconds.
pub const MESSAGE_TIMEOUT_SECS: u64 = 300;

/// A status message and the second it was set at.
pub struct Help {
    pub message: Vec<char>,
    pub set_time: u64,
}

impl Help {
    /// The message shown at time `now`: the stored text while its age
    /// is within the timeout, nothing afterwards.
    pub open spec fn shown_spec(self, now: u64) -> Option<Seq<char>> {
        if self.set_time <= now && now - self.set_time <= MESSAGE_TIMEOUT_SECS {
            Some(self.message@)
        } else {
            None
        }
    }

    pub fn new(message: Vec<char>, now: u64) -> (r: Help)
        ensures
            r.message@ == message@,
            r.set_time == now,
    {
        Help { message, set_time: now }
    }

    /// Replace the message and restart its timeout.
    pub fn set_message(&mut self, message: Vec<char>, now: u64)
        ensures
            final(self).message@ == message@,
            final(self).set_time == now,
    {
        self.message = message;
        self.set_time = now;
    }

    /// The message currently readable, if it has not expired.
    pub fn shown(&self, now: u64) -> (r: Option<&Vec<char>>)
        ensures
            match r {
                Some(v) => self.shown_spec(now) == Some(v@),
                None => self.shown_spec(now) is None,
            },
    {
        if self.set_time <= now && now - self.set_time <= MESSAGE_TIMEOUT_SECS {
            Some(&self.message)
        } else {
            None
        }
    }
}

} // verus!

//! Reachability status and the fixed transition messages.

use vstd::prelude::*;
use vstd::slice::slice_to_vec;
use vstd::string::StringSliceAdditionalSpecFns;

verus! {

/// Reachability of the probed target. Any successful probe maps to `Up`,
/// any probe error (timeout, unreachable, permission failure) maps to
/// `Down`; there is no intermediate state.
#[derive(Clone, Copy, Debug, PartialEq, Eq, Structural)]
pub enum Status {
    Up,
    Down,
}

impl Status {
    /// Interprets one probe outcome: success means the target is up.
    pub fn from_success(success: bool) -> (s: Status)
        ensures
            s == (if success {
                Status::Up
            } else {
                Status::Down
            }),
    {
        if success {
            Status::Up
        } else {
            Status::Down
        }
    }
}

/// The messages a status transition can produce.
#[derive(Clone, Copy, Debug, PartialEq, Eq, Structural)]
pub enum Message {
    /// The target was up and still is.
    StillHealthy,
    /// The target was up and is now down.
    Failure,
    /// The target was down and is now up.
    Recovered,
}

/// The fixed text of a message's log line, newline included.
pub open spec fn line_text(m: Message) -> Seq<char> {
    match m {
        Message::StillHealthy => "Ping still succeeding\n"@,
        Message::Failure => "Ping started failing\n"@,
        Message::Recovered => "Ping started succeeding again\n"@,
    }
}

/// The bytes of a message's log line, newline included.
pub open spec fn line_of(m: Message) -> Seq<u8> {
    vstd::utf8::encode_utf8(line_text(m))
}

/// The concatenated lines of a sequence of messages, in order.
pub open spec fn lines_of(msgs: Seq<Message>) -> Seq<u8>
    decreases msgs.len(),
{
    if msgs.len() == 0 {
        Seq::empty()
    } else {
        line_of(msgs[0]) + lines_of(msgs.drop_first())
    }
}

impl Message {
    /// The message's log line as text.
    pub fn text(&self) -> (r: &'static str)
        ensures
            r@ == line_text(*self),
    {
        match self {
            Message::StillHealthy => "Ping still succeeding\n",
            Message::Failure => "Ping started failing\n",
            Message::Recovered => "Ping started succeeding again\n",
        }
    }

    /// The message's log line as bytes, ready for the log buffer.
    pub fn line(&self) -> (r: Vec<u8>)
        ensures
            r@ == line_of(*self),
    {
        let t = self.text();
        slice_to_vec(t.as_bytes())
    }
}

} // verus!

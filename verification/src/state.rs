//! External events funneled into the scheduler.
//!
//! Producers on other threads (button polling, status reporters) send
//! these values over a channel; the scheduler consumes at most one per
//! tick.

use vstd::prelude::*;
use vstd::string::StringExecFns;

verus! {

/// A button gesture.
#[derive(Clone, Debug)]
pub enum Btn {
    Left,
    Right,
    Confirm,
    Exit,
    Boot,
}

/// A status message from the network side.
#[derive(Clone, Debug)]
pub enum Http {
    Request(String),
}

/// One external event: a button gesture, a network status, or a plain
/// informational message.
#[derive(Clone, Debug)]
pub enum State {
    Btn(Btn),
    Http(Http),
    Msg(String),
}

/// The one-line rendering of an event for the debug overlay: the
/// variant's name with its payload in parentheses, a carried message
/// quoted as it stands.
pub open spec fn spec_state_label(s: State) -> Seq<char> {
    match s {
        State::Btn(Btn::Left) => "Btn(Left)"@,
        State::Btn(Btn::Right) => "Btn(Right)"@,
        State::Btn(Btn::Confirm) => "Btn(Confirm)"@,
        State::Btn(Btn::Exit) => "Btn(Exit)"@,
        State::Btn(Btn::Boot) => "Btn(Boot)"@,
        State::Http(Http::Request(m)) => "Http(Request(\""@ + m@ + "\"))"@,
        State::Msg(m) => "Msg(\""@ + m@ + "\")"@,
    }
}

impl State {
    /// Render the event for the debug overlay.
    pub fn text(&self) -> (r: String)
        ensures
            r@ == spec_state_label(*self),
    {
        match self {
            State::Btn(Btn::Left) => String::from_str("Btn(Left)"),
            State::Btn(Btn::Right) => String::from_str("Btn(Right)"),
            State::Btn(Btn::Confirm) => String::from_str("Btn(Confirm)"),
            State::Btn(Btn::Exit) => String::from_str("Btn(Exit)"),
            State::Btn(Btn::Boot) => String::from_str("Btn(Boot)"),
            State::Http(Http::Request(m)) => {
                let mut r = String::from_str("Http(Request(\"");
                r.append(m.as_str());
                r.append("\"))");
                proof {
                    assert(r@ =~= spec_state_label(*self));
                }
                r
            },
            State::Msg(m) => {
                let mut r = String::from_str("Msg(\"");
                r.append(m.as_str());
                r.append("\")");
                proof {
                    assert(r@ =~= spec_state_label(*self));
                }
                r
            },
        }
    }
}

} // verus!

//! Events pushed to the presentation layer.
use vstd::prelude::*;

verus! {

/// Where an event goes.
#[derive(Clone, Copy, Debug, PartialEq, Eq, Structural)]
pub enum Channel {
    /// Process output, the help message, and error descriptions.
    TerminalOutput,
    /// The new working directory after a successful `cd`.
    PathUpdate,
}

impl Channel {
    pub open spec fn spec_name(self) -> Seq<char> {
        match self {
            Channel::TerminalOutput => "terminal-output"@,
            Channel::PathUpdate => "path-update"@,
        }
    }

    /// The name under which the presentation layer listens on this channel.
    pub fn name(&self) -> (r: String)
        ensures
            r@ == self.spec_name(),
    {
        match self {
            Channel::TerminalOutput => String::from_str("terminal-output"),
            Channel::PathUpdate => String::from_str("path-update"),
        }
    }
}

/// One unit of information for the presentation layer.
#[derive(Clone, Debug, PartialEq, Eq)]
pub struct Event {
    pub channel: Channel,
    pub payload: String,
}

pub struct EventView {
    pub channel: Channel,
    pub payload: Seq<char>,
}

impl View for Event {
    type V = EventView;

    open spec fn view(&self) -> EventView {
        EventView { channel: self.channel, payload: self.payload@ }
    }
}

/// An event on the output channel.
pub open spec fn output(payload: Seq<char>) -> EventView {
    EventView { channel: Channel::TerminalOutput, payload }
}

/// An event announcing a new working directory.
pub open spec fn path_update(path: Seq<char>) -> EventView {
    EventView { channel: Channel::PathUpdate, payload: path }
}

impl Event {
    pub fn output(payload: String) -> (r: Event)
        ensures
            r@ == output(payload@),
    {
        Event { channel: Channel::TerminalOutput, payload }
    }

    pub fn path_update(path: String) -> (r: Event)
        ensures
            r@ == path_update(path@),
    {
        Event { channel: Channel::PathUpdate, payload: path }
    }
}

} // verus!

//! Connection state machine: the single source of truth for the connection
//! state, with a record of every notification fired to observers.

use vstd::prelude::*;

verus! {

/// The connection state.
#[derive(Clone, Copy, Debug, PartialEq, Eq, Structural)]
pub enum State {
    Connecting,
    Connected,
    Disconnected,
}

/// Holds the current state; every transition appends the new value to
/// `notified`, standing for the synchronous observer invocations.
pub struct StateManager {
    state: State,
    notified: Vec<State>,
}

impl StateManager {
    /// A fresh manager starts out disconnected, with nothing notified yet.
    pub fn new() -> (r: StateManager)
        ensures
            r.state() == State::Disconnected,
            r.notified() =~= Seq::<State>::empty(),
    {
        StateManager { state: State::Disconnected, notified: Vec::new() }
    }

    /// The current state, read without blocking.
    pub closed spec fn state(&self) -> State {
        self.state
    }

    /// The states delivered to observers so far, in order.
    pub closed spec fn notified(&self) -> Seq<State> {
        self.notified@
    }

    pub fn get_state(&self) -> (r: State)
        ensures
            r == self.state(),
    {
        self.state
    }

    pub fn set_connecting(&mut self)
        ensures
            final(self).state() == State::Connecting,
            final(self).notified() == old(self).notified().push(State::Connecting),
    {
        self.state = State::Connecting;
        self.notified.push(State::Connecting);
    }

    pub fn set_disconnected(&mut self)
        ensures
            final(self).state() == State::Disconnected,
            final(self).notified() == old(self).notified().push(State::Disconnected),
    {
        self.state = State::Disconnected;
        self.notified.push(State::Disconnected);
    }

    pub fn set_connected(&mut self)
        ensures
            final(self).state() == State::Connected,
            final(self).notified() == old(self).notified().push(State::Connected),
    {
        self.state = State::Connected;
        self.notified.push(State::Connected);
    }
}

/// Numeric code of a state, as handed across a plain-integer boundary:
/// disconnected 0, connecting 1, connected 2.
pub fn state_code(s: State) -> (r: i32)
    ensures
        r == match s {
            State::Disconnected => 0int,
            State::Connecting => 1int,
            State::Connected => 2int,
        },
{
    match s {
        State::Disconnected => 0,
        State::Connecting => 1,
        State::Connected => 2,
    }
}

} // verus!

//! When the event loop waits and which repository changes it lets through.
//!
//! Events come from the keyboard and the mouse, and from a watcher of the
//! repository's operation heads; changes to the repository come in bursts,
//! so those that follow an event too closely are dropped.
use vstd::prelude::*;

verus! {

/// How long to wait for an event after a wait that found none, in
/// milliseconds.
pub const IDLE_TIMEOUT_MS: u64 = 1000;

/// How long after an event a repository change is dropped, in nanoseconds.
pub const NOTIFY_DEBOUNCE_NANOS: u128 = 250_000_000;

/// What arrived from the event sources.
#[derive(Clone, Copy, Debug, PartialEq, Eq, Structural)]
pub enum Arrival {
    /// Input from the keyboard or the mouse.
    Input,
    /// The repository changed.
    RepoChanged,
}

/// What the event loop remembers between waits: whether the last wait
/// found no event.
#[derive(Clone, Copy, Debug, PartialEq, Eq, Structural)]
pub struct WaitState {
    pub was_idle: bool,
}

impl WaitState {
    /// The state before the first wait.
    pub fn new() -> (r: WaitState)
        ensures
            !r.was_idle,
    {
        WaitState { was_idle: false }
    }

    /// How long to wait for an event, in milliseconds: long after an idle
    /// wait, not at all otherwise.
    pub fn timeout_ms(&self) -> (r: u64)
        ensures
            r == (if self.was_idle { IDLE_TIMEOUT_MS } else { 0 }),
    {
        if self.was_idle { IDLE_TIMEOUT_MS } else { 0 }
    }

    /// Whether an arrival is passed on, `elapsed_nanos` after the last event
    /// passed on: a repository change that comes too soon is dropped.
    pub fn keeps(&self, arrival: Arrival, elapsed_nanos: u128) -> (r: bool)
        ensures
            r == !(arrival == Arrival::RepoChanged && elapsed_nanos < NOTIFY_DEBOUNCE_NANOS),
    {
        !(arrival == Arrival::RepoChanged && elapsed_nanos < NOTIFY_DEBOUNCE_NANOS)
    }

    /// Records how a wait ended: with an event passed on, or with none.
    pub fn finish(&mut self, got_event: bool)
        ensures
            final(self).was_idle == !got_event,
    {
        self.was_idle = !got_event;
    }
}

/// Whether the value of a switch in the environment turns it on: `1`, or
/// `true` in any case.
pub open spec fn switch_on(value: Seq<char>) -> bool {
    value == seq!['1'] || (value.len() == 4 && (value[0] == 't' || value[0] == 'T') && (value[1]
        == 'r' || value[1] == 'R') && (value[2] == 'u' || value[2] == 'U') && (value[3] == 'e'
        || value[3] == 'E'))
}

/// Whether a switch set in the environment to `value` is on; an unset
/// switch is off.
pub fn switch_enabled(value: Option<&str>) -> (r: bool)
    ensures
        r == match value {
            Some(v) => switch_on(v@),
            None => false,
        },
{
    match value {
        Some(v) => {
            let cs = crate::strings::chars_of(v);
            let one = cs.len() == 1 && cs[0] == '1';
            if one {
                assert(cs@ =~= seq!['1']);
            }
            one || (cs.len() == 4 && (cs[0] == 't' || cs[0] == 'T') && (cs[1] == 'r' || cs[1] == 'R')
                && (cs[2] == 'u' || cs[2] == 'U') && (cs[3] == 'e' || cs[3] == 'E'))
        },
        None => false,
    }
}

} // verus!

use vstd::prelude::*;

verus! {

/// The one record that the contract keeps: how many reply callbacks arrived
/// since the last issue.
#[derive(Clone, Copy, Debug, PartialEq, Eq, Structural)]
pub struct State {
    pub count: i32,
}

/// The state that an issue writes: a counter at zero.
pub open spec fn fresh_state() -> State {
    State { count: 0 }
}

/// The stored state after an issue of `amount`: a zero amount is refused and
/// changes nothing; any other writes a fresh state over what was there.
pub open spec fn issue_next(s: Option<State>, amount: u128) -> Option<State> {
    if amount == 0 {
        s
    } else {
        Some(fresh_state())
    }
}

/// The stored state after one reply callback: the counter goes up by one. With
/// nothing stored, the callback fails and nothing is written.
pub open spec fn reply_next(s: Option<State>) -> Option<State> {
    match s {
        Some(st) => Some(State { count: (st.count + 1) as i32 }),
        None => None,
    }
}

/// Whether one more reply callback can be counted without leaving `i32`.
pub open spec fn can_count_reply(s: Option<State>) -> bool {
    match s {
        Some(st) => st.count < i32::MAX,
        None => true,
    }
}

/// The stored state after `n` reply callbacks.
pub open spec fn after_replies(s: Option<State>, n: nat) -> Option<State>
    decreases n,
{
    if n == 0 {
        s
    } else {
        reply_next(after_replies(s, (n - 1) as nat))
    }
}

impl State {
    pub fn new() -> (r: State)
        ensures
            r == fresh_state(),
    {
        State { count: 0 }
    }
}

} // verus!

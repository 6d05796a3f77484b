use vstd::prelude::*;

use crate::contract::is_count_answer;
use crate::msg::CountResponse;
use crate::state::{after_replies, can_count_reply, issue_next, reply_next, State};

verus! {

/// After an issue of a non-zero amount, `n` reply callbacks leave the counter
/// at `n`, with no bound below `i32::MAX`; each of those callbacks may be made.
pub proof fn lemma_replies_count(s: Option<State>, amount: u128, n: nat)
    requires
        amount != 0,
        n <= i32::MAX,
    ensures
        after_replies(issue_next(s, amount), n) == Some(State { count: n as i32 }),
        forall|k: nat| k < n ==> #[trigger] can_count_reply(after_replies(issue_next(s, amount), k)),
    decreases n,
{
    if n > 0 {
        lemma_replies_count(s, amount, (n - 1) as nat);
        assert(can_count_reply(after_replies(issue_next(s, amount), (n - 1) as nat)));
    }
}

/// An issue of a non-zero amount followed by two reply callbacks makes the
/// count query answer 2, whatever was stored before.
pub proof fn lemma_issue_then_two_replies(s: Option<State>, amount: u128)
    requires
        amount != 0,
    ensures
        can_count_reply(issue_next(s, amount)),
        can_count_reply(reply_next(issue_next(s, amount))),
        is_count_answer(
            reply_next(reply_next(issue_next(s, amount))),
            Ok(CountResponse { count: 2 }),
        ),
{
    lemma_replies_count(s, amount, 2);
    assert(after_replies(issue_next(s, amount), 1) == reply_next(issue_next(s, amount)));
    assert(can_count_reply(after_replies(issue_next(s, amount), 0)));
    assert(can_count_reply(after_replies(issue_next(s, amount), 1)));
}

/// An issue of a zero amount leaves the stored state as it was, absent or not.
pub proof fn lemma_zero_amount_keeps_state(s: Option<State>)
    ensures
        issue_next(s, 0) == s,
{
}

/// Issuing again sets the counter back to 0, whatever it held.
pub proof fn lemma_reissue_resets(prior: State, amount: u128)
    requires
        amount != 0,
    ensures
        issue_next(Some(prior), amount) == Some(State { count: 0 }),
{
}

} // verus!

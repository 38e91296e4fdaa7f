//! The tick-wide guarantees of the arbiter.
//!
//! A query is one of the three claiming operations — `key_pressed`,
//! `unimportant_key_pressed`, `number_chosen` — described by [`Query`]. The
//! proofs here state what holds of any sequence of queries against one
//! arbiter: at most one of them claims the event, a claim silences every
//! later query, a numeric choice stays within its range, relabelling a key
//! records exactly one collision, and the ledgers record exactly the misses.

use vstd::prelude::*;

use crate::event::Key;
use crate::input::CollisionView;
use crate::input::InputState;
use crate::input::key_query;
use crate::input::lemma_reserve_digits_preserves;
use crate::input::number_query;
use crate::input::reserve_step;

verus! {

/// One query against the arbiter, with its key (or option count) and label.
pub ghost enum Query {
    KeyPressed(Key, Seq<char>),
    UnimportantKeyPressed(Key, Seq<char>),
    NumberChosen(int, Seq<char>),
}

/// The arbiter's state after one query.
pub open spec fn query_step(s: InputState, q: Query) -> InputState {
    match q {
        Query::KeyPressed(key, action) => key_query(s, key, action, true).0,
        Query::UnimportantKeyPressed(key, action) => key_query(s, key, action, false).0,
        Query::NumberChosen(n, action) => number_query(s, n, action).0,
    }
}

/// Whether one query claims the event: a `true` from a key query, a `Some`
/// from a numeric choice.
pub open spec fn query_claims(s: InputState, q: Query) -> bool {
    match q {
        Query::KeyPressed(key, action) => key_query(s, key, action, true).1,
        Query::UnimportantKeyPressed(key, action) => key_query(s, key, action, false).1,
        Query::NumberChosen(n, action) => number_query(s, n, action).1 is Some,
    }
}

/// The arbiter's state after a whole sequence of queries, in order.
pub open spec fn state_after(s: InputState, qs: Seq<Query>) -> InputState
    decreases qs.len(),
{
    if qs.len() == 0 {
        s
    } else {
        query_step(state_after(s, qs.drop_last()), qs.last())
    }
}

/// How many queries of the sequence claim the event.
pub open spec fn claim_count(s: InputState, qs: Seq<Query>) -> nat
    decreases qs.len(),
{
    if qs.len() == 0 {
        0
    } else {
        claim_count(s, qs.drop_last()) + (if query_claims(
            state_after(s, qs.drop_last()),
            qs.last(),
        ) {
            1nat
        } else {
            0nat
        })
    }
}

/// A query on a consumed arbiter never claims, and leaves it consumed.
pub proof fn lemma_consumed_absorbs(s: InputState, q: Query)
    requires
        s.consumed,
    ensures
        !query_claims(s, q),
        query_step(s, q).consumed,
{
    match q {
        Query::NumberChosen(n, action) => {
            lemma_reserve_digits_preserves(s, n, action);
        },
        _ => {},
    }
}

/// A claiming query finds the event live and leaves it consumed.
pub proof fn lemma_claim_consumes(s: InputState, q: Query)
    requires
        query_claims(s, q),
    ensures
        !s.consumed,
        query_step(s, q).consumed,
{
    match q {
        Query::NumberChosen(n, action) => {
            lemma_reserve_digits_preserves(s, n, action);
        },
        _ => {},
    }
}

/// A query consumes the event exactly when it claims it; in particular, the
/// consumed flag never goes back from `true` to `false`.
pub proof fn lemma_consumed_after_step(s: InputState, q: Query)
    ensures
        query_step(s, q).consumed == (s.consumed || query_claims(s, q)),
{
    match q {
        Query::NumberChosen(n, action) => {
            lemma_reserve_digits_preserves(s, n, action);
        },
        _ => {},
    }
}

/// Against one arbiter, at most one query of any sequence claims the event —
/// none at all if the event was already consumed — and the event ends
/// consumed exactly when it started consumed or some query claimed it.
pub proof fn lemma_at_most_one_claim(s: InputState, qs: Seq<Query>)
    ensures
        claim_count(s, qs) <= 1,
        s.consumed ==> claim_count(s, qs) == 0,
        state_after(s, qs).consumed == (s.consumed || claim_count(s, qs) > 0),
    decreases qs.len(),
{
    if qs.len() > 0 {
        let prefix = qs.drop_last();
        let mid = state_after(s, prefix);
        lemma_at_most_one_claim(s, prefix);
        lemma_consumed_after_step(mid, qs.last());
        if query_claims(mid, qs.last()) {
            lemma_claim_consumes(mid, qs.last());
        }
    }
}

/// Once consumed, the event stays consumed across any further queries.
pub proof fn lemma_consumed_stays(s: InputState, qs: Seq<Query>, i: int, j: int)
    requires
        0 <= i <= j <= qs.len(),
        state_after(s, qs.take(i)).consumed,
    ensures
        state_after(s, qs.take(j)).consumed,
    decreases j - i,
{
    if i < j {
        assert(qs.take(i + 1).drop_last() =~= qs.take(i));
        assert(qs.take(i + 1).last() == qs[i]);
        lemma_consumed_after_step(state_after(s, qs.take(i)), qs[i]);
        lemma_consumed_stays(s, qs, i + 1, j);
    }
}

/// Once a query claims the event, every later query of the same tick reports
/// a miss, whether or not its own predicate would have matched.
pub proof fn lemma_claim_excludes_later(s: InputState, qs: Seq<Query>, i: int, j: int)
    requires
        0 <= i < j < qs.len(),
        query_claims(state_after(s, qs.take(i)), qs[i]),
    ensures
        !query_claims(state_after(s, qs.take(j)), qs[j]),
{
    assert(qs.take(i + 1).drop_last() =~= qs.take(i));
    assert(qs.take(i + 1).last() == qs[i]);
    lemma_claim_consumes(state_after(s, qs.take(i)), qs[i]);
    lemma_consumed_stays(s, qs, i + 1, j);
    lemma_consumed_absorbs(state_after(s, qs.take(j)), qs[j]);
}

/// A numeric choice over `n` options never reports a digit outside `1..=n`,
/// whatever key was pressed.
pub proof fn lemma_number_choice_in_range(s: InputState, n: int, action: Seq<char>, d: int)
    requires
        number_query(s, n, action).1 == Some(d),
    ensures
        1 <= d <= n,
{
}

/// Reserving one key twice in a tick records exactly one collision when the
/// labels differ — naming both labels and the key — and none when they agree.
pub proof fn lemma_collision_on_relabel(
    s: InputState,
    key: Key,
    first: Seq<char>,
    second: Seq<char>,
)
    requires
        !s.reserved.contains_key(key.code),
    ensures
        ({
            let once = reserve_step(s, key, first);
            let twice = reserve_step(once, key, second);
            &&& first != second ==> twice.collisions == s.collisions.push(
                CollisionView { first_action: first, second_action: second, key },
            )
            &&& first == second ==> twice.collisions == s.collisions
        }),
{
}

/// Ledger discipline: a claiming query writes no ledger entry, a consumed
/// arbiter's ledgers are frozen, and a genuine miss appends exactly its own
/// label to the ledger its query aims at.
pub proof fn lemma_ledger_records_misses(s: InputState, q: Query)
    ensures
        ({
            let after = query_step(s, q);
            &&& query_claims(s, q) ==> after.important == s.important && after.unimportant
                == s.unimportant
            &&& s.consumed ==> after.important == s.important && after.unimportant
                == s.unimportant
            &&& !s.consumed && !query_claims(s, q) ==> match q {
                Query::KeyPressed(_, action) => after.important == s.important.push(action)
                    && after.unimportant == s.unimportant,
                Query::UnimportantKeyPressed(_, action) => after.unimportant
                    == s.unimportant.push(action) && after.important == s.important,
                Query::NumberChosen(_, action) => after.important == s.important.push(action)
                    && after.unimportant == s.unimportant,
            }
        }),
{
    match q {
        Query::NumberChosen(n, action) => {
            lemma_reserve_digits_preserves(s, n, action);
        },
        _ => {},
    }
}

} // verus!

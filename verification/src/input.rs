//! The per-tick input arbiter.
//!
//! A `UserInput` owns the tick's raw event and a consumed flag. Queries
//! (`key_pressed`, `unimportant_key_pressed`, `number_chosen`) are issued in
//! caller order; the first whose predicate matches the live event consumes
//! it, and every later query sees only an idle event. Each query also
//! reserves the keys it asked about, so that two different action labels
//! asking about one key in the same tick are recorded as a collision, and
//! each miss is appended to an action ledger that feeds the on-screen
//! display of available actions.

use std::collections::HashMap;
use vstd::prelude::*;

use crate::event::Event;
use crate::event::Key;
use crate::event::digit_key;
use crate::event::event_digit;
use crate::event::make_digit_key;
use crate::event::ZERO_CODE;

verus! {

/// A key-binding collision: two different action labels asked about the same
/// key during one tick. Advisory only; it never affects dispatch.
#[derive(Debug)]
pub struct Collision {
    /// The label that reserved the key first.
    pub first_action: String,
    /// The label that reserved it afterwards.
    pub second_action: String,
    /// The key both labels asked about.
    pub key: Key,
}

/// The mathematical picture of a [`Collision`].
pub ghost struct CollisionView {
    pub first_action: Seq<char>,
    pub second_action: Seq<char>,
    pub key: Key,
}

impl View for Collision {
    type V = CollisionView;

    open spec fn view(&self) -> CollisionView {
        CollisionView {
            first_action: self.first_action@,
            second_action: self.second_action@,
            key: self.key,
        }
    }
}

/// The mathematical picture of an arbiter: the tick's event, whether it was
/// claimed, the two ledgers in query order, the reservation registry keyed by
/// key code, and the collisions recorded so far, in the order they were found.
#[verifier::ext_equal]
pub ghost struct InputState {
    pub event: Event,
    pub consumed: bool,
    pub important: Seq<Seq<char>>,
    pub unimportant: Seq<Seq<char>>,
    pub reserved: Map<u32, Seq<char>>,
    pub collisions: Seq<CollisionView>,
}

/// The state a fresh arbiter starts the tick in.
pub open spec fn initial_state(event: Event) -> InputState {
    InputState {
        event,
        consumed: false,
        important: Seq::empty(),
        unimportant: Seq::empty(),
        reserved: Map::empty(),
        collisions: Seq::empty(),
    }
}

/// Reserves `key` under `action`: the registry is updated, and a collision is
/// recorded exactly when the key was already reserved under a different label.
pub open spec fn reserve_step(s: InputState, key: Key, action: Seq<char>) -> InputState {
    let collided = s.reserved.contains_key(key.code) && s.reserved[key.code] != action;
    InputState {
        reserved: s.reserved.insert(key.code, action),
        collisions: if collided {
            s.collisions.push(
                CollisionView {
                    first_action: s.reserved[key.code],
                    second_action: action,
                    key,
                },
            )
        } else {
            s.collisions
        },
        ..s
    }
}

/// One key query: reserve unconditionally, then claim on a live matching
/// press, stay silent when already consumed, and otherwise record a miss on
/// the important or unimportant ledger. The returned flag says whether the
/// query claimed the event.
pub open spec fn key_query(s: InputState, key: Key, action: Seq<char>, important: bool) -> (
    InputState,
    bool,
) {
    let r = reserve_step(s, key, action);
    if s.consumed {
        (r, false)
    } else if s.event == Event::KeyPress(key) {
        (InputState { consumed: true, ..r }, true)
    } else if important {
        (InputState { important: r.important.push(action), ..r }, false)
    } else {
        (InputState { unimportant: r.unimportant.push(action), ..r }, false)
    }
}

/// Reserves the digit keys `1` to `n` under `action`, in ascending order.
pub open spec fn reserve_digits(s: InputState, n: int, action: Seq<char>) -> InputState
    decreases n,
{
    if n <= 0 {
        s
    } else {
        reserve_step(reserve_digits(s, n - 1, action), digit_key(n), action)
    }
}

/// One numeric-choice query over `n` options: reserve digits `1..n`, then
/// claim a live press of a digit within range; a digit outside the range is
/// an ordinary miss and must leave the event live for other queries.
pub open spec fn number_query(s: InputState, n: int, action: Seq<char>) -> (
    InputState,
    Option<int>,
) {
    let r = reserve_digits(s, n, action);
    if s.consumed {
        (r, None)
    } else {
        match event_digit(s.event) {
            Some(d) => if 1 <= d && d <= n {
                (InputState { consumed: true, ..r }, Some(d))
            } else {
                (InputState { important: r.important.push(action), ..r }, None)
            },
            None => (InputState { important: r.important.push(action), ..r }, None),
        }
    }
}

/// What a read of the event observes: the stored event while unconsumed, a
/// synthetic idle event afterwards — the original payload is never seen twice.
pub open spec fn live_event(s: InputState) -> Event {
    if s.consumed {
        Event::Idle
    } else {
        s.event
    }
}

/// Marks the event claimed; everything else is untouched.
pub open spec fn consume_step(s: InputState) -> InputState {
    InputState { consumed: true, ..s }
}

/// Records `action` on the important ledger; everything else is untouched.
pub open spec fn direct_important_step(s: InputState, action: Seq<char>) -> InputState {
    InputState { important: s.important.push(action), ..s }
}

/// The views of a sequence of labels.
pub open spec fn labels_view(v: Seq<String>) -> Seq<Seq<char>> {
    v.map_values(|s: String| s@)
}

/// The views of a sequence of collisions.
pub open spec fn collisions_view(v: Seq<Collision>) -> Seq<CollisionView> {
    v.map_values(|c: Collision| c@)
}

/// The views of the values of the reservation registry.
pub open spec fn registry_view(m: Map<u32, String>) -> Map<u32, Seq<char>> {
    Map::new(|k: u32| m.contains_key(k), |k: u32| m[k]@)
}

/// The per-tick input arbiter (see the module documentation).
pub struct UserInput {
    event: Event,
    event_consumed: bool,
    important_actions: Vec<String>,
    unimportant_actions: Vec<String>,
    reserved_keys: HashMap<u32, String>,
    collisions: Vec<Collision>,
}

impl View for UserInput {
    type V = InputState;

    closed spec fn view(&self) -> InputState {
        InputState {
            event: self.event,
            consumed: self.event_consumed,
            important: labels_view(self.important_actions@),
            unimportant: labels_view(self.unimportant_actions@),
            reserved: registry_view(self.reserved_keys@),
            collisions: collisions_view(self.collisions@),
        }
    }
}

impl UserInput {
    /// Builds the arbiter for one tick around that tick's raw event.
    pub fn new(event: Event) -> (input: UserInput)
        ensures
            input@ == initial_state(event),
    {
        let input = UserInput {
            event,
            event_consumed: false,
            important_actions: Vec::new(),
            unimportant_actions: Vec::new(),
            reserved_keys: HashMap::new(),
            collisions: Vec::new(),
        };
        proof {
            assert(input@ =~~= initial_state(event));
        }
        input
    }

    /// Reserves `key` under `action` and records a collision when the key was
    /// already reserved this tick under a different label.
    fn reserve_key(&mut self, key: Key, action: &str)
        ensures
            final(self)@ == reserve_step(old(self)@, key, action@),
    {
        let label: String = action.to_string();
        match self.reserved_keys.get(&key.code) {
            Some(prev_label) => {
                if *prev_label != label {
                    let record = Collision {
                        first_action: prev_label.clone(),
                        second_action: label.clone(),
                        key,
                    };
                    self.collisions.push(record);
                }
            },
            None => {},
        }
        self.reserved_keys.insert(key.code, label);
        proof {
            assert(final(self)@ =~~= reserve_step(old(self)@, key, action@));
        }
    }

    /// Asks whether `key` was pressed this tick on behalf of `action`. The
    /// first matching query claims the event; a miss while the event is still
    /// live is advertised on the important ledger.
    pub fn key_pressed(&mut self, key: Key, action: &str) -> (r: bool)
        ensures
            final(self)@ == key_query(old(self)@, key, action@, true).0,
            r == key_query(old(self)@, key, action@, true).1,
    {
        self.reserve_key(key, action);
        if self.event_consumed {
            return false;
        }
        if self.event == Event::KeyPress(key) {
            self.event_consumed = true;
            proof {
                assert(final(self)@ =~~= key_query(old(self)@, key, action@, true).0);
            }
            return true;
        }
        self.important_actions.push(action.to_string());
        proof {
            assert(final(self)@ =~~= key_query(old(self)@, key, action@, true).0);
        }
        false
    }

    /// Like [`Self::key_pressed`], but a miss lands on the unimportant
    /// ledger, which the on-screen display does not show.
    pub fn unimportant_key_pressed(&mut self, key: Key, action: &str) -> (r: bool)
        ensures
            final(self)@ == key_query(old(self)@, key, action@, false).0,
            r == key_query(old(self)@, key, action@, false).1,
    {
        self.reserve_key(key, action);
        if self.event_consumed {
            return false;
        }
        if self.event == Event::KeyPress(key) {
            self.event_consumed = true;
            proof {
                assert(final(self)@ =~~= key_query(old(self)@, key, action@, false).0);
            }
            return true;
        }
        self.unimportant_actions.push(action.to_string());
        proof {
            assert(final(self)@ =~~= key_query(old(self)@, key, action@, false).0);
        }
        false
    }

    /// Offers a choice of `num_options` options on the digit keys, on behalf
    /// of `action`. A live press of a digit within `1..=num_options` claims
    /// the event and returns that digit; any other event — a digit outside
    /// the range included — is a miss that leaves the event live.
    pub fn number_chosen(&mut self, num_options: usize, action: &str) -> (r: Option<usize>)
        requires
            1 <= num_options <= 9,
        ensures
            final(self)@ == number_query(old(self)@, num_options as int, action@).0,
            (number_query(old(self)@, num_options as int, action@).1 == match r {
                Some(n) => Some(n as int),
                None => None::<int>,
            }),
            (r matches Some(n) ==> 1 <= n <= num_options),
            final(self)@.event == old(self)@.event,
            final(self)@.consumed == (old(self)@.consumed || r is Some),
            final(self)@.unimportant == old(self)@.unimportant,
            final(self)@.important == if old(self)@.consumed || r is Some {
                old(self)@.important
            } else {
                old(self)@.important.push(action@)
            },
    {
        let ghost n = num_options as int;
        let mut d: usize = 1;
        while d <= num_options
            invariant
                1 <= d <= num_options + 1,
                num_options <= 9,
                self@ == reserve_digits(old(self)@, d as int - 1, action@),
            decreases num_options - d + 1,
        {
            let k = make_digit_key(d);
            self.reserve_key(k, action);
            d += 1;
        }
        proof {
            lemma_reserve_digits_preserves(old(self)@, n, action@);
        }
        if self.event_consumed {
            return None;
        }
        let pressed_digit: Option<usize> = match self.event {
            Event::KeyPress(k) => if ZERO_CODE + 1 <= k.code && k.code <= ZERO_CODE + 9 {
                Some((k.code - ZERO_CODE) as usize)
            } else {
                None
            },
            _ => None,
        };
        match pressed_digit {
            Some(digit) if digit <= num_options => {
                self.consume_event();
                proof {
                    assert(final(self)@ =~~= number_query(old(self)@, n, action@).0);
                }
                Some(digit)
            },
            _ => {
                self.important_actions.push(action.to_string());
                proof {
                    assert(final(self)@ =~~= number_query(old(self)@, n, action@).0);
                }
                None
            },
        }
    }

    /// Hands the live event to a caller that inspects it itself: the stored
    /// event while unconsumed, idle afterwards. Neither the consumed flag nor
    /// the ledgers change; a caller that acts on the event must call
    /// [`Self::consume_event`] itself.
    pub fn use_event_directly(&self) -> (e: Event)
        ensures
            e == live_event(self@),
    {
        if self.event_consumed {
            return Event::Idle;
        }
        self.event
    }

    /// The same read, but `action` is recorded on the important ledger
    /// unconditionally: the arbiter cannot tell on the caller's behalf
    /// whether the event matched.
    pub fn use_event_directly_for_important_action(&mut self, action: &str) -> (e: Event)
        ensures
            final(self)@ == direct_important_step(old(self)@, action@),
            e == live_event(old(self)@),
    {
        self.important_actions.push(action.to_string());
        proof {
            assert(final(self)@ =~~= direct_important_step(old(self)@, action@));
        }
        if self.event_consumed {
            return Event::Idle;
        }
        self.event
    }

    /// Claims the event. Exactly one claim per tick is legal: claiming twice
    /// means two call sites both believe they own the event, a caller bug.
    pub fn consume_event(&mut self)
        requires
            !old(self)@.consumed,
        ensures
            final(self)@ == consume_step(old(self)@),
    {
        self.event_consumed = true;
        proof {
            assert(final(self)@ =~~= consume_step(old(self)@));
        }
    }

    /// Whether some query already claimed this tick's event.
    pub fn is_consumed(&self) -> (b: bool)
        ensures
            b == self@.consumed,
    {
        self.event_consumed
    }

    /// Finalizes the tick: takes the arbiter apart and returns exactly the
    /// important-ledger entries, in query order. Unimportant entries and
    /// actions whose query claimed the event are excluded by construction.
    pub fn get_possible_actions(self) -> (actions: Vec<String>)
        ensures
            labels_view(actions@) == self@.important,
            actions@.len() == self@.important.len(),
            forall|i: int| 0 <= i < actions@.len() ==> actions@[i]@ == self@.important[i],
    {
        proof {
            assert(forall|i: int|
                0 <= i < self.important_actions@.len() ==> self.important_actions@[i]@
                    == #[trigger] labels_view(self.important_actions@)[i]);
        }
        self.important_actions
    }

    /// The key-binding collisions recorded so far, in the order found.
    pub fn get_collisions(&self) -> (c: &Vec<Collision>)
        ensures
            collisions_view(c@) == self@.collisions,
            c@.len() == self@.collisions.len(),
            forall|i: int| 0 <= i < c@.len() ==> c@[i]@ == self@.collisions[i],
    {
        proof {
            assert(forall|i: int|
                0 <= i < self.collisions@.len() ==> self.collisions@[i]@ == #[trigger] collisions_view(
                    self.collisions@,
                )[i]);
        }
        &self.collisions
    }
}

/// Reserving keys touches only the registry and the collision record: the
/// event, the consumed flag and both ledgers come through unchanged.
pub proof fn lemma_reserve_digits_preserves(s: InputState, n: int, action: Seq<char>)
    ensures
        reserve_digits(s, n, action).event == s.event,
        reserve_digits(s, n, action).consumed == s.consumed,
        reserve_digits(s, n, action).important == s.important,
        reserve_digits(s, n, action).unimportant == s.unimportant,
    decreases n,
{
    if n > 0 {
        lemma_reserve_digits_preserves(s, n - 1, action);
    }
}

} // verus!

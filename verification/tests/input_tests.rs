use ezgui::event::{make_digit_key, Event, Key};
use ezgui::input::UserInput;

fn key(code: u32) -> Key {
    Key { code }
}

fn press(code: u32) -> Event {
    Event::KeyPress(Key { code })
}

// Digit d is carried by the key with the ASCII code of the digit.
#[test]
fn digit_keys_carry_ascii_codes() {
    assert_eq!(make_digit_key(1), key(49));
    assert_eq!(make_digit_key(5), key(53));
    assert_eq!(make_digit_key(9), key(57));
}

#[test]
fn fresh_arbiter_is_unconsumed_with_empty_ledger() {
    let input = UserInput::new(press(65));
    assert!(!input.is_consumed());
    assert!(input.get_collisions().is_empty());
    assert!(input.get_possible_actions().is_empty());
}

#[test]
fn matching_key_query_claims() {
    let mut input = UserInput::new(press(65));
    assert!(input.key_pressed(key(65), "save"));
    assert!(input.is_consumed());
}

#[test]
fn non_matching_key_query_misses_and_advertises() {
    let mut input = UserInput::new(press(65));
    assert!(!input.key_pressed(key(66), "quit"));
    assert!(!input.is_consumed());
    assert_eq!(input.get_possible_actions(), vec!["quit".to_string()]);
}

#[test]
fn idle_event_matches_no_key() {
    let mut input = UserInput::new(Event::Idle);
    assert!(!input.key_pressed(key(65), "save"));
    assert!(!input.unimportant_key_pressed(key(66), "quit"));
    assert!(!input.is_consumed());
}

#[test]
fn other_event_matches_no_key() {
    let mut input = UserInput::new(Event::Other);
    assert!(!input.key_pressed(key(65), "save"));
    assert!(!input.is_consumed());
}

// At most one query claims the event, even when several would match it.
#[test]
fn at_most_one_query_claims() {
    let mut input = UserInput::new(press(65));
    assert!(!input.key_pressed(key(66), "first"));
    assert!(input.key_pressed(key(65), "second"));
    // This query's predicate would match, but the event is already claimed.
    assert!(!input.key_pressed(key(65), "third"));
    assert!(!input.unimportant_key_pressed(key(65), "fourth"));
    assert!(input.is_consumed());
}

// After a claim, every later query misses, and misses stop reaching the ledger.
#[test]
fn claim_silences_later_queries_and_freezes_ledger() {
    let mut input = UserInput::new(press(50));
    assert!(!input.key_pressed(key(65), "before"));
    assert!(input.key_pressed(key(50), "winner"));
    assert!(!input.key_pressed(key(66), "after"));
    assert_eq!(input.number_chosen(3, "late-pick"), None);
    // Only the miss made while the event was live is advertised.
    assert_eq!(input.get_possible_actions(), vec!["before".to_string()]);
}

#[test]
fn number_chosen_claims_digit_in_range() {
    let mut input = UserInput::new(press(51)); // the '3' key
    assert_eq!(input.number_chosen(5, "pick"), Some(3));
    assert!(input.is_consumed());
    assert!(input.get_possible_actions().is_empty());
}

#[test]
fn number_chosen_accepts_bound_digits() {
    let mut low = UserInput::new(press(49)); // the '1' key
    assert_eq!(low.number_chosen(1, "pick"), Some(1));
    let mut high = UserInput::new(press(57)); // the '9' key
    assert_eq!(high.number_chosen(9, "pick"), Some(9));
}

// A digit beyond the offered range is a miss and must not consume the event.
#[test]
fn number_chosen_rejects_digit_out_of_range() {
    let mut input = UserInput::new(press(53)); // the '5' key
    assert_eq!(input.number_chosen(3, "pick"), None);
    assert!(!input.is_consumed());
    // Another query may still claim the digit.
    assert!(input.key_pressed(key(53), "jump"));
}

#[test]
fn number_chosen_rejects_non_digit() {
    let mut input = UserInput::new(press(65));
    assert_eq!(input.number_chosen(9, "pick"), None);
    assert!(!input.is_consumed());
    assert_eq!(input.get_possible_actions(), vec!["pick".to_string()]);
}

#[test]
fn number_chosen_on_consumed_arbiter_returns_nothing_silently() {
    let mut input = UserInput::new(press(50));
    assert!(input.key_pressed(key(50), "winner"));
    assert_eq!(input.number_chosen(3, "pick"), None);
    assert!(input.get_possible_actions().is_empty());
}

// Same key under two different labels: exactly one collision, naming both.
#[test]
fn relabelled_key_records_one_collision() {
    let mut input = UserInput::new(Event::Idle);
    input.key_pressed(key(65), "save");
    input.key_pressed(key(65), "select-all");
    let collisions = input.get_collisions();
    assert_eq!(collisions.len(), 1);
    assert_eq!(collisions[0].first_action, "save");
    assert_eq!(collisions[0].second_action, "select-all");
    assert_eq!(collisions[0].key, key(65));
}

// Same key under the same label twice: no collision at all.
#[test]
fn repeated_identical_reservation_records_no_collision() {
    let mut input = UserInput::new(Event::Idle);
    input.key_pressed(key(65), "save");
    input.key_pressed(key(65), "save");
    assert!(input.get_collisions().is_empty());
}

// Reservations keep happening after a claim, so diagnostics stay accurate.
#[test]
fn collisions_are_still_found_after_the_claim() {
    let mut input = UserInput::new(press(65));
    assert!(input.key_pressed(key(65), "save"));
    assert!(!input.key_pressed(key(65), "select-all"));
    assert_eq!(input.get_collisions().len(), 1);
}

// A numeric choice reserves each digit key it listens to.
#[test]
fn number_chosen_collides_with_digit_hotkeys() {
    let mut input = UserInput::new(Event::Idle);
    input.key_pressed(key(50), "tool"); // the '2' key as a hotkey
    input.number_chosen(3, "pick");
    let collisions = input.get_collisions();
    assert_eq!(collisions.len(), 1);
    assert_eq!(collisions[0].first_action, "tool");
    assert_eq!(collisions[0].second_action, "pick");
    assert_eq!(collisions[0].key, key(50));
}

// The OSD gets the important misses, in query order, and nothing else.
#[test]
fn possible_actions_are_the_important_misses_in_order() {
    let mut input = UserInput::new(press(65));
    assert!(!input.key_pressed(key(66), "one"));
    assert!(!input.unimportant_key_pressed(key(67), "hidden"));
    assert!(!input.key_pressed(key(68), "two"));
    assert!(input.key_pressed(key(65), "claimed"));
    assert!(!input.key_pressed(key(69), "after"));
    assert_eq!(
        input.get_possible_actions(),
        vec!["one".to_string(), "two".to_string()]
    );
}

#[test]
fn use_event_directly_reads_without_consuming() {
    let input = UserInput::new(press(65));
    assert_eq!(input.use_event_directly(), press(65));
    assert_eq!(input.use_event_directly(), press(65));
    assert!(!input.is_consumed());
}

#[test]
fn consumed_event_reads_as_idle() {
    let mut input = UserInput::new(press(65));
    input.consume_event();
    assert_eq!(input.use_event_directly(), Event::Idle);
    assert!(input.is_consumed());
}

#[test]
fn direct_use_for_important_action_always_advertises() {
    let mut input = UserInput::new(press(65));
    assert_eq!(
        input.use_event_directly_for_important_action("drag"),
        press(65)
    );
    input.consume_event();
    assert_eq!(
        input.use_event_directly_for_important_action("drag-again"),
        Event::Idle
    );
    assert_eq!(
        input.get_possible_actions(),
        vec!["drag".to_string(), "drag-again".to_string()]
    );
}

// Scenario: the '2' key is pressed; a hotkey misses, the numeric choice
// claims digit 2, and a later hotkey sees the consumed event.
#[test]
fn scenario_digit_press_goes_to_the_numeric_choice() {
    let mut input = UserInput::new(press(50));
    assert!(!input.key_pressed(key(49), "a"));
    assert_eq!(input.number_chosen(3, "pick"), Some(2));
    assert!(!input.key_pressed(key(51), "b"));
}

// Scenario: the '5' key is pressed but only three options are offered; the
// event stays live and the choice is advertised.
#[test]
fn scenario_out_of_range_digit_stays_live() {
    let mut input = UserInput::new(press(53));
    assert_eq!(input.number_chosen(3, "pick"), None);
    assert!(!input.is_consumed());
    assert_eq!(input.get_possible_actions(), vec!["pick".to_string()]);
}

// Scenario: two labels ask about one key in the same tick; exactly one
// collision diagnostic references both labels and the key.
#[test]
fn scenario_two_labels_one_key_one_diagnostic() {
    let mut input = UserInput::new(Event::Idle);
    input.key_pressed(key(65), "save");
    input.key_pressed(key(65), "select-all");
    let collisions = input.get_collisions();
    assert_eq!(collisions.len(), 1);
    assert_eq!(collisions[0].first_action, "save");
    assert_eq!(collisions[0].second_action, "select-all");
    assert_eq!(collisions[0].key, key(65));
}

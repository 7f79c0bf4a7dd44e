use scada_edge::agent::auto_print::env_auto_print_rules;
use scada_edge::domain::automation::{
    evaluate_consecutive_trigger, AutomationEvalState, ConsecutiveTrigger,
};

fn trigger(count: usize) -> ConsecutiveTrigger {
    ConsecutiveTrigger { count, within_ms: None }
}

// The trigger of these tests fires on values at or below zero.
fn lte_zero(v: f64) -> bool {
    v <= 0.0
}

#[test]
fn fires_after_required_consecutive_matches() {
    let t0: i64 = 1_767_225_600_000;
    let mut state = AutomationEvalState::default();
    let r1 = evaluate_consecutive_trigger(true, "tag_a", trigger(2), state, "tag_a", t0, lte_zero(0.0));
    assert!(r1.matched);
    assert!(!r1.fired);
    state = r1.next_state;
    let r2 = evaluate_consecutive_trigger(true, "tag_a", trigger(2), state, "tag_a", t0 + 100, lte_zero(-1.0));
    assert!(r2.matched);
    assert!(r2.fired);
    assert_eq!(r2.next_state, AutomationEvalState::default());
}

#[test]
fn resets_when_value_does_not_match() {
    let t0: i64 = 1_767_225_600_000;
    let s0 = AutomationEvalState::default();
    let r1 = evaluate_consecutive_trigger(true, "tag_a", trigger(2), s0, "tag_a", t0, lte_zero(0.0));
    let r2 = evaluate_consecutive_trigger(true, "tag_a", trigger(2), r1.next_state, "tag_a", t0 + 100, lte_zero(1.0));
    assert!(!r2.matched);
    assert_eq!(r2.next_state.consecutive_matches, 0);
}

#[test]
fn other_tags_and_disabled_automations_leave_the_state_alone() {
    let s = AutomationEvalState { consecutive_matches: 1, last_match_at: Some(5) };
    let other = evaluate_consecutive_trigger(true, "tag_a", trigger(2), s, "tag_b", 10, true);
    assert!(!other.matched);
    assert_eq!(other.next_state, s);
    let off = evaluate_consecutive_trigger(false, "tag_a", trigger(2), s, "tag_a", 10, true);
    assert_eq!(off.next_state, s);
    let any = evaluate_consecutive_trigger(true, "*", trigger(2), s, "tag_b", 10, true);
    assert!(any.fired);
}

#[test]
fn a_streak_older_than_the_window_starts_over() {
    let t = ConsecutiveTrigger { count: 2, within_ms: Some(1000) };
    let s = AutomationEvalState { consecutive_matches: 1, last_match_at: Some(0) };
    let late = evaluate_consecutive_trigger(true, "x", t, s, "x", 1001, true);
    assert!(!late.fired);
    assert_eq!(late.next_state.consecutive_matches, 1);
    let in_time = evaluate_consecutive_trigger(true, "x", t, s, "x", 1000, true);
    assert!(in_time.fired);
}

#[test]
fn auto_print_rules_are_off_unless_enabled() {
    assert!(env_auto_print_rules(false, &vec!["t1".to_string()], 3).is_empty());
}

#[test]
fn auto_print_watches_every_tag_when_none_is_named() {
    let rules = env_auto_print_rules(true, &vec![], 0);
    assert_eq!(rules.len(), 1);
    assert_eq!(rules[0].id, "env-auto-non-positive-any");
    assert_eq!(rules[0].tag_id, "*");
    assert_eq!(rules[0].count, 1);
    assert_eq!(
        rules[0].lines,
        vec!["AUTO TRIGGER".to_string(), "TAG: *".to_string(), "RULE: consecutive_non_positive".to_string()]
    );
}

#[test]
fn auto_print_makes_one_rule_per_named_tag() {
    let rules = env_auto_print_rules(true, &vec!["scale-1".to_string(), "line*2".to_string()], 4);
    assert_eq!(rules.len(), 2);
    assert_eq!(rules[0].id, "env-auto-non-positive-scale-1");
    assert_eq!(rules[1].id, "env-auto-non-positive-lineany2");
    assert_eq!(rules[1].tag_id, "line*2");
    assert_eq!(rules[1].count, 4);
    assert_eq!(rules[1].lines[1], "TAG: line*2");
}

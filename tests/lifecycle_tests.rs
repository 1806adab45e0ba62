use agentid::clock::{NANOS_PER_HOUR, NANOS_PER_SECOND};
use agentid::lifecycle::{StateTransition, TrustLifecycle, TrustState};
use agentid::score::TrustError;

fn transition(target: TrustState, at: i64) -> StateTransition {
    StateTransition::new_at(target, "test".to_string(), at)
}

#[test]
fn lifecycle_starts_initial() {
    let l = TrustLifecycle::new_at(100);
    assert_eq!(l.current_state, TrustState::Initial);
    assert_eq!(l.state_entered_at, 100);
    assert!(l.next_transition.is_none());
    assert_eq!(l.state_history().len(), 1);
    assert!(!l.is_active());
    assert!(!l.is_valid_for_trust());
}

#[test]
fn invalid_transition_changes_nothing() {
    let mut l = TrustLifecycle::new_at(100);
    let r = l.apply_transition(transition(TrustState::Active, 200));
    assert!(matches!(r, Err(TrustError::InvalidStateTransition(_))));
    assert_eq!(l.current_state, TrustState::Initial);
    assert_eq!(l.state_entered_at, 100);
    assert_eq!(l.state_history().len(), 1);
}

#[test]
fn valid_transition_records_the_state_left() {
    let mut l = TrustLifecycle::new_at(100);
    l.apply_transition(transition(TrustState::Establishing, 200).with_metadata("k".to_string(), serde_json::from_str("\"v\"").unwrap()))
        .unwrap();
    assert_eq!(l.current_state, TrustState::Establishing);
    assert_eq!(l.state_entered_at, 200);
    assert_eq!(l.state_history().len(), 2);
    let last = &l.state_history()[1];
    assert_eq!(last.state, TrustState::Initial);
    assert_eq!(last.entered_at, 100);
    assert_eq!(last.reason, "test");
    assert_eq!(last.metadata, vec![("k".to_string(), serde_json::Value::String("v".to_string()))]);
    l.apply_transition(transition(TrustState::Active, 300)).unwrap();
    assert!(l.is_active());
    assert!(l.is_valid_for_trust());
    assert_eq!(l.state_history().len(), 3);
}

#[test]
fn edge_table_is_enforced_everywhere() {
    let all = [
        TrustState::Initial,
        TrustState::Establishing,
        TrustState::Active,
        TrustState::Suspended,
        TrustState::Reviewing,
        TrustState::Revoked,
        TrustState::Expired,
        TrustState::GracePeriod,
    ];
    let allowed = [
        (TrustState::Initial, TrustState::Establishing),
        (TrustState::Establishing, TrustState::Active),
        (TrustState::Establishing, TrustState::Revoked),
        (TrustState::Active, TrustState::Suspended),
        (TrustState::Active, TrustState::Reviewing),
        (TrustState::Active, TrustState::Revoked),
        (TrustState::Active, TrustState::Expired),
        (TrustState::Suspended, TrustState::Active),
        (TrustState::Suspended, TrustState::Reviewing),
        (TrustState::Suspended, TrustState::Revoked),
        (TrustState::Reviewing, TrustState::Active),
        (TrustState::Reviewing, TrustState::Suspended),
        (TrustState::Reviewing, TrustState::Revoked),
        (TrustState::GracePeriod, TrustState::Active),
        (TrustState::GracePeriod, TrustState::Expired),
    ];
    for from in all {
        for to in all {
            let mut l = TrustLifecycle::new_at(0);
            l.current_state = from;
            let before = l.state_history().len();
            let ok = l.apply_transition(transition(to, 5)).is_ok();
            let expected = to == TrustState::GracePeriod || allowed.contains(&(from, to));
            assert_eq!(ok, expected, "{:?} -> {:?}", from, to);
            if ok {
                assert_eq!(l.current_state, to);
                assert_eq!(l.state_history().len(), before + 1);
            } else {
                assert_eq!(l.current_state, from);
                assert_eq!(l.state_history().len(), before);
            }
        }
    }
}

#[test]
fn scheduling_requires_a_future_time() {
    let mut l = TrustLifecycle::new_at(100);
    assert!(l.schedule_transition_at(transition(TrustState::Establishing, 150), 150).is_err());
    assert!(l.next_transition.is_none());
    assert!(l.schedule_transition_at(transition(TrustState::Active, 500), 150).is_err());
    assert!(l.schedule_transition_at(transition(TrustState::Establishing, 500), 150).is_ok());
    assert_eq!(l.current_state, TrustState::Initial);
    assert_eq!(l.next_transition.as_ref().unwrap().transition_at, 500);
}

#[test]
fn pending_transition_applies_when_due() {
    let mut l = TrustLifecycle::new_at(100);
    l.schedule_transition_at(transition(TrustState::Establishing, 500), 150).unwrap();
    assert_eq!(l.check_pending_transitions_at(499), Ok(None));
    assert_eq!(l.current_state, TrustState::Initial);
    assert_eq!(l.check_pending_transitions_at(500), Ok(Some(TrustState::Establishing)));
    assert_eq!(l.current_state, TrustState::Establishing);
    assert_eq!(l.state_entered_at, 500);
    assert!(l.next_transition.is_none());
    assert_eq!(l.check_pending_transitions_at(600), Ok(None));
}

#[test]
fn scheduling_through_the_clock() {
    let mut l = TrustLifecycle::new();
    let t = StateTransition::new(TrustState::Establishing, "later".to_string()).with_future_transition(NANOS_PER_HOUR);
    assert!(l.schedule_transition(t).is_ok());
    assert_eq!(l.check_pending_transitions(), Ok(None));
    let past = StateTransition::new(TrustState::Establishing, "now".to_string()).with_future_transition(-NANOS_PER_SECOND);
    assert!(l.schedule_transition(past).is_err());
}

#[test]
fn state_duration() {
    let l = TrustLifecycle::new_at(100);
    assert_eq!(l.current_state_duration_at(160), 60);
    assert!(l.current_state_duration() > 0);
}

#[test]
fn state_metadata_per_state() {
    let mut l = TrustLifecycle::new_at(0);
    assert!(l.get_state_metadata(TrustState::Initial).is_none());
    l.add_state_metadata("source".to_string(), serde_json::from_str("\"registry\"").unwrap());
    l.add_state_metadata("score".to_string(), serde_json::from_str("1").unwrap());
    l.add_state_metadata("score".to_string(), serde_json::from_str("2").unwrap());
    let initial = l.get_state_metadata(TrustState::Initial).unwrap();
    assert_eq!(initial.len(), 2);
    assert!(initial.contains(&("score".to_string(), serde_json::from_str("2").unwrap())));
    l.apply_transition(transition(TrustState::Establishing, 5)).unwrap();
    assert!(l.get_state_metadata(TrustState::Establishing).is_none());
    l.add_state_metadata("score".to_string(), serde_json::from_str("3").unwrap());
    assert_eq!(l.get_state_metadata(TrustState::Establishing).unwrap().len(), 1);
    assert_eq!(l.get_state_metadata(TrustState::Initial).unwrap().len(), 2);
}

use plenum::app::drive::Sight;
use plenum::app::types::AcceptDecision;
use plenum::app::PlenumCore;
use plenum::desktop::{device_name_or, is_stale_log, SessionRegistry};

fn sight() -> Sight {
    Sight {
        now_ns: 0,
        now_ms: 0,
        relayed: None,
        pending: 0,
        in_flight: 0,
        window_empty: true,
        next_expected: 0,
    }
}

#[test]
fn sessions_are_controlled_one_by_one() {
    let mut registry = SessionRegistry::new();
    let first = registry.register_session(PlenumCore::new());
    let second = registry.register_session(PlenumCore::new());
    assert_eq!(first, 1);
    assert_eq!(second, 2);

    assert!(registry.respond_to_incoming_command(first, true).is_ok());
    registry.cancel_session_command(second);
    // The steps of each session see what was said to it.
    let one = registry.session(first).unwrap().look(sight());
    let two = registry.session(second).unwrap().look(sight());
    assert_eq!(one.decision, AcceptDecision::Accepted);
    assert!(!one.cancelled);
    assert_eq!(two.decision, AcceptDecision::Pending);
    assert!(two.cancelled);

    assert!(registry.respond_to_incoming_command(second, false).is_ok());
    let control = registry.session_control(second).unwrap();
    assert_eq!(control.decision(), AcceptDecision::Declined);
    // What a session forgets, the registry forgets.
    registry.session(second).unwrap().control().reset_decision();
    let control = registry.session_control(second).unwrap();
    assert_eq!(control.decision(), AcceptDecision::Pending);
    assert!(control.is_cancelled());

    registry.unregister_session(first);
    assert!(registry.session_control(first).is_none());
    assert!(registry.session(first).is_none());
    assert_eq!(
        registry.respond_to_incoming_command(first, true),
        Err("transfer request is no longer active".to_string())
    );
    registry.cancel_session_command(first);
    assert!(registry.session(first).is_none());
    assert_eq!(registry.register_session(PlenumCore::new()), 3);
}

#[test]
fn only_old_logs_are_stale() {
    assert!(is_stale_log(Some("jsonl"), Some(604_801)));
    assert!(!is_stale_log(Some("jsonl"), Some(604_800)));
    assert!(!is_stale_log(Some("jsonl"), None));
    assert!(!is_stale_log(Some("txt"), Some(604_801)));
    assert!(!is_stale_log(None, Some(604_801)));
}

#[test]
fn given_device_name_wins() {
    let name = |s: &str| Some(s.to_string());
    assert_eq!(device_name_or(name("mine"), name("machine")), name("mine"));
    assert_eq!(device_name_or(None, name("machine")), name("machine"));
    assert_eq!(device_name_or(None, None), None);
}

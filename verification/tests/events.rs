use rustream::events::{active_labels, engine_text, events_from_engine, Event, PyEvent, PyViolation, Severity, Violation, ViolationKind};

fn violation(kind: ViolationKind, severity: Severity, end: Option<u64>) -> Violation {
    Violation {
        kind,
        severity,
        confidence: 0.75f32.to_bits(),
        t_start_ms: 1000,
        t_end_ms: end,
        subject: Some("cell phone".to_string()),
    }
}

#[test]
fn violation_names() {
    let all = [
        (ViolationKind::NoFace, "no_face", "NoFace"),
        (ViolationKind::MultipleFaces, "multiple_faces", "MultipleFaces"),
        (ViolationKind::ProhibitedObject, "prohibited_object", "ProhibitedObject"),
        (ViolationKind::HeadTurnedAway, "head_turned_away", "HeadTurnedAway"),
        (ViolationKind::GazeOffScreen, "gaze_off_screen", "GazeOffScreen"),
        (ViolationKind::IdentityMismatch, "identity_mismatch", "IdentityMismatch"),
        (ViolationKind::SignalLost, "signal_lost", "SignalLost"),
    ];
    for (k, name, label) in all {
        assert_eq!(k.name(), name);
        assert_eq!(k.label(), label);
    }
    assert_eq!(Severity::Low.name(), "low");
    assert_eq!(Severity::Medium.name(), "medium");
    assert_eq!(Severity::High.name(), "high");
    assert_eq!(Severity::Critical.name(), "critical");
}

#[test]
fn violation_for_the_caller() {
    let v = violation(ViolationKind::ProhibitedObject, Severity::High, Some(2500));
    let p = PyViolation::from_engine(&v);
    assert_eq!(p.kind, "prohibited_object");
    assert_eq!(p.severity, "high");
    assert_eq!(f32::from_bits(p.confidence), 0.75);
    assert_eq!(p.t_start_ms, 1000);
    assert_eq!(p.t_end_ms, Some(2500));
    assert_eq!(p.subject.as_deref(), Some("cell phone"));
}

#[test]
fn events_for_the_caller() {
    let events = vec![
        Event::ViolationStarted(violation(ViolationKind::NoFace, Severity::Medium, None)),
        Event::ViolationEnded(violation(ViolationKind::NoFace, Severity::Medium, Some(4000))),
        Event::CalibrationProgress { pct: "42.5".to_string() },
        Event::CalibrationComplete,
        Event::Degraded { reason: "LowFrameRate".to_string() },
        Event::Recovered,
    ];
    let p: Vec<PyEvent> = events_from_engine(&events);
    let types: Vec<&str> = p.iter().map(|e| e.event_type.as_str()).collect();
    assert_eq!(types, ["ViolationStarted", "ViolationEnded", "CalibrationProgress", "CalibrationComplete", "Degraded", "Recovered"]);
    assert_eq!(p[0].violation.as_ref().unwrap().kind, "no_face");
    assert_eq!(p[0].violation.as_ref().unwrap().t_end_ms, None);
    assert_eq!(p[1].violation.as_ref().unwrap().t_end_ms, Some(4000));
    assert!(p[0].message.is_none());
    assert_eq!(p[2].message.as_deref(), Some("pct=42.5"));
    assert!(p[2].violation.is_none());
    assert!(p[3].message.is_none() && p[3].violation.is_none());
    assert_eq!(p[4].message.as_deref(), Some("LowFrameRate"));
    assert!(p[5].message.is_none() && p[5].violation.is_none());
}

#[test]
fn active_violation_labels() {
    let labels = active_labels(&vec![ViolationKind::GazeOffScreen, ViolationKind::NoFace]);
    assert_eq!(labels, vec!["GazeOffScreen".to_string(), "NoFace".to_string()]);
    assert!(active_labels(&vec![]).is_empty());
}

#[test]
fn engine_repr_lists_open_kinds() {
    assert_eq!(engine_text(&vec![]), "FusionEngine(active_violations=[])");
    assert_eq!(engine_text(&vec![ViolationKind::NoFace]), "FusionEngine(active_violations=[\"NoFace\"])");
    let labels = active_labels(&vec![ViolationKind::HeadTurnedAway, ViolationKind::SignalLost]);
    assert_eq!(
        engine_text(&vec![ViolationKind::HeadTurnedAway, ViolationKind::SignalLost]),
        format!("FusionEngine(active_violations={:?})", labels)
    );
}

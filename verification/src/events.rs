//! Violations and events: the engine's records and the caller's.

use vstd::prelude::*;
use crate::signals::F32Bits;

verus! {

/// The category of a violation.
#[derive(Clone, Copy, Debug, PartialEq, Eq, Structural)]
pub enum ViolationKind {
    NoFace,
    MultipleFaces,
    ProhibitedObject,
    HeadTurnedAway,
    GazeOffScreen,
    IdentityMismatch,
    SignalLost,
}

/// How grave a violation is.
#[derive(Clone, Copy, Debug, PartialEq, Eq, Structural)]
pub enum Severity {
    Low,
    Medium,
    High,
    Critical,
}

/// The name under which a violation kind is reported: its snake_case name.
pub open spec fn kind_name(k: ViolationKind) -> Seq<char> {
    match k {
        ViolationKind::NoFace => "no_face"@,
        ViolationKind::MultipleFaces => "multiple_faces"@,
        ViolationKind::ProhibitedObject => "prohibited_object"@,
        ViolationKind::HeadTurnedAway => "head_turned_away"@,
        ViolationKind::GazeOffScreen => "gaze_off_screen"@,
        ViolationKind::IdentityMismatch => "identity_mismatch"@,
        ViolationKind::SignalLost => "signal_lost"@,
    }
}

/// The name of a violation kind in the list of open violations: its variant name.
pub open spec fn kind_label(k: ViolationKind) -> Seq<char> {
    match k {
        ViolationKind::NoFace => "NoFace"@,
        ViolationKind::MultipleFaces => "MultipleFaces"@,
        ViolationKind::ProhibitedObject => "ProhibitedObject"@,
        ViolationKind::HeadTurnedAway => "HeadTurnedAway"@,
        ViolationKind::GazeOffScreen => "GazeOffScreen"@,
        ViolationKind::IdentityMismatch => "IdentityMismatch"@,
        ViolationKind::SignalLost => "SignalLost"@,
    }
}

/// The name under which a severity is reported.
pub open spec fn severity_name(s: Severity) -> Seq<char> {
    match s {
        Severity::Low => "low"@,
        Severity::Medium => "medium"@,
        Severity::High => "high"@,
        Severity::Critical => "critical"@,
    }
}

impl ViolationKind {
    /// The snake_case name of this kind.
    pub fn name(&self) -> (s: String)
        ensures
            s@ == kind_name(*self),
    {
        match self {
            ViolationKind::NoFace => String::from_str("no_face"),
            ViolationKind::MultipleFaces => String::from_str("multiple_faces"),
            ViolationKind::ProhibitedObject => String::from_str("prohibited_object"),
            ViolationKind::HeadTurnedAway => String::from_str("head_turned_away"),
            ViolationKind::GazeOffScreen => String::from_str("gaze_off_screen"),
            ViolationKind::IdentityMismatch => String::from_str("identity_mismatch"),
            ViolationKind::SignalLost => String::from_str("signal_lost"),
        }
    }

    /// The variant name of this kind.
    pub fn label(&self) -> (s: String)
        ensures
            s@ == kind_label(*self),
    {
        match self {
            ViolationKind::NoFace => String::from_str("NoFace"),
            ViolationKind::MultipleFaces => String::from_str("MultipleFaces"),
            ViolationKind::ProhibitedObject => String::from_str("ProhibitedObject"),
            ViolationKind::HeadTurnedAway => String::from_str("HeadTurnedAway"),
            ViolationKind::GazeOffScreen => String::from_str("GazeOffScreen"),
            ViolationKind::IdentityMismatch => String::from_str("IdentityMismatch"),
            ViolationKind::SignalLost => String::from_str("SignalLost"),
        }
    }
}

impl Severity {
    /// The name of this severity.
    pub fn name(&self) -> (s: String)
        ensures
            s@ == severity_name(*self),
    {
        match self {
            Severity::Low => String::from_str("low"),
            Severity::Medium => String::from_str("medium"),
            Severity::High => String::from_str("high"),
            Severity::Critical => String::from_str("critical"),
        }
    }
}

/// Different kinds are reported under different names, and so are different severities:
/// a name tells which kind or severity it stands for.
pub proof fn law_names_distinct(a: ViolationKind, b: ViolationKind, x: Severity, y: Severity)
    ensures
        kind_name(a) == kind_name(b) ==> a == b,
        kind_label(a) == kind_label(b) ==> a == b,
        severity_name(x) == severity_name(y) ==> x == y,
{
    reveal_strlit("no_face");
    reveal_strlit("multiple_faces");
    reveal_strlit("prohibited_object");
    reveal_strlit("head_turned_away");
    reveal_strlit("gaze_off_screen");
    reveal_strlit("identity_mismatch");
    reveal_strlit("signal_lost");
    reveal_strlit("NoFace");
    reveal_strlit("MultipleFaces");
    reveal_strlit("ProhibitedObject");
    reveal_strlit("HeadTurnedAway");
    reveal_strlit("GazeOffScreen");
    reveal_strlit("IdentityMismatch");
    reveal_strlit("SignalLost");
    reveal_strlit("low");
    reveal_strlit("medium");
    reveal_strlit("high");
    reveal_strlit("critical");
    if kind_name(a) == kind_name(b) {
        assert(kind_name(a)[0] == kind_name(b)[0]);
    }
    if kind_label(a) == kind_label(b) {
        assert(kind_label(a)[0] == kind_label(b)[0]);
    }
    if severity_name(x) == severity_name(y) {
        assert(severity_name(x)[0] == severity_name(y)[0]);
    }
}

/// The names each kind and severity is reported under: kinds in snake_case in violations,
/// by variant name in the list of open violations; severities in lower case.
pub proof fn law_name_table()
    ensures
        kind_name(ViolationKind::NoFace) == "no_face"@,
        kind_name(ViolationKind::MultipleFaces) == "multiple_faces"@,
        kind_name(ViolationKind::ProhibitedObject) == "prohibited_object"@,
        kind_name(ViolationKind::HeadTurnedAway) == "head_turned_away"@,
        kind_name(ViolationKind::GazeOffScreen) == "gaze_off_screen"@,
        kind_name(ViolationKind::IdentityMismatch) == "identity_mismatch"@,
        kind_name(ViolationKind::SignalLost) == "signal_lost"@,
        kind_label(ViolationKind::NoFace) == "NoFace"@,
        kind_label(ViolationKind::MultipleFaces) == "MultipleFaces"@,
        kind_label(ViolationKind::ProhibitedObject) == "ProhibitedObject"@,
        kind_label(ViolationKind::HeadTurnedAway) == "HeadTurnedAway"@,
        kind_label(ViolationKind::GazeOffScreen) == "GazeOffScreen"@,
        kind_label(ViolationKind::IdentityMismatch) == "IdentityMismatch"@,
        kind_label(ViolationKind::SignalLost) == "SignalLost"@,
        severity_name(Severity::Low) == "low"@,
        severity_name(Severity::Medium) == "medium"@,
        severity_name(Severity::High) == "high"@,
        severity_name(Severity::Critical) == "critical"@,
{
}

/// A violation as the engine reports it.
pub struct Violation {
    pub kind: ViolationKind,
    pub severity: Severity,
    pub confidence: F32Bits,
    pub t_start_ms: u64,
    pub t_end_ms: Option<u64>,
    pub subject: Option<String>,
}

/// An event as the engine reports it. The calibration percentage comes already written
/// with one decimal (`12.5`), and the reason for degrading as its description.
pub enum Event {
    ViolationStarted(Violation),
    ViolationEnded(Violation),
    CalibrationProgress { pct: String },
    CalibrationComplete,
    Degraded { reason: String },
    Recovered,
}

/// A temporal violation as the caller reads it.
pub struct PyViolation {
    pub kind: String,
    pub severity: String,
    pub confidence: F32Bits,
    pub t_start_ms: u64,
    pub t_end_ms: Option<u64>,
    pub subject: Option<String>,
}

/// An event as the caller reads it.
pub struct PyEvent {
    pub event_type: String,
    pub violation: Option<PyViolation>,
    pub message: Option<String>,
}

/// The text an optional string holds, if any.
pub open spec fn opt_text(s: Option<String>) -> Option<Seq<char>> {
    match s {
        Some(t) => Some(t@),
        None => None,
    }
}

/// Whether the caller's violation `p` shows the engine's violation `v`.
pub open spec fn shows_violation(p: PyViolation, v: Violation) -> bool {
    &&& p.kind@ == kind_name(v.kind)
    &&& p.severity@ == severity_name(v.severity)
    &&& p.confidence == v.confidence
    &&& p.t_start_ms == v.t_start_ms
    &&& p.t_end_ms == v.t_end_ms
    &&& opt_text(p.subject) == opt_text(v.subject)
}

/// The name of the kind of an event.
pub open spec fn event_type_name(e: Event) -> Seq<char> {
    match e {
        Event::ViolationStarted(_) => "ViolationStarted"@,
        Event::ViolationEnded(_) => "ViolationEnded"@,
        Event::CalibrationProgress { .. } => "CalibrationProgress"@,
        Event::CalibrationComplete => "CalibrationComplete"@,
        Event::Degraded { .. } => "Degraded"@,
        Event::Recovered => "Recovered"@,
    }
}

/// The message of an event: its percentage for calibration progress, its reason for
/// degrading, none otherwise.
pub open spec fn event_message(e: Event) -> Option<Seq<char>> {
    match e {
        Event::CalibrationProgress { pct } => Some("pct="@ + pct@),
        Event::Degraded { reason } => Some(reason@),
        _ => None,
    }
}

/// Whether the caller's event `p` shows the engine's event `e`.
pub open spec fn shows_event(p: PyEvent, e: Event) -> bool {
    &&& p.event_type@ == event_type_name(e)
    &&& opt_text(p.message) == event_message(e)
    &&& match e {
        Event::ViolationStarted(v) => p.violation matches Some(pv) && shows_violation(pv, v),
        Event::ViolationEnded(v) => p.violation matches Some(pv) && shows_violation(pv, v),
        _ => p.violation is None,
    }
}

/// An event as the caller reads it carries a violation exactly when it starts or ends one,
/// and then shows that violation with its kind, severity, confidence, times and subject; it
/// carries a message exactly for calibration progress (`pct=` and the percentage) and for
/// degrading (the reason); its type is the engine event's variant name.
pub proof fn law_event_fields(p: PyEvent, e: Event)
    requires
        shows_event(p, e),
    ensures
        p.violation is Some <==> (e is ViolationStarted || e is ViolationEnded),
        e matches Event::ViolationStarted(v) ==> p.event_type@ == "ViolationStarted"@ && p.violation->0.kind@
            == kind_name(v.kind) && p.violation->0.severity@ == severity_name(v.severity)
            && p.violation->0.confidence == v.confidence && p.violation->0.t_start_ms == v.t_start_ms
            && p.violation->0.t_end_ms == v.t_end_ms && p.message is None,
        e matches Event::ViolationEnded(v) ==> p.event_type@ == "ViolationEnded"@ && p.violation->0.kind@
            == kind_name(v.kind) && p.violation->0.t_start_ms == v.t_start_ms && p.violation->0.t_end_ms
            == v.t_end_ms && p.message is None,
        e matches Event::CalibrationProgress { pct } ==> p.event_type@ == "CalibrationProgress"@
            && opt_text(p.message) == Some("pct="@ + pct@),
        e is CalibrationComplete ==> p.event_type@ == "CalibrationComplete"@ && p.message is None,
        e matches Event::Degraded { reason } ==> p.event_type@ == "Degraded"@ && opt_text(p.message)
            == Some(reason@),
        e is Recovered ==> p.event_type@ == "Recovered"@ && p.message is None,
{
}

/// The open kinds are listed in order, each variant name in double quotes, separated by a
/// comma and a space, inside `FusionEngine(active_violations=[...])`.
pub proof fn law_engine_repr(kinds: Seq<ViolationKind>, k: ViolationKind)
    ensures
        engine_repr(kinds) == "FusionEngine(active_violations=["@ + quoted_labels(kinds) + "])"@,
        quoted_labels(Seq::empty()) == Seq::<char>::empty(),
        quoted_labels(kinds.push(k)) == (if kinds.len() == 0 {
            Seq::<char>::empty()
        } else {
            quoted_labels(kinds) + ", "@
        }) + "\""@ + kind_label(k) + "\""@,
{
    assert(kinds.push(k).drop_last() =~= kinds);
    if kinds.len() == 0 {
        assert(kinds.push(k)[0] == k);
        assert(Seq::<char>::empty() + "\""@ + kind_label(k) + "\""@ =~= "\""@ + kind_label(k) + "\""@);
    } else {
        assert(quoted_labels(kinds) + ", \""@ + kind_label(k) + "\""@ =~= quoted_labels(kinds) + ", "@ + "\""@
            + kind_label(k) + "\""@) by {
            reveal_strlit(", \"");
            reveal_strlit(", ");
            reveal_strlit("\"");
        }
    }
}

/// A copy of an optional string.
pub fn copy_text(s: &Option<String>) -> (c: Option<String>)
    ensures
        opt_text(c) == opt_text(*s),
{
    match s {
        Some(t) => Some(t.clone()),
        None => None,
    }
}

impl PyViolation {
    /// The caller's record of the engine's violation `v`.
    pub fn from_engine(v: &Violation) -> (p: PyViolation)
        ensures
            shows_violation(p, *v),
    {
        PyViolation {
            kind: v.kind.name(),
            severity: v.severity.name(),
            confidence: v.confidence,
            t_start_ms: v.t_start_ms,
            t_end_ms: v.t_end_ms,
            subject: copy_text(&v.subject),
        }
    }
}

impl PyEvent {
    /// The caller's record of the engine's event `e`.
    pub fn from_engine(e: &Event) -> (p: PyEvent)
        ensures
            shows_event(p, *e),
    {
        match e {
            Event::ViolationStarted(v) => PyEvent {
                event_type: String::from_str("ViolationStarted"),
                violation: Some(PyViolation::from_engine(v)),
                message: None,
            },
            Event::ViolationEnded(v) => PyEvent {
                event_type: String::from_str("ViolationEnded"),
                violation: Some(PyViolation::from_engine(v)),
                message: None,
            },
            Event::CalibrationProgress { pct } => {
                let message = String::from_str("pct=").concat(pct.as_str());
                PyEvent {
                    event_type: String::from_str("CalibrationProgress"),
                    violation: None,
                    message: Some(message),
                }
            },
            Event::CalibrationComplete => PyEvent {
                event_type: String::from_str("CalibrationComplete"),
                violation: None,
                message: None,
            },
            Event::Degraded { reason } => PyEvent {
                event_type: String::from_str("Degraded"),
                violation: None,
                message: Some(reason.clone()),
            },
            Event::Recovered => PyEvent {
                event_type: String::from_str("Recovered"),
                violation: None,
                message: None,
            },
        }
    }
}

/// The caller's records of the engine's events `events`, in order.
pub fn events_from_engine(events: &Vec<Event>) -> (p: Vec<PyEvent>)
    ensures
        p@.len() == events@.len(),
        forall|i: int| 0 <= i < events@.len() ==> shows_event(#[trigger] p@[i], events@[i]),
{
    let mut p: Vec<PyEvent> = Vec::new();
    for i in 0..events.len()
        invariant
            p@.len() == i,
            forall|j: int| 0 <= j < i ==> shows_event(#[trigger] p@[j], events@[j]),
    {
        p.push(PyEvent::from_engine(&events[i]));
    }
    p
}

/// The variant names of the open violation kinds `kinds`, in order.
pub fn active_labels(kinds: &Vec<ViolationKind>) -> (labels: Vec<String>)
    ensures
        labels@.len() == kinds@.len(),
        forall|i: int| 0 <= i < kinds@.len() ==> #[trigger] labels@[i]@ == kind_label(kinds@[i]),
{
    let mut labels: Vec<String> = Vec::new();
    for i in 0..kinds.len()
        invariant
            labels@.len() == i,
            forall|j: int| 0 <= j < i ==> #[trigger] labels@[j]@ == kind_label(kinds@[j]),
    {
        labels.push(kinds[i].label());
    }
    labels
}

/// The open violation kinds `kinds` as a list of quoted variant names: `["NoFace", ...]`.
pub open spec fn quoted_labels(kinds: Seq<ViolationKind>) -> Seq<char>
    decreases kinds.len(),
{
    if kinds.len() == 0 {
        Seq::empty()
    } else if kinds.len() == 1 {
        "\""@ + kind_label(kinds[0]) + "\""@
    } else {
        quoted_labels(kinds.drop_last()) + ", \""@ + kind_label(kinds.last()) + "\""@
    }
}

/// The text that describes a fusion engine: its open violation kinds.
pub open spec fn engine_repr(kinds: Seq<ViolationKind>) -> Seq<char> {
    "FusionEngine(active_violations=["@ + quoted_labels(kinds) + "])"@
}

/// A description of a fusion engine whose open violation kinds are `kinds`.
pub fn engine_text(kinds: &Vec<ViolationKind>) -> (s: String)
    ensures
        s@ == engine_repr(kinds@),
{
    let mut s = String::from_str("FusionEngine(active_violations=[");
    let ghost start = s@;
    for i in 0..kinds.len()
        invariant
            start == "FusionEngine(active_violations=["@,
            s@ == start + quoted_labels(kinds@.take(i as int)),
    {
        let ghost before = s@;
        if i == 0 {
            s.append("\"");
        } else {
            s.append(", \"");
        }
        let label = kinds[i].label();
        s.append(label.as_str());
        s.append("\"");
        proof {
            let t = kinds@.take(i + 1);
            assert(t.drop_last() =~= kinds@.take(i as int));
            assert(t.last() == kinds@[i as int]);
            if i == 0 {
                assert(kinds@.take(0) =~= Seq::<ViolationKind>::empty());
            }
            assert(s@ =~= start + quoted_labels(t));
        }
    }
    assert(kinds@.take(kinds@.len() as int) =~= kinds@);
    s.append("])");
    s
}

} // verus!

use rustream::errors::{
    config_apply_error, config_parse_error, config_read_error, config_text_error, detector_build_error,
    pipeline_start_error, session_read_error, session_record_error, source_open_error, source_spec_error, ErrorKind,
};
use rustream::pipeline::{models_dir, pipeline_text, PipelineState};

#[test]
fn pipeline_stops_once() {
    let mut s = PipelineState::new();
    assert!(!s.stop());
    assert!(s.check_start().is_ok());
    s.mark_started();
    assert!(s.is_running(true));
    assert!(!s.is_running(false));
    assert!(s.stop());
    assert!(!s.started);
    assert!(!s.stop());
}

#[test]
fn pipeline_without_detector() {
    let mut s = PipelineState { has_detector: false, started: false };
    let e = s.check_start().unwrap_err();
    assert_eq!(e.kind, ErrorKind::Runtime);
    assert_eq!(e.message, "Pipeline detector is uninitialized or closed");
    let e = s.check_update().unwrap_err();
    assert_eq!(e.message, "Pipeline detector is uninitialized");
    assert!(!s.is_running(true));
    assert!(!s.stop());
}

#[test]
fn models_directory_defaults_to_models() {
    assert_eq!(models_dir(None), "models");
    assert_eq!(models_dir(Some("/opt/models".to_string())), "/opt/models");
}

#[test]
fn error_messages() {
    let e = config_read_error("cfg.toml", "No such file");
    assert_eq!(e.kind, ErrorKind::Io);
    assert_eq!(e.message, "Could not read config file 'cfg.toml': No such file");
    let e = config_parse_error("cfg.toml", "expected `=`");
    assert_eq!(e.kind, ErrorKind::Value);
    assert_eq!(e.message, "Invalid TOML config in 'cfg.toml': expected `=`");
    assert_eq!(config_text_error("bad").message, "Invalid TOML config: bad");
    assert_eq!(config_text_error("bad").kind, ErrorKind::Value);
    let e = session_read_error("s.jsonl", "denied");
    assert_eq!(e.kind, ErrorKind::Io);
    assert_eq!(e.message, "Could not read session file 's.jsonl': denied");
    let e = session_record_error("s.jsonl", 12, "EOF while parsing");
    assert_eq!(e.kind, ErrorKind::Value);
    assert_eq!(e.message, "s.jsonl:12: invalid Signals JSON: EOF while parsing");
    assert_eq!(detector_build_error("x").message, "Failed to build detector: x");
    assert_eq!(source_spec_error("cam", "unknown").message, "Invalid source spec 'cam': unknown");
    assert_eq!(source_spec_error("cam", "unknown").kind, ErrorKind::Value);
    assert_eq!(source_open_error("file:a.mp4", "gone").kind, ErrorKind::Io);
    assert_eq!(source_open_error("file:a.mp4", "gone").message, "Failed to open source 'file:a.mp4': gone");
    assert_eq!(pipeline_start_error("busy").message, "Failed to start pipeline: busy");
    assert_eq!(config_apply_error("no").kind, ErrorKind::Runtime);
    assert_eq!(config_apply_error("no").message, "Failed to update config: no");
}

#[test]
fn pipeline_repr_says_whether_it_runs() {
    assert_eq!(pipeline_text(true), "Pipeline(running=true)");
    assert_eq!(pipeline_text(false), "Pipeline(running=false)");
}

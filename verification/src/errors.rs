//! The errors the bindings raise: which Python exception, and with what message.

use vstd::prelude::*;
use crate::text::{decimal, decimal_value, law_decimal, push_decimal};

verus! {

/// The Python exception an error is raised as.
#[derive(Clone, Copy, Debug, PartialEq, Eq, Structural)]
pub enum ErrorKind {
    /// `IOError`
    Io,
    /// `ValueError`
    Value,
    /// `RuntimeError`
    Runtime,
}

/// An error to raise: its exception and its message.
pub struct BindingError {
    pub kind: ErrorKind,
    pub message: String,
}

/// `prefix`, then `subject` in single quotes, a colon, and `detail`.
pub open spec fn quoted_message(prefix: Seq<char>, subject: Seq<char>, detail: Seq<char>) -> Seq<char> {
    prefix + "'"@ + subject + "': "@ + detail
}

/// A quoted message is the prefix, the subject between single quotes, a colon and a space,
/// then the detail; a record message is the path, a colon, the line number in decimal, and
/// `: invalid Signals JSON: ` before the detail.
pub proof fn law_message_shapes(prefix: Seq<char>, subject: Seq<char>, detail: Seq<char>, path: Seq<char>, number: nat)
    ensures
        quoted_message(prefix, subject, detail) == prefix + seq!['\''] + subject + seq!['\'', ':', ' '] + detail,
        record_message(path, number, detail) == path + seq![':'] + decimal(number) + ": invalid Signals JSON: "@
            + detail,
        decimal_value(decimal(number)) == number,
{
    reveal_strlit("'");
    reveal_strlit("': ");
    reveal_strlit(":");
    assert("'"@ =~= seq!['\'']);
    assert("': "@ =~= seq!['\'', ':', ' ']);
    assert(":"@ =~= seq![':']);
    law_decimal(number);
}

/// An error whose message is `prefix`, `subject` in single quotes, a colon and `detail`.
fn quoted_error(kind: ErrorKind, prefix: &str, subject: &str, detail: &str) -> (e: BindingError)
    ensures
        e.kind == kind,
        e.message@ == quoted_message(prefix@, subject@, detail@),
{
    let mut message = String::from_str(prefix);
    message.append("'");
    message.append(subject);
    message.append("': ");
    message.append(detail);
    BindingError { kind, message }
}

/// An error whose message is `prefix` followed by `detail`.
fn prefixed_error(kind: ErrorKind, prefix: &str, detail: &str) -> (e: BindingError)
    ensures
        e.kind == kind,
        e.message@ == prefix@ + detail@,
{
    let message = String::from_str(prefix).concat(detail);
    BindingError { kind, message }
}

/// The configuration file at `path` could not be read (`detail` says why).
pub fn config_read_error(path: &str, detail: &str) -> (e: BindingError)
    ensures
        e.kind == ErrorKind::Io,
        e.message@ == quoted_message("Could not read config file "@, path@, detail@),
{
    quoted_error(ErrorKind::Io, "Could not read config file ", path, detail)
}

/// The configuration file at `path` is not a valid TOML configuration.
pub fn config_parse_error(path: &str, detail: &str) -> (e: BindingError)
    ensures
        e.kind == ErrorKind::Value,
        e.message@ == quoted_message("Invalid TOML config in "@, path@, detail@),
{
    quoted_error(ErrorKind::Value, "Invalid TOML config in ", path, detail)
}

/// A configuration given as TOML text is not valid.
pub fn config_text_error(detail: &str) -> (e: BindingError)
    ensures
        e.kind == ErrorKind::Value,
        e.message@ == "Invalid TOML config: "@ + detail@,
{
    prefixed_error(ErrorKind::Value, "Invalid TOML config: ", detail)
}

/// The session file at `path` could not be read.
pub fn session_read_error(path: &str, detail: &str) -> (e: BindingError)
    ensures
        e.kind == ErrorKind::Io,
        e.message@ == quoted_message("Could not read session file "@, path@, detail@),
{
    quoted_error(ErrorKind::Io, "Could not read session file ", path, detail)
}

/// The message for a record on line `number` of the session file at `path` that is not a
/// frame of signals.
pub open spec fn record_message(path: Seq<char>, number: nat, detail: Seq<char>) -> Seq<char> {
    path + ":"@ + decimal(number) + ": invalid Signals JSON: "@ + detail
}

/// The record on line `number` of the session file at `path` is not a frame of signals.
pub fn session_record_error(path: &str, number: usize, detail: &str) -> (e: BindingError)
    ensures
        e.kind == ErrorKind::Value,
        e.message@ == record_message(path@, number as nat, detail@),
{
    let mut message = String::from_str(path);
    message.append(":");
    push_decimal(&mut message, number as u64);
    message.append(": invalid Signals JSON: ");
    message.append(detail);
    BindingError { kind: ErrorKind::Value, message }
}

/// The detection pipeline could not be built.
pub fn detector_build_error(detail: &str) -> (e: BindingError)
    ensures
        e.kind == ErrorKind::Runtime,
        e.message@ == "Failed to build detector: "@ + detail@,
{
    prefixed_error(ErrorKind::Runtime, "Failed to build detector: ", detail)
}

/// The pipeline has no detector to start.
pub fn pipeline_closed_error() -> (e: BindingError)
    ensures
        e.kind == ErrorKind::Runtime,
        e.message@ == "Pipeline detector is uninitialized or closed"@,
{
    BindingError {
        kind: ErrorKind::Runtime,
        message: String::from_str("Pipeline detector is uninitialized or closed"),
    }
}

/// The pipeline has no detector to configure.
pub fn pipeline_uninitialized_error() -> (e: BindingError)
    ensures
        e.kind == ErrorKind::Runtime,
        e.message@ == "Pipeline detector is uninitialized"@,
{
    BindingError { kind: ErrorKind::Runtime, message: String::from_str("Pipeline detector is uninitialized") }
}

/// The source specification `spec` names no source.
pub fn source_spec_error(spec: &str, detail: &str) -> (e: BindingError)
    ensures
        e.kind == ErrorKind::Value,
        e.message@ == quoted_message("Invalid source spec "@, spec@, detail@),
{
    quoted_error(ErrorKind::Value, "Invalid source spec ", spec, detail)
}

/// The source named by `spec` could not be opened.
pub fn source_open_error(spec: &str, detail: &str) -> (e: BindingError)
    ensures
        e.kind == ErrorKind::Io,
        e.message@ == quoted_message("Failed to open source "@, spec@, detail@),
{
    quoted_error(ErrorKind::Io, "Failed to open source ", spec, detail)
}

/// The pipeline's workers could not be started.
pub fn pipeline_start_error(detail: &str) -> (e: BindingError)
    ensures
        e.kind == ErrorKind::Runtime,
        e.message@ == "Failed to start pipeline: "@ + detail@,
{
    prefixed_error(ErrorKind::Runtime, "Failed to start pipeline: ", detail)
}

/// The running pipeline refused a new configuration.
pub fn config_apply_error(detail: &str) -> (e: BindingError)
    ensures
        e.kind == ErrorKind::Runtime,
        e.message@ == "Failed to update config: "@ + detail@,
{
    prefixed_error(ErrorKind::Runtime, "Failed to update config: ", detail)
}

} // verus!

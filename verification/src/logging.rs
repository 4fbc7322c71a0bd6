//! The diagnostic logger: an enable/disable handle and five formatting
//! functions that render timestamped, sanitized, leveled lines to standard
//! output. Each function returns the line it wrote, or nothing when the
//! handle is disabled, so that callers and tests can hold the output to its
//! stated shape.

use std::io::Write;
use vstd::prelude::*;

use crate::render::duration_text;
use crate::render::format_duration;
use crate::text::sanitize_log_message;
use crate::text::sanitize_seq;

verus! {

/// The process-wide logging configuration, passed explicitly to every log
/// call: a single boolean, set once at startup.
#[derive(Clone, Copy, Debug)]
pub struct Logger {
    pub enabled: bool,
}

/// Builds the logging handle that the whole process shares; callers thread
/// it to wherever log lines are rendered.
pub fn init_global_logger(enabled: bool) -> (l: Logger)
    ensures
        l.enabled == enabled,
{
    Logger { enabled }
}

/// Whether the handle has logging switched on.
pub fn is_logging_enabled(logger: &Logger) -> (r: bool)
    ensures
        r == logger.enabled,
{
    logger.enabled
}

/// A wall-clock `HH:MM:SS` timestamp: eight characters, two digit pairs per
/// field, colons between.
pub open spec fn hms_text(ts: Seq<char>) -> bool {
    &&& ts.len() == 8
    &&& ts[2] == ':'
    &&& ts[5] == ':'
    &&& forall|i: int|
        0 <= i < 8 && i != 2 && i != 5 ==> 0x30 <= (#[trigger] ts[i]) as u32 <= 0x39
}

/// The current wall-clock time of day.
///
/// Relies on `chrono::Local::now` formatted with `%H:%M:%S`: chrono's
/// formatter zero-pads hour, minute and second to two digits each, so the
/// result is always eight ASCII characters with colons at positions 2 and 5.
#[verifier::external_body]
fn now_hms() -> (r: String)
    ensures
        hms_text(r@),
{
    format!("{}", chrono::Local::now().format("%H:%M:%S"))
}

/// Writes one finished line to standard output.
///
/// Relies on `writeln!` to the standard output stream for the side effect;
/// a write error is ignored, as a log line is best-effort.
#[verifier::external_body]
fn print_line(line: &str) {
    let _ = writeln!(std::io::stdout(), "{}", line);
}

/// A timestamped line: the timestamp in brackets, a space, then the body.
pub open spec fn stamped(ts: Seq<char>, body: Seq<char>) -> Seq<char> {
    "["@ + ts + "] "@ + body
}

/// The body of an informational line.
pub open spec fn info_body(message: Seq<char>) -> Seq<char> {
    "\u{2139}\u{fe0f} "@ + sanitize_seq(message)
}

/// The body of a warning line.
pub open spec fn warning_body(operation: Seq<char>, warning: Seq<char>) -> Seq<char> {
    "\u{26a0}\u{fe0f} "@ + sanitize_seq(operation) + ": "@ + sanitize_seq(warning)
}

/// The body of an error line.
pub open spec fn error_body(operation: Seq<char>, error: Seq<char>) -> Seq<char> {
    "\u{274c} "@ + sanitize_seq(operation) + " failed: "@ + sanitize_seq(error)
}

/// The body of a request line without a model.
pub open spec fn request_body(method: Seq<char>, path: Seq<char>) -> Seq<char> {
    "\u{1f4e5} "@ + method + " "@ + sanitize_seq(path)
}

/// The body of a request line that names a model.
pub open spec fn request_body_model(
    method: Seq<char>,
    path: Seq<char>,
    model: Seq<char>,
) -> Seq<char> {
    request_body(method, path) + " (model: "@ + sanitize_seq(model) + ")"@
}

/// The body of a timed line: a caller-chosen prefix, the operation, and the
/// elapsed duration.
pub open spec fn timed_body(prefix: Seq<char>, operation: Seq<char>, nanos: u128) -> Seq<char> {
    prefix + " "@ + operation + " | "@ + duration_text(nanos)
}

/// Renders and writes an informational message; returns the line written,
/// and nothing at all when the handle is disabled.
pub fn log_info(logger: &Logger, message: &str) -> (r: Option<String>)
    ensures
        r is Some <==> logger.enabled,
        r matches Some(line) ==> exists|ts: Seq<char>|
            #[trigger] hms_text(ts) && line@ == stamped(ts, info_body(message@)),
{
    if logger.enabled {
        let ts = now_hms();
        let mut line = String::from_str("[");
        line.append(ts.as_str());
        line.append("] ");
        line.append("\u{2139}\u{fe0f} ");
        let clean = sanitize_log_message(message);
        line.append(clean.as_str());
        print_line(line.as_str());
        proof {
            assert(line@ =~= stamped(ts@, info_body(message@)));
        }
        Some(line)
    } else {
        None
    }
}

/// Renders and writes a warning about an operation; returns the line
/// written, and nothing at all when the handle is disabled.
pub fn log_warning(logger: &Logger, operation: &str, warning: &str) -> (r: Option<String>)
    ensures
        r is Some <==> logger.enabled,
        r matches Some(line) ==> exists|ts: Seq<char>|
            #[trigger] hms_text(ts) && line@ == stamped(ts, warning_body(operation@, warning@)),
{
    if logger.enabled {
        let ts = now_hms();
        let mut line = String::from_str("[");
        line.append(ts.as_str());
        line.append("] ");
        line.append("\u{26a0}\u{fe0f} ");
        let op = sanitize_log_message(operation);
        line.append(op.as_str());
        line.append(": ");
        let warn = sanitize_log_message(warning);
        line.append(warn.as_str());
        print_line(line.as_str());
        proof {
            assert(line@ =~= stamped(ts@, warning_body(operation@, warning@)));
        }
        Some(line)
    } else {
        None
    }
}

/// Renders and writes a failure of an operation; returns the line written,
/// and nothing at all when the handle is disabled.
pub fn log_error(logger: &Logger, operation: &str, error: &str) -> (r: Option<String>)
    ensures
        r is Some <==> logger.enabled,
        r matches Some(line) ==> exists|ts: Seq<char>|
            #[trigger] hms_text(ts) && line@ == stamped(ts, error_body(operation@, error@)),
{
    if logger.enabled {
        let ts = now_hms();
        let mut line = String::from_str("[");
        line.append(ts.as_str());
        line.append("] ");
        line.append("\u{274c} ");
        let op = sanitize_log_message(operation);
        line.append(op.as_str());
        line.append(" failed: ");
        let err = sanitize_log_message(error);
        line.append(err.as_str());
        print_line(line.as_str());
        proof {
            assert(line@ =~= stamped(ts@, error_body(operation@, error@)));
        }
        Some(line)
    } else {
        None
    }
}

/// Renders and writes an inbound request, optionally naming the model it
/// addresses; returns the line written, and nothing at all when the handle
/// is disabled.
pub fn log_request(logger: &Logger, method: &str, path: &str, model: Option<&str>) -> (r: Option<
    String,
>)
    ensures
        r is Some <==> logger.enabled,
        r matches Some(line) ==> (model matches Some(m) ==> exists|ts: Seq<char>|
            #[trigger] hms_text(ts) && line@ == stamped(ts, request_body_model(method@, path@, m@))),
        r matches Some(line) ==> (model is None ==> exists|ts: Seq<char>|
            #[trigger] hms_text(ts) && line@ == stamped(ts, request_body(method@, path@))),
{
    if logger.enabled {
        let ts = now_hms();
        let mut line = String::from_str("[");
        line.append(ts.as_str());
        line.append("] ");
        line.append("\u{1f4e5} ");
        line.append(method);
        line.append(" ");
        let clean_path = sanitize_log_message(path);
        line.append(clean_path.as_str());
        match model {
            Some(m) => {
                line.append(" (model: ");
                let clean_model = sanitize_log_message(m);
                line.append(clean_model.as_str());
                line.append(")");
                proof {
                    assert(line@ =~= stamped(ts@, request_body_model(method@, path@, m@)));
                }
            },
            None => {
                proof {
                    assert(line@ =~= stamped(ts@, request_body(method@, path@)));
                }
            },
        }
        print_line(line.as_str());
        Some(line)
    } else {
        None
    }
}

/// The opaque monotonic-clock instant of `std::time`.
#[verifier::external_type_specification]
#[verifier::external_body]
pub struct ExInstant(std::time::Instant);

/// The time that has passed since `start`.
///
/// Relies on `std::time::Instant::elapsed`; the value depends on the clock,
/// so nothing is promised of it.
#[verifier::external_body]
fn instant_elapsed(start: &std::time::Instant) -> std::time::Duration {
    start.elapsed()
}

/// The whole number of nanoseconds a duration holds.
///
/// Relies on `std::time::Duration::as_nanos`; the duration is opaque here,
/// so nothing is promised of the count.
#[verifier::external_body]
fn duration_nanos(d: &std::time::Duration) -> u128 {
    d.as_nanos()
}

/// Renders and writes an operation together with the time it took since
/// `start`, in adaptive units; returns the line written, and nothing at all
/// when the handle is disabled.
pub fn log_timed(logger: &Logger, prefix: &str, operation: &str, start: std::time::Instant) -> (r:
    Option<String>)
    ensures
        r is Some <==> logger.enabled,
        r matches Some(line) ==> exists|ts: Seq<char>, nanos: u128|
            hms_text(ts) && line@ == #[trigger] stamped(ts, timed_body(prefix@, operation@, nanos)),
{
    if logger.enabled {
        let d = instant_elapsed(&start);
        let nanos = duration_nanos(&d);
        let ts = now_hms();
        let mut line = String::from_str("[");
        line.append(ts.as_str());
        line.append("] ");
        line.append(prefix);
        line.append(" ");
        line.append(operation);
        line.append(" | ");
        let dur = format_duration(nanos);
        line.append(dur.as_str());
        print_line(line.as_str());
        proof {
            assert(line@ =~= stamped(ts@, timed_body(prefix@, operation@, nanos)));
        }
        Some(line)
    } else {
        None
    }
}

} // verus!

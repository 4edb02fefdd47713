//! Startup-time configuration: the optional wait before each response and
//! the choice of a payload source. Everything here is validated exactly once,
//! before the listener binds; a value that leaves this module needs no further
//! checks on the request path.

use vstd::prelude::*;
use vstd::string::StringSliceAdditionalSpecFns;

verus! {

/// A configuration fault detected before the server starts. None of these can
/// occur once requests are being served.
#[derive(Clone, Copy, Debug, PartialEq, Eq, Structural)]
pub enum ConfigError {
    /// A status code outside the accepted range.
    InvalidStatusCode,
    /// A payload was requested but no source was designated.
    MissingPayloadSource,
    /// More than one payload source was designated at once.
    ConflictingPayloadSource,
    /// The wait flag did not parse as a duration.
    InvalidWait,
}

/// A fixed, non-negative span of time to wait before answering a request,
/// split into whole seconds and the remaining nanoseconds.
#[derive(Clone, Copy, Debug, PartialEq, Eq, Structural)]
pub struct Delay {
    pub secs: u64,
    pub nanos: u32,
}

impl Delay {
    /// The nanosecond part never reaches a full second.
    pub open spec fn wf(&self) -> bool {
        self.nanos < 1_000_000_000
    }
}

/// The duration, as whole seconds and remaining nanoseconds, that the
/// human-readable text denotes, or `None` where the text is not a duration.
pub uninterp spec fn parsed_wait(s: Seq<char>) -> Option<(u64, u32)>;

/// The longest wait text accepted, in bytes. The underlying parser builds a
/// standard-library duration, whose constructor aborts when a seconds total
/// of exactly `u64::MAX` meets a full second of accumulated nanoseconds;
/// spelling such a pair takes at least 27 bytes (20 digits, a seconds unit
/// and a subsecond term), while a seconds total that large cannot even be
/// written in 20. Any realistic wait fits well within the cap.
pub const MAX_WAIT_TEXT_BYTES: usize = 20;

/// Relies on humantime::parse_duration: the result depends on the characters
/// alone, and a std::time::Duration keeps its nanosecond part below one
/// billion. The length bound keeps the call away from the one input family
/// on which it would abort (see `MAX_WAIT_TEXT_BYTES`).
#[verifier::external_body]
fn parse_duration_text(s: &str) -> (r: Option<(u64, u32)>)
    requires
        s.spec_bytes().len() <= MAX_WAIT_TEXT_BYTES,
    ensures
        r == parsed_wait(s@),
        r matches Some(d) ==> d.1 < 1_000_000_000,
{
    match humantime::parse_duration(s) {
        Ok(d) => Some((d.as_secs(), d.subsec_nanos())),
        Err(_) => None,
    }
}

/// Parse the wait flag. Succeeds exactly on the texts, up to the length cap,
/// that denote a duration, and then carries that duration; any other text,
/// and any text over the cap, is a configuration error.
pub fn parse_wait(s: &str) -> (r: Result<Delay, ConfigError>)
    ensures
        s.spec_bytes().len() <= MAX_WAIT_TEXT_BYTES ==> match parsed_wait(s@) {
            Some(d) => r == Ok::<Delay, ConfigError>(Delay { secs: d.0, nanos: d.1 }),
            None => r == Err::<Delay, ConfigError>(ConfigError::InvalidWait),
        },
        s.spec_bytes().len() > MAX_WAIT_TEXT_BYTES ==> r == Err::<Delay, ConfigError>(
            ConfigError::InvalidWait,
        ),
        r matches Ok(w) ==> w.wf(),
{
    if s.as_bytes().len() > MAX_WAIT_TEXT_BYTES {
        return Err(ConfigError::InvalidWait);
    }
    match parse_duration_text(s) {
        Some(d) => Ok(Delay { secs: d.0, nanos: d.1 }),
        None => Err(ConfigError::InvalidWait),
    }
}

/// The one place a payload may come from. Exactly one is designated per run;
/// the selection is settled before the server starts.
pub enum PayloadSource {
    /// A literal given inline on the command line.
    Data(String),
    /// The path of a file whose full contents become the payload.
    File(String),
    /// Standard input, read once until end-of-stream.
    StdIn,
}

/// How many payload sources a configuration designates.
pub open spec fn designated_sources(data: Option<String>, stdin: bool, file: Option<String>) -> int {
    (if data is Some { 1int } else { 0int })
        + (if stdin { 1int } else { 0int })
        + (if file is Some { 1int } else { 0int })
}

/// Settle which payload source to use. Succeeds exactly when one source is
/// designated, and then carries that source verbatim; zero sources or more
/// than one are configuration errors, told apart in the result.
pub fn select_payload_source(data: Option<String>, stdin: bool, file: Option<String>) -> (r:
    Result<PayloadSource, ConfigError>)
    ensures
        designated_sources(data, stdin, file) == 0 ==> r == Err::<PayloadSource, ConfigError>(
            ConfigError::MissingPayloadSource,
        ),
        designated_sources(data, stdin, file) > 1 ==> r == Err::<PayloadSource, ConfigError>(
            ConfigError::ConflictingPayloadSource,
        ),
        designated_sources(data, stdin, file) == 1 ==> r is Ok,
        r is Ok ==> designated_sources(data, stdin, file) == 1,
        data matches Some(d) ==> (!stdin && file is None ==> r == Ok::<
            PayloadSource,
            ConfigError,
        >(PayloadSource::Data(d))),
        data is None && stdin && file is None ==> r == Ok::<PayloadSource, ConfigError>(
            PayloadSource::StdIn,
        ),
        file matches Some(p) ==> (data is None && !stdin ==> r == Ok::<
            PayloadSource,
            ConfigError,
        >(PayloadSource::File(p))),
{
    match (data, stdin, file) {
        (Some(d), false, None) => Ok(PayloadSource::Data(d)),
        (None, true, None) => Ok(PayloadSource::StdIn),
        (None, false, Some(p)) => Ok(PayloadSource::File(p)),
        (None, false, None) => Err(ConfigError::MissingPayloadSource),
        _ => Err(ConfigError::ConflictingPayloadSource),
    }
}

} // verus!

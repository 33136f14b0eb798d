//! The collector: from one run of the speed-test tool to a record or a classified failure.

use vstd::prelude::*;
use vstd::string::StringExecFns;
use vstd::utf8::{decode_utf8, valid_utf8};
use crate::json::{json_document, parsed_view, Json, JsonView};
use crate::record::{normalized, NetworkMetrics, SpeedTestResult, SpeedTestResultView};
use crate::scheduler::{Phase, Scheduler};
use crate::schema::{decoded, lemma_removed_member_is_missing, Field, SchemaError};

verus! {

/// The cadence, in seconds, of a monitor that was given none.
pub const DEFAULT_CADENCE_SECS: u64 = 60;

/// Why a measurement cycle produced no record.
#[derive(Debug, Clone, PartialEq, Eq)]
pub enum CollectionError {
    /// The tool could not be run or exited with a failure status. Holds the
    /// tool's standard error text, or the reason why it could not be started.
    ExecutionError(String),
    /// The tool exited successfully but its output is not a result of the
    /// expected shape. Holds the diagnostic.
    ParseError(String),
}

/// The mathematical model of a [`CollectionError`].
pub enum CollectionErrorView {
    ExecutionError(Seq<char>),
    ParseError(Seq<char>),
}

impl View for CollectionError {
    type V = CollectionErrorView;

    open spec fn view(&self) -> CollectionErrorView {
        match self {
            CollectionError::ExecutionError(text) => CollectionErrorView::ExecutionError(text@),
            CollectionError::ParseError(text) => CollectionErrorView::ParseError(text@),
        }
    }
}

impl CollectionErrorView {
    /// The line that describes the error in a log.
    pub open spec fn description(self) -> Seq<char> {
        match self {
            CollectionErrorView::ExecutionError(text) => "Speedtest failed: "@ + text,
            CollectionErrorView::ParseError(text) => "Failed to parse speedtest output: "@ + text,
        }
    }
}

impl CollectionError {
    /// The line that describes the error in a log.
    pub fn describe(&self) -> (r: String)
        ensures
            r@ == self@.description(),
    {
        match self {
            CollectionError::ExecutionError(text) => {
                let mut line = String::from_str("Speedtest failed: ");
                line.append(text.as_str());
                line
            },
            CollectionError::ParseError(text) => {
                let mut line = String::from_str("Failed to parse speedtest output: ");
                line.append(text.as_str());
                line
            },
        }
    }
}

/// What became of one attempt to run the tool.
#[derive(Debug, Clone, PartialEq, Eq)]
pub enum ToolAttempt {
    /// The tool could not be started.
    NotStarted { reason: String },
    /// The tool ran to its end.
    Exited { success: bool, stdout: Vec<u8>, stderr: Vec<u8> },
}

/// The mathematical model of a [`ToolAttempt`].
pub enum ToolAttemptView {
    NotStarted { reason: Seq<char> },
    Exited { success: bool, stdout: Seq<u8>, stderr: Seq<u8> },
}

impl View for ToolAttempt {
    type V = ToolAttemptView;

    open spec fn view(&self) -> ToolAttemptView {
        match self {
            ToolAttempt::NotStarted { reason } => ToolAttemptView::NotStarted { reason: reason@ },
            ToolAttempt::Exited { success, stdout, stderr } => ToolAttemptView::Exited {
                success: *success,
                stdout: stdout@,
                stderr: stderr@,
            },
        }
    }
}

/// What `String::from_utf8_lossy` makes of a sequence of bytes.
pub uninterp spec fn utf8_lossy(bytes: Seq<u8>) -> Seq<char>;

/// Decodes bytes with `String::from_utf8_lossy`: valid UTF-8 decodes to the
/// text that it encodes; of other input the contract only names the result.
#[verifier::external_body]
fn decode_lossy(bytes: &[u8]) -> (r: String)
    ensures
        r@ == utf8_lossy(bytes@),
        valid_utf8(bytes@) ==> r@ == decode_utf8(bytes@),
{
    String::from_utf8_lossy(bytes).into_owned()
}

/// Reads the clock with `chrono::Utc::now` and returns `DateTime::timestamp`
/// of it, the seconds since the Unix epoch. Nothing is claimed of the value.
/// `chrono` stops the process where the system clock reads before the epoch.
#[verifier::external_body]
fn epoch_seconds_now() -> (r: i64) {
    chrono::Utc::now().timestamp()
}

/// What the parser's outcome on the tool's standard output amounts to: a
/// parser's error is a parse error with the parser's message; a document is
/// the result that it holds, or a parse error with the message of its first
/// fault.
pub open spec fn interpreted(parsed: Result<JsonView, Seq<char>>) -> Result<
    SpeedTestResultView,
    CollectionErrorView,
> {
    match parsed {
        Err(message) => Err(CollectionErrorView::ParseError(message)),
        Ok(doc) => match decoded(doc) {
            Ok(result) => Ok(result),
            Err(fault) => Err(CollectionErrorView::ParseError(fault.message())),
        },
    }
}

/// What an attempt to run the tool amounts to. A tool that did not start or
/// exited with a failure status is an execution error, whatever it wrote to
/// its standard output; only after a successful exit is the output parsed.
pub open spec fn outcome(attempt: ToolAttemptView) -> Result<
    SpeedTestResultView,
    CollectionErrorView,
> {
    match attempt {
        ToolAttemptView::NotStarted { reason } => Err(CollectionErrorView::ExecutionError(reason)),
        ToolAttemptView::Exited { success, stdout, stderr } => if success {
            interpreted(json_document(stdout))
        } else {
            Err(CollectionErrorView::ExecutionError(utf8_lossy(stderr)))
        },
    }
}

/// The model of a cycle's result before it is stamped.
pub open spec fn reading_view(reading: Result<SpeedTestResult, CollectionError>) -> Result<
    SpeedTestResultView,
    CollectionErrorView,
> {
    match reading {
        Ok(result) => Ok(result@),
        Err(error) => Err(error@),
    }
}

/// Turns the parser's outcome on the tool's standard output into the tool's
/// result or a parse error.
pub fn interpret_document(parsed: Result<Json, String>) -> (r: Result<
    SpeedTestResult,
    CollectionError,
>)
    ensures
        reading_view(r) == interpreted(parsed_view(parsed)),
{
    match parsed {
        Err(message) => Err(CollectionError::ParseError(message)),
        Ok(doc) => match SpeedTestResult::from_json(&doc) {
            Ok(result) => Ok(result),
            Err(fault) => Err(CollectionError::ParseError(fault.to_message())),
        },
    }
}

/// Knows how the speed-test tool is run and what a run of it amounts to.
#[derive(Debug, Clone, Copy, PartialEq, Eq)]
pub struct NetworkMonitor {
    cadence_secs: u64,
}

impl NetworkMonitor {
    #[verifier::type_invariant]
    spec fn cadence_is_positive(self) -> bool {
        self.cadence_secs > 0
    }

    /// The seconds between two ticks.
    pub closed spec fn cadence(self) -> nat {
        self.cadence_secs as nat
    }

    /// A monitor with the default cadence.
    pub fn new() -> (r: NetworkMonitor)
        ensures
            r.cadence() == DEFAULT_CADENCE_SECS,
    {
        NetworkMonitor { cadence_secs: DEFAULT_CADENCE_SECS }
    }

    /// The name of the tool's executable, which is looked up on the search path.
    pub fn tool_program(&self) -> (r: &'static str)
        ensures
            r@ == "speedtest"@,
    {
        "speedtest"
    }

    /// The arguments that the tool is run with: JSON output, no progress
    /// output, and the licence accepted without a prompt.
    pub fn tool_arguments(&self) -> (r: Vec<&'static str>)
        ensures
            r@.len() == 3,
            r@[0]@ == "--format=json"@,
            r@[1]@ == "--progress=no"@,
            r@[2]@ == "--accept-license"@,
    {
        vec!["--format=json", "--progress=no", "--accept-license"]
    }

    /// A monitor with the given cadence, which must be a positive number of seconds.
    pub fn with_cadence(cadence_secs: u64) -> (r: Option<NetworkMonitor>)
        ensures
            cadence_secs == 0 <==> r is None,
            r matches Some(monitor) ==> monitor.cadence() == cadence_secs,
    {
        if cadence_secs == 0 {
            None
        } else {
            Some(NetworkMonitor { cadence_secs })
        }
    }

    /// The seconds between two ticks.
    pub fn cadence_secs(&self) -> (r: u64)
        ensures
            r == self.cadence(),
            r > 0,
    {
        proof {
            use_type_invariant(self);
        }
        self.cadence_secs
    }

    /// Starts the monitoring: the scheduler that drives this monitor's cycles,
    /// waiting for its first tick.
    pub fn start_monitoring(&self) -> (r: Scheduler)
        ensures
            r.cadence() == self.cadence(),
            r.current_phase() == Phase::Waiting,
    {
        Scheduler::new(self)
    }

    /// Classifies one attempt to run the tool: the tool's result, or the error
    /// that the cycle fails with.
    pub fn read_attempt(&self, attempt: &ToolAttempt) -> (r: Result<
        SpeedTestResult,
        CollectionError,
    >)
        ensures
            reading_view(r) == outcome(attempt@),
            attempt@ matches ToolAttemptView::Exited { success, stderr, .. } ==> (!success
                && valid_utf8(stderr) ==> (r matches Err(CollectionError::ExecutionError(text))
                && text@ == decode_utf8(stderr))),
    {
        match attempt {
            ToolAttempt::NotStarted { reason } => Err(
                CollectionError::ExecutionError(reason.clone()),
            ),
            ToolAttempt::Exited { success, stdout, stderr } => {
                if *success {
                    interpret_document(Json::parse(stdout.as_slice()))
                } else {
                    Err(CollectionError::ExecutionError(decode_lossy(stderr.as_slice())))
                }
            },
        }
    }

    /// Completes one measurement cycle from an attempt to run the tool. On a
    /// failed attempt the error is returned and the clock is not read; else the
    /// record is stamped with the time at which parsing was done.
    pub fn collect_metrics(&self, attempt: &ToolAttempt) -> (r: Result<
        NetworkMetrics,
        CollectionError,
    >)
        ensures
            match r {
                Ok(metrics) => outcome(attempt@) matches Ok(result) && metrics@ == normalized(
                    result,
                    metrics.timestamp,
                ),
                Err(error) => outcome(attempt@) == Err::<
                    SpeedTestResultView,
                    CollectionErrorView,
                >(error@),
            },
            attempt@ matches ToolAttemptView::Exited { success, stderr, .. } ==> (!success
                && valid_utf8(stderr) ==> (r matches Err(CollectionError::ExecutionError(text))
                && text@ == decode_utf8(stderr))),
    {
        match self.read_attempt(attempt) {
            Ok(result) => {
                let timestamp: i64 = epoch_seconds_now();
                Ok(NetworkMetrics::from_result(result, timestamp))
            },
            Err(error) => Err(error),
        }
    }
}

/// A tool that exits with a failure status fails the cycle with an execution
/// error, and the error carries the text of the tool's standard error,
/// whatever the tool wrote to its standard output.
pub proof fn lemma_failed_exit_is_execution_error(stdout: Seq<u8>, stderr: Seq<u8>)
    ensures
        outcome(ToolAttemptView::Exited { success: false, stdout, stderr }) == Err::<
            SpeedTestResultView,
            CollectionErrorView,
        >(CollectionErrorView::ExecutionError(utf8_lossy(stderr))),
{
}

/// After a successful exit a cycle fails in no other way than with a parse error.
pub proof fn lemma_successful_exit_fails_in_parsing_only(stdout: Seq<u8>, stderr: Seq<u8>)
    ensures
        outcome(ToolAttemptView::Exited { success: true, stdout, stderr }) matches Err(error)
            ==> error is ParseError,
{
}

/// A document that lacks one of the five required members fails the cycle with
/// a parse error; no record is made of the members that are there.
pub proof fn lemma_incomplete_document_is_parse_error(doc: JsonView, field: Field)
    requires
        doc.member(field.key()) is None,
    ensures
        interpreted(Ok(doc)) matches Err(error) && error is ParseError,
{
}

/// Taking any one of the five required members out of a document that yields
/// a result leaves a document that fails the cycle with a parse error, whose
/// message names the member that is missing.
pub proof fn lemma_removed_member_is_parse_error(doc: JsonView, field: Field)
    requires
        interpreted(Ok(doc)) is Ok,
    ensures
        interpreted(Ok(doc.without(field.key()))) == Err::<
            SpeedTestResultView,
            CollectionErrorView,
        >(CollectionErrorView::ParseError(SchemaError::Missing(field).message())),
{
    lemma_removed_member_is_missing(doc, field);
}

} // verus!

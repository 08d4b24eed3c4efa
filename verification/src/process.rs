//! The process runner: owns one external-command specification, validates
//! that its executable resolves on the host's search path, and normalizes
//! the raw outcome of running it (exit status, captured output streams)
//! into either the captured standard output or a typed [`Error`].
//!
//! Spawning the child process is host I/O and stays outside this library;
//! callers hand the raw result back as a [`SpawnOutcome`] and the verified
//! [`Process::interpret`] turns it into the final outcome. The whole
//! pipeline is modelled by the spec function [`executed`].

use vstd::prelude::*;
use vstd::string::StringExecFns;
use vstd::utf8::{decode_utf8, valid_utf8};

verus! {

/// One external command invocation: an executable name plus its ordered
/// argument strings, immutable once constructed.
pub struct CommandSpec {
    pub executable: String,
    pub args: Vec<String>,
}

/// The mathematical value of a [`CommandSpec`].
pub struct SpecCommand {
    pub executable: Seq<char>,
    pub args: Seq<Seq<char>>,
}

impl View for CommandSpec {
    type V = SpecCommand;

    open spec fn view(&self) -> SpecCommand {
        SpecCommand { executable: self.executable@, args: self.args.deep_view() }
    }
}

/// Every way one execution can fail, mutually exclusive.
#[derive(Debug)]
pub enum Error {
    /// The executable name did not resolve on the host's search path;
    /// no process was spawned. Carries the name.
    BinaryDoesNotExist(String),
    /// The name resolved, but the OS failed to spawn the process.
    /// Carries the name and the OS error's text.
    FailedToExecProcess(String, String),
    /// The process ran and exited with a nonzero status. Carries the
    /// exit code and the captured standard-error bytes.
    Exec(u8, Vec<u8>),
    /// The process was terminated without a normal exit code (a signal).
    Interrupted,
}

/// The mathematical value of an [`Error`].
pub enum SpecError {
    BinaryDoesNotExist(Seq<char>),
    FailedToExecProcess(Seq<char>, Seq<char>),
    Exec(u8, Seq<u8>),
    Interrupted,
}

impl View for Error {
    type V = SpecError;

    open spec fn view(&self) -> SpecError {
        match self {
            Error::BinaryDoesNotExist(name) => SpecError::BinaryDoesNotExist(name@),
            Error::FailedToExecProcess(name, os_error) => SpecError::FailedToExecProcess(
                name@,
                os_error@,
            ),
            Error::Exec(code, stderr) => SpecError::Exec(*code, stderr@),
            Error::Interrupted => SpecError::Interrupted,
        }
    }
}

/// How a child process terminated: a normal exit code, or none (signal).
#[derive(Clone, Copy, PartialEq, Eq, Structural, Debug)]
pub enum ChildStatus {
    Exited(i32),
    Signaled,
}

/// What the host handed back for one spawn attempt: either the child ran
/// to completion with its termination status and fully captured output
/// streams, or the OS refused to spawn it.
pub enum SpawnOutcome {
    Ran { status: ChildStatus, stdout: Vec<u8>, stderr: Vec<u8> },
    SpawnFailed { os_error: String },
}

/// The mathematical value of a [`SpawnOutcome`].
pub enum SpecSpawnOutcome {
    Ran { status: ChildStatus, stdout: Seq<u8>, stderr: Seq<u8> },
    SpawnFailed { os_error: Seq<char> },
}

impl View for SpawnOutcome {
    type V = SpecSpawnOutcome;

    open spec fn view(&self) -> SpecSpawnOutcome {
        match self {
            SpawnOutcome::Ran { status, stdout, stderr } => SpecSpawnOutcome::Ran {
                status: *status,
                stdout: stdout@,
                stderr: stderr@,
            },
            SpawnOutcome::SpawnFailed { os_error } => SpecSpawnOutcome::SpawnFailed {
                os_error: os_error@,
            },
        }
    }
}

/// The validation step's outcome: rejection exactly when the name did not
/// resolve.
pub open spec fn validated(executable: Seq<char>, resolved: bool) -> Result<(), SpecError> {
    if resolved {
        Ok(())
    } else {
        Err(SpecError::BinaryDoesNotExist(executable))
    }
}

/// How a spawn attempt's raw result is normalized: a spawn refusal keeps the
/// OS error, a signal termination is an interruption, exit code zero succeeds
/// with the captured standard output, and a nonzero exit code fails with that
/// code (as its low byte) and the captured standard error.
pub open spec fn interpreted(executable: Seq<char>, outcome: SpecSpawnOutcome) -> Result<
    Seq<u8>,
    SpecError,
> {
    match outcome {
        SpecSpawnOutcome::SpawnFailed { os_error } => Err(
            SpecError::FailedToExecProcess(executable, os_error),
        ),
        SpecSpawnOutcome::Ran { status, stdout, stderr } => match status {
            ChildStatus::Signaled => Err(SpecError::Interrupted),
            ChildStatus::Exited(code) => if code == 0 {
                Ok(stdout)
            } else {
                Err(SpecError::Exec(code as u8, stderr))
            },
        },
    }
}

/// The whole execution pipeline: when the name does not resolve the outcome
/// is the validation failure and no spawn result is consulted; otherwise it
/// is the interpretation of the spawn's result.
pub open spec fn executed(
    executable: Seq<char>,
    resolved: bool,
    outcome: SpecSpawnOutcome,
) -> Result<Seq<u8>, SpecError> {
    if resolved {
        interpreted(executable, outcome)
    } else {
        Err(SpecError::BinaryDoesNotExist(executable))
    }
}

/// The mathematical value of an execution result.
pub open spec fn exec_result_view(r: Result<Vec<u8>, Error>) -> Result<Seq<u8>, SpecError> {
    match r {
        Ok(stdout) => Ok(stdout@),
        Err(e) => Err(e@),
    }
}

/// The mathematical value of a validation result.
pub open spec fn unit_result_view(r: Result<(), Error>) -> Result<(), SpecError> {
    match r {
        Ok(u) => Ok(u),
        Err(e) => Err(e@),
    }
}

/// Relies on `which::which`: it returns `Ok` exactly when it can resolve the
/// given name to an executable via the host's search path. Whether a name
/// resolves depends on the machine's state, so nothing is promised of the
/// result.
#[verifier::external_body]
fn resolve_on_path(name: &str) -> bool {
    which::which(name).is_ok()
}

/// Relies on `String::from_utf8`: it returns `Ok` exactly when the bytes are
/// valid UTF-8, and the returned string is their decoding.
#[verifier::external_body]
fn utf8_text(bytes: &[u8]) -> (r: Option<String>)
    ensures
        r is Some <==> valid_utf8(bytes@),
        r matches Some(s) ==> s@ == decode_utf8(bytes@),
{
    String::from_utf8(bytes.to_vec()).ok()
}

/// Whether an error can be rendered as text: captured standard-error bytes
/// must be valid UTF-8; every other error always can be.
pub open spec fn spec_displayable(e: SpecError) -> bool {
    e matches SpecError::Exec(_, stderr) ==> valid_utf8(stderr)
}

/// The human-readable text of each error kind.
pub open spec fn spec_message(e: SpecError) -> Seq<char> {
    match e {
        SpecError::BinaryDoesNotExist(name) => "the binary does not exist: \""@ + name + "\""@,
        SpecError::FailedToExecProcess(name, os_error) => "failed to execute the binary \""@
            + name + "\": "@ + os_error,
        SpecError::Exec(_, stderr) => decode_utf8(stderr),
        SpecError::Interrupted => "interrupted by the host"@,
    }
}

impl Error {
    /// Renders the error as human-readable text, `None` exactly when the
    /// captured standard-error bytes of an `Exec` failure are not valid
    /// UTF-8: that defect is surfaced to the caller, never masked.
    pub fn message(&self) -> (r: Option<String>)
        ensures
            r is Some <==> spec_displayable(self@),
            r matches Some(s) ==> s@ == spec_message(self@),
    {
        match self {
            Error::BinaryDoesNotExist(name) => {
                let mut s = String::from_str("the binary does not exist: \"");
                s.append(name.as_str());
                s.append("\"");
                Some(s)
            },
            Error::FailedToExecProcess(name, os_error) => {
                let mut s = String::from_str("failed to execute the binary \"");
                s.append(name.as_str());
                s.append("\": ");
                s.append(os_error.as_str());
                Some(s)
            },
            Error::Exec(_, stderr) => utf8_text(stderr.as_slice()),
            Error::Interrupted => Some(String::from_str("interrupted by the host")),
        }
    }
}

/// Wraps one [`CommandSpec`] and produces a normalized outcome for it. The
/// runner holds no other state; each execution is a fresh validation, spawn
/// and interpretation.
pub struct Process(CommandSpec);

impl View for Process {
    type V = SpecCommand;

    closed spec fn view(&self) -> SpecCommand {
        self.0@
    }
}

impl Process {
    /// Takes ownership of the command specification; pure, cannot fail.
    pub fn new(cmd: CommandSpec) -> (p: Process)
        ensures
            p@ == cmd@,
    {
        Process(cmd)
    }

    /// The executable name of the wrapped command.
    pub fn get_process_name(&self) -> (name: &String)
        ensures
            name@ == self@.executable,
    {
        &self.0.executable
    }

    /// The wrapped command specification, for the caller that spawns it.
    pub fn command_spec(&self) -> (cmd: &CommandSpec)
        ensures
            cmd@ == self@,
    {
        &self.0
    }

    /// The pure validation decision, taken on the search-path lookup's
    /// result: rejection exactly when the lookup failed.
    pub fn resolution_outcome(&self, resolved: bool) -> (r: Result<(), Error>)
        ensures
            unit_result_view(r) == validated(self@.executable, resolved),
    {
        if resolved {
            Ok(())
        } else {
            Err(Error::BinaryDoesNotExist(self.0.executable.clone()))
        }
    }

    /// Resolves the executable name on the host's search path; any failure
    /// is `BinaryDoesNotExist` carrying the name. Whether the lookup itself
    /// succeeds depends on the host.
    pub fn validate(&self) -> (r: Result<(), Error>)
        ensures
            r matches Err(e) ==> e@ == SpecError::BinaryDoesNotExist(self@.executable),
    {
        let resolved = resolve_on_path(self.0.executable.as_str());
        self.resolution_outcome(resolved)
    }

    /// Normalizes the raw result of one spawn attempt, exactly as
    /// [`interpreted`] states: the captured standard output on exit code
    /// zero, and the matching [`Error`] otherwise.
    pub fn interpret(&self, outcome: SpawnOutcome) -> (r: Result<Vec<u8>, Error>)
        ensures
            exec_result_view(r) == interpreted(self@.executable, outcome@),
    {
        match outcome {
            SpawnOutcome::SpawnFailed { os_error } => Err(
                Error::FailedToExecProcess(self.0.executable.clone(), os_error),
            ),
            SpawnOutcome::Ran { status, stdout, stderr } => match status {
                ChildStatus::Signaled => Err(Error::Interrupted),
                ChildStatus::Exited(code) => if code == 0 {
                    Ok(stdout)
                } else {
                    Err(Error::Exec(#[verifier::truncate] (code as u8), stderr))
                },
            },
        }
    }
}

/// Law: an executable name that does not resolve is rejected as
/// `BinaryDoesNotExist`, whatever any child process would have produced —
/// the pipeline never consults a spawn result for it.
pub proof fn lemma_unresolved_never_runs(executable: Seq<char>, outcome: SpecSpawnOutcome)
    ensures
        executed(executable, false, outcome) == Err::<Seq<u8>, SpecError>(
            SpecError::BinaryDoesNotExist(executable),
        ),
{
}

/// Law: for the same missing binary name, the validation pre-check and the
/// full execution pipeline fail with the same error, and so with the same
/// human-readable text.
pub proof fn lemma_precheck_and_execution_agree(executable: Seq<char>, outcome: SpecSpawnOutcome)
    ensures
        validated(executable, false) is Err,
        executed(executable, false, outcome) is Err,
        validated(executable, false)->Err_0 == executed(executable, false, outcome)->Err_0,
        spec_message(validated(executable, false)->Err_0) == spec_message(
            executed(executable, false, outcome)->Err_0,
        ),
        spec_displayable(validated(executable, false)->Err_0),
{
}

/// Law: a resolvable command that exits with status zero succeeds with its
/// captured standard output, byte for byte.
pub proof fn lemma_zero_exit_yields_stdout(executable: Seq<char>, stdout: Seq<u8>, stderr: Seq<u8>)
    ensures
        executed(
            executable,
            true,
            (SpecSpawnOutcome::Ran { status: ChildStatus::Exited(0), stdout, stderr }),
        ) == Ok::<Seq<u8>, SpecError>(stdout),
{
}

/// Law: a resolvable command that exits with a nonzero status fails with
/// that exit code and its captured standard error, byte for byte.
pub proof fn lemma_nonzero_exit_yields_code_and_stderr(
    executable: Seq<char>,
    code: i32,
    stdout: Seq<u8>,
    stderr: Seq<u8>,
)
    requires
        code != 0,
    ensures
        executed(
            executable,
            true,
            (SpecSpawnOutcome::Ran { status: ChildStatus::Exited(code), stdout, stderr }),
        ) == Err::<Seq<u8>, SpecError>(SpecError::Exec(code as u8, stderr)),
{
}

/// Law: the four failure kinds are mutually exclusive — each arises from its
/// own trigger and from nothing else, and success is owed exactly when the
/// name resolves and the child exits with status zero.
pub proof fn lemma_error_kinds_match_their_triggers(
    executable: Seq<char>,
    resolved: bool,
    outcome: SpecSpawnOutcome,
)
    ensures
        (executed(executable, resolved, outcome) matches Err(e) && e is BinaryDoesNotExist) <==> !resolved,
        (executed(executable, resolved, outcome) matches Err(e) && e is FailedToExecProcess) <==> resolved
            && outcome is SpawnFailed,
        (executed(executable, resolved, outcome) matches Err(e) && e is Interrupted) <==> resolved
            && (outcome matches SpecSpawnOutcome::Ran { status, .. } && status is Signaled),
        (executed(executable, resolved, outcome) matches Err(e) && e is Exec) <==> resolved && (
        outcome matches SpecSpawnOutcome::Ran { status, .. } && status matches ChildStatus::Exited(
            code,
        ) && code != 0),
        executed(executable, resolved, outcome) is Ok <==> resolved && (
        outcome matches SpecSpawnOutcome::Ran { status, .. } && status matches ChildStatus::Exited(
            code,
        ) && code == 0),
{
}

/// Law: execution is a function of the host's lookup result and the child's
/// behaviour; two runs that the host treats alike produce the same outcome.
pub proof fn lemma_repeated_execution_agrees(
    executable: Seq<char>,
    resolved1: bool,
    outcome1: SpecSpawnOutcome,
    resolved2: bool,
    outcome2: SpecSpawnOutcome,
)
    requires
        resolved1 == resolved2,
        outcome1 == outcome2,
    ensures
        executed(executable, resolved1, outcome1) == executed(executable, resolved2, outcome2),
{
}

} // verus!

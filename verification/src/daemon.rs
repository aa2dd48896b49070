use vstd::prelude::*;
use vstd::string::StringExecFns;
use crate::text::{decimal, push_decimal};

verus! {

/// How long the daemon has to become reachable, in milliseconds.
pub const READY_DEADLINE_MS: u64 = 30000;

/// How long the supervisor waits between two attempts to reach the daemon, in
/// milliseconds.
pub const PROBE_INTERVAL_MS: u64 = 200;

/// How long the process group has to end by itself before it is killed, in
/// milliseconds.
pub const GRACE_PERIOD_MS: u64 = 2000;

/// How long the supervisor waits at most for what the process wrote to its
/// error stream, in milliseconds.
pub const COLLECT_LIMIT_MS: u64 = 1000;

/// The signals that the supervisor sends.
#[derive(Clone, Copy, Debug, PartialEq, Eq, Structural)]
pub enum Signal {
    /// Asks the processes to end.
    Terminate,
    /// Ends them.
    Kill,
}

/// Why a start failed.
#[derive(Clone, Copy, Debug, PartialEq, Eq, Structural)]
pub enum FailureKind {
    BinaryNotFound,
    SpawnFailure,
    ReadinessTimeout,
    UnexpectedExit,
}

/// Where the supervised daemon stands.
#[derive(Clone, Copy, Debug, PartialEq, Eq, Structural)]
pub enum Phase {
    /// Nothing has been asked for yet.
    NotStarted,
    /// The executable is being looked for.
    Locating,
    /// A free local port is being chosen.
    ChoosingPort,
    /// The process is being launched.
    Launching,
    /// A stop was asked for while the process was being launched: the launch
    /// is waited for, so that the process can be ended.
    StoppingLaunch,
    /// The process runs; the time spent waiting is being read.
    CheckingClock { pid: i32 },
    /// The process is asked whether it has exited.
    CheckingExit { pid: i32 },
    /// A connection to the daemon's address is being tried.
    Connecting { pid: i32 },
    /// The supervisor waits before it tries again.
    Sleeping { pid: i32 },
    /// The deadline has passed; what the process wrote is being collected.
    CollectingAfterDeadline { pid: i32 },
    /// The process has exited; what it wrote is being collected.
    CollectingAfterExit { pid: i32 },
    /// The daemon is reachable.
    Ready { pid: i32 },
    /// The gateway is connected and serves.
    Running { pid: i32 },
    /// The group was asked to end; the grace period runs.
    Terminating { pid: i32 },
    /// The group was killed, or there was nothing to kill.
    Killed,
    /// The start failed.
    Failed { kind: FailureKind },
}

/// The steps of the lifecycle, without their detail.
#[derive(Clone, Copy, Debug, PartialEq, Eq, Structural)]
pub enum Stage {
    NotStarted,
    Spawning,
    WaitingReady,
    Ready,
    Running,
    Terminating,
    Killed,
    Failed,
}

/// What the supervisor is told.
#[derive(Clone, Copy, Debug, PartialEq, Eq, Structural)]
pub enum Input {
    /// A start is asked for.
    Start,
    /// The search for the executable has ended.
    Located { found: bool },
    /// The choice of a port has ended.
    PortChosen { chosen: bool },
    /// The launch has ended: with the process identifier, or without one.
    Launched { pid: Option<i32> },
    /// So many milliseconds have passed since the launch.
    Clock { elapsed_ms: u64 },
    /// Whether the process has exited.
    ExitChecked { exited: bool },
    /// Whether the daemon's address took a connection.
    Connected { reached: bool },
    /// The wait between two attempts is over.
    Slept,
    /// What the process wrote has been collected.
    Collected,
    /// The gateway has connected to the daemon.
    Serving,
    /// A stop is asked for.
    Stop,
    /// The grace period is over.
    GraceElapsed,
}

/// What the supervisor asks to be done next.
#[derive(Clone, Copy, Debug, PartialEq, Eq, Structural)]
pub enum Output {
    /// Look for the executable.
    Locate,
    /// Choose a free local port.
    ChoosePort,
    /// Launch the executable as the leader of a new process group.
    Launch,
    /// Read how long the wait has lasted.
    ReadClock,
    /// Ask the process whether it has exited.
    CheckExit,
    /// Try to connect to the daemon's address.
    Connect,
    /// Wait so many milliseconds, then report `Slept`.
    Sleep { millis: u64 },
    /// Collect what the process wrote to its error stream, for a report of
    /// the failure `after`, and wait no longer for it than `limit_ms`.
    Collect { after: FailureKind, limit_ms: u64 },
    /// Send `signal` to every process of the group that `pid` leads.
    SignalGroup { pid: i32, signal: Signal },
    /// Report the failure of the start, once every process of the group that
    /// `group` leads has been sent the signal that kills; a start that fails
    /// before any process runs has no group.
    Report { kind: FailureKind, group: Option<i32> },
    /// The daemon is reachable: connect the gateway.
    Proceed,
    /// Nothing.
    Nothing,
}

/// The step of the lifecycle that a phase belongs to.
pub open spec fn stage_of(phase: Phase) -> Stage {
    match phase {
        Phase::NotStarted => Stage::NotStarted,
        Phase::Locating | Phase::ChoosingPort | Phase::Launching | Phase::StoppingLaunch => Stage::Spawning,
        Phase::CheckingClock { .. }
        | Phase::CheckingExit { .. }
        | Phase::Connecting { .. }
        | Phase::Sleeping { .. }
        | Phase::CollectingAfterDeadline { .. }
        | Phase::CollectingAfterExit { .. } => Stage::WaitingReady,
        Phase::Ready { .. } => Stage::Ready,
        Phase::Running { .. } => Stage::Running,
        Phase::Terminating { .. } => Stage::Terminating,
        Phase::Killed => Stage::Killed,
        Phase::Failed { .. } => Stage::Failed,
    }
}

/// The process that a phase supervises, once there is one and while it has not
/// been killed.
pub open spec fn process_of(phase: Phase) -> Option<i32> {
    match phase {
        Phase::CheckingClock { pid }
        | Phase::CheckingExit { pid }
        | Phase::Connecting { pid }
        | Phase::Sleeping { pid }
        | Phase::CollectingAfterDeadline { pid }
        | Phase::CollectingAfterExit { pid }
        | Phase::Ready { pid }
        | Phase::Running { pid }
        | Phase::Terminating { pid } => Some(pid),
        _ => None,
    }
}

/// What a stop does in `phase`: a process that runs has its group asked to end
/// and the grace period begins; while that period runs, and once everything is
/// over, a stop changes nothing; before a launch is under way the start is
/// given up; and while one is under way its end is waited for, so that the
/// process that comes of it is not left behind.
pub open spec fn stop_model(phase: Phase) -> (Phase, Output) {
    match phase {
        Phase::Terminating { .. }
        | Phase::Killed
        | Phase::Failed { .. }
        | Phase::NotStarted
        | Phase::StoppingLaunch => (phase, Output::Nothing),
        Phase::Locating | Phase::ChoosingPort => (Phase::Killed, Output::Nothing),
        Phase::Launching => (Phase::StoppingLaunch, Output::Nothing),
        _ => (
            Phase::Terminating { pid: process_of(phase).unwrap() },
            Output::SignalGroup { pid: process_of(phase).unwrap(), signal: Signal::Terminate },
        ),
    }
}

/// The phase that follows `phase` on `input`, and what is to be done then. An
/// input that the phase does not wait for changes nothing.
pub open spec fn step_model(phase: Phase, input: Input) -> (Phase, Output) {
    match (phase, input) {
        (_, Input::Stop) => stop_model(phase),
        (Phase::NotStarted, Input::Start) => (Phase::Locating, Output::Locate),
        (Phase::Locating, Input::Located { found }) => if found {
            (Phase::ChoosingPort, Output::ChoosePort)
        } else {
            (
                Phase::Failed { kind: FailureKind::BinaryNotFound },
                Output::Report { kind: FailureKind::BinaryNotFound, group: None },
            )
        },
        (Phase::ChoosingPort, Input::PortChosen { chosen }) => if chosen {
            (Phase::Launching, Output::Launch)
        } else {
            (
                Phase::Failed { kind: FailureKind::SpawnFailure },
                Output::Report { kind: FailureKind::SpawnFailure, group: None },
            )
        },
        (Phase::Launching, Input::Launched { pid }) => match pid {
            Some(pid) => (Phase::CheckingClock { pid }, Output::ReadClock),
            None => (
                Phase::Failed { kind: FailureKind::SpawnFailure },
                Output::Report { kind: FailureKind::SpawnFailure, group: None },
            ),
        },
        (Phase::StoppingLaunch, Input::Launched { pid }) => match pid {
            Some(pid) => (
                Phase::Terminating { pid },
                Output::SignalGroup { pid, signal: Signal::Terminate },
            ),
            None => (Phase::Killed, Output::Nothing),
        },
        (Phase::CheckingClock { pid }, Input::Clock { elapsed_ms }) => if elapsed_ms
            > READY_DEADLINE_MS {
            (
                Phase::CollectingAfterDeadline { pid },
                Output::Collect { after: FailureKind::ReadinessTimeout, limit_ms: COLLECT_LIMIT_MS },
            )
        } else {
            (Phase::CheckingExit { pid }, Output::CheckExit)
        },
        (Phase::CheckingExit { pid }, Input::ExitChecked { exited }) => if exited {
            (
                Phase::CollectingAfterExit { pid },
                Output::Collect { after: FailureKind::UnexpectedExit, limit_ms: COLLECT_LIMIT_MS },
            )
        } else {
            (Phase::Connecting { pid }, Output::Connect)
        },
        (Phase::Connecting { pid }, Input::Connected { reached }) => if reached {
            (Phase::Ready { pid }, Output::Proceed)
        } else {
            (Phase::Sleeping { pid }, Output::Sleep { millis: PROBE_INTERVAL_MS })
        },
        (Phase::Sleeping { pid }, Input::Slept) => (Phase::CheckingClock { pid }, Output::ReadClock),
        (Phase::CollectingAfterDeadline { pid }, Input::Collected) => (
            Phase::Failed { kind: FailureKind::ReadinessTimeout },
            Output::Report { kind: FailureKind::ReadinessTimeout, group: Some(pid) },
        ),
        (Phase::CollectingAfterExit { pid }, Input::Collected) => (
            Phase::Failed { kind: FailureKind::UnexpectedExit },
            Output::Report { kind: FailureKind::UnexpectedExit, group: Some(pid) },
        ),
        (Phase::Ready { pid }, Input::Serving) => (Phase::Running { pid }, Output::Nothing),
        (Phase::Terminating { pid }, Input::GraceElapsed) => (
            Phase::Killed,
            Output::SignalGroup { pid, signal: Signal::Kill },
        ),
        _ => (phase, Output::Nothing),
    }
}

/// The supervisor of the daemon process: it holds where the daemon stands and
/// says, for everything that it is told, what is to be done next.
#[derive(Debug)]
pub struct ManagedDaemon {
    pub phase: Phase,
}

impl ManagedDaemon {
    /// A supervisor that has started nothing.
    pub fn new() -> (daemon: ManagedDaemon)
        ensures
            daemon.phase == Phase::NotStarted,
    {
        ManagedDaemon { phase: Phase::NotStarted }
    }

    /// The process that is supervised, if one runs.
    pub fn pid(&self) -> (pid: Option<i32>)
        ensures
            pid == process_of(self.phase),
    {
        match self.phase {
            Phase::CheckingClock { pid }
            | Phase::CheckingExit { pid }
            | Phase::Connecting { pid }
            | Phase::Sleeping { pid }
            | Phase::CollectingAfterDeadline { pid }
            | Phase::CollectingAfterExit { pid }
            | Phase::Ready { pid }
            | Phase::Running { pid }
            | Phase::Terminating { pid } => Some(pid),
            _ => None,
        }
    }

    /// Asks for a stop: see `stop_model`.
    pub fn stop(&mut self) -> (output: Output)
        ensures
            (final(self).phase, output) == stop_model(old(self).phase),
    {
        match self.phase {
            Phase::Terminating { .. }
            | Phase::Killed
            | Phase::Failed { .. }
            | Phase::NotStarted
            | Phase::StoppingLaunch => Output::Nothing,
            Phase::Locating | Phase::ChoosingPort => {
                self.phase = Phase::Killed;
                Output::Nothing
            },
            Phase::Launching => {
                self.phase = Phase::StoppingLaunch;
                Output::Nothing
            },
            _ => match self.pid() {
                Some(pid) => {
                    self.phase = Phase::Terminating { pid };
                    Output::SignalGroup { pid, signal: Signal::Terminate }
                },
                None => Output::Nothing,
            },
        }
    }

    /// Takes one input and says what is to be done next: see `step_model`.
    pub fn step(&mut self, input: Input) -> (output: Output)
        ensures
            (final(self).phase, output) == step_model(old(self).phase, input),
    {
        let (next, output) = match (self.phase, input) {
            (_, Input::Stop) => {
                return self.stop();
            },
            (Phase::NotStarted, Input::Start) => (Phase::Locating, Output::Locate),
            (Phase::Locating, Input::Located { found }) => if found {
                (Phase::ChoosingPort, Output::ChoosePort)
            } else {
                failed(FailureKind::BinaryNotFound, None)
            },
            (Phase::ChoosingPort, Input::PortChosen { chosen }) => if chosen {
                (Phase::Launching, Output::Launch)
            } else {
                failed(FailureKind::SpawnFailure, None)
            },
            (Phase::Launching, Input::Launched { pid }) => match pid {
                Some(pid) => (Phase::CheckingClock { pid }, Output::ReadClock),
                None => failed(FailureKind::SpawnFailure, None),
            },
            (Phase::StoppingLaunch, Input::Launched { pid }) => match pid {
                Some(pid) => (
                    Phase::Terminating { pid },
                    Output::SignalGroup { pid, signal: Signal::Terminate },
                ),
                None => (Phase::Killed, Output::Nothing),
            },
            (Phase::CheckingClock { pid }, Input::Clock { elapsed_ms }) => if elapsed_ms
                > READY_DEADLINE_MS {
                (
                    Phase::CollectingAfterDeadline { pid },
                    Output::Collect {
                        after: FailureKind::ReadinessTimeout,
                        limit_ms: COLLECT_LIMIT_MS,
                    },
                )
            } else {
                (Phase::CheckingExit { pid }, Output::CheckExit)
            },
            (Phase::CheckingExit { pid }, Input::ExitChecked { exited }) => if exited {
                (
                    Phase::CollectingAfterExit { pid },
                    Output::Collect {
                        after: FailureKind::UnexpectedExit,
                        limit_ms: COLLECT_LIMIT_MS,
                    },
                )
            } else {
                (Phase::Connecting { pid }, Output::Connect)
            },
            (Phase::Connecting { pid }, Input::Connected { reached }) => if reached {
                (Phase::Ready { pid }, Output::Proceed)
            } else {
                (Phase::Sleeping { pid }, Output::Sleep { millis: PROBE_INTERVAL_MS })
            },
            (Phase::Sleeping { pid }, Input::Slept) => (
                Phase::CheckingClock { pid },
                Output::ReadClock,
            ),
            (Phase::CollectingAfterDeadline { pid }, Input::Collected) => failed(
                FailureKind::ReadinessTimeout,
                Some(pid),
            ),
            (Phase::CollectingAfterExit { pid }, Input::Collected) => failed(
                FailureKind::UnexpectedExit,
                Some(pid),
            ),
            (Phase::Ready { pid }, Input::Serving) => (Phase::Running { pid }, Output::Nothing),
            (Phase::Terminating { pid }, Input::GraceElapsed) => (
                Phase::Killed,
                Output::SignalGroup { pid, signal: Signal::Kill },
            ),
            (phase, _) => (phase, Output::Nothing),
        };
        self.phase = next;
        output
    }
}

/// The phase and the report of a start that failed for the reason `kind`,
/// with the group of the process that ran, if one did.
fn failed(kind: FailureKind, group: Option<i32>) -> (end: (Phase, Output))
    ensures
        end == (Phase::Failed { kind }, Output::Report { kind, group }),
{
    (Phase::Failed { kind }, Output::Report { kind, group })
}

/// Whether the lifecycle allows a daemon at the step `from` to be at the step
/// `to` next: it may stay where it is, go on to the step that follows, fail
/// while it is being spawned or waited for, and be stopped from wherever it is
/// not yet over.
pub open spec fn lifecycle_allows(from: Stage, to: Stage) -> bool {
    from == to || match (from, to) {
        (Stage::NotStarted, Stage::Spawning) => true,
        (Stage::Spawning, Stage::WaitingReady) => true,
        (Stage::WaitingReady, Stage::Ready) => true,
        (Stage::Ready, Stage::Running) => true,
        (Stage::Spawning, Stage::Failed) => true,
        (Stage::WaitingReady, Stage::Failed) => true,
        (Stage::Spawning, Stage::Killed) => true,
        (Stage::Spawning, Stage::Terminating) => true,
        (Stage::WaitingReady, Stage::Terminating) => true,
        (Stage::Ready, Stage::Terminating) => true,
        (Stage::Running, Stage::Terminating) => true,
        (Stage::Terminating, Stage::Killed) => true,
        _ => false,
    }
}

/// Every step of the supervisor follows the lifecycle, and a start can fail
/// only while the daemon is being spawned or waited for.
pub proof fn law_steps_follow_the_lifecycle(phase: Phase, input: Input)
    ensures
        lifecycle_allows(stage_of(phase), stage_of(step_model(phase, input).0)),
        stage_of(step_model(phase, input).0) == Stage::Failed ==> stage_of(phase) == Stage::Spawning
            || stage_of(phase) == Stage::WaitingReady || stage_of(phase) == Stage::Failed,
{
}

/// A stop reaches the whole process group, first gently and then for good:
/// whenever a process runs, a stop asks its group to end, and when the grace
/// period is over the same group is killed. Between the two and afterwards,
/// one more stop sends nothing and changes nothing.
pub proof fn law_stop_ends_the_whole_group(phase: Phase)
    requires
        process_of(phase) is Some,
        stage_of(phase) != Stage::Terminating,
    ensures
        step_model(phase, Input::Stop) == (
            Phase::Terminating { pid: process_of(phase).unwrap() },
            Output::SignalGroup { pid: process_of(phase).unwrap(), signal: Signal::Terminate },
        ),
        step_model(step_model(phase, Input::Stop).0, Input::Stop) == (
            step_model(phase, Input::Stop).0,
            Output::Nothing,
        ),
        step_model(step_model(phase, Input::Stop).0, Input::GraceElapsed) == (
            Phase::Killed,
            Output::SignalGroup { pid: process_of(phase).unwrap(), signal: Signal::Kill },
        ),
        step_model(Phase::Killed, Input::Stop) == (Phase::Killed, Output::Nothing),
{
}

/// No process is left behind by a stop that comes while it is being launched:
/// the launch is waited for, and the process that comes of it has its group
/// asked to end at once and killed when the grace period is over. Where the
/// launch fails there is nothing to end.
pub proof fn law_stop_reaches_a_process_being_launched(pid: i32)
    ensures
        step_model(Phase::Launching, Input::Stop) == (Phase::StoppingLaunch, Output::Nothing),
        step_model(Phase::StoppingLaunch, Input::Launched { pid: Some(pid) }) == (
            Phase::Terminating { pid },
            Output::SignalGroup { pid, signal: Signal::Terminate },
        ),
        step_model(Phase::Terminating { pid }, Input::GraceElapsed) == (
            Phase::Killed,
            Output::SignalGroup { pid, signal: Signal::Kill },
        ),
        step_model(Phase::StoppingLaunch, Input::Launched { pid: None }) == (
            Phase::Killed,
            Output::Nothing,
        ),
{
}

/// Whether `output` is the report of a failed start that hands out `group`.
pub open spec fn reports_group(output: Output, group: Option<i32>) -> bool {
    match output {
        Output::Report { group: handed, .. } => handed == group,
        _ => false,
    }
}

/// Every process that the supervisor has come to know is kept in its phase
/// until its group has been killed: no step lets go of a process, but the two
/// that hand out the signal that kills, at the end of the grace period and with
/// the report of a start that failed.
pub proof fn law_no_process_is_let_go(phase: Phase, input: Input)
    requires
        process_of(phase) is Some,
    ensures
        process_of(step_model(phase, input).0) == process_of(phase) || (stage_of(phase)
            == Stage::Terminating && step_model(phase, input) == (
            Phase::Killed,
            Output::SignalGroup { pid: process_of(phase).unwrap(), signal: Signal::Kill },
        )) || (stage_of(phase) == Stage::WaitingReady && reports_group(
            step_model(phase, input).1,
            process_of(phase),
        )),
{
}

/// The text without the white space at its two ends, as std's `trim` leaves it.
pub uninterp spec fn trimmed(text: Seq<char>) -> Seq<char>;

/// std's `str::trim` hands back the slice without leading and trailing white
/// space; what it leaves depends on the text alone.
pub assume_specification[ str::trim ](text: &str) -> (inner: &str)
    ensures
        inner@ == trimmed(text@),
;

/// Why the daemon could not be started, with what is known about it.
#[derive(Debug)]
pub enum StartError {
    /// The executable is not on the search path.
    BinaryNotFound,
    /// The process could not be launched; the words of the system's error.
    SpawnFailure(String),
    /// The daemon did not become reachable in time; what it wrote to its
    /// error stream, if that could be read.
    ReadinessTimeout(Option<String>),
    /// The daemon exited while it was waited for; how it exited, and what it
    /// wrote to its error stream.
    UnexpectedExit { status: String, diagnostics: String },
}

/// A `StartError` as a plain value.
pub enum Trouble {
    BinaryNotFound,
    SpawnFailure(Seq<char>),
    ReadinessTimeout(Option<Seq<char>>),
    UnexpectedExit { status: Seq<char>, diagnostics: Seq<char> },
}

impl View for StartError {
    type V = Trouble;

    open spec fn view(&self) -> Trouble {
        match self {
            StartError::BinaryNotFound => Trouble::BinaryNotFound,
            StartError::SpawnFailure(words) => Trouble::SpawnFailure(words@),
            StartError::ReadinessTimeout(written) => Trouble::ReadinessTimeout(
                match written {
                    Some(text) => Some(text@),
                    None => None,
                },
            ),
            StartError::UnexpectedExit { status, diagnostics } => Trouble::UnexpectedExit {
                status: status@,
                diagnostics: diagnostics@,
            },
        }
    }
}

impl Trouble {
    /// The reason of the failure, without its detail.
    pub open spec fn kind(self) -> FailureKind {
        match self {
            Trouble::BinaryNotFound => FailureKind::BinaryNotFound,
            Trouble::SpawnFailure(_) => FailureKind::SpawnFailure,
            Trouble::ReadinessTimeout(_) => FailureKind::ReadinessTimeout,
            Trouble::UnexpectedExit { .. } => FailureKind::UnexpectedExit,
        }
    }

    /// The message for the owner of the process.
    pub open spec fn message(self) -> Seq<char> {
        match self {
            Trouble::BinaryNotFound => "signal-cli not found on $PATH. Install it or use --signal-cli <addr> to connect to an existing daemon"@,
            Trouble::SpawnFailure(words) => words,
            Trouble::ReadinessTimeout(Some(written)) => "signal-cli daemon failed to start within 30s. stderr: "@
                + written,
            Trouble::ReadinessTimeout(None) => "signal-cli daemon failed to start within 30 seconds"@,
            Trouble::UnexpectedExit { status, diagnostics } => if diagnostics.len() == 0 {
                "signal-cli exited with "@ + status
            } else {
                "signal-cli exited with "@ + status + ": "@ + trimmed(diagnostics)
            },
        }
    }
}

impl StartError {
    /// The reason of the failure, without its detail.
    pub fn kind(&self) -> (kind: FailureKind)
        ensures
            kind == self@.kind(),
    {
        match self {
            StartError::BinaryNotFound => FailureKind::BinaryNotFound,
            StartError::SpawnFailure(_) => FailureKind::SpawnFailure,
            StartError::ReadinessTimeout(_) => FailureKind::ReadinessTimeout,
            StartError::UnexpectedExit { .. } => FailureKind::UnexpectedExit,
        }
    }

    /// The message for the owner of the process.
    pub fn message(&self) -> (text: String)
        ensures
            text@ == self@.message(),
    {
        match self {
            StartError::BinaryNotFound => "signal-cli not found on $PATH. Install it or use --signal-cli <addr> to connect to an existing daemon".to_owned(),
            StartError::SpawnFailure(words) => words.clone(),
            StartError::ReadinessTimeout(Some(written)) => {
                let mut text = "signal-cli daemon failed to start within 30s. stderr: ".to_owned();
                text.append(written.as_str());
                text
            },
            StartError::ReadinessTimeout(None) => "signal-cli daemon failed to start within 30 seconds".to_owned(),
            StartError::UnexpectedExit { status, diagnostics } => {
                let mut text = "signal-cli exited with ".to_owned();
                text.append(status.as_str());
                if !diagnostics.as_str().is_empty() {
                    text.append(": ");
                    text.append(diagnostics.as_str().trim());
                }
                text
            },
        }
    }
}

/// What is known of a start that failed.
#[derive(Debug)]
pub struct Diagnosis {
    /// The words of the system's error, where the launch failed.
    pub words: String,
    /// How the process exited, where it did.
    pub status: String,
    /// What the process wrote to its error stream, if that could be read.
    pub written: Option<String>,
}

/// The characters of a text that may be missing.
pub open spec fn written_text(written: Option<String>) -> Option<Seq<char>> {
    match written {
        Some(text) => Some(text@),
        None => None,
    }
}

/// The start error of the kind `kind` with what is known of it: a failed
/// launch has the system's words, a missed deadline what the process wrote, an
/// exit its status and what the process wrote, nothing where nothing was read.
pub open spec fn described(
    kind: FailureKind,
    words: Seq<char>,
    status: Seq<char>,
    written: Option<Seq<char>>,
) -> Trouble {
    match kind {
        FailureKind::BinaryNotFound => Trouble::BinaryNotFound,
        FailureKind::SpawnFailure => Trouble::SpawnFailure(words),
        FailureKind::ReadinessTimeout => Trouble::ReadinessTimeout(written),
        FailureKind::UnexpectedExit => Trouble::UnexpectedExit {
            status,
            diagnostics: match written {
                Some(text) => text,
                None => Seq::empty(),
            },
        },
    }
}

/// Makes the start error for the failure that the supervisor reports.
pub fn describe(kind: FailureKind, known: Diagnosis) -> (error: StartError)
    ensures
        error@ == described(kind, known.words@, known.status@, written_text(known.written)),
        error@.kind() == kind,
{
    match kind {
        FailureKind::BinaryNotFound => StartError::BinaryNotFound,
        FailureKind::SpawnFailure => StartError::SpawnFailure(known.words),
        FailureKind::ReadinessTimeout => StartError::ReadinessTimeout(known.written),
        FailureKind::UnexpectedExit => StartError::UnexpectedExit {
            status: known.status,
            diagnostics: match known.written {
                Some(text) => text,
                None => String::new(),
            },
        },
    }
}

/// The path of the executable, as the search for it reports it: the output of
/// a search that succeeded, without the white space around it.
pub open spec fn located_model(succeeded: bool, output: Seq<char>) -> Result<Seq<char>, Trouble> {
    if succeeded {
        Ok(trimmed(output))
    } else {
        Err(Trouble::BinaryNotFound)
    }
}

/// Reads the result of the search for the executable.
pub fn located(succeeded: bool, output: &str) -> (path: Result<String, StartError>)
    ensures
        match path {
            Ok(found) => located_model(succeeded, output@) == Ok::<Seq<char>, Trouble>(found@),
            Err(error) => located_model(succeeded, output@) == Err::<Seq<char>, Trouble>(error@),
        },
{
    if succeeded {
        Ok(output.trim().to_owned())
    } else {
        Err(StartError::BinaryNotFound)
    }
}

/// The local address on which the daemon is told to listen.
pub open spec fn daemon_addr_text(port: u16) -> Seq<char> {
    "127.0.0.1:"@ + decimal(port as nat)
}

/// The local address for the port `port`.
pub fn daemon_addr(port: u16) -> (addr: String)
    ensures
        addr@ == daemon_addr_text(port),
{
    let mut addr = "127.0.0.1:".to_owned();
    push_decimal(&mut addr, port as u64);
    addr
}

/// The arguments with which the daemon is launched to listen on `addr`.
pub open spec fn launch_args_model(addr: Seq<char>) -> Seq<Seq<char>> {
    seq!["daemon"@, "--tcp"@, addr]
}

/// The arguments for a daemon that listens on `addr`.
pub fn launch_args(addr: &str) -> (args: Vec<String>)
    ensures
        crate::state::texts(args@) == launch_args_model(addr@),
{
    let mut args: Vec<String> = Vec::new();
    args.push("daemon".to_owned());
    args.push("--tcp".to_owned());
    args.push(addr.to_owned());
    assert(crate::state::texts(args@) =~= launch_args_model(addr@));
    args
}

/// One thing to do when a process group is ended.
#[derive(Clone, Copy, Debug, PartialEq, Eq, Structural)]
pub enum GroupStep {
    /// Send `signal` to the target `target`: the negated identifier of the
    /// process that leads the group, which addresses every process in it.
    Signal { target: i32, signal: Signal },
    /// Wait so many milliseconds.
    Pause { millis: u64 },
}

/// The way to end the process group that `pid` leads: ask the group to end,
/// give it the grace period, then kill what is left of it.
pub open spec fn group_shutdown(pid: i32) -> Seq<GroupStep> {
    seq![
        GroupStep::Signal { target: (-pid) as i32, signal: Signal::Terminate },
        GroupStep::Pause { millis: GRACE_PERIOD_MS },
        GroupStep::Signal { target: (-pid) as i32, signal: Signal::Kill },
    ]
}

/// Says how to end the process group that `pid` leads.
pub fn kill_process_group(pid: i32) -> (plan: Vec<GroupStep>)
    requires
        pid > i32::MIN,
    ensures
        plan@ == group_shutdown(pid),
{
    let target: i32 = -pid;
    let mut plan: Vec<GroupStep> = Vec::new();
    plan.push(GroupStep::Signal { target, signal: Signal::Terminate });
    plan.push(GroupStep::Pause { millis: GRACE_PERIOD_MS });
    plan.push(GroupStep::Signal { target, signal: Signal::Kill });
    assert(plan@ =~= group_shutdown(pid));
    plan
}

} // verus!

//! The commands a client may send and the states the daemon reports.

use vstd::prelude::*;
use vstd::string::StringExecFns;

verus! {

/// Read timeout, in seconds, that a client needs for a command that may run
/// long.
pub const LONG_READ_TIMEOUT_SECS: u64 = 300;

/// Read timeout, in seconds, that a client needs for any other command.
pub const SHORT_READ_TIMEOUT_SECS: u64 = 5;

/// A command of the protocol.
#[derive(Debug, Clone, Copy, PartialEq, Eq, Structural)]
pub enum Command {
    /// Liveness probe.
    Ping,
    /// Read the current state.
    GetStatus,
    /// Start a recording.
    StartRecording,
    /// Stop the recording and return what was transcribed.
    StopRecording,
    /// Post-process a text.
    ProcessText,
    /// Transcribe a media file.
    TranscribeFile,
    /// Stop reacting to the hotkey.
    PauseDaemon,
    /// React to the hotkey again.
    ResumeDaemon,
    /// Read the configuration.
    GetConfig,
    /// Merge values into the configuration.
    UpdateConfig,
}

/// Whether two strings hold the same characters.
fn same_text(a: &str, b: &str) -> (r: bool)
    ensures
        r == (a@ == b@),
{
    let left: String = String::from_str(a);
    let right: String = String::from_str(b);
    left == right
}

/// Why a request cannot be served.
#[derive(Debug, Clone, Copy, PartialEq, Eq, Structural)]
pub enum CommandError {
    /// The name is none of the protocol's commands.
    UnknownCommand,
}

impl CommandError {
    /// The code of the error on the wire.
    pub fn code(&self) -> (r: &'static str)
        ensures
            r@ == "UNKNOWN_COMMAND"@,
    {
        "UNKNOWN_COMMAND"
    }
}

impl Command {
    /// The name of the command on the wire.
    pub open spec fn spec_name(self) -> Seq<char> {
        match self {
            Command::Ping => "PING"@,
            Command::GetStatus => "GET_STATUS"@,
            Command::StartRecording => "START_RECORDING"@,
            Command::StopRecording => "STOP_RECORDING"@,
            Command::ProcessText => "PROCESS_TEXT"@,
            Command::TranscribeFile => "TRANSCRIBE_FILE"@,
            Command::PauseDaemon => "PAUSE_DAEMON"@,
            Command::ResumeDaemon => "RESUME_DAEMON"@,
            Command::GetConfig => "GET_CONFIG"@,
            Command::UpdateConfig => "UPDATE_CONFIG"@,
        }
    }

    /// The name of the command on the wire.
    pub fn name(&self) -> (r: &'static str)
        ensures
            r@ == self.spec_name(),
    {
        match self {
            Command::Ping => "PING",
            Command::GetStatus => "GET_STATUS",
            Command::StartRecording => "START_RECORDING",
            Command::StopRecording => "STOP_RECORDING",
            Command::ProcessText => "PROCESS_TEXT",
            Command::TranscribeFile => "TRANSCRIBE_FILE",
            Command::PauseDaemon => "PAUSE_DAEMON",
            Command::ResumeDaemon => "RESUME_DAEMON",
            Command::GetConfig => "GET_CONFIG",
            Command::UpdateConfig => "UPDATE_CONFIG",
        }
    }

    /// The command that `name` names. Every other string is an unknown
    /// command.
    pub fn parse(name: &str) -> (r: Result<Command, CommandError>)
        ensures
            r is Ok ==> r->Ok_0.spec_name() == name@,
            r is Err ==> r->Err_0 == CommandError::UnknownCommand && forall|c: Command|
                #[trigger] c.spec_name() != name@,
    {
        if same_text(name, "PING") {
            Ok(Command::Ping)
        } else if same_text(name, "GET_STATUS") {
            Ok(Command::GetStatus)
        } else if same_text(name, "START_RECORDING") {
            Ok(Command::StartRecording)
        } else if same_text(name, "STOP_RECORDING") {
            Ok(Command::StopRecording)
        } else if same_text(name, "PROCESS_TEXT") {
            Ok(Command::ProcessText)
        } else if same_text(name, "TRANSCRIBE_FILE") {
            Ok(Command::TranscribeFile)
        } else if same_text(name, "PAUSE_DAEMON") {
            Ok(Command::PauseDaemon)
        } else if same_text(name, "RESUME_DAEMON") {
            Ok(Command::ResumeDaemon)
        } else if same_text(name, "GET_CONFIG") {
            Ok(Command::GetConfig)
        } else if same_text(name, "UPDATE_CONFIG") {
            Ok(Command::UpdateConfig)
        } else {
            Err(CommandError::UnknownCommand)
        }
    }

    /// True for the commands that may run long: transcribing a file and
    /// post-processing a text.
    pub open spec fn spec_runs_long(self) -> bool {
        self == Command::TranscribeFile || self == Command::ProcessText
    }

    /// The read timeout, in seconds, that a client needs for the command.
    pub fn read_timeout_secs(&self) -> (secs: u64)
        ensures
            secs == if self.spec_runs_long() {
                LONG_READ_TIMEOUT_SECS
            } else {
                SHORT_READ_TIMEOUT_SECS
            },
    {
        match self {
            Command::TranscribeFile => LONG_READ_TIMEOUT_SECS,
            Command::ProcessText => LONG_READ_TIMEOUT_SECS,
            _ => SHORT_READ_TIMEOUT_SECS,
        }
    }
}

/// The names of the commands differ from each other, so a name parses to the
/// one command that bears it.
pub proof fn lemma_command_names_distinct(a: Command, b: Command)
    requires
        a.spec_name() == b.spec_name(),
    ensures
        a == b,
{
    reveal_strlit("PING");
    reveal_strlit("GET_STATUS");
    reveal_strlit("START_RECORDING");
    reveal_strlit("STOP_RECORDING");
    reveal_strlit("PROCESS_TEXT");
    reveal_strlit("TRANSCRIBE_FILE");
    reveal_strlit("PAUSE_DAEMON");
    reveal_strlit("RESUME_DAEMON");
    reveal_strlit("GET_CONFIG");
    reveal_strlit("UPDATE_CONFIG");
    let n = a.spec_name();
    let m = b.spec_name();
    assert(n.len() == m.len());
    assert(n[0] == m[0]);
    assert(n.len() > 2 ==> n[2] == m[2]);
    assert(n.len() > 4 ==> n[4] == m[4]);
}

/// The state that the daemon reports.
#[derive(Debug, Clone, Copy, PartialEq, Eq, Structural)]
pub enum DaemonStatus {
    /// Waiting.
    Idle,
    /// Capturing audio.
    Recording,
    /// Transcribing.
    Processing,
    /// Not reacting to the hotkey.
    Paused,
    /// Not reachable.
    Disconnected,
}

impl DaemonStatus {
    /// The name of the state on the wire.
    pub open spec fn spec_name(self) -> Seq<char> {
        match self {
            DaemonStatus::Idle => "idle"@,
            DaemonStatus::Recording => "recording"@,
            DaemonStatus::Processing => "processing"@,
            DaemonStatus::Paused => "paused"@,
            DaemonStatus::Disconnected => "disconnected"@,
        }
    }

    /// The name of the state on the wire.
    pub fn name(&self) -> (r: &'static str)
        ensures
            r@ == self.spec_name(),
    {
        match self {
            DaemonStatus::Idle => "idle",
            DaemonStatus::Recording => "recording",
            DaemonStatus::Processing => "processing",
            DaemonStatus::Paused => "paused",
            DaemonStatus::Disconnected => "disconnected",
        }
    }

    /// The state that `name` names, if any.
    pub fn parse(name: &str) -> (r: Option<DaemonStatus>)
        ensures
            r is Some ==> r->Some_0.spec_name() == name@,
            r is None ==> forall|s: DaemonStatus| #[trigger] s.spec_name() != name@,
    {
        if same_text(name, "idle") {
            Some(DaemonStatus::Idle)
        } else if same_text(name, "recording") {
            Some(DaemonStatus::Recording)
        } else if same_text(name, "processing") {
            Some(DaemonStatus::Processing)
        } else if same_text(name, "paused") {
            Some(DaemonStatus::Paused)
        } else if same_text(name, "disconnected") {
            Some(DaemonStatus::Disconnected)
        } else {
            None
        }
    }
}

} // verus!

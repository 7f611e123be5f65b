//! The endpoint's side of the protocol: what to do with a header, with a
//! body, and with each command.

use crate::config::RecordingState;
use crate::ipc::command::{Command, CommandError, DaemonStatus};
use crate::ipc::framing::{request_length, spec_announced, MAX_REQUEST_SIZE};
use vstd::prelude::*;

verus! {

/// The code of the response to a body that is not a request.
pub const IPC_ERROR: &'static str = "IPC_ERROR";

/// What the endpoint does after a request header.
#[derive(Debug, Clone, Copy, PartialEq, Eq, Structural)]
pub enum ConnectionStep {
    /// Close the connection without a response.
    Close,
    /// Read a body of `len` bytes.
    ReadBody { len: usize },
}

/// Decides what follows a request header: a body within the request limit is
/// read, anything larger closes the connection unread.
pub fn after_header(header: &[u8; 4]) -> (step: ConnectionStep)
    ensures
        step == if spec_announced(header@) > MAX_REQUEST_SIZE {
            ConnectionStep::Close
        } else {
            ConnectionStep::ReadBody { len: spec_announced(header@) as usize }
        },
{
    match request_length(header) {
        Ok(len) => ConnectionStep::ReadBody { len },
        Err(_) => ConnectionStep::Close,
    }
}

/// What a request asks the daemon to do.
#[derive(Debug, Clone, Copy, PartialEq, Eq, Structural)]
pub enum ServerAction {
    /// Answer the probe.
    Pong,
    /// Report the state, with telemetry.
    ReportStatus,
    /// Start a session, then report the state.
    Start,
    /// Report the state as it is: a session is under way already.
    ReportBusy,
    /// Refuse: the daemon is paused.
    RefusePaused,
    /// Stop the capture, wait for the session to end, and report the state
    /// with the transcription.
    Stop,
    /// Stop reacting to toggles, then report the state.
    Pause,
    /// React to toggles again, then report the state.
    Resume,
    /// Report the configuration.
    ReadConfig,
    /// Merge the request's data into the configuration and report it.
    MergeConfig,
    /// Post-process the text in the request's data.
    ProcessText,
    /// Transcribe the file named in the request's data.
    TranscribeFile,
}

/// What `command` asks of a daemon that is paused or not and in `state`.
pub open spec fn spec_plan(command: Command, paused: bool, state: RecordingState) -> ServerAction {
    match command {
        Command::Ping => ServerAction::Pong,
        Command::GetStatus => ServerAction::ReportStatus,
        Command::StartRecording => if paused {
            ServerAction::RefusePaused
        } else if state != RecordingState::Idle {
            ServerAction::ReportBusy
        } else {
            ServerAction::Start
        },
        Command::StopRecording => ServerAction::Stop,
        Command::ProcessText => ServerAction::ProcessText,
        Command::TranscribeFile => ServerAction::TranscribeFile,
        Command::PauseDaemon => ServerAction::Pause,
        Command::ResumeDaemon => ServerAction::Resume,
        Command::GetConfig => ServerAction::ReadConfig,
        Command::UpdateConfig => ServerAction::MergeConfig,
    }
}

/// Decides what a command asks of the daemon.
pub fn plan_command(command: Command, paused: bool, state: RecordingState) -> (action:
    ServerAction)
    ensures
        action == spec_plan(command, paused, state),
{
    match command {
        Command::Ping => ServerAction::Pong,
        Command::GetStatus => ServerAction::ReportStatus,
        Command::StartRecording => {
            if paused {
                ServerAction::RefusePaused
            } else {
                match state {
                    RecordingState::Idle => ServerAction::Start,
                    _ => ServerAction::ReportBusy,
                }
            }
        },
        Command::StopRecording => ServerAction::Stop,
        Command::ProcessText => ServerAction::ProcessText,
        Command::TranscribeFile => ServerAction::TranscribeFile,
        Command::PauseDaemon => ServerAction::Pause,
        Command::ResumeDaemon => ServerAction::Resume,
        Command::GetConfig => ServerAction::ReadConfig,
        Command::UpdateConfig => ServerAction::MergeConfig,
    }
}

/// What a request body leads to.
#[derive(Debug, Clone, Copy, PartialEq, Eq, Structural)]
pub enum RequestOutcome {
    /// The body is not a request: answer with `IPC_ERROR`.
    Malformed,
    /// The command is not one of the protocol's: answer with
    /// `UNKNOWN_COMMAND`.
    Unknown,
    /// Carry out the action.
    Act { action: ServerAction },
}

/// Decides what a request body leads to. `command_name` is the command that
/// the body names, `None` where the body is not a request at all. Nothing is
/// carried out unless the body is a whole request that names a command of the
/// protocol.
pub fn plan_request(command_name: Option<&str>, paused: bool, state: RecordingState) -> (outcome:
    RequestOutcome)
    ensures
        command_name is None ==> outcome == RequestOutcome::Malformed,
        command_name is Some ==> match outcome {
            RequestOutcome::Act { action } => exists|c: Command|
                c.spec_name() == command_name->Some_0@ && action == spec_plan(c, paused, state),
            RequestOutcome::Unknown => forall|c: Command|
                #[trigger] c.spec_name() != command_name->Some_0@,
            RequestOutcome::Malformed => false,
        },
{
    match command_name {
        None => RequestOutcome::Malformed,
        Some(name) => match Command::parse(name) {
            Ok(command) => RequestOutcome::Act { action: plan_command(command, paused, state) },
            Err(_) => RequestOutcome::Unknown,
        },
    }
}

/// The state that the daemon reports: paused while it is, else what the
/// orchestrator shows.
pub fn reported_status(paused: bool, state: RecordingState) -> (status: DaemonStatus)
    ensures
        status == if paused {
            DaemonStatus::Paused
        } else {
            match state {
                RecordingState::Idle => DaemonStatus::Idle,
                RecordingState::Recording => DaemonStatus::Recording,
                RecordingState::Processing => DaemonStatus::Processing,
            }
        },
{
    if paused {
        DaemonStatus::Paused
    } else {
        match state {
            RecordingState::Idle => DaemonStatus::Idle,
            RecordingState::Recording => DaemonStatus::Recording,
            RecordingState::Processing => DaemonStatus::Processing,
        }
    }
}

/// The code of the error response to a request that is not carried out.
pub fn error_code(outcome: RequestOutcome) -> (code: Option<&'static str>)
    ensures
        outcome is Malformed ==> code is Some && code->Some_0@ == IPC_ERROR@,
        outcome is Unknown ==> code is Some && code->Some_0@ == "UNKNOWN_COMMAND"@,
        outcome is Act ==> code is None,
{
    match outcome {
        RequestOutcome::Malformed => Some(IPC_ERROR),
        RequestOutcome::Unknown => Some(CommandError::UnknownCommand.code()),
        RequestOutcome::Act { .. } => None,
    }
}

/// A start is planned only for a daemon that is neither paused nor busy, and
/// no command but the two that say so starts or stops anything.
pub proof fn lemma_only_start_starts(command: Command, paused: bool, state: RecordingState)
    ensures
        spec_plan(command, paused, state) == ServerAction::Start <==> command
            == Command::StartRecording && !paused && state == RecordingState::Idle,
        spec_plan(command, paused, state) == ServerAction::Stop <==> command
            == Command::StopRecording,
{
}

} // verus!

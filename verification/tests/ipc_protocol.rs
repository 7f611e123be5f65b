use capture::config::RecordingState;
use capture::ipc::client::{check_owner, SecurityError, FALLBACK_DIR_MODE};
use capture::ipc::server::error_code;
use capture::ipc::{
    after_header, plan_command, plan_request, reported_status, ConnectionStep, RequestOutcome,
    ServerAction, IPC_ERROR,
};
use capture::ipc::command::CommandError;
use capture::ipc::framing::request_body;
use capture::ipc::{
    decode_length, encode_length, frame_request, frame_response, interpret_response,
    request_length, response_length, socket_path, split_request, Command, DaemonStatus,
    FrameStatus, IpcError, HEADER_LEN, MAX_REQUEST_SIZE, MAX_RESPONSE_SIZE,
    PAYLOAD_TOO_LARGE_RESPONSE,
};

#[test]
fn limits_are_one_and_ten_mebibytes() {
    assert_eq!(MAX_RESPONSE_SIZE, 1_048_576);
    assert_eq!(MAX_REQUEST_SIZE, 10_485_760);
    assert_eq!(HEADER_LEN, 4);
}

#[test]
fn length_is_spelled_big_endian() {
    assert_eq!(encode_length(0), [0, 0, 0, 0]);
    assert_eq!(encode_length(26), [0, 0, 0, 0x1A]);
    assert_eq!(encode_length(0x0102_0304), [1, 2, 3, 4]);
    assert_eq!(encode_length(u32::MAX), [0xFF; 4]);
    assert_eq!(decode_length(&[0, 0xA0, 0, 1]), 0x00A0_0001);
    for len in [0u32, 1, 255, 256, 65_535, 65_536, 1 << 24, u32::MAX] {
        assert_eq!(encode_length(len), len.to_be_bytes());
        assert_eq!(decode_length(&len.to_be_bytes()), len);
    }
}

#[test]
fn ping_request_is_framed() {
    let body = b"{\"cmd\":\"PING\",\"data\":null}";
    let framed = frame_request(body).unwrap();
    assert_eq!(&framed[..4], &[0, 0, 0, body.len() as u8]);
    assert_eq!(&framed[4..], body);
    let status = split_request(&framed);
    assert_eq!(status, FrameStatus::Complete { start: 4, end: 4 + body.len() });
    assert_eq!(request_body(&framed, status), Some(&body[..]));
}

#[test]
fn ping_response_is_framed() {
    let body = b"{\"status\":\"success\",\"data\":{\"ok\":true},\"error\":null}";
    let framed = frame_response(body);
    assert_eq!(framed.len(), 4 + body.len());
    assert_eq!(decode_length(&[framed[0], framed[1], framed[2], framed[3]]) as usize, body.len());
    assert_eq!(&framed[4..], body);
}

#[test]
fn oversize_request_header_is_refused_unread() {
    let header = [0x00, 0xA0, 0x00, 0x01];
    assert_eq!(request_length(&header), Err(IpcError::RequestTooLarge));
    assert_eq!(split_request(&header), FrameStatus::TooLarge);
    let mut with_body = header.to_vec();
    with_body.extend_from_slice(&[b'{'; 64]);
    let status = split_request(&with_body);
    assert_eq!(status, FrameStatus::TooLarge);
    assert_eq!(request_body(&with_body, status), None);
}

#[test]
fn request_of_exactly_the_limit_is_accepted() {
    let header = (MAX_REQUEST_SIZE as u32).to_be_bytes();
    assert_eq!(request_length(&header), Ok(MAX_REQUEST_SIZE));
    let over = (MAX_REQUEST_SIZE as u32 + 1).to_be_bytes();
    assert_eq!(request_length(&over), Err(IpcError::RequestTooLarge));
    let body = vec![b' '; MAX_REQUEST_SIZE];
    assert_eq!(frame_request(&body).unwrap().len(), MAX_REQUEST_SIZE + 4);
    let body = vec![b' '; MAX_REQUEST_SIZE + 1];
    assert_eq!(frame_request(&body), Err(IpcError::RequestTooLarge));
}

#[test]
fn oversize_response_becomes_payload_too_large() {
    let body = vec![b'x'; MAX_RESPONSE_SIZE + 1];
    let framed = frame_response(&body);
    assert_eq!(&framed[4..], PAYLOAD_TOO_LARGE_RESPONSE.as_bytes());
    assert_eq!(
        decode_length(&[framed[0], framed[1], framed[2], framed[3]]) as usize,
        PAYLOAD_TOO_LARGE_RESPONSE.len()
    );
    assert!(PAYLOAD_TOO_LARGE_RESPONSE.contains("\"status\":\"error\""));
    assert!(PAYLOAD_TOO_LARGE_RESPONSE.contains("PAYLOAD_TOO_LARGE"));
    let body = vec![b'x'; MAX_RESPONSE_SIZE];
    assert_eq!(frame_response(&body).len(), MAX_RESPONSE_SIZE + 4);
}

#[test]
fn client_refuses_an_oversize_response() {
    assert_eq!(response_length(&(MAX_RESPONSE_SIZE as u32).to_be_bytes()), Ok(MAX_RESPONSE_SIZE));
    assert_eq!(
        response_length(&(MAX_RESPONSE_SIZE as u32 + 1).to_be_bytes()),
        Err(IpcError::ResponseTooLarge)
    );
    assert_eq!(response_length(&[0, 0, 0, 7]), Ok(7));
    assert_eq!(IpcError::ResponseTooLarge.code(), "PAYLOAD_TOO_LARGE");
}

#[test]
fn partial_frames_are_incomplete() {
    let framed = frame_request(b"{\"cmd\":\"PING\"}").unwrap();
    for cut in 0..framed.len() {
        assert_eq!(split_request(&framed[..cut]), FrameStatus::Incomplete, "cut at {cut}");
    }
    let mut two = framed.clone();
    two.extend_from_slice(&[0, 0]);
    assert_eq!(split_request(&two), FrameStatus::Complete { start: 4, end: framed.len() });
    assert_eq!(split_request(&[0, 0, 0, 0]), FrameStatus::Complete { start: 4, end: 4 });
}

#[test]
fn command_names_round_trip() {
    let all = [
        (Command::Ping, "PING"),
        (Command::GetStatus, "GET_STATUS"),
        (Command::StartRecording, "START_RECORDING"),
        (Command::StopRecording, "STOP_RECORDING"),
        (Command::ProcessText, "PROCESS_TEXT"),
        (Command::TranscribeFile, "TRANSCRIBE_FILE"),
        (Command::PauseDaemon, "PAUSE_DAEMON"),
        (Command::ResumeDaemon, "RESUME_DAEMON"),
        (Command::GetConfig, "GET_CONFIG"),
        (Command::UpdateConfig, "UPDATE_CONFIG"),
    ];
    for (command, name) in all {
        assert_eq!(command.name(), name);
        assert_eq!(Command::parse(name), Ok(command));
    }
}

#[test]
fn other_names_are_unknown_commands() {
    for name in ["", "ping", "PING ", "SHUTDOWN", "GET_STATUS\n", "STOP"] {
        assert_eq!(Command::parse(name), Err(CommandError::UnknownCommand));
    }
    assert_eq!(CommandError::UnknownCommand.code(), "UNKNOWN_COMMAND");
}

#[test]
fn long_running_commands_get_the_long_timeout() {
    assert_eq!(Command::Ping.read_timeout_secs(), 5);
    assert_eq!(Command::GetStatus.read_timeout_secs(), 5);
    assert_eq!(Command::TranscribeFile.read_timeout_secs(), 300);
    assert_eq!(Command::ProcessText.read_timeout_secs(), 300);
}

#[test]
fn daemon_states_round_trip() {
    for (state, name) in [
        (DaemonStatus::Idle, "idle"),
        (DaemonStatus::Recording, "recording"),
        (DaemonStatus::Processing, "processing"),
        (DaemonStatus::Paused, "paused"),
        (DaemonStatus::Disconnected, "disconnected"),
    ] {
        assert_eq!(state.name(), name);
        assert_eq!(DaemonStatus::parse(name), Some(state));
    }
    assert_eq!(DaemonStatus::parse("IDLE"), None);
}

#[test]
fn socket_path_follows_the_order_of_preference() {
    assert_eq!(
        socket_path(Some("/run/custom.sock"), Some("/run/user/1000"), "/tmp", "1000"),
        "/run/custom.sock"
    );
    assert_eq!(
        socket_path(None, Some("/run/user/1000"), "/tmp", "1000"),
        "/run/user/1000/v2m/v2m.sock"
    );
    assert_eq!(socket_path(None, None, "/tmp", "1000"), "/tmp/v2m_1000/v2m.sock");
}

#[test]
fn foreign_directory_is_a_security_error() {
    assert_eq!(check_owner(1000, 1000), Ok(()));
    assert_eq!(check_owner(0, 1000), Err(SecurityError::ForeignOwner));
    assert_eq!(FALLBACK_DIR_MODE, 0o700);
}

#[test]
fn response_is_data_on_success_and_a_message_otherwise() {
    assert_eq!(interpret_response("success", Some(7), None), Ok(Some(7)));
    assert_eq!(interpret_response::<u8>("success", None, Some("x".to_string())), Ok(None));
    assert_eq!(
        interpret_response("error", Some(7), Some("UNKNOWN_COMMAND".to_string())),
        Err("UNKNOWN_COMMAND".to_string())
    );
    assert_eq!(
        interpret_response::<u8>("error", None, None),
        Err("Error desconocido del daemon".to_string())
    );
    assert_eq!(
        interpret_response::<u8>("Success", None, None),
        Err("Error desconocido del daemon".to_string())
    );
}

#[test]
fn header_decides_between_reading_and_closing() {
    assert_eq!(after_header(&[0, 0, 0, 26]), ConnectionStep::ReadBody { len: 26 });
    assert_eq!(after_header(&[0x00, 0xA0, 0x00, 0x00]), ConnectionStep::ReadBody { len: MAX_REQUEST_SIZE });
    assert_eq!(after_header(&[0x00, 0xA0, 0x00, 0x01]), ConnectionStep::Close);
    assert_eq!(after_header(&[0xFF; 4]), ConnectionStep::Close);
}

#[test]
fn nothing_is_carried_out_for_a_body_that_is_no_request() {
    assert_eq!(plan_request(None, false, RecordingState::Idle), RequestOutcome::Malformed);
    assert_eq!(error_code(RequestOutcome::Malformed), Some("IPC_ERROR"));
    assert_eq!(IPC_ERROR, "IPC_ERROR");
    assert_eq!(plan_request(Some("REBOOT"), false, RecordingState::Idle), RequestOutcome::Unknown);
    assert_eq!(error_code(RequestOutcome::Unknown), Some("UNKNOWN_COMMAND"));
    let ping = plan_request(Some("PING"), true, RecordingState::Processing);
    assert_eq!(ping, RequestOutcome::Act { action: ServerAction::Pong });
    assert_eq!(error_code(ping), None);
}

#[test]
fn start_is_planned_only_when_idle_and_not_paused() {
    let start = Command::StartRecording;
    assert_eq!(plan_command(start, false, RecordingState::Idle), ServerAction::Start);
    assert_eq!(plan_command(start, false, RecordingState::Recording), ServerAction::ReportBusy);
    assert_eq!(plan_command(start, false, RecordingState::Processing), ServerAction::ReportBusy);
    assert_eq!(plan_command(start, true, RecordingState::Idle), ServerAction::RefusePaused);
    assert_eq!(plan_command(Command::StopRecording, true, RecordingState::Idle), ServerAction::Stop);
    assert_eq!(plan_command(Command::GetStatus, false, RecordingState::Idle), ServerAction::ReportStatus);
    assert_eq!(plan_command(Command::PauseDaemon, false, RecordingState::Idle), ServerAction::Pause);
    assert_eq!(plan_command(Command::ResumeDaemon, true, RecordingState::Idle), ServerAction::Resume);
    assert_eq!(plan_command(Command::GetConfig, false, RecordingState::Idle), ServerAction::ReadConfig);
    assert_eq!(plan_command(Command::UpdateConfig, false, RecordingState::Idle), ServerAction::MergeConfig);
    assert_eq!(plan_command(Command::ProcessText, false, RecordingState::Idle), ServerAction::ProcessText);
    assert_eq!(plan_command(Command::TranscribeFile, false, RecordingState::Idle), ServerAction::TranscribeFile);
}

#[test]
fn paused_daemon_reports_itself_paused() {
    assert_eq!(reported_status(true, RecordingState::Recording), DaemonStatus::Paused);
    assert_eq!(reported_status(false, RecordingState::Idle), DaemonStatus::Idle);
    assert_eq!(reported_status(false, RecordingState::Recording), DaemonStatus::Recording);
    assert_eq!(reported_status(false, RecordingState::Processing), DaemonStatus::Processing);
}

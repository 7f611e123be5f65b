//! The local request/response protocol: length-prefixed frames, their size
//! limits, the command set, and where the socket lives.

pub mod client;
pub mod command;
pub mod framing;
pub mod server;

pub use client::{interpret_response, socket_path, READ_TIMEOUT_SECS};
pub use command::{Command, DaemonStatus};
pub use server::{
    after_header, plan_command, plan_request, reported_status, ConnectionStep, RequestOutcome,
    ServerAction, IPC_ERROR,
};
pub use framing::{
    decode_length, encode_length, frame_request, frame_response, request_length,
    response_length, split_request, FrameStatus, IpcError, HEADER_LEN, MAX_REQUEST_SIZE,
    MAX_RESPONSE_SIZE, PAYLOAD_TOO_LARGE_RESPONSE,
};

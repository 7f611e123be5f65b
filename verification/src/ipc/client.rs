//! The client's side of the protocol: where the socket is and what a response
//! means.

use vstd::prelude::*;
use vstd::string::StringExecFns;

verus! {

/// Read timeout of the client for cheap commands, in seconds.
pub const READ_TIMEOUT_SECS: u64 = 5;

/// Name of the application in socket paths.
pub const SOCKET_APP_NAME: &'static str = "v2m";

/// File name of the socket.
pub const SOCKET_FILE_NAME: &'static str = "v2m.sock";

/// Permission bits of the fallback directory: everything for the owner,
/// nothing for anybody else.
pub const FALLBACK_DIR_MODE: u32 = 0o700;

/// What the client reports when the daemon names no error.
pub const UNKNOWN_DAEMON_ERROR: &'static str = "Error desconocido del daemon";

/// The socket below a runtime directory.
pub open spec fn spec_runtime_socket(runtime_dir: Seq<char>) -> Seq<char> {
    runtime_dir + "/"@ + SOCKET_APP_NAME@ + "/"@ + SOCKET_FILE_NAME@
}

/// The socket below the temporary directory, in a directory of the user's
/// own.
pub open spec fn spec_fallback_socket(temp_dir: Seq<char>, uid: Seq<char>) -> Seq<char> {
    temp_dir + "/"@ + SOCKET_APP_NAME@ + "_"@ + uid + "/"@ + SOCKET_FILE_NAME@
}

/// The socket's path: the override if there is one, else the socket below the
/// runtime directory if there is one, else the fallback.
pub open spec fn spec_socket_path(
    override_path: Option<Seq<char>>,
    runtime_dir: Option<Seq<char>>,
    temp_dir: Seq<char>,
    uid: Seq<char>,
) -> Seq<char> {
    match override_path {
        Some(path) => path,
        None => match runtime_dir {
            Some(dir) => spec_runtime_socket(dir),
            None => spec_fallback_socket(temp_dir, uid),
        },
    }
}

/// Chooses the socket's path from what the environment offers: an explicit
/// override, the user's runtime directory, or a directory of the user's own
/// below the temporary directory.
pub fn socket_path(
    override_path: Option<&str>,
    runtime_dir: Option<&str>,
    temp_dir: &str,
    uid: &str,
) -> (path: String)
    ensures
        path@ == spec_socket_path(
            match override_path {
                Some(s) => Some(s@),
                None => None,
            },
            match runtime_dir {
                Some(s) => Some(s@),
                None => None,
            },
            temp_dir@,
            uid@,
        ),
{
    match override_path {
        Some(path) => String::from_str(path),
        None => match runtime_dir {
            Some(dir) => String::from_str(dir).concat("/").concat(SOCKET_APP_NAME).concat(
                "/",
            ).concat(SOCKET_FILE_NAME),
            None => String::from_str(temp_dir).concat("/").concat(SOCKET_APP_NAME).concat(
                "_",
            ).concat(uid).concat("/").concat(SOCKET_FILE_NAME),
        },
    }
}

/// Why the endpoint refuses to listen.
#[derive(Debug, Clone, Copy, PartialEq, Eq, Structural)]
pub enum SecurityError {
    /// The socket's directory belongs to another user.
    ForeignOwner,
}

/// Accepts the socket's directory only when it belongs to the current user.
pub fn check_owner(directory_uid: u32, current_uid: u32) -> (r: Result<(), SecurityError>)
    ensures
        r is Ok <==> directory_uid == current_uid,
        r is Err ==> r->Err_0 == SecurityError::ForeignOwner,
{
    if directory_uid == current_uid {
        Ok(())
    } else {
        Err(SecurityError::ForeignOwner)
    }
}

/// What a response means to the caller: the data on success, the daemon's
/// error message on anything else.
pub fn interpret_response<T>(status: &str, data: Option<T>, error: Option<String>) -> (r: Result<
    Option<T>,
    String,
>)
    ensures
        status@ == "success"@ ==> r == Ok::<Option<T>, String>(data),
        status@ != "success"@ ==> r is Err && r->Err_0@ == match error {
            Some(message) => message@,
            None => UNKNOWN_DAEMON_ERROR@,
        },
{
    let expected: String = String::from_str("success");
    let actual: String = String::from_str(status);
    if actual == expected {
        Ok(data)
    } else {
        match error {
            Some(message) => Err(message),
            None => Err(String::from_str(UNKNOWN_DAEMON_ERROR)),
        }
    }
}

} // verus!

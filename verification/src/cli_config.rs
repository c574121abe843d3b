//! Where the daemon's sockets are.

use vstd::prelude::*;
use vstd::string::StringExecFns;
use std::path::PathBuf;

verus! {

/// The name of the socket over which the display's output is handed in.
pub const FD_SOCKET_NAME: &'static str = "clockd.fd";

/// The name of the socket over which commands arrive.
pub const CMD_SOCKET_NAME: &'static str = "clockd.cmd";

/// The path that `PathBuf::from_iter` builds from a directory and a name
/// in it.
pub uninterp spec fn joined_path(dir: Seq<char>, name: Seq<char>) -> PathBuf;

/// `PathBuf::from_iter`: the path of the components given, each pushed
/// onto the one before.
#[verifier::external_body]
fn join_path(dir: &str, name: &str) -> (path: PathBuf)
    ensures
        path == joined_path(dir@, name@),
{
    PathBuf::from_iter([dir, name])
}

/// What is said where no socket path can be made up.
pub open spec fn missing_path_message(default_name: Seq<char>) -> Seq<char> {
    "socket path must be specified for "@ + default_name
}

/// Settles the path of a socket. A path that was configured stays. Without
/// one, the socket is `default_name` in the runtime directory, if the
/// caller knows one. Else there is no path, and the error says for which
/// socket.
pub fn make_socket_path(
    config_path: &mut Option<PathBuf>,
    runtime_dir: Option<&str>,
    default_name: &str,
) -> (r: Result<(), String>)
    ensures
        old(config_path).is_some() ==> *final(config_path) == *old(config_path) && r.is_ok(),
        old(config_path).is_none() ==> match runtime_dir {
            Some(dir) => *final(config_path) == Some(joined_path(dir@, default_name@))
                && r.is_ok(),
            None => final(config_path).is_none() && (r matches Err(message) && message@
                == missing_path_message(default_name@)),
        },
{
    if config_path.is_some() {
        return Ok(());
    }
    match runtime_dir {
        Some(dir) => {
            *config_path = Some(join_path(dir, default_name));
            Ok(())
        },
        None => {
            let mut message = String::from_str("socket path must be specified for ");
            message.append(default_name);
            Err(message)
        },
    }
}

} // verus!

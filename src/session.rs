//! Setting up one streaming session: the counting producer wrapped in a
//! disconnect-aware handle, the receiver for the cleanup task, and the line
//! the teardown reports.
use crate::cleanup::CleanupTask;
use crate::handle::ClientDisconnect;
use crate::signal::cancellation_channel;
use crate::source::CountingWindows;
use tokio::sync::oneshot::Receiver;
use vstd::prelude::*;
use vstd::string::StringExecFns;

verus! {

/// The line that the teardown reports: the data source, when there is one,
/// and the stream path.
pub open spec fn disconnect_message_spec(datasource: Option<Seq<char>>, path: Seq<char>) -> Seq<char> {
    "client disconnected for "@ + match datasource {
        Some(d) => "datasource "@ + d + ", "@,
        None => Seq::<char>::empty(),
    } + "path "@ + path
}

/// The line that the teardown reports, e.g.
/// `client disconnected for datasource abc, path stream`.
pub fn disconnect_message(datasource: Option<&str>, path: &str) -> (r: String)
    ensures
        r@ == disconnect_message_spec(
            match datasource {
                Some(d) => Some(d@),
                None => None,
            },
            path@,
        ),
{
    let mut r = String::from_str("client disconnected for ");
    match datasource {
        Some(d) => {
            r.append("datasource ");
            r.append(d);
            r.append(", ");
        },
        None => {},
    }
    r.append("path ");
    r.append(path);
    r
}

/// Everything one streaming session is made of.
pub struct StreamSession {
    /// What the consumer polls; discarding it signals the cleanup task.
    pub handle: ClientDisconnect<CountingWindows>,
    /// The receiving end that the cleanup task waits on.
    pub receiver: Receiver<()>,
    /// The cleanup task's state.
    pub cleanup: CleanupTask,
    /// The line that the teardown reports.
    pub message: String,
}

/// Starts a session on `path`: a count from zero behind a fresh handle, a
/// cleanup task that has not torn down, and its report line.
pub fn start_stream(datasource: Option<&str>, path: &str) -> (r: StreamSession)
    ensures
        r.handle.inner_spec().next_start() == Some(0u32),
        !r.cleanup.is_done(),
        r.message@ == disconnect_message_spec(
            match datasource {
                Some(d) => Some(d@),
                None => None,
            },
            path@,
        ),
{
    let (tx, rx) = cancellation_channel();
    StreamSession {
        handle: ClientDisconnect::new(CountingWindows::new(), tx),
        receiver: rx,
        cleanup: CleanupTask::new(),
        message: disconnect_message(datasource, path),
    }
}

} // verus!

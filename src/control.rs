use vstd::prelude::*;
use vstd::string::*;
use tokio::sync::oneshot::{Receiver, Sender};

verus! {

#[verifier::external_type_specification]
#[verifier::external_body]
#[verifier::reject_recursive_types(T)]
pub struct ExSender<T>(Sender<T>);

#[verifier::external_type_specification]
#[verifier::external_body]
#[verifier::reject_recursive_types(T)]
pub struct ExReceiver<T>(Receiver<T>);

#[verifier::external_type_specification]
#[verifier::external_body]
pub struct ExRecvError(tokio::sync::oneshot::error::RecvError);

/// Relies on tokio::sync::oneshot::channel: a fresh sender and receiver of one
/// one-shot channel. Nothing more is promised of them.
pub assume_specification<T>[ tokio::sync::oneshot::channel::<T> ]() -> (Sender<T>, Receiver<T>);

/// Relies on tokio::sync::oneshot::Sender::send: hands `t` to the receiver, or
/// gives it back when the receiver is gone; which of the two depends on the
/// other side alone.
pub assume_specification<T>[ Sender::<T>::send ](tx: Sender<T>, t: T) -> (r: Result<(), T>)
    ensures
        r matches Err(back) ==> back == t,
;

/// Why a request to start or stop the control server failed.
#[derive(Debug, PartialEq, Eq)]
pub enum SyncError {
    /// A server is running already.
    AlreadyRunning,
    /// No server is running.
    NotRunning,
    /// The running server's task no longer listens for the shutdown signal.
    ShutdownSignalFailed,
    /// No listening socket could be had; the cause is given.
    BindFailure(String),
}

impl SyncError {
    /// The message that callers show for this failure.
    pub fn message(&self) -> (r: String)
        ensures
            r@ == match self {
                SyncError::AlreadyRunning => "Server already running"@,
                SyncError::NotRunning => "Server not running"@,
                SyncError::ShutdownSignalFailed => "Failed to send shutdown signal"@,
                SyncError::BindFailure(cause) => cause@,
            },
    {
        match self {
            SyncError::AlreadyRunning => String::from_str("Server already running"),
            SyncError::NotRunning => String::from_str("Server not running"),
            SyncError::ShutdownSignalFailed => String::from_str("Failed to send shutdown signal"),
            SyncError::BindFailure(cause) => cause.clone(),
        }
    }
}

/// Where the control server stands: stopped, or running with the sender that
/// asks its task to shut down.
pub enum Lifecycle {
    /// No server runs.
    Stopped,
    /// A server runs; sending on the sender asks it to shut down.
    Running(Sender<()>),
}

/// The single slot that tells whether a control server is running.
pub struct SyncService {
    state: Lifecycle,
}

impl SyncService {
    /// Whether a server holds the slot.
    pub closed spec fn running(&self) -> bool {
        self.state is Running
    }

    /// A slot with no server in it.
    pub fn new() -> (r: Self)
        ensures
            !r.running(),
    {
        SyncService { state: Lifecycle::Stopped }
    }

    /// Whether a server holds the slot.
    pub fn is_running(&self) -> (r: bool)
        ensures
            r == self.running(),
    {
        match self.state {
            Lifecycle::Running(_) => true,
            Lifecycle::Stopped => false,
        }
    }

    /// Checks, before any socket is bound, that a server may start.
    pub fn begin_start(&self) -> (r: Result<(), SyncError>)
        ensures
            r == if self.running() {
                Err::<(), SyncError>(SyncError::AlreadyRunning)
            } else {
                Ok::<(), SyncError>(())
            },
    {
        if self.is_running() {
            Err(SyncError::AlreadyRunning)
        } else {
            Ok(())
        }
    }

    /// Applies the outcome of binding the listening socket, given as the
    /// host's address and the port that the system chose. Where a server runs
    /// already, nothing changes and `AlreadyRunning` comes back. A failed bind
    /// leaves the slot empty, so that a later start can succeed. Otherwise the
    /// slot is taken, and the server's URL comes back with the receiver that
    /// the server's task waits on for its shutdown.
    pub fn finish_start(&mut self, bound: Result<(String, u16), String>) -> (r: Result<
        (String, Receiver<()>),
        SyncError,
    >)
        ensures
            old(self).running() ==> (r matches Err(SyncError::AlreadyRunning)) && *final(self)
                == *old(self),
            !old(self).running() ==> match bound {
                Ok((host, port)) => (r matches Ok((url, _)) && url@ == settings_url_of(
                    host@,
                    port,
                )) && final(self).running(),
                Err(cause) => r == Err::<(String, Receiver<()>), SyncError>(
                    SyncError::BindFailure(cause),
                ) && !final(self).running(),
            },
    {
        if self.is_running() {
            return Err(SyncError::AlreadyRunning);
        }
        match bound {
            Ok((host, port)) => {
                let (tx, rx) = tokio::sync::oneshot::channel::<()>();
                self.state = Lifecycle::Running(tx);
                Ok((settings_url(host.as_str(), port), rx))
            },
            Err(cause) => Err(SyncError::BindFailure(cause)),
        }
    }

    /// Stops the running server: the slot is emptied and its task is told to
    /// shut down. With no server running, `NotRunning` comes back and nothing
    /// changes; where the task no longer listens, `ShutdownSignalFailed`.
    pub fn stop(&mut self) -> (r: Result<(), SyncError>)
        ensures
            !final(self).running(),
            !old(self).running() ==> r == Err::<(), SyncError>(SyncError::NotRunning),
            old(self).running() ==> (r matches Ok(()) || r matches Err(
                SyncError::ShutdownSignalFailed,
            )),
    {
        let mut state = Lifecycle::Stopped;
        std::mem::swap(&mut state, &mut self.state);
        match state {
            Lifecycle::Stopped => Err(SyncError::NotRunning),
            Lifecycle::Running(tx) => match tx.send(()) {
                Ok(()) => Ok(()),
                Err(()) => Err(SyncError::ShutdownSignalFailed),
            },
        }
    }
}

/// Starts the control server in `service` from the outcome of binding its
/// socket, as `SyncService::finish_start` does, with each failure given as its
/// message.
pub fn start_sync_server(service: &mut SyncService, bound: Result<(String, u16), String>) -> (r:
    Result<(String, Receiver<()>), String>)
    ensures
        old(service).running() ==> (r matches Err(m) && m@ == "Server already running"@)
            && *final(service) == *old(service),
        !old(service).running() ==> match bound {
            Ok((host, port)) => (r matches Ok((url, _)) && url@ == settings_url_of(host@, port))
                && final(service).running(),
            Err(cause) => (r matches Err(m) && m@ == cause@) && !final(service).running(),
        },
{
    match service.finish_start(bound) {
        Ok(started) => Ok(started),
        Err(e) => Err(e.message()),
    }
}

/// Stops the control server in `service`, as `SyncService::stop` does, with
/// each failure given as its message.
pub fn stop_sync_server(service: &mut SyncService) -> (r: Result<(), String>)
    ensures
        !final(service).running(),
        !old(service).running() ==> (r matches Err(m) && m@ == "Server not running"@),
        old(service).running() ==> (r matches Ok(()) || (r matches Err(m) && m@
            == "Failed to send shutdown signal"@)),
{
    match service.stop() {
        Ok(()) => Ok(()),
        Err(e) => Err(e.message()),
    }
}

/// The ten decimal digits, in order.
pub open spec fn digit_chars() -> Seq<char> {
    seq!['0', '1', '2', '3', '4', '5', '6', '7', '8', '9']
}

/// The decimal digits of `n`, without leading zeros.
pub open spec fn decimal(n: nat) -> Seq<char>
    decreases n,
{
    if n < 10 {
        seq![digit_chars()[n as int]]
    } else {
        decimal(n / 10) + seq![digit_chars()[(n % 10) as int]]
    }
}

/// The URL of the settings endpoint on `host` at `port`.
pub open spec fn settings_url_of(host: Seq<char>, port: u16) -> Seq<char> {
    "http://"@ + host + ":"@ + decimal(port as nat) + "/settings"@
}

/// The one digit `d`, as text.
fn digit_text(d: u16) -> (r: &'static str)
    requires
        d < 10,
    ensures
        r@ == seq![digit_chars()[d as int]],
{
    let all = "0123456789";
    proof {
        reveal_strlit("0123456789");
    }
    let r = all.substring_char(d as usize, d as usize + 1);
    assert(r@ =~= seq![digit_chars()[d as int]]);
    r
}

/// `n` written in decimal.
pub fn decimal_text(n: u16) -> (r: String)
    ensures
        r@ == decimal(n as nat),
    decreases n,
{
    if n < 10 {
        String::from_str(digit_text(n))
    } else {
        let head = decimal_text(n / 10);
        head.concat(digit_text(n % 10))
    }
}

/// The URL under which the control server on `host` at `port` serves the
/// settings document.
pub fn settings_url(host: &str, port: u16) -> (r: String)
    ensures
        r@ == settings_url_of(host@, port),
{
    let url = String::from_str("http://");
    let url = url.concat(host);
    let url = url.concat(":");
    let url = url.concat(decimal_text(port).as_str());
    url.concat("/settings")
}

} // verus!

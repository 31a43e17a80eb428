//! The lifecycle operations the host calls around one authorization flow:
//! launch the browser, start the callback listener, poll for the captured
//! value, and tear the listener down. The operations own every decision;
//! the host performs the two platform effects (opening the URL is wrapped
//! here, binding and serving the port is the host's task to spawn).

use vstd::prelude::*;
use crate::slot::{take_value, taken, CaptureSlot, SlotView};
use crate::urls::OAUTH_PORT;

verus! {

/// The failures the lifecycle operations surface to the host; each carries
/// the underlying cause as a plain message for display.
#[derive(Debug)]
pub enum OAuthError {
    /// The platform could not open the URL with its default handler.
    ExternalLaunchFailure(String),
    /// The listener's port could not be taken for a new flow.
    BindFailure(String),
}

impl OAuthError {
    /// The cause as a plain string, for the host's UI.
    pub fn message(&self) -> (m: &str)
        ensures
            match self {
                OAuthError::ExternalLaunchFailure(s) => m@ == s@,
                OAuthError::BindFailure(s) => m@ == s@,
            },
    {
        match self {
            OAuthError::ExternalLaunchFailure(s) => s.as_str(),
            OAuthError::BindFailure(s) => s.as_str(),
        }
    }
}

/// Relies on open::that: asks the platform to open the URL with its default
/// handler. Whether that succeeds depends on the environment alone, so
/// nothing is promised of the outcome beyond the call returning.
#[verifier::external_body]
fn launch_with_default_handler(url: &str) -> (r: Result<(), String>) {
    match open::that(url) {
        Ok(()) => Ok(()),
        Err(e) => Err(e.to_string()),
    }
}

/// Hands the authorization URL to the platform's default-browser launcher.
/// The environment decides the outcome; every failure is surfaced as an
/// `ExternalLaunchFailure` carrying the launcher's message verbatim.
pub fn open_oauth_url(url: String) -> (r: Result<(), OAuthError>)
    ensures
        r matches Err(e) ==> e is ExternalLaunchFailure,
{
    match launch_with_default_handler(url.as_str()) {
        Ok(()) => Ok(()),
        Err(msg) => Err(OAuthError::ExternalLaunchFailure(msg)),
    }
}

/// A slot whose listener has just been started.
pub open spec fn started(s: SlotView) -> SlotView {
    SlotView { pending: s.pending, active: true }
}

/// The chosen double-start policy: a start is refused while a listener is
/// recorded, because the port belongs to that listener until it is stopped.
pub open spec fn start_refused(s: SlotView) -> bool {
    s.active
}

/// Starts the flow's listener. The host performs the one suspension this
/// needs — binding the fixed port and spawning the serving task — and hands
/// the outcome in as `bind`; this function owns the decisions around it.
/// The chosen double-start policy: while a listener is recorded, a new start
/// is refused with a `BindFailure` (the port belongs to the running listener
/// until it is stopped), and the bind outcome is ignored; a handle passed in
/// regardless is dropped, which detaches its task. A failed bind is surfaced
/// as a `BindFailure` carrying the OS text verbatim.
pub fn start_oauth_server(
    slot: &mut CaptureSlot,
    bind: Result<tokio::task::JoinHandle<()>, String>,
) -> (r: Result<u16, OAuthError>)
    ensures
        start_refused(old(slot)@) ==> (r matches Err(e) && e is BindFailure) && final(slot)@
            == old(slot)@,
        !start_refused(old(slot)@) && bind is Ok ==> r == Ok::<u16, OAuthError>(OAUTH_PORT)
            && final(slot)@ == started(old(slot)@),
        bind is Err && !start_refused(old(slot)@) ==> (r matches Err(e) && e matches
            OAuthError::BindFailure(t) && t@ == bind->Err_0@) && final(slot)@ == old(slot)@,
{
    if slot.listener_active() {
        return Err(
            OAuthError::BindFailure("oauth callback listener already running".to_owned()),
        );
    }
    match bind {
        Ok(handle) => {
            slot.store_listener(handle);
            Ok(OAUTH_PORT)
        },
        Err(msg) => Err(OAuthError::BindFailure(msg)),
    }
}

/// A successful start leaves the slot in a state every further start is
/// refused from: by `start_oauth_server`'s contract, a second start without a
/// stop in between is answered with a `BindFailure` and changes nothing.
pub proof fn lemma_second_start_refused(s: SlotView)
    ensures
        start_refused(started(s)),
{
}

/// Retrieves and clears the captured value in one step, if one is ready.
/// It never blocks and never fails the caller: absence is the answer when
/// nothing has been captured since the last retrieval.
pub fn get_oauth_result(slot: &mut CaptureSlot) -> (r: Option<String>)
    ensures
        final(slot)@ == taken(old(slot)@),
        match r {
            Some(v) => take_value(old(slot)@) == Some(v@),
            None => take_value(old(slot)@) is None,
        },
{
    slot.take()
}

/// Abandons the flow: cancels the running listener task if any, releases its
/// handle, and discards any unretrieved pending value.
pub fn stop_oauth_server(slot: &mut CaptureSlot)
    ensures
        !final(slot)@.active,
        final(slot)@.pending is None,
{
    match slot.take_listener() {
        Some(handle) => handle.abort(),
        None => (),
    }
    slot.take();
}

} // verus!

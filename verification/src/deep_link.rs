//! The alternative capture strategy: instead of a local listener, the OS
//! delivers the callback as a deep-link event to the running application.
//! The decision here is the whole of that path's logic — the payload, when
//! one accompanies the event, is republished verbatim as an outbound
//! notification; the capture slot is never involved. Receiving the event and
//! publishing the notification are the host platform's side.

use vstd::prelude::*;

verus! {

/// The name of the outbound notification the payload is republished under.
pub open spec fn oauth_event_chars() -> Seq<char> {
    "oauth-callback"@
}

/// The outbound event name, for the host to publish under.
pub fn oauth_event_name() -> (name: &'static str)
    ensures
        name@ == oauth_event_chars(),
{
    "oauth-callback"
}

/// Decides what a deep-link event turns into: the event's payload is
/// republished verbatim when one is present, and nothing is published when
/// none accompanies the event.
pub fn deep_link_notification(payload: Option<String>) -> (r: Option<String>)
    ensures
        payload matches Some(p) ==> r matches Some(q) && q@ == p@,
        payload is None ==> r is None,
{
    payload
}

} // verus!

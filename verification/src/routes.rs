//! The listener's two routes, as decisions over the capture slot: a hit on
//! the callback path with query parameters, and the follow-up post that
//! relays a URL fragment. The HTTP plumbing around them belongs to the host;
//! these functions take the decoded request data and say exactly what ends up
//! in the slot and what the browser is shown.

use vstd::prelude::*;
use crate::json::{json_str_field, json_string_field};
use crate::slot::{captured, take_value, taken, CaptureSlot, SlotView};
use crate::urls::{
    callback_base_chars, contains_sub, fragment_callback_url, fragment_url_chars,
    lemma_query_url_contains_pairs, pair_chars, params_view, query_callback_url, query_url_chars,
};

verus! {

/// The field the fragment-relay script posts back: `fragment` in the JSON
/// request body.
pub open spec fn fragment_field(body: Seq<char>) -> Option<Seq<char>> {
    json_str_field(body, "fragment"@)
}

/// The slot after the callback route has processed a hit carrying `ps`: a
/// capture of the reconstructed query-shape URL when parameters arrived; the
/// same slot otherwise (a parameterless hit is the first leg of the fragment
/// shape and stores nothing).
pub open spec fn callback_query_outcome(s: SlotView, ps: Seq<(Seq<char>, Seq<char>)>) -> SlotView {
    if ps.len() > 0 {
        captured(s, query_url_chars(ps))
    } else {
        s
    }
}

/// The slot after the store-token route has processed `body`: a capture of
/// the reconstructed fragment-shape URL when the body holds a non-empty
/// `fragment` string; the same slot when the field is absent, not a string,
/// or empty.
pub open spec fn store_token_outcome(s: SlotView, body: Seq<char>) -> SlotView {
    match fragment_field(body) {
        Some(f) => if f.len() > 0 {
            captured(s, fragment_url_chars(f))
        } else {
            s
        },
        None => s,
    }
}

/// Handles a hit on the callback path. Stores the reconstructed query-shape
/// URL when parameters arrived, and always hands back the success page for
/// the browser, whose inline script relays a URL fragment if one is present.
pub fn handle_callback_query(slot: &mut CaptureSlot, params: &Vec<(String, String)>) -> (page:
    &'static str)
    ensures
        final(slot)@ == callback_query_outcome(old(slot)@, params_view(params@)),
        page@ == success_page_chars(),
{
    if params.len() > 0 {
        let url = query_callback_url(params);
        slot.set(url);
    }
    success_page()
}

/// Handles a post on the store-token path. Stores the reconstructed
/// fragment-shape URL exactly when the body holds a non-empty `fragment`
/// string; a missing or malformed field is absorbed as a no-op so the browser
/// side never sees an error.
pub fn handle_store_token(slot: &mut CaptureSlot, body: &str) -> (stored: bool)
    ensures
        final(slot)@ == store_token_outcome(old(slot)@, body@),
        stored <==> fragment_field(body@) is Some && fragment_field(body@)->Some_0.len() > 0,
{
    match json_string_field(body, "fragment") {
        Some(fragment) => {
            if fragment.as_str().is_empty() {
                false
            } else {
                let url = fragment_callback_url(fragment.as_str());
                slot.set(url);
                true
            }
        },
        None => false,
    }
}

/// A query-shape capture is retrieved exactly once: after a callback hit
/// carrying at least one parameter, retrieval returns the reconstructed
/// query-shape URL, and the retrieval after that returns absence until a new
/// capture arrives.
pub proof fn lemma_query_capture_retrieved(s: SlotView, ps: Seq<(Seq<char>, Seq<char>)>)
    requires
        ps.len() > 0,
    ensures
        take_value(callback_query_outcome(s, ps)) == Some(query_url_chars(ps)),
        take_value(taken(callback_query_outcome(s, ps))) is None,
{
}

/// After a callback hit carrying parameters, the value retrieval returns is a
/// string that starts with the fixed callback base followed by `?` and
/// contains every submitted key/value pair as a contiguous `key=value`
/// substring.
pub proof fn lemma_query_capture_complete(s: SlotView, ps: Seq<(Seq<char>, Seq<char>)>)
    requires
        ps.len() > 0,
    ensures
        take_value(callback_query_outcome(s, ps)) matches Some(url) && url.take(
            (callback_base_chars() + "?"@).len() as int,
        ) == callback_base_chars() + "?"@ && forall|i: int|
            0 <= i < ps.len() ==> contains_sub(url, pair_chars(ps[i])),
{
    lemma_query_url_contains_pairs(ps);
}

/// A fragment is captured exactly when it is non-empty, and retrieved exactly
/// once: a body whose `fragment` field holds a non-empty string leaves the
/// reconstructed fragment-shape URL for the next retrieval, while a body
/// whose field is absent, not a string, or empty leaves the slot as it was.
pub proof fn lemma_fragment_capture_retrieved(s: SlotView, body: Seq<char>)
    ensures
        fragment_field(body) matches Some(f) ==> (f.len() > 0 ==> take_value(
            store_token_outcome(s, body),
        ) == Some(fragment_url_chars(f)) && take_value(taken(store_token_outcome(s, body)))
            is None),
        fragment_field(body) matches Some(f) ==> (f.len() == 0 ==> store_token_outcome(s, body)
            == s),
        fragment_field(body) is None ==> store_token_outcome(s, body) == s,
{
}

/// The page every callback hit is answered with.
pub open spec fn success_page_chars() -> Seq<char> {
    r#"<!DOCTYPE html>
<html>
<head>
    <title>Authentication</title>
    <style>
        body { font-family: Arial, sans-serif; text-align: center; padding: 50px; }
        h1 { color: #4CAF50; }
    </style>
</head>
<body>
    <h1>Authentication successful!</h1>
    <p>You can close this window and return to the app.</p>
    <script>
        const hash = window.location.hash.substring(1);
        if (hash) {
            fetch('/store_token', {
                method: 'POST',
                headers: { 'Content-Type': 'application/json' },
                body: JSON.stringify({ fragment: hash })
            });
        }
    </script>
</body>
</html>
"#@
}

/// The static success page shown to the browser after a callback hit; its
/// inline script relays a URL fragment, if one is present, back to the
/// store-token route.
pub fn success_page() -> (page: &'static str)
    ensures
        page@ == success_page_chars(),
{
    r#"<!DOCTYPE html>
<html>
<head>
    <title>Authentication</title>
    <style>
        body { font-family: Arial, sans-serif; text-align: center; padding: 50px; }
        h1 { color: #4CAF50; }
    </style>
</head>
<body>
    <h1>Authentication successful!</h1>
    <p>You can close this window and return to the app.</p>
    <script>
        const hash = window.location.hash.substring(1);
        if (hash) {
            fetch('/store_token', {
                method: 'POST',
                headers: { 'Content-Type': 'application/json' },
                body: JSON.stringify({ fragment: hash })
            });
        }
    </script>
</body>
</html>
"#
}

/// The acknowledgement every store-token post is answered with.
pub open spec fn store_token_ack_chars() -> Seq<char> {
    r#"{"status":"ok"}"#@
}

/// The minimal JSON acknowledgement for the store-token route; returned even
/// when nothing was stored, so the browser-facing flow never breaks.
pub fn store_token_ack() -> (ack: &'static str)
    ensures
        ack@ == store_token_ack_chars(),
{
    r#"{"status":"ok"}"#
}

} // verus!

//! Reconstruction of the canonical callback URL strings that the listener
//! stores: the query-string shape and the fragment shape, both rooted at the
//! fixed local callback endpoint.

use vstd::prelude::*;
use vstd::string::StringExecFns;

verus! {

/// The fixed local port the callback listener binds to; it matches the
/// redirect URI registered with the authorization provider.
pub const OAUTH_PORT: u16 = 8765;

/// The base of every reconstructed callback URL; the fixed port stands in it
/// verbatim.
pub open spec fn callback_base_chars() -> Seq<char> {
    "http://localhost:8765/callback"@
}

/// The canonical URL stored for a fragment capture: the base, `#`, then the
/// fragment verbatim.
pub open spec fn fragment_url_chars(fragment: Seq<char>) -> Seq<char> {
    callback_base_chars() + "#"@ + fragment
}

/// One query parameter serialized as `key=value`.
pub open spec fn pair_chars(p: (Seq<char>, Seq<char>)) -> Seq<char> {
    p.0 + "="@ + p.1
}

/// The received query parameters re-joined with `&`, in the order they were
/// handed over (the listener's iteration order, which need not match the
/// original wire order).
pub open spec fn query_string_of(params: Seq<(Seq<char>, Seq<char>)>) -> Seq<char>
    decreases params.len(),
{
    if params.len() == 0 {
        Seq::empty()
    } else if params.len() == 1 {
        pair_chars(params[0])
    } else {
        pair_chars(params[0]) + "&"@ + query_string_of(params.drop_first())
    }
}

/// The canonical URL stored for a query-string capture: the base, `?`, then
/// the re-joined parameters.
pub open spec fn query_url_chars(params: Seq<(Seq<char>, Seq<char>)>) -> Seq<char> {
    callback_base_chars() + "?"@ + query_string_of(params)
}

/// The received parameter pairs as sequences of characters.
pub open spec fn params_view(params: Seq<(String, String)>) -> Seq<(Seq<char>, Seq<char>)> {
    params.map_values(|p: (String, String)| (p.0@, p.1@))
}

/// `needle` occurs contiguously somewhere in `hay`.
pub open spec fn contains_sub(hay: Seq<char>, needle: Seq<char>) -> bool {
    exists|k: int|
        0 <= k && k + needle.len() <= hay.len() && #[trigger] hay.subrange(k, k + needle.len())
            == needle
}

/// An occurrence survives prepending more text.
proof fn lemma_contains_sub_shift(pre: Seq<char>, hay: Seq<char>, needle: Seq<char>)
    requires
        contains_sub(hay, needle),
    ensures
        contains_sub(pre + hay, needle),
{
    let k = choose|k: int|
        0 <= k && k + needle.len() <= hay.len() && #[trigger] hay.subrange(k, k + needle.len())
            == needle;
    assert((pre + hay).subrange(pre.len() + k, pre.len() + k + needle.len()) =~= hay.subrange(
        k,
        k + needle.len(),
    ));
}

/// Appending one more pair extends the serialized query string at its end.
proof fn lemma_query_string_snoc(ps: Seq<(Seq<char>, Seq<char>)>, p: (Seq<char>, Seq<char>))
    ensures
        query_string_of(ps.push(p)) == if ps.len() == 0 {
            pair_chars(p)
        } else {
            query_string_of(ps) + "&"@ + pair_chars(p)
        },
    decreases ps.len(),
{
    if ps.len() == 0 {
        assert(ps.push(p)[0] == p);
        assert(query_string_of(ps.push(p)) == pair_chars(p));
    } else if ps.len() == 1 {
        assert(ps.push(p)[0] == ps[0]);
        assert(ps.push(p).drop_first() =~= seq![p]);
        assert(seq![p][0] == p);
        assert(query_string_of(seq![p]) == pair_chars(p));
        assert(query_string_of(ps.push(p)) == pair_chars(ps[0]) + "&"@ + pair_chars(p));
        assert(query_string_of(ps) == pair_chars(ps[0]));
    } else {
        assert(ps.push(p)[0] == ps[0]);
        assert(ps.push(p).drop_first() =~= ps.drop_first().push(p));
        lemma_query_string_snoc(ps.drop_first(), p);
        assert(query_string_of(ps.push(p)) == pair_chars(ps[0]) + "&"@ + (query_string_of(
            ps.drop_first(),
        ) + "&"@ + pair_chars(p)));
        assert(pair_chars(ps[0]) + "&"@ + (query_string_of(ps.drop_first()) + "&"@ + pair_chars(p))
            =~= (pair_chars(ps[0]) + "&"@ + query_string_of(ps.drop_first())) + "&"@ + pair_chars(
            p,
        ));
        assert(query_string_of(ps) == pair_chars(ps[0]) + "&"@ + query_string_of(ps.drop_first()));
    }
}

/// Each submitted pair stands contiguously, as `key=value`, in the re-joined
/// query string.
proof fn lemma_query_string_contains_pair(ps: Seq<(Seq<char>, Seq<char>)>, i: int)
    requires
        0 <= i < ps.len(),
    ensures
        contains_sub(query_string_of(ps), pair_chars(ps[i])),
    decreases ps.len(),
{
    let needle = pair_chars(ps[i]);
    if ps.len() == 1 {
        let k: int = 0;
        assert(query_string_of(ps).subrange(k, k + needle.len()) =~= needle);
    } else if i == 0 {
        let k: int = 0;
        assert(query_string_of(ps).subrange(k, k + needle.len()) =~= needle);
    } else {
        lemma_query_string_contains_pair(ps.drop_first(), i - 1);
        assert(ps.drop_first()[i - 1] == ps[i]);
        lemma_contains_sub_shift(
            pair_chars(ps[0]) + "&"@,
            query_string_of(ps.drop_first()),
            needle,
        );
    }
}

/// Every reconstructed query-shape URL starts with the fixed callback base
/// followed by `?`, and contains each submitted key/value pair as a
/// contiguous `key=value` substring.
pub proof fn lemma_query_url_contains_pairs(ps: Seq<(Seq<char>, Seq<char>)>)
    ensures
        query_url_chars(ps).take((callback_base_chars() + "?"@).len() as int)
            == callback_base_chars() + "?"@,
        forall|i: int| 0 <= i < ps.len() ==> contains_sub(query_url_chars(ps), pair_chars(ps[i])),
{
    assert(query_url_chars(ps).take((callback_base_chars() + "?"@).len() as int)
        =~= callback_base_chars() + "?"@);
    assert forall|i: int| 0 <= i < ps.len() implies contains_sub(
        query_url_chars(ps),
        pair_chars(ps[i]),
    ) by {
        lemma_query_string_contains_pair(ps, i);
        lemma_contains_sub_shift(callback_base_chars() + "?"@, query_string_of(ps), pair_chars(ps[i]));
    }
}

/// The base callback URL as a string slice.
pub fn callback_base() -> (s: &'static str)
    ensures
        s@ == callback_base_chars(),
{
    "http://localhost:8765/callback"
}

/// Builds the canonical fragment-shape callback URL for a captured fragment.
pub fn fragment_callback_url(fragment: &str) -> (url: String)
    ensures
        url@ == fragment_url_chars(fragment@),
{
    let mut url = callback_base().to_owned();
    url.append("#");
    url.append(fragment);
    url
}

/// Builds the canonical query-shape callback URL for received parameters.
pub fn query_callback_url(params: &Vec<(String, String)>) -> (url: String)
    ensures
        url@ == query_url_chars(params_view(params@)),
{
    let ghost ps = params_view(params@);
    let mut url = callback_base().to_owned();
    url.append("?");
    assert(ps.take(0) =~= Seq::empty());
    let mut i: usize = 0;
    while i < params.len()
        invariant
            i <= params@.len(),
            ps == params_view(params@),
            url@ == callback_base_chars() + "?"@ + query_string_of(ps.take(i as int)),
        decreases params@.len() - i,
    {
        if i > 0 {
            url.append("&");
        }
        url.append(params[i].0.as_str());
        url.append("=");
        url.append(params[i].1.as_str());
        proof {
            lemma_query_string_snoc(ps.take(i as int), ps[i as int]);
            assert(ps.take(i as int).push(ps[i as int]) =~= ps.take(i as int + 1));
            assert(url@ =~= callback_base_chars() + "?"@ + query_string_of(ps.take(i as int + 1)));
        }
        i += 1;
    }
    proof {
        assert(ps.take(params@.len() as int) =~= ps);
    }
    url
}

} // verus!

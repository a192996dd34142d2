//! The shape of one HTTP exchange, and the Call primitive that decides which
//! headers every request carries.
use vstd::prelude::*;

use crate::config::Config;
use crate::headers::{
    header_value, lemma_set_then_get, lower_ascii, lower_char, same_name, with_header, HeaderList,
};
use crate::json::{opt_text, Json};

verus! {

#[derive(PartialEq, Eq, Structural, Clone, Copy, Debug)]
pub enum Method {
    Post,
    Put,
}

/// Why a run stopped.
#[derive(PartialEq, Eq, Structural, Clone, Copy, Debug)]
pub enum PipelineError {
    /// The exchange itself failed: connection, TLS or timeout.
    Transport,
    /// The response body was not valid JSON.
    Decode,
    /// An expected field was absent or not of the expected type.
    FieldMissing,
    /// An expected response header was absent.
    HeaderMissing,
    /// An object that must hold at least one entry was empty.
    EmptyMap,
    /// An array that must hold at least one element was empty.
    Index,
}

pub struct Request {
    pub method: Method,
    pub url: String,
    pub headers: HeaderList,
    /// The JSON text sent as the body, if any.
    pub body: Option<String>,
}

pub struct Response {
    pub headers: HeaderList,
    pub body: Json,
}

/// `hs` after each field of `extra` is set, in order.
pub open spec fn applied(hs: Seq<(Seq<char>, Seq<char>)>, extra: Seq<(Seq<char>, Seq<char>)>) -> Seq<
    (Seq<char>, Seq<char>),
>
    decreases extra.len(),
{
    if extra.len() == 0 {
        hs
    } else {
        with_header(applied(hs, extra.drop_last()), extra.last().0, extra.last().1)
    }
}

/// The headers that every request starts from.
pub open spec fn base_headers(app_id: Seq<char>, request_id: Seq<char>) -> Seq<
    (Seq<char>, Seq<char>),
> {
    let e = Seq::<(Seq<char>, Seq<char>)>::empty();
    let a = with_header(e, "accept"@, "application/json"@);
    let b = with_header(a, "content-type"@, "application/json"@);
    let c = with_header(b, "x-bread-app-id"@, app_id);
    with_header(c, "x-request-id"@, request_id)
}

/// The headers sent when the caller adds `extra`: the caller's fields win.
pub open spec fn sent_headers(
    app_id: Seq<char>,
    request_id: Seq<char>,
    extra: Seq<(Seq<char>, Seq<char>)>,
) -> Seq<(Seq<char>, Seq<char>)> {
    applied(base_headers(app_id, request_id), extra)
}

/// The value the base headers give each of the four mandatory names.
pub open spec fn mandatory_value(app_id: Seq<char>, request_id: Seq<char>, name: Seq<char>) -> Option<
    Seq<char>,
> {
    if name == "accept"@ || name == "content-type"@ {
        Some("application/json"@)
    } else if name == "x-bread-app-id"@ {
        Some(app_id)
    } else if name == "x-request-id"@ {
        Some(request_id)
    } else {
        None
    }
}

/// `r` is the request `method url` with exactly these headers and body.
pub open spec fn is_request(
    r: Request,
    method: Method,
    url: Seq<char>,
    headers: Seq<(Seq<char>, Seq<char>)>,
    body: Option<Seq<char>>,
) -> bool {
    &&& r.method == method
    &&& r.url@ == url
    &&& r.headers@ == headers
    &&& opt_text(r.body) == body
}

/// Looking a name up after `extra` is applied gives the caller's value when
/// `extra` names it, and the earlier value otherwise.
pub proof fn lemma_applied_value(
    hs: Seq<(Seq<char>, Seq<char>)>,
    extra: Seq<(Seq<char>, Seq<char>)>,
    name: Seq<char>,
)
    ensures
        header_value(applied(hs, extra), name) == match header_value(extra, name) {
            Some(v) => Some(v),
            None => header_value(hs, name),
        },
    decreases extra.len(),
{
    if extra.len() > 0 {
        lemma_applied_value(hs, extra.drop_last(), name);
        lemma_set_then_get(applied(hs, extra.drop_last()), extra.last().0, extra.last().1, name);
    }
}

/// Every request carries the four mandatory headers: for each mandatory
/// name the sent headers hold a field of that name, and it carries the
/// mandatory value unless the caller's own headers set that name.
pub proof fn lemma_mandatory_headers_sent(
    app_id: Seq<char>,
    request_id: Seq<char>,
    extra: Seq<(Seq<char>, Seq<char>)>,
    name: Seq<char>,
)
    requires
        mandatory_value(app_id, request_id, name) is Some,
    ensures
        header_value(sent_headers(app_id, request_id, extra), name) is Some,
        header_value(extra, name) is None ==> header_value(
            sent_headers(app_id, request_id, extra),
            name,
        ) == mandatory_value(app_id, request_id, name),
{
    reveal_strlit("accept");
    reveal_strlit("content-type");
    reveal_strlit("x-bread-app-id");
    reveal_strlit("x-request-id");
    let (l1, l2, l3, l4) = (
        lower_ascii("accept"@),
        lower_ascii("content-type"@),
        lower_ascii("x-bread-app-id"@),
        lower_ascii("x-request-id"@),
    );
    assert(l1.len() == 6 && l2.len() == 12 && l3.len() == 14 && l4.len() == 12);
    assert(l2[0] == lower_char("content-type"@[0]) && l4[0] == lower_char("x-request-id"@[0]));
    assert(l2[0] != l4[0]);
    assert(!same_name("accept"@, "content-type"@) && !same_name("accept"@, "x-bread-app-id"@)
        && !same_name("accept"@, "x-request-id"@));
    assert(!same_name("content-type"@, "x-bread-app-id"@) && !same_name(
        "content-type"@,
        "x-request-id"@,
    ) && !same_name("x-bread-app-id"@, "x-request-id"@));
    let e = Seq::<(Seq<char>, Seq<char>)>::empty();
    let a = with_header(e, "accept"@, "application/json"@);
    let b = with_header(a, "content-type"@, "application/json"@);
    let c = with_header(b, "x-bread-app-id"@, app_id);
    lemma_set_then_get(e, "accept"@, "application/json"@, name);
    lemma_set_then_get(a, "content-type"@, "application/json"@, name);
    lemma_set_then_get(b, "x-bread-app-id"@, app_id, name);
    lemma_set_then_get(c, "x-request-id"@, request_id, name);
    lemma_applied_value(base_headers(app_id, request_id), extra, name);
}

/// The Call primitive: the request `method url` carrying the mandatory
/// headers, then the caller's `extra` headers, and `body` if there is one.
pub fn call(
    config: &Config,
    request_id: &str,
    method: Method,
    url: &str,
    body: Option<String>,
    extra: &HeaderList,
) -> (r: Request)
    ensures
        is_request(
            r,
            method,
            url@,
            sent_headers(config.app_id@, request_id@, extra@),
            opt_text(body),
        ),
{
    let mut headers = HeaderList::new();
    headers.set("accept", "application/json");
    headers.set("content-type", "application/json");
    headers.set("x-bread-app-id", config.app_id.as_str());
    headers.set("x-request-id", request_id);
    let ghost base = headers@;
    assert(base == base_headers(config.app_id@, request_id@));
    let n = extra.len();
    let mut i: usize = 0;
    assert(extra@.subrange(0, 0) =~= Seq::<(Seq<char>, Seq<char>)>::empty());
    while i < n
        invariant
            n == extra@.len(),
            i <= n,
            headers@ == applied(base, extra@.subrange(0, i as int)),
        decreases n - i,
    {
        let (name, value) = extra.entry(i);
        headers.set(name, value);
        assert(extra@.subrange(0, i + 1).drop_last() =~= extra@.subrange(0, i as int));
        i = i + 1;
    }
    assert(extra@.subrange(0, n as int) =~= extra@);
    Request { method, url: url.to_owned(), headers, body }
}

} // verus!

use vstd::prelude::*;
use crate::config::{authorization_of, SxcuConfig};
use crate::headers::{headers_view, push_header, HeaderText};
use crate::json::{json_object, json_object_text, json_reply_of, read_json_reply, reply_view, JsonReply};
use crate::text::{chars_of, concat2, concat3, decimal, decimal_string, has_prefix, has_suffix, string_of, strip_suffix, without_suffix};

verus! {

/// A shortening that failed, with the message shown to the user.
#[derive(Debug)]
pub struct ShortenError(pub String);

/// What a shortening sends: a JSON body posted to `endpoint` with `headers`.
#[derive(Debug)]
pub struct ShortenRequest {
    pub endpoint: String,
    pub headers: Vec<(String, String)>,
    pub body: String,
}

/// The number of `/` in `s`.
pub open spec fn slash_count(s: Seq<char>) -> nat
    decreases s.len(),
{
    if s.len() == 0 {
        0
    } else {
        slash_count(s.drop_last()) + if s.last() == '/' {
            1nat
        } else {
            0nat
        }
    }
}

/// `u[i]` is the third `/` of `u`.
pub open spec fn is_third_slash(u: Seq<char>, i: int) -> bool {
    0 <= i < u.len() && u[i] == '/' && slash_count(u.take(i)) == 2
}

/// The shortening endpoint of the upload URL `u`: `/api/upload` or `/api/upload/` at its end
/// replaced by `/api/user/urls`, or else everything from its third `/` on replaced by it.
pub open spec fn shorten_endpoint(u: Seq<char>) -> Option<Seq<char>> {
    if without_suffix(u, "/api/upload"@) is Some {
        Some(without_suffix(u, "/api/upload"@)->0 + "/api/user/urls"@)
    } else if without_suffix(u, "/api/upload/"@) is Some {
        Some(without_suffix(u, "/api/upload/"@)->0 + "/api/user/urls"@)
    } else if exists|i: int| is_third_slash(u, i) {
        Some(u.take(choose|i: int| is_third_slash(u, i)) + "/api/user/urls"@)
    } else {
        None
    }
}

/// The fields of a request to shorten `url`: the destination, and the vanity name where one
/// is given and not empty.
pub open spec fn shorten_fields(url: Seq<char>, vanity: Option<Seq<char>>) -> Seq<HeaderText> {
    seq![("destination"@, url)] + match vanity {
        Some(v) => if v.len() > 0 {
            seq![("vanity"@, v)]
        } else {
            seq![]
        },
        None => seq![],
    }
}

/// The JSON body of a request to shorten `url`: an object of the shortening fields.
pub open spec fn shorten_body(url: Seq<char>, vanity: Option<Seq<char>>) -> Seq<char> {
    json_object_text(shorten_fields(url, vanity))
}

/// The outcome of a shortening from the server's reply. `Ok` holds the short URL.
pub open spec fn shorten_outcome(
    status: u16,
    reason: Seq<char>,
    body: Seq<char>,
    reply: Option<(Option<Seq<char>>, Option<Seq<char>>)>,
) -> Result<Seq<char>, Seq<char>> {
    if !(200 <= status < 300) {
        Err(decimal(status as nat) + " "@ + reason + ": "@ + body)
    } else {
        match reply {
            None => Err("Invalid JSON response: "@ + body),
            Some(r) => match r.0 {
                Some(url) => Ok(url),
                None => Err("Could not find url in response: "@ + body),
            },
        }
    }
}

pub open spec fn shorten_result_view(r: Result<String, ShortenError>) -> Result<
    Seq<char>,
    Seq<char>,
> {
    match r {
        Ok(s) => Ok(s@),
        Err(e) => Err(e.0@),
    }
}

proof fn lemma_slash_count_monotone(u: Seq<char>, a: int, b: int)
    requires
        0 <= a <= b <= u.len(),
    ensures
        slash_count(u.take(a)) <= slash_count(u.take(b)),
    decreases b - a,
{
    if a < b {
        lemma_slash_count_monotone(u, a, b - 1);
        assert(u.take(b).drop_last() =~= u.take(b - 1));
    }
}

proof fn lemma_third_slash_unique(u: Seq<char>, i: int, j: int)
    requires
        is_third_slash(u, i),
        is_third_slash(u, j),
    ensures
        i == j,
{
    if i < j {
        lemma_slash_count_monotone(u, i + 1, j);
        assert(u.take(i + 1).drop_last() =~= u.take(i));
    } else if j < i {
        lemma_slash_count_monotone(u, j + 1, i);
        assert(u.take(j + 1).drop_last() =~= u.take(j));
    }
}

/// Every derived endpoint is the shortening path `/api/user/urls` on the upload URL's server.
pub proof fn lemma_endpoint_suffix(u: Seq<char>)
    ensures
        shorten_endpoint(u) matches Some(e) ==> e.len() >= "/api/user/urls"@.len() && e.subrange(
            e.len() - "/api/user/urls"@.len(),
            e.len() as int,
        ) == "/api/user/urls"@,
{
    if let Some(e) = shorten_endpoint(u) {
        assert(e.subrange(e.len() - "/api/user/urls"@.len(), e.len() as int) =~= "/api/user/urls"@);
    }
}

/// An upload URL that ends in `/api/upload` or `/api/upload/` gives the shortening endpoint
/// on the same base, whatever path the base holds: `/api/user/urls` replaces the upload path
/// and everything before it is kept.
pub proof fn lemma_endpoint_keeps_base(base: Seq<char>)
    ensures
        shorten_endpoint(base + "/api/upload"@) == Some(base + "/api/user/urls"@),
        shorten_endpoint(base + "/api/upload/"@) == Some(base + "/api/user/urls"@),
{
    reveal_strlit("/api/upload");
    reveal_strlit("/api/upload/");
    let u1 = base + "/api/upload"@;
    assert(u1.subrange(u1.len() - "/api/upload"@.len(), u1.len() as int) =~= "/api/upload"@);
    assert(u1.subrange(0, u1.len() - "/api/upload"@.len()) =~= base);
    let u2 = base + "/api/upload/"@;
    assert(u2.subrange(u2.len() - "/api/upload/"@.len(), u2.len() as int) =~= "/api/upload/"@);
    assert(u2.subrange(0, u2.len() - "/api/upload/"@.len()) =~= base);
    assert(u2.last() == '/');
    assert(!has_suffix(u2, "/api/upload"@)) by {
        if has_suffix(u2, "/api/upload"@) {
            let t = u2.subrange(u2.len() - "/api/upload"@.len(), u2.len() as int);
            assert(t[t.len() - 1] == u2.last());
        }
    }
}

/// A shortening succeeds only on a 2xx status whose body is JSON with a string at `url`, and
/// then it gives that string; any other status fails with a message that starts with the
/// status code and ends with the body.
pub proof fn lemma_shorten_outcome_laws(
    status: u16,
    reason: Seq<char>,
    body: Seq<char>,
    reply: Option<(Option<Seq<char>>, Option<Seq<char>>)>,
)
    ensures
        shorten_outcome(status, reason, body, reply) is Ok <==> (200 <= status < 300 && reply is Some
            && reply.unwrap().0 is Some),
        shorten_outcome(status, reason, body, reply) is Ok ==> reply.unwrap().0 == Some(
            shorten_outcome(status, reason, body, reply)->Ok_0,
        ),
        !(200 <= status < 300) ==> shorten_outcome(status, reason, body, reply) is Err && has_prefix(
            shorten_outcome(status, reason, body, reply)->Err_0,
            decimal(status as nat),
        ) && has_suffix(shorten_outcome(status, reason, body, reply)->Err_0, body),
{
    if !(200 <= status < 300) {
        let m = decimal(status as nat) + " "@ + reason + ": "@ + body;
        assert(m.subrange(0, decimal(status as nat).len() as int) =~= decimal(status as nat));
        assert(m.subrange(m.len() - body.len(), m.len() as int) =~= body);
    }
}

/// For a URL that does not end in an upload path, the endpoint keeps the scheme and server
/// (everything before the third `/`) and puts the shortening path after them: with `scheme`
/// and `host` free of `/`, `scheme//host/rest` gives `scheme//host/api/user/urls`.
pub proof fn lemma_endpoint_from_server(scheme: Seq<char>, host: Seq<char>, rest: Seq<char>)
    requires
        !scheme.contains('/'),
        !host.contains('/'),
        !has_suffix(scheme + "//"@ + host + "/"@ + rest, "/api/upload"@),
        !has_suffix(scheme + "//"@ + host + "/"@ + rest, "/api/upload/"@),
    ensures
        shorten_endpoint(scheme + "//"@ + host + "/"@ + rest) == Some(scheme + "//"@ + host
            + "/api/user/urls"@),
{
    reveal_strlit("//");
    reveal_strlit("/");
    let u = scheme + "//"@ + host + "/"@ + rest;
    let i: int = (scheme.len() + 2 + host.len()) as int;
    assert(u[i] == '/');
    assert("//"@ =~= seq!['/', '/']);
    assert(u.take(i) =~= scheme + "//"@ + host);
    lemma_slash_count_of(u, scheme, host);
    assert(is_third_slash(u, i));
    assert forall|k: int| is_third_slash(u, k) implies k == i by {
        lemma_third_slash_unique(u, k, i);
    }
    assert(u.take(i) =~= scheme + "//"@ + host);
    assert(scheme + "//"@ + host + "/api/user/urls"@ =~= (scheme + "//"@ + host) + "/api/user/urls"@);
}

proof fn lemma_slash_count_no_slash(s: Seq<char>)
    requires
        !s.contains('/'),
    ensures
        slash_count(s) == 0,
    decreases s.len(),
{
    if s.len() > 0 {
        assert(!s.drop_last().contains('/')) by {
            if s.drop_last().contains('/') {
                let k = choose|k: int| 0 <= k < s.drop_last().len() && s.drop_last()[k] == '/';
                assert(s[k] == '/');
            }
        }
        lemma_slash_count_no_slash(s.drop_last());
        assert(s[s.len() - 1] != '/');
    }
}

proof fn lemma_slash_count_concat(a: Seq<char>, b: Seq<char>)
    ensures
        slash_count(a + b) == slash_count(a) + slash_count(b),
    decreases b.len(),
{
    if b.len() == 0 {
        assert(a + b =~= a);
    } else {
        lemma_slash_count_concat(a, b.drop_last());
        assert((a + b).drop_last() =~= a + b.drop_last());
    }
}

proof fn lemma_slash_count_of(u: Seq<char>, scheme: Seq<char>, host: Seq<char>)
    requires
        !scheme.contains('/'),
        !host.contains('/'),
        u.len() >= scheme.len() + 2 + host.len(),
        u.take((scheme.len() + 2 + host.len()) as int) == scheme + "//"@ + host,
        "//"@ == seq!['/', '/'],
    ensures
        slash_count(u.take((scheme.len() + 2 + host.len()) as int)) == 2,
{
    lemma_slash_count_no_slash(scheme);
    lemma_slash_count_no_slash(host);
    lemma_slash_count_concat(scheme, "//"@);
    lemma_slash_count_concat(scheme + "//"@, host);
    assert(seq!['/', '/'].drop_last() =~= seq!['/']);
    assert(seq!['/'].drop_last() =~= Seq::<char>::empty());
    assert(slash_count(Seq::<char>::empty()) == 0);
    assert(slash_count(seq!['/']) == 1);
    assert(slash_count(seq!['/', '/']) == 2);
    assert(slash_count("//"@) == 2);
}

/// The shortening endpoint derived from the upload URL, as the server's API lays it out.
pub fn derive_shorten_endpoint(upload_url: &str) -> (r: Option<String>)
    ensures
        match r {
            Some(e) => shorten_endpoint(upload_url@) == Some(e@),
            None => shorten_endpoint(upload_url@) is None,
        },
{
    match strip_suffix(upload_url, "/api/upload") {
        Some(base) => {
            return Some(concat2(base.as_str(), "/api/user/urls"));
        },
        None => {},
    }
    match strip_suffix(upload_url, "/api/upload/") {
        Some(base) => {
            return Some(concat2(base.as_str(), "/api/user/urls"));
        },
        None => {},
    }
    let cs = chars_of(upload_url);
    let mut slashes: u64 = 0;
    let mut i: usize = 0;
    while i < cs.len()
        invariant
            cs@ == upload_url@,
            without_suffix(upload_url@, "/api/upload"@) is None,
            without_suffix(upload_url@, "/api/upload/"@) is None,
            i <= cs@.len(),
            slashes == slash_count(cs@.take(i as int)),
            slashes <= 2,
            forall|k: int| 0 <= k < i ==> !is_third_slash(cs@, k),
        decreases cs@.len() - i,
    {
        assert(cs@.take(i + 1).drop_last() =~= cs@.take(i as int));
        if cs[i] == '/' {
            slashes = slashes + 1;
        }
        if slashes == 3 {
            assert(is_third_slash(cs@, i as int));
            proof {
                assert forall|k: int| is_third_slash(cs@, k) implies k == i by {
                    lemma_third_slash_unique(cs@, k, i as int);
                }
            }
            let mut head: Vec<char> = Vec::new();
            let mut k: usize = 0;
            while k < i
                invariant
                    i < cs@.len(),
                    k <= i,
                    head@ == cs@.take(k as int),
                decreases i - k,
            {
                head.push(cs[k]);
                k = k + 1;
                assert(head@ =~= cs@.take(k as int));
            }
            let base = string_of(head.as_slice());
            return Some(concat2(base.as_str(), "/api/user/urls"));
        }
        i = i + 1;
    }
    None
}

/// The JSON body of a request to shorten `url`; `vanity` is included where it is given and
/// not empty.
pub fn shorten_request_body(url: &str, vanity: Option<&str>) -> (r: String)
    ensures
        r@ == shorten_body(
            url@,
            match vanity {
                Some(v) => Some(v@),
                None => None,
            },
        ),
{
    let mut fields: Vec<(String, String)> = Vec::new();
    assert(headers_view(fields@) =~= Seq::<HeaderText>::empty());
    push_header(&mut fields, "destination", String::from_str(url));
    match vanity {
        Some(v) => {
            if v.unicode_len() > 0 {
                push_header(&mut fields, "vanity", String::from_str(v));
            }
        },
        None => {},
    }
    assert(headers_view(fields@) =~= shorten_fields(
        url@,
        match vanity {
            Some(v) => Some(v@),
            None => None,
        },
    ));
    json_object(&fields)
}

/// The request for shortening `url` with `cfg`: the body posted to the endpoint derived from
/// the upload URL, with the configuration's authorization and a JSON content type. Fails
/// when the configuration has no authorization header, and then when no endpoint can be
/// derived.
pub fn plan_shorten(cfg: &SxcuConfig, url: &str, vanity: Option<&str>) -> (r: Result<
    ShortenRequest,
    ShortenError,
>)
    ensures
        match r {
            Ok(req) => {
                &&& authorization_of(cfg.headers@) is Some
                &&& shorten_endpoint(cfg.request_url@) == Some(req.endpoint@)
                &&& headers_view(req.headers@) == seq![
                    ("authorization"@, authorization_of(cfg.headers@)->0),
                    ("content-type"@, "application/json"@),
                ]
                &&& req.body@ == shorten_body(
                    url@,
                    match vanity {
                        Some(v) => Some(v@),
                        None => None,
                    },
                )
            },
            Err(e) => {
                ||| authorization_of(cfg.headers@) is None && e.0@
                    == "No authorization header in config"@
                ||| authorization_of(cfg.headers@) is Some && shorten_endpoint(
                    cfg.request_url@,
                ) is None && e.0@ == "Could not derive shorten endpoint from: "@
                    + cfg.request_url@
            },
        },
{
    let auth = match cfg.authorization() {
        Some(a) => String::from_str(a),
        None => {
            return Err(ShortenError(String::from_str("No authorization header in config")));
        },
    };
    let endpoint = match derive_shorten_endpoint(cfg.request_url.as_str()) {
        Some(e) => e,
        None => {
            return Err(
                ShortenError(
                    concat2(
                        "Could not derive shorten endpoint from: ",
                        cfg.request_url.as_str(),
                    ),
                ),
            );
        },
    };
    let body = shorten_request_body(url, vanity);
    let mut headers: Vec<(String, String)> = Vec::new();
    assert(headers_view(headers@) =~= Seq::<HeaderText>::empty());
    push_header(&mut headers, "authorization", auth);
    push_header(&mut headers, "content-type", String::from_str("application/json"));
    assert(headers_view(headers@) =~= seq![
        ("authorization"@, authorization_of(cfg.headers@)->0),
        ("content-type"@, "application/json"@),
    ]);
    Ok(ShortenRequest { endpoint, headers, body })
}

/// The outcome of a shortening from the server's reply and what its body reads as JSON.
pub fn shorten_reply_from(status: u16, reason: &str, body: &str, reply: Option<JsonReply>) -> (r:
    Result<String, ShortenError>)
    ensures
        shorten_result_view(r) == shorten_outcome(
            status,
            reason@,
            body@,
            match reply {
                Some(j) => Some(reply_view(j)),
                None => None,
            },
        ),
{
    if !(200 <= status && status < 300) {
        let code = decimal_string(status as u32);
        let mut msg = concat3(code.as_str(), " ", reason);
        msg.append(": ");
        msg.append(body);
        return Err(ShortenError(msg));
    }
    match reply {
        None => Err(ShortenError(concat2("Invalid JSON response: ", body))),
        Some(j) => match j.url {
            Some(url) => Ok(url),
            None => Err(ShortenError(concat2("Could not find url in response: ", body))),
        },
    }
}

/// The outcome of a shortening from the server's reply: the status code, its reason phrase
/// and the body. `Ok` holds the string at `url` of a successful JSON reply.
pub fn shorten_reply(status: u16, reason: &str, body: &str) -> (r: Result<String, ShortenError>)
    ensures
        shorten_result_view(r) == shorten_outcome(status, reason@, body@, json_reply_of(body@)),
{
    let reply = read_json_reply(body);
    shorten_reply_from(status, reason, body, reply)
}

} // verus!

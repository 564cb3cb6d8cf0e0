use vstd::prelude::*;
use crate::config::{authorization_of, SxcuConfig};
use crate::headers::{header_view, headers_view, push_header, HeaderText};
use crate::json::{read_json_reply, reply_view, json_reply_of, JsonReply};
use crate::paths::{extension_of, file_name_of, path_extension, path_file_name};
use crate::text::{concat2, decimal, decimal_string, has_prefix, has_suffix, lowercase, same_text};

verus! {

/// An upload that failed, with the message shown to the user.
#[derive(Debug)]
pub struct UploadError(pub String);

/// What an upload sends: the multipart form of one file part and the request headers.
/// `authorization` is set before the form; `headers` follow it, in order.
#[derive(Debug)]
pub struct UploadRequest {
    pub url: String,
    pub form_name: String,
    pub file_name: String,
    pub mime: String,
    pub authorization: String,
    pub headers: Vec<(String, String)>,
}

/// The MIME type that `mime_guess` gives first for the extension `ext`, or
/// `application/octet-stream` where it knows none.
pub uninterp spec fn mime_for_extension(ext: Seq<char>) -> Seq<char>;

/// Calls `mime_guess::from_ext(ext).first_or_octet_stream()` and writes the type out. The
/// table of extensions is not restated; the source shows that an empty extension guesses
/// nothing, which gives `application/octet-stream`.
#[verifier::external_body]
fn guess_mime(ext: &str) -> (r: String)
    ensures
        r@ == mime_for_extension(ext@),
        ext@.len() == 0 ==> r@ == "application/octet-stream"@,
{
    mime_guess::from_ext(ext).first_or_octet_stream().to_string()
}

/// The MIME type of `file` as `mime_guess::from_path` guesses it: from its extension, with
/// a path without one guessed like an empty extension.
pub open spec fn file_mime(file: Seq<char>) -> Seq<char> {
    mime_for_extension(
        match extension_of(file) {
            Some(e) => e,
            None => seq![],
        },
    )
}

/// The MIME type of a file depends on its extension and nothing else: a file with an
/// extension gets the type guessed for that whole extension, whatever its length, two files
/// with the same extension get the same type, and a file without one gets the guess for the
/// empty extension.
pub proof fn lemma_mime_follows_extension(file: Seq<char>, other: Seq<char>)
    ensures
        extension_of(file) matches Some(e) ==> file_mime(file) == mime_for_extension(e),
        extension_of(file) is None ==> file_mime(file) == mime_for_extension(Seq::<char>::empty()),
        extension_of(file) == extension_of(other) ==> file_mime(file) == file_mime(other),
{
}

/// The name under which `file` is sent: its file name, or `upload` where it has none.
pub open spec fn upload_name(file: Seq<char>) -> Seq<char> {
    match file_name_of(file) {
        Some(n) => n,
        None => "upload"@,
    }
}

/// The headers of the configuration that are forwarded, in order: all but those whose
/// name is `authorization` in any case.
pub open spec fn forwarded_headers(h: Seq<(String, String)>) -> Seq<HeaderText>
    decreases h.len(),
{
    if h.len() == 0 {
        seq![]
    } else {
        let rest = forwarded_headers(h.drop_last());
        if lowercase(h.last().0@) == "authorization"@ {
            rest
        } else {
            rest.push(header_view(h.last()))
        }
    }
}

/// The lowercase names of the headers `h`.
pub open spec fn lowered_names(h: Seq<(String, String)>) -> Seq<Seq<char>> {
    h.map_values(|p: (String, String)| lowercase(p.0@))
}

/// The headers of `extra` whose lowercase name is not among `taken`, in order.
pub open spec fn kept_headers(extra: Seq<(String, String)>, taken: Seq<Seq<char>>) -> Seq<
    HeaderText,
>
    decreases extra.len(),
{
    if extra.len() == 0 {
        seq![]
    } else {
        let rest = kept_headers(extra.drop_last(), taken);
        if taken.contains(lowercase(extra.last().0@)) {
            rest
        } else {
            rest.push(header_view(extra.last()))
        }
    }
}

/// The outcome of an upload from the server's reply: the status code, its reason phrase,
/// the body, and what the body reads as JSON. `Ok` holds the URL of the uploaded file.
pub open spec fn upload_outcome(
    status: u16,
    reason: Seq<char>,
    body: Seq<char>,
    reply: Option<(Option<Seq<char>>, Option<Seq<char>>)>,
) -> Result<Seq<char>, Seq<char>> {
    if !(200 <= status < 300) {
        Err(decimal(status as nat) + " "@ + reason + ": "@ + body)
    } else {
        match reply {
            None => Err("Invalid JSON response: "@ + body),
            Some(r) => match r.1 {
                Some(url) => Ok(url),
                None => Err("Could not find files[0].url in: "@ + body),
            },
        }
    }
}

/// The configuration's own authorization never goes out a second time: no forwarded
/// configuration header is named `authorization`, in any case.
pub proof fn lemma_forwarded_skip_authorization(h: Seq<(String, String)>)
    ensures
        forall|i: int|
            0 <= i < forwarded_headers(h).len() ==> lowercase(#[trigger] forwarded_headers(h)[i].0)
                != "authorization"@,
    decreases h.len(),
{
    if h.len() > 0 {
        lemma_forwarded_skip_authorization(h.drop_last());
        let rest = forwarded_headers(h.drop_last());
        assert forall|i: int|
            0 <= i < forwarded_headers(h).len() implies lowercase(
            #[trigger] forwarded_headers(h)[i].0,
        ) != "authorization"@ by {
            if i < rest.len() {
                assert(forwarded_headers(h)[i] == rest[i]);
            }
        }
    }
}

/// Extra headers never repeat a header of the configuration: every kept header's name, in
/// lowercase, is absent from `taken`.
pub proof fn lemma_kept_headers_are_new(extra: Seq<(String, String)>, taken: Seq<Seq<char>>)
    ensures
        forall|i: int|
            0 <= i < kept_headers(extra, taken).len() ==> !taken.contains(
                lowercase(#[trigger] kept_headers(extra, taken)[i].0),
            ),
    decreases extra.len(),
{
    if extra.len() > 0 {
        lemma_kept_headers_are_new(extra.drop_last(), taken);
        let rest = kept_headers(extra.drop_last(), taken);
        assert forall|i: int|
            0 <= i < kept_headers(extra, taken).len() implies !taken.contains(
            lowercase(#[trigger] kept_headers(extra, taken)[i].0),
        ) by {
            if i < rest.len() {
                assert(kept_headers(extra, taken)[i] == rest[i]);
            }
        }
    }
}

/// An upload succeeds only on a 2xx status whose body is JSON with a string at
/// `files[0].url`, and then it gives that string; any other status fails with a message that
/// starts with the status code and ends with the body.
pub proof fn lemma_upload_outcome_laws(
    status: u16,
    reason: Seq<char>,
    body: Seq<char>,
    reply: Option<(Option<Seq<char>>, Option<Seq<char>>)>,
)
    ensures
        upload_outcome(status, reason, body, reply) is Ok <==> (200 <= status < 300 && reply is Some
            && reply.unwrap().1 is Some),
        upload_outcome(status, reason, body, reply) is Ok ==> reply.unwrap().1 == Some(
            upload_outcome(status, reason, body, reply)->Ok_0,
        ),
        !(200 <= status < 300) ==> upload_outcome(status, reason, body, reply) is Err && has_prefix(
            upload_outcome(status, reason, body, reply)->Err_0,
            decimal(status as nat),
        ) && has_suffix(upload_outcome(status, reason, body, reply)->Err_0, body),
{
    if !(200 <= status < 300) {
        let m = decimal(status as nat) + " "@ + reason + ": "@ + body;
        assert(m.subrange(0, decimal(status as nat).len() as int) =~= decimal(status as nat));
        assert(m.subrange(m.len() - body.len(), m.len() as int) =~= body);
    }
}

pub open spec fn upload_result_view(r: Result<String, UploadError>) -> Result<
    Seq<char>,
    Seq<char>,
> {
    match r {
        Ok(s) => Ok(s@),
        Err(e) => Err(e.0@),
    }
}

/// The MIME type of `file`, guessed from its extension.
pub fn mime_of_file(file: &str) -> (r: String)
    ensures
        r@ == file_mime(file@),
{
    match path_extension(file) {
        Some(e) => guess_mime(e.as_str()),
        None => {
            let empty = String::new();
            guess_mime(empty.as_str())
        },
    }
}

/// The name under which `file` is uploaded.
pub fn upload_file_name(file: &str) -> (r: String)
    ensures
        r@ == upload_name(file@),
{
    match path_file_name(file) {
        Some(n) => n,
        None => String::from_str("upload"),
    }
}

fn missing_authorization() -> (r: UploadError)
    ensures
        r.0@ == "No authorization header in config"@,
{
    UploadError(String::from_str("No authorization header in config"))
}

/// The request for uploading `file` with `cfg`: the authorization header alone, taken from
/// the configuration. Fails when the configuration has no authorization header.
pub fn plan_upload(cfg: &SxcuConfig, file: &str) -> (r: Result<UploadRequest, UploadError>)
    ensures
        match r {
            Ok(req) => {
                &&& authorization_of(cfg.headers@) == Some(req.authorization@)
                &&& req.url@ == cfg.request_url@
                &&& req.form_name@ == cfg.file_form_name@
                &&& req.file_name@ == upload_name(file@)
                &&& req.mime@ == file_mime(file@)
                &&& req.headers@.len() == 0
            },
            Err(e) => {
                &&& authorization_of(cfg.headers@) is None
                &&& e.0@ == "No authorization header in config"@
            },
        },
{
    let auth = match cfg.authorization() {
        Some(a) => String::from_str(a),
        None => {
            return Err(missing_authorization());
        },
    };
    let file_name = upload_file_name(file);
    let mime = mime_of_file(file);
    Ok(
        UploadRequest {
            url: cfg.request_url.clone(),
            form_name: cfg.file_form_name.clone(),
            file_name,
            mime,
            authorization: auth,
            headers: Vec::new(),
        },
    )
}

fn lowered_header_names(h: &Vec<(String, String)>) -> (r: Vec<String>)
    ensures
        r@.map_values(|s: String| s@) == lowered_names(h@),
{
    let mut r: Vec<String> = Vec::new();
    let mut i: usize = 0;
    while i < h.len()
        invariant
            i <= h@.len(),
            r@.map_values(|s: String| s@) == lowered_names(h@.take(i as int)),
        decreases h@.len() - i,
    {
        let ghost before = r@;
        let low = h[i].0.as_str().to_lowercase();
        assert(low@ == lowercase(h@[i as int].0@));
        r.push(low);
        assert(h@.take(i + 1) =~= h@.take(i as int).push(h@[i as int]));
        assert(r@ == before.push(low));
        assert(lowered_names(h@.take(i + 1)) =~= lowered_names(h@.take(i as int)).push(low@));
        assert(r@.map_values(|s: String| s@) =~= lowered_names(h@.take(i + 1)));
        i = i + 1;
    }
    assert(h@.take(h@.len() as int) =~= h@);
    r
}

fn contains_text(v: &Vec<String>, x: &str) -> (r: bool)
    ensures
        r == v@.map_values(|s: String| s@).contains(x@),
{
    let mut i: usize = 0;
    while i < v.len()
        invariant
            i <= v@.len(),
            forall|k: int| 0 <= k < i ==> v@[k]@ != x@,
        decreases v@.len() - i,
    {
        if same_text(v[i].as_str(), x) {
            assert(v@.map_values(|s: String| s@)[i as int] == x@);
            return true;
        }
        i = i + 1;
    }
    let ghost m = v@.map_values(|s: String| s@);
    assert forall|k: int| 0 <= k < m.len() implies #[trigger] m[k] != x@ by {
        assert(v@[k]@ != x@);
    }
    false
}

/// The request for uploading `file` with `cfg` and the headers `extra`. After the
/// authorization header come the configuration's other headers (all but `authorization`,
/// in any case), then the headers of `extra` whose name, in any case, the configuration does
/// not already hold. Fails when the configuration has no authorization header.
pub fn plan_upload_with(cfg: &SxcuConfig, file: &str, extra: &Vec<(String, String)>) -> (r: Result<
    UploadRequest,
    UploadError,
>)
    ensures
        match r {
            Ok(req) => {
                &&& authorization_of(cfg.headers@) == Some(req.authorization@)
                &&& req.url@ == cfg.request_url@
                &&& req.form_name@ == cfg.file_form_name@
                &&& req.file_name@ == upload_name(file@)
                &&& req.mime@ == file_mime(file@)
                &&& headers_view(req.headers@) == forwarded_headers(cfg.headers@) + kept_headers(
                    extra@,
                    lowered_names(cfg.headers@),
                )
            },
            Err(e) => {
                &&& authorization_of(cfg.headers@) is None
                &&& e.0@ == "No authorization header in config"@
            },
        },
{
    let base = plan_upload(cfg, file);
    let mut req = match base {
        Ok(req) => req,
        Err(e) => {
            return Err(e);
        },
    };
    let mut hs: Vec<(String, String)> = Vec::new();
    let mut i: usize = 0;
    while i < cfg.headers.len()
        invariant
            i <= cfg.headers@.len(),
            headers_view(hs@) == forwarded_headers(cfg.headers@.take(i as int)),
        decreases cfg.headers@.len() - i,
    {
        let ghost prefix = cfg.headers@.take(i + 1);
        assert(prefix.drop_last() =~= cfg.headers@.take(i as int));
        assert(prefix.last() == cfg.headers@[i as int]);
        let name = &cfg.headers[i].0;
        let low = name.as_str().to_lowercase();
        if !same_text(low.as_str(), "authorization") {
            push_header(&mut hs, name.as_str(), cfg.headers[i].1.clone());
        }
        i = i + 1;
    }
    assert(cfg.headers@.take(cfg.headers@.len() as int) =~= cfg.headers@);
    let ghost fwd = headers_view(hs@);
    let taken = lowered_header_names(&cfg.headers);
    let mut j: usize = 0;
    while j < extra.len()
        invariant
            j <= extra@.len(),
            taken@.map_values(|s: String| s@) == lowered_names(cfg.headers@),
            headers_view(hs@) == fwd + kept_headers(
                extra@.take(j as int),
                lowered_names(cfg.headers@),
            ),
        decreases extra@.len() - j,
    {
        let ghost prefix = extra@.take(j + 1);
        assert(prefix.drop_last() =~= extra@.take(j as int));
        assert(prefix.last() == extra@[j as int]);
        let name = &extra[j].0;
        let low = name.as_str().to_lowercase();
        if !contains_text(&taken, low.as_str()) {
            push_header(&mut hs, name.as_str(), extra[j].1.clone());
            assert(headers_view(hs@) =~= fwd + kept_headers(prefix, lowered_names(cfg.headers@)));
        }
        j = j + 1;
    }
    assert(extra@.take(extra@.len() as int) =~= extra@);
    req.headers = hs;
    Ok(req)
}

/// The outcome of an upload from the server's reply and what its body reads as JSON.
pub fn upload_reply_from(status: u16, reason: &str, body: &str, reply: Option<JsonReply>) -> (r:
    Result<String, UploadError>)
    ensures
        upload_result_view(r) == upload_outcome(
            status,
            reason@,
            body@,
            match reply {
                Some(j) => Some(reply_view(j)),
                None => None,
            },
        ),
{
    if !(200 <= status && status < 300) {
        let code = decimal_string(status as u32);
        let mut msg = concat2(code.as_str(), " ");
        msg.append(reason);
        msg.append(": ");
        msg.append(body);
        return Err(UploadError(msg));
    }
    match reply {
        None => Err(UploadError(concat2("Invalid JSON response: ", body))),
        Some(j) => match j.first_file_url {
            Some(url) => Ok(url),
            None => Err(UploadError(concat2("Could not find files[0].url in: ", body))),
        },
    }
}

/// The outcome of an upload from the server's reply: the status code, its reason phrase and
/// the body. `Ok` holds the URL at `files[0].url` of a successful JSON reply.
pub fn upload_reply(status: u16, reason: &str, body: &str) -> (r: Result<String, UploadError>)
    ensures
        upload_result_view(r) == upload_outcome(status, reason@, body@, json_reply_of(body@)),
{
    let reply = read_json_reply(body);
    upload_reply_from(status, reason, body, reply)
}

} // verus!

use vstd::prelude::*;
use crate::headers::headers_view;
use crate::text::opt_view;

verus! {

/// The members of a JSON reply that the uploader reads: the string at `url`, and the string
/// at `files[0].url`. A member that is absent or not a string is `None`.
#[derive(Debug)]
pub struct JsonReply {
    pub url: Option<String>,
    pub first_file_url: Option<String>,
}

pub open spec fn reply_view(r: JsonReply) -> (Option<Seq<char>>, Option<Seq<char>>) {
    (opt_view(r.url), opt_view(r.first_file_url))
}

/// What serde_json reads from the text `text`: `None` where `text` is not a JSON document,
/// otherwise the string members at `url` and at `files[0].url`.
pub uninterp spec fn json_reply_of(text: Seq<char>) -> Option<(Option<Seq<char>>, Option<Seq<char>>)>;

/// What `serde_json` writes, compactly, for the JSON object whose members are the string
/// fields `fields` (name, value).
pub uninterp spec fn json_object_text(fields: Seq<(Seq<char>, Seq<char>)>) -> Seq<char>;

/// Parses `text` with `serde_json::from_str::<serde_json::Value>` and reads
/// `value["url"].as_str()` and `value["files"][0]["url"].as_str()`. The result is a function
/// of the text alone; JSON's grammar is not restated here.
#[verifier::external_body]
pub(crate) fn read_json_reply(text: &str) -> (r: Option<JsonReply>)
    ensures
        match r {
            Some(j) => json_reply_of(text@) == Some(reply_view(j)),
            None => json_reply_of(text@) is None,
        },
{
    match serde_json::from_str::<serde_json::Value>(text) {
        Ok(v) => Some(
            JsonReply {
                url: v["url"].as_str().map(|s| s.to_string()),
                first_file_url: v["files"][0]["url"].as_str().map(|s| s.to_string()),
            },
        ),
        Err(_) => None,
    }
}

/// Collects `fields` into a `serde_json::Map` of string values and writes it through the
/// `Display` of `serde_json::Value::Object`. The result is a function of the fields alone;
/// serde_json's layout and escaping are not restated here.
#[verifier::external_body]
pub(crate) fn json_object(fields: &Vec<(String, String)>) -> (r: String)
    ensures
        r@ == json_object_text(headers_view(fields@)),
{
    let map: serde_json::Map<String, serde_json::Value> = fields
        .iter()
        .map(|(k, v)| (k.clone(), serde_json::Value::String(v.clone())))
        .collect();
    serde_json::Value::Object(map).to_string()
}

} // verus!

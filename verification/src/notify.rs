use vstd::prelude::*;
use crate::paths::{extension_of, file_name_of, path_extension, path_file_name};
use crate::settings::texts_view;
use crate::text::{concat2, concat3, lowercase, same_text};

verus! {

/// The extensions, in lowercase, that mark a file as an image.
pub open spec fn is_image_extension(e: Seq<char>) -> bool {
    ||| e == "png"@
    ||| e == "jpg"@
    ||| e == "jpeg"@
    ||| e == "gif"@
    ||| e == "webp"@
    ||| e == "avif"@
    ||| e == "bmp"@
    ||| e == "tiff"@
    ||| e == "tif"@
    ||| e == "ico"@
    ||| e == "heic"@
    ||| e == "heif"@
}

/// `file` is an image, judged by its extension in any case.
pub open spec fn is_image_file(file: Seq<char>) -> bool {
    match extension_of(file) {
        Some(e) => is_image_extension(lowercase(e)),
        None => false,
    }
}

/// Exactly the files whose extension, in lowercase, is png, jpg, jpeg, gif, webp, avif,
/// bmp, tiff, tif, ico, heic or heif are images; a file without an extension is none.
pub proof fn lemma_image_extensions(file: Seq<char>)
    ensures
        is_image_file(file) <==> (extension_of(file) matches Some(e) && {
            let l = lowercase(e);
            l == "png"@ || l == "jpg"@ || l == "jpeg"@ || l == "gif"@ || l == "webp"@ || l
                == "avif"@ || l == "bmp"@ || l == "tiff"@ || l == "tif"@ || l == "ico"@ || l
                == "heic"@ || l == "heif"@
        }),
        extension_of(file) is None ==> !is_image_file(file),
{
}

/// An image upload shows the image as the notification's icon; any other upload shows none.
pub proof fn lemma_icon_only_for_images(file: Seq<char>, url: Seq<char>, kde: bool, copied: bool)
    ensures
        is_image_file(file) ==> success_arguments(file, url, kde, copied).len() == 5
            && success_arguments(file, url, kde, copied)[4] == "--icon="@ + file,
        !is_image_file(file) ==> success_arguments(file, url, kde, copied).len() == 4,
{
}

/// The name of `file` shown in notifications: its file name, or `dflt`.
pub open spec fn shown_name(file: Seq<char>, dflt: Seq<char>) -> Seq<char> {
    match file_name_of(file) {
        Some(n) => n,
        None => dflt,
    }
}

/// The line added when the URL was copied to the clipboard.
pub open spec fn clipboard_line(copied: bool) -> Seq<char> {
    if copied {
        "\nCopied to clipboard"@
    } else {
        seq![]
    }
}

/// The body that announces `url`: a link in the KDE style, the bare URL otherwise.
pub open spec fn url_body(url: Seq<char>, kde: bool, copied: bool) -> Seq<char> {
    if kde {
        "<a href=\""@ + url + "\">"@ + url + "</a>"@ + clipboard_line(copied)
    } else {
        url + clipboard_line(copied)
    }
}

/// The `notify-send` arguments that announce the upload of `file` to `url`; images are
/// shown as the notification's icon.
pub open spec fn success_arguments(file: Seq<char>, url: Seq<char>, kde: bool, copied: bool) -> Seq<
    Seq<char>,
> {
    seq![
        "--app-name=Zipline Upload"@,
        "--expire-time=5000"@,
        "Uploaded — "@ + shown_name(file, "file"@),
        url_body(url, kde, copied),
    ] + if is_image_file(file) {
        seq!["--icon="@ + file]
    } else {
        seq![]
    }
}

/// The `notify-send` arguments that report the failed upload of `file` with `err`.
pub open spec fn failure_arguments(file: Seq<char>, err: Seq<char>) -> Seq<Seq<char>> {
    seq![
        "--app-name=Zipline Upload"@,
        "--expire-time=8000"@,
        "--urgency=critical"@,
        "Upload failed — "@ + shown_name(file, "file"@),
        err,
    ]
}

/// The `notify-send` arguments that report that `file` was refused for `reason`.
pub open spec fn blocked_arguments(file: Seq<char>, reason: Seq<char>) -> Seq<Seq<char>> {
    seq![
        "--app-name=Zipline Upload"@,
        "--expire-time=6000"@,
        "--urgency=normal"@,
        "Blocked — "@ + shown_name(file, "file"@),
        reason,
    ]
}

/// The `notify-send` arguments that announce the short URL `url`.
pub open spec fn shorten_success_arguments(url: Seq<char>, kde: bool, copied: bool) -> Seq<
    Seq<char>,
> {
    seq![
        "--app-name=Zipline Upload"@,
        "--expire-time=5000"@,
        "Shortened URL"@,
        url_body(url, kde, copied),
    ]
}

/// The `notify-send` arguments that report a failed shortening with `err`.
pub open spec fn shorten_failure_arguments(err: Seq<char>) -> Seq<Seq<char>> {
    seq![
        "--app-name=Zipline Upload"@,
        "--expire-time=8000"@,
        "--urgency=critical"@,
        "Shorten failed"@,
        err,
    ]
}

/// Whether `file` is an image, judged by its extension in any case.
pub fn is_image(file: &str) -> (r: bool)
    ensures
        r == is_image_file(file@),
{
    match path_extension(file) {
        Some(e) => {
            let low = e.as_str().to_lowercase();
            let l = low.as_str();
            same_text(l, "png") || same_text(l, "jpg") || same_text(l, "jpeg") || same_text(
                l,
                "gif",
            ) || same_text(l, "webp") || same_text(l, "avif") || same_text(l, "bmp") || same_text(
                l,
                "tiff",
            ) || same_text(l, "tif") || same_text(l, "ico") || same_text(l, "heic") || same_text(
                l,
                "heif",
            )
        },
        None => false,
    }
}

fn name_or(file: &str, dflt: &str) -> (r: String)
    ensures
        r@ == shown_name(file@, dflt@),
{
    match path_file_name(file) {
        Some(n) => n,
        None => String::from_str(dflt),
    }
}

fn url_text(url: &str, kde: bool, copied: bool) -> (r: String)
    ensures
        r@ == url_body(url@, kde, copied),
{
    let clip = if copied {
        "\nCopied to clipboard"
    } else {
        ""
    };
    let mut body = if kde {
        let mut b = concat3("<a href=\"", url, "\">");
        b.append(url);
        b.append("</a>");
        b
    } else {
        String::from_str(url)
    };
    body.append(clip);
    proof {
        if !copied {
            reveal_strlit("");
        }
    }
    assert(body@ =~= url_body(url@, kde, copied));
    body
}

fn texts(a: String, b: String, c: String, d: String) -> (r: Vec<String>)
    ensures
        texts_view(r@) == seq![a@, b@, c@, d@],
{
    let mut v: Vec<String> = Vec::new();
    v.push(a);
    v.push(b);
    v.push(c);
    v.push(d);
    assert(texts_view(v@) =~= seq![a@, b@, c@, d@]);
    v
}

fn push_text(v: &mut Vec<String>, t: String)
    ensures
        texts_view(final(v)@) == texts_view(old(v)@).push(t@),
{
    let ghost before = v@;
    v.push(t);
    assert(texts_view(v@) =~= texts_view(before).push(t@));
}

/// The arguments of the notification that `file` was uploaded to `url`.
pub fn success_args(file: &str, url: &str, kde: bool, copied: bool) -> (r: Vec<String>)
    ensures
        texts_view(r@) == success_arguments(file@, url@, kde, copied),
{
    let name = name_or(file, "file");
    let mut v = texts(
        String::from_str("--app-name=Zipline Upload"),
        String::from_str("--expire-time=5000"),
        concat2("Uploaded — ", name.as_str()),
        url_text(url, kde, copied),
    );
    if is_image(file) {
        push_text(&mut v, concat2("--icon=", file));
    }
    assert(texts_view(v@) =~= success_arguments(file@, url@, kde, copied));
    v
}

/// The arguments of the notification that the upload of `file` failed with `err`.
pub fn failure_args(file: &str, err: &str) -> (r: Vec<String>)
    ensures
        texts_view(r@) == failure_arguments(file@, err@),
{
    let name = name_or(file, "file");
    let mut v = texts(
        String::from_str("--app-name=Zipline Upload"),
        String::from_str("--expire-time=8000"),
        String::from_str("--urgency=critical"),
        concat2("Upload failed — ", name.as_str()),
    );
    push_text(&mut v, String::from_str(err));
    assert(texts_view(v@) =~= failure_arguments(file@, err@));
    v
}

/// The arguments of the notification that `file` was refused for `reason`.
pub fn blocked_args(file: &str, reason: &str) -> (r: Vec<String>)
    ensures
        texts_view(r@) == blocked_arguments(file@, reason@),
{
    let name = name_or(file, "file");
    let mut v = texts(
        String::from_str("--app-name=Zipline Upload"),
        String::from_str("--expire-time=6000"),
        String::from_str("--urgency=normal"),
        concat2("Blocked — ", name.as_str()),
    );
    push_text(&mut v, String::from_str(reason));
    assert(texts_view(v@) =~= blocked_arguments(file@, reason@));
    v
}

/// The arguments of the notification that announces the short URL `url`.
pub fn shorten_success_args(url: &str, kde: bool, copied: bool) -> (r: Vec<String>)
    ensures
        texts_view(r@) == shorten_success_arguments(url@, kde, copied),
{
    let v = texts(
        String::from_str("--app-name=Zipline Upload"),
        String::from_str("--expire-time=5000"),
        String::from_str("Shortened URL"),
        url_text(url, kde, copied),
    );
    assert(texts_view(v@) =~= shorten_success_arguments(url@, kde, copied));
    v
}

/// The arguments of the notification that a shortening failed with `err`.
pub fn shorten_failure_args(err: &str) -> (r: Vec<String>)
    ensures
        texts_view(r@) == shorten_failure_arguments(err@),
{
    let mut v = texts(
        String::from_str("--app-name=Zipline Upload"),
        String::from_str("--expire-time=8000"),
        String::from_str("--urgency=critical"),
        String::from_str("Shorten failed"),
    );
    push_text(&mut v, String::from_str(err));
    assert(texts_view(v@) =~= shorten_failure_arguments(err@));
    v
}

} // verus!

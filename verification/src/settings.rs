use vstd::prelude::*;
use crate::headers::{headers_view, push_header, HeaderText};
use crate::paths::{extension_of, path_extension};
use crate::text::{chars_of, decimal, decimal_string, lowercase, opt_view, same_text, string_of, trim, trimmed};

verus! {

/// The user's saved preferences: notification style, upload defaults and the extension
/// allowlist. `None` in an upload default means that nothing is sent for it.
#[derive(Debug)]
pub struct Settings {
    /// `None` means that the notification style is detected from the session.
    pub kde_notifications: Option<bool>,
    /// File name format: random, date, uuid, name or gfycat.
    pub format: Option<String>,
    pub original_name: Option<bool>,
    /// Expiry such as "1h" or "1d"; blank means that files do not expire.
    pub deletes_at: Option<String>,
    /// 0 means no view limit.
    pub max_views: Option<u32>,
    pub password: Option<String>,
    pub folder_id: Option<String>,
    pub domain: Option<String>,
    /// 0 means no compression.
    pub image_compression_percent: Option<u32>,
    /// jpg, png, webp or jxl.
    pub image_compression_type: Option<String>,
    /// Extensions that may be uploaded; an empty or absent list allows every file.
    pub allowed_extensions: Option<Vec<String>>,
}

/// The settings as values: text as characters, lists as sequences.
pub struct SettingsModel {
    pub kde_notifications: Option<bool>,
    pub format: Option<Seq<char>>,
    pub original_name: Option<bool>,
    pub deletes_at: Option<Seq<char>>,
    pub max_views: Option<u32>,
    pub password: Option<Seq<char>>,
    pub folder_id: Option<Seq<char>>,
    pub domain: Option<Seq<char>>,
    pub image_compression_percent: Option<u32>,
    pub image_compression_type: Option<Seq<char>>,
    pub allowed_extensions: Option<Seq<Seq<char>>>,
}

pub open spec fn texts_view(v: Seq<String>) -> Seq<Seq<char>> {
    v.map_values(|s: String| s@)
}

impl View for Settings {
    type V = SettingsModel;

    open spec fn view(&self) -> SettingsModel {
        SettingsModel {
            kde_notifications: self.kde_notifications,
            format: opt_view(self.format),
            original_name: self.original_name,
            deletes_at: opt_view(self.deletes_at),
            max_views: self.max_views,
            password: opt_view(self.password),
            folder_id: opt_view(self.folder_id),
            domain: opt_view(self.domain),
            image_compression_percent: self.image_compression_percent,
            image_compression_type: opt_view(self.image_compression_type),
            allowed_extensions: match self.allowed_extensions {
                Some(v) => Some(texts_view(v@)),
                None => None,
            },
        }
    }
}

/// The header `(name, value)` when `value` is set and not empty.
pub open spec fn text_header(name: Seq<char>, value: Option<Seq<char>>) -> Seq<HeaderText> {
    match value {
        Some(v) => if v.len() > 0 {
            seq![(name, v)]
        } else {
            seq![]
        },
        None => seq![],
    }
}

/// The header `(name, n)` in decimal when `n` is set and positive.
pub open spec fn count_header(name: Seq<char>, value: Option<u32>) -> Seq<HeaderText> {
    match value {
        Some(n) => if n > 0 {
            seq![(name, decimal(n as nat))]
        } else {
            seq![]
        },
        None => seq![],
    }
}

/// The compression headers: the percentage when it is positive, followed by the format
/// when that is also set and not empty.
pub open spec fn compression_headers(s: SettingsModel) -> Seq<HeaderText> {
    match s.image_compression_percent {
        Some(p) => if p > 0 {
            seq![("x-zipline-image-compression-percent"@, decimal(p as nat))] + text_header(
                "x-zipline-image-compression-type"@,
                s.image_compression_type,
            )
        } else {
            seq![]
        },
        None => seq![],
    }
}

/// The headers that the settings `s` add to an upload, in the order they are sent.
pub open spec fn settings_headers(s: SettingsModel) -> Seq<HeaderText> {
    text_header("x-zipline-format"@, s.format) + (if s.original_name == Some(true) {
        seq![("x-zipline-original-name"@, "true"@)]
    } else {
        seq![]
    }) + text_header("x-zipline-deletes-at"@, s.deletes_at) + count_header(
        "x-zipline-max-views"@,
        s.max_views,
    ) + text_header("x-zipline-password"@, s.password) + text_header(
        "x-zipline-folder"@,
        s.folder_id,
    ) + text_header("x-zipline-domain"@, s.domain) + compression_headers(s)
}

/// The extension of `file` in lowercase, or the empty text where it has none.
pub open spec fn lowered_extension(file: Seq<char>) -> Seq<char> {
    match extension_of(file) {
        Some(e) => lowercase(e),
        None => seq![],
    }
}

/// `list` holds an entry whose lowercase form is `ext`.
pub open spec fn list_has_extension(list: Seq<Seq<char>>, ext: Seq<char>) -> bool {
    exists|i: int| 0 <= i < list.len() && lowercase(#[trigger] list[i]) == ext
}

/// Whether the allowlist `list` lets `file` through.
pub open spec fn allows(list: Option<Seq<Seq<char>>>, file: Seq<char>) -> bool {
    match list {
        Some(v) => v.len() == 0 || list_has_extension(v, lowered_extension(file)),
        None => true,
    }
}

pub fn push_text_header(h: &mut Vec<(String, String)>, name: &str, value: &Option<String>)
    ensures
        headers_view(final(h)@) == headers_view(old(h)@) + text_header(name@, opt_view(*value)),
{
    match value {
        Some(v) => {
            if v.unicode_len() > 0 {
                push_header(h, name, v.clone());
            }
        },
        None => {},
    }
    assert(headers_view(h@) =~= headers_view(old(h)@) + text_header(name@, opt_view(*value)));
}

pub fn push_count_header(h: &mut Vec<(String, String)>, name: &str, value: Option<u32>)
    ensures
        headers_view(final(h)@) == headers_view(old(h)@) + count_header(name@, value),
{
    match value {
        Some(n) => {
            if n > 0 {
                push_header(h, name, decimal_string(n));
            }
        },
        None => {},
    }
    assert(headers_view(h@) =~= headers_view(old(h)@) + count_header(name@, value));
}

/// Settings with nothing set.
pub open spec fn empty_settings() -> SettingsModel {
    SettingsModel {
        kde_notifications: None,
        format: None,
        original_name: None,
        deletes_at: None,
        max_views: None,
        password: None,
        folder_id: None,
        domain: None,
        image_compression_percent: None,
        image_compression_type: None,
        allowed_extensions: None,
    }
}

/// The allowlist compares extensions without regard to case: with no list or an empty one
/// every file passes; otherwise a file passes exactly when some entry, in lowercase, equals
/// the file's extension in lowercase (the empty text standing for no extension).
pub proof fn lemma_allowlist_ignores_case(list: Option<Seq<Seq<char>>>, file: Seq<char>)
    ensures
        list is None ==> allows(list, file),
        list is Some && list.unwrap().len() == 0 ==> allows(list, file),
        list is Some && list.unwrap().len() > 0 ==> (allows(list, file) <==> exists|i: int|
            0 <= i < list.unwrap().len() && lowercase(#[trigger] list.unwrap()[i]) == match extension_of(file) {
                Some(e) => lowercase(e),
                None => Seq::<char>::empty(),
            }),
{
}

/// Only settings that have been set explicitly are sent: every header that settings add
/// carries a non-empty value.
pub proof fn lemma_settings_headers_have_values(s: SettingsModel)
    ensures
        forall|i: int|
            0 <= i < settings_headers(s).len() ==> (#[trigger] settings_headers(s)[i]).1.len() > 0,
{
    reveal_strlit("true");
    if let Some(n) = s.max_views {
        crate::text::lemma_decimal_digits(n as nat);
    }
    if let Some(n) = s.image_compression_percent {
        crate::text::lemma_decimal_digits(n as nat);
    }
    let h = settings_headers(s);
    assert forall|i: int| 0 <= i < h.len() implies (#[trigger] h[i]).1.len() > 0 by {
        let a = text_header("x-zipline-format"@, s.format);
        let b = if s.original_name == Some(true) {
            seq![("x-zipline-original-name"@, "true"@)]
        } else {
            seq![]
        };
        let c = text_header("x-zipline-deletes-at"@, s.deletes_at);
        let d = count_header("x-zipline-max-views"@, s.max_views);
        let e = text_header("x-zipline-password"@, s.password);
        let f = text_header("x-zipline-folder"@, s.folder_id);
        let g = text_header("x-zipline-domain"@, s.domain);
        let k = compression_headers(s);
        assert(h == a + b + c + d + e + f + g + k);
        assert(forall|j: int| 0 <= j < k.len() ==> (#[trigger] k[j]).1.len() > 0);
    }
}

/// Settings with nothing set add no header to an upload.
pub proof fn lemma_empty_settings_send_nothing()
    ensures
        settings_headers(empty_settings()) == Seq::<HeaderText>::empty(),
{
    assert(settings_headers(empty_settings()) =~= Seq::<HeaderText>::empty());
}

impl Default for Settings {
    /// Settings with nothing set.
    fn default() -> (r: Self)
        ensures
            r@ == empty_settings(),
    {
        Settings {
            kde_notifications: None,
            format: None,
            original_name: None,
            deletes_at: None,
            max_views: None,
            password: None,
            folder_id: None,
            domain: None,
            image_compression_percent: None,
            image_compression_type: None,
            allowed_extensions: None,
        }
    }
}

impl Settings {
    /// Builds the extra upload headers. Only headers that have been explicitly set are
    /// included: nothing is sent for default or unset values.
    pub fn extra_headers(&self) -> (r: Vec<(String, String)>)
        ensures
            headers_view(r@) == settings_headers(self@),
    {
        let mut h: Vec<(String, String)> = Vec::new();
        assert(headers_view(h@) =~= Seq::<HeaderText>::empty());
        push_text_header(&mut h, "x-zipline-format", &self.format);
        let ghost a = headers_view(h@);
        if self.original_name == Some(true) {
            push_header(&mut h, "x-zipline-original-name", String::from_str("true"));
        }
        assert(headers_view(h@) =~= a + (if self.original_name == Some(true) {
            seq![("x-zipline-original-name"@, "true"@)]
        } else {
            seq![]
        }));
        push_text_header(&mut h, "x-zipline-deletes-at", &self.deletes_at);
        push_count_header(&mut h, "x-zipline-max-views", self.max_views);
        push_text_header(&mut h, "x-zipline-password", &self.password);
        push_text_header(&mut h, "x-zipline-folder", &self.folder_id);
        push_text_header(&mut h, "x-zipline-domain", &self.domain);
        let ghost b = headers_view(h@);
        match self.image_compression_percent {
            Some(pct) => {
                if pct > 0 {
                    push_header(
                        &mut h,
                        "x-zipline-image-compression-percent",
                        decimal_string(pct),
                    );
                    push_text_header(
                        &mut h,
                        "x-zipline-image-compression-type",
                        &self.image_compression_type,
                    );
                }
            },
            None => {},
        }
        assert(headers_view(h@) =~= b + compression_headers(self@));
        assert(headers_view(h@) =~= settings_headers(self@));
        h
    }

    /// Whether `file` may be uploaded: true when no allowlist is configured or the list is
    /// empty, otherwise when the file's extension, compared without regard to case, is in
    /// the list.
    pub fn extension_allowed(&self, file: &str) -> (r: bool)
        ensures
            r == allows(self@.allowed_extensions, file@),
    {
        let exts = match &self.allowed_extensions {
            Some(e) => {
                if e.len() == 0 {
                    return true;
                }
                e
            },
            None => {
                return true;
            },
        };
        let ext: String = match path_extension(file) {
            Some(e) => e.as_str().to_lowercase(),
            None => String::new(),
        };
        assert(ext@ == lowered_extension(file@));
        let mut i: usize = 0;
        while i < exts.len()
            invariant
                self.allowed_extensions == Some(*exts),
                exts@.len() > 0,
                i <= exts@.len(),
                ext@ == lowered_extension(file@),
                forall|k: int| 0 <= k < i ==> lowercase(#[trigger] exts@[k]@) != ext@,
                self@.allowed_extensions == Some(texts_view(exts@)),
            decreases exts@.len() - i,
        {
            let low = exts[i].as_str().to_lowercase();
            if same_text(low.as_str(), ext.as_str()) {
                assert(texts_view(exts@)[i as int] == exts@[i as int]@);
                assert(list_has_extension(texts_view(exts@), ext@));
                return true;
            }
            i = i + 1;
        }
        assert forall|k: int| 0 <= k < exts@.len() implies lowercase(#[trigger] texts_view(exts@)[k]) != ext@ by {
            assert(texts_view(exts@)[k] == exts@[k]@);
        }
        false
    }
}

/// A character that separates entries of an extension list.
pub open spec fn is_list_separator(c: char) -> bool {
    c == ',' || c == ' '
}

/// The pieces of `s` between separators, empty pieces included, as `str::split` cuts them.
pub open spec fn split_pieces(s: Seq<char>) -> Seq<Seq<char>>
    decreases s.len(),
{
    if s.len() == 0 {
        seq![seq![]]
    } else {
        let p = split_pieces(s.drop_last());
        if is_list_separator(s.last()) {
            p.push(seq![])
        } else {
            p.update(p.len() - 1, p.last().push(s.last()))
        }
    }
}

/// The pieces trimmed and in lowercase, with the empty ones left out.
pub open spec fn clean_entries(pieces: Seq<Seq<char>>) -> Seq<Seq<char>>
    decreases pieces.len(),
{
    if pieces.len() == 0 {
        seq![]
    } else {
        let rest = clean_entries(pieces.drop_last());
        let e = lowercase(trimmed(pieces.last()));
        if e.len() > 0 {
            rest.push(e)
        } else {
            rest
        }
    }
}

/// The extensions that the text `text` lists, separated by commas or spaces.
pub open spec fn extension_list(text: Seq<char>) -> Seq<Seq<char>> {
    clean_entries(split_pieces(text))
}

proof fn lemma_split_nonempty(s: Seq<char>)
    ensures
        split_pieces(s).len() >= 1,
    decreases s.len(),
{
    if s.len() > 0 {
        lemma_split_nonempty(s.drop_last());
    }
}

fn add_entry(out: &mut Vec<String>, piece: &Vec<char>)
    ensures
        texts_view(final(out)@) == (if lowercase(trimmed(piece@)).len() > 0 {
            texts_view(old(out)@).push(lowercase(trimmed(piece@)))
        } else {
            texts_view(old(out)@)
        }),
{
    let raw = string_of(piece.as_slice());
    let t = trim(raw.as_str());
    let low = t.as_str().to_lowercase();
    if low.unicode_len() > 0 {
        let ghost before = out@;
        out.push(low);
        assert(texts_view(out@) =~= texts_view(before).push(low@));
    }
}

/// The extensions that `text` lists: the pieces between commas and spaces, trimmed and in
/// lowercase, with the empty ones left out.
pub fn parse_extension_list(text: &str) -> (r: Vec<String>)
    ensures
        texts_view(r@) == extension_list(text@),
{
    let cs = chars_of(text);
    let mut out: Vec<String> = Vec::new();
    let mut cur: Vec<char> = Vec::new();
    let ghost mut done: Seq<Seq<char>> = seq![];
    let mut i: usize = 0;
    assert(cs@.take(0) =~= Seq::<char>::empty());
    assert(split_pieces(cs@.take(0)) =~= done.push(cur@));
    assert(texts_view(out@) =~= clean_entries(done));
    while i < cs.len()
        invariant
            i <= cs@.len(),
            split_pieces(cs@.take(i as int)) == done.push(cur@),
            texts_view(out@) == clean_entries(done),
        decreases cs@.len() - i,
    {
        let c = cs[i];
        let ghost prev = cs@.take(i as int);
        assert(cs@.take(i + 1).drop_last() =~= prev);
        assert(cs@.take(i + 1).last() == c);
        proof { lemma_split_nonempty(prev); }
        if c == ',' || c == ' ' {
            add_entry(&mut out, &cur);
            proof {
                assert(done.push(cur@).drop_last() =~= done);
                done = done.push(cur@);
            }
            cur = Vec::new();
            assert(split_pieces(cs@.take(i + 1)) =~= done.push(cur@));
        } else {
            let ghost old_cur = cur@;
            cur.push(c);
            assert(split_pieces(cs@.take(i + 1)) =~= done.push(old_cur).update(
                done.len() as int,
                old_cur.push(c),
            ));
            assert(split_pieces(cs@.take(i + 1)) =~= done.push(cur@));
        }
        i = i + 1;
    }
    add_entry(&mut out, &cur);
    assert(done.push(cur@).drop_last() =~= done);
    assert(cs@.take(cs@.len() as int) =~= cs@);
    out
}

} // verus!

verus! {

proof fn lemma_split_after_separator(x: Seq<char>, c: char, y: Seq<char>)
    requires
        c == ',' || c == ' ',
    ensures
        split_pieces(x.push(c) + y) == split_pieces(x) + split_pieces(y),
    decreases y.len(),
{
    if y.len() == 0 {
        assert(x.push(c) + y =~= x.push(c));
        assert(x.push(c).drop_last() =~= x);
        assert(split_pieces(y) =~= seq![Seq::<char>::empty()]);
        assert(split_pieces(x).push(seq![]) =~= split_pieces(x) + split_pieces(y));
    } else {
        let y0 = y.drop_last();
        let d = y.last();
        lemma_split_after_separator(x, c, y0);
        lemma_split_nonempty(y0);
        lemma_split_nonempty(x);
        assert((x.push(c) + y).drop_last() =~= x.push(c) + y0);
        assert((x.push(c) + y).last() == d);
        let s = split_pieces(x);
        let t = split_pieces(y0);
        if is_list_separator(d) {
            assert((s + t).push(seq![]) =~= s + t.push(seq![]));
        } else {
            assert((s + t).update((s + t).len() - 1, (s + t).last().push(d)) =~= s + t.update(
                t.len() - 1,
                t.last().push(d),
            ));
        }
    }
}

proof fn lemma_clean_concat(s: Seq<Seq<char>>, t: Seq<Seq<char>>)
    ensures
        clean_entries(s + t) == clean_entries(s) + clean_entries(t),
    decreases t.len(),
{
    if t.len() == 0 {
        assert(s + t =~= s);
        assert(clean_entries(s) + clean_entries(t) =~= clean_entries(s));
    } else {
        lemma_clean_concat(s, t.drop_last());
        assert((s + t).drop_last() =~= s + t.drop_last());
        assert((s + t).last() == t.last());
        let e = lowercase(trimmed(t.last()));
        if e.len() > 0 {
            assert(clean_entries(s) + clean_entries(t.drop_last()).push(e) =~= (clean_entries(s)
                + clean_entries(t.drop_last())).push(e));
        }
    }
}

/// A space separates allowlist entries exactly as a comma does: the list read from `a`, a
/// space or a comma, then `b`, is the list read from `a` followed by the list read from `b`.
/// So "png jpg" and "png,jpg" both give the two entries of "png" and "jpg".
pub proof fn lemma_space_and_comma_separate(a: Seq<char>, b: Seq<char>)
    ensures
        extension_list(a + seq![' '] + b) == extension_list(a) + extension_list(b),
        extension_list(a + seq![','] + b) == extension_list(a) + extension_list(b),
{
    assert(a + seq![' '] + b =~= a.push(' ') + b);
    assert(a + seq![','] + b =~= a.push(',') + b);
    lemma_split_after_separator(a, ' ', b);
    lemma_split_after_separator(a, ',', b);
    lemma_clean_concat(split_pieces(a), split_pieces(b));
}

proof fn lemma_split_without_separators(a: Seq<char>)
    requires
        forall|i: int| 0 <= i < a.len() ==> a[i] != ',' && a[i] != ' ',
    ensures
        split_pieces(a) == seq![a],
    decreases a.len(),
{
    if a.len() > 0 {
        lemma_split_without_separators(a.drop_last());
        assert(a.drop_last().push(a.last()) =~= a);
        assert(!is_list_separator(a.last()));
        let p = seq![a.drop_last()];
        assert(p.len() == 1 && p.last() == a.drop_last());
        assert(split_pieces(a) == p.update(0, a.drop_last().push(a.last())));
        assert(p.update(0, a) =~= seq![a]);
    } else {
        assert(a =~= Seq::<char>::empty());
        assert(split_pieces(a) =~= seq![a]);
    }
}

/// Text without commas or spaces is one entry: trimmed and in lowercase, or no entry at all
/// when nothing is left of it.
pub proof fn lemma_single_entry(a: Seq<char>)
    requires
        forall|i: int| 0 <= i < a.len() ==> a[i] != ',' && a[i] != ' ',
    ensures
        extension_list(a) == (if lowercase(trimmed(a)).len() > 0 {
            seq![lowercase(trimmed(a))]
        } else {
            Seq::<Seq<char>>::empty()
        }),
{
    lemma_split_without_separators(a);
    assert(seq![a].drop_last() =~= Seq::<Seq<char>>::empty());
    assert(clean_entries(Seq::<Seq<char>>::empty()) == Seq::<Seq<char>>::empty());
    assert(seq![a].last() == a);
    if lowercase(trimmed(a)).len() > 0 {
        assert(Seq::<Seq<char>>::empty().push(lowercase(trimmed(a))) =~= seq![lowercase(trimmed(a))]);
    }
}

} // verus!

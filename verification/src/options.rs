use vstd::prelude::*;
use crate::headers::{headers_view, push_header, HeaderText};
use crate::settings::{Settings, SettingsModel, settings_headers, text_header, count_header, push_count_header};
use crate::text::{
    concat2, decimal, decimal_string, lemma_parse_decimal, opt_view, parse_u32, parse_u32_spec,
    same_text, trim, trimmed,
};

verus! {

/// The upload options as edited in the window: one text per setting, the chosen expiry
/// preset (0 never, 1 one hour, 2 three hours, 3 one day, 4 one week, 5 custom) and, for a
/// custom expiry, its amount and unit (0 minutes, 1 hours, 2 days, 3 weeks, 4 years).
#[derive(Debug)]
pub struct UploadOptions {
    pub format: String,
    pub original_name: bool,
    pub deletes_at: String,
    pub deletes_at_preset: usize,
    pub custom_amount: String,
    pub custom_unit: usize,
    pub max_views: String,
    pub password: String,
    pub folder_id: String,
    pub domain: String,
    pub image_compression_percent: String,
    pub image_compression_type: String,
}

/// The upload options as values.
pub struct OptionsModel {
    pub format: Seq<char>,
    pub original_name: bool,
    pub deletes_at: Seq<char>,
    pub deletes_at_preset: usize,
    pub custom_amount: Seq<char>,
    pub custom_unit: usize,
    pub max_views: Seq<char>,
    pub password: Seq<char>,
    pub folder_id: Seq<char>,
    pub domain: Seq<char>,
    pub image_compression_percent: Seq<char>,
    pub image_compression_type: Seq<char>,
}

impl Clone for UploadOptions {
    fn clone(&self) -> (r: Self)
        ensures
            r@ == self@,
    {
        UploadOptions {
            format: self.format.clone(),
            original_name: self.original_name,
            deletes_at: self.deletes_at.clone(),
            deletes_at_preset: self.deletes_at_preset,
            custom_amount: self.custom_amount.clone(),
            custom_unit: self.custom_unit,
            max_views: self.max_views.clone(),
            password: self.password.clone(),
            folder_id: self.folder_id.clone(),
            domain: self.domain.clone(),
            image_compression_percent: self.image_compression_percent.clone(),
            image_compression_type: self.image_compression_type.clone(),
        }
    }
}

impl View for UploadOptions {
    type V = OptionsModel;

    open spec fn view(&self) -> OptionsModel {
        OptionsModel {
            format: self.format@,
            original_name: self.original_name,
            deletes_at: self.deletes_at@,
            deletes_at_preset: self.deletes_at_preset,
            custom_amount: self.custom_amount@,
            custom_unit: self.custom_unit,
            max_views: self.max_views@,
            password: self.password@,
            folder_id: self.folder_id@,
            domain: self.domain@,
            image_compression_percent: self.image_compression_percent@,
            image_compression_type: self.image_compression_type@,
        }
    }
}

/// The text of `o`, or the empty text.
pub open spec fn text_or_empty(o: Option<Seq<char>>) -> Seq<char> {
    match o {
        Some(t) => t,
        None => seq![],
    }
}

/// `n` in decimal, or the empty text.
pub open spec fn number_text(o: Option<u32>) -> Seq<char> {
    match o {
        Some(n) => decimal(n as nat),
        None => seq![],
    }
}

/// The expiry preset that shows the expiry `d`.
pub open spec fn expiry_preset(d: Option<Seq<char>>) -> usize {
    match d {
        None => 0,
        Some(v) => if v.len() == 0 {
            0
        } else if v == "1h"@ {
            1
        } else if v == "3h"@ {
            2
        } else if v == "1d"@ {
            3
        } else if v == "1w"@ {
            4
        } else {
            5
        },
    }
}

/// The options that the window shows for the settings `s`.
pub open spec fn options_of(s: SettingsModel) -> OptionsModel {
    OptionsModel {
        format: text_or_empty(s.format),
        original_name: s.original_name == Some(true),
        deletes_at: if expiry_preset(s.deletes_at) == 0 {
            seq![]
        } else {
            text_or_empty(s.deletes_at)
        },
        deletes_at_preset: expiry_preset(s.deletes_at),
        custom_amount: seq![],
        custom_unit: 1,
        max_views: number_text(s.max_views),
        password: text_or_empty(s.password),
        folder_id: text_or_empty(s.folder_id),
        domain: text_or_empty(s.domain),
        image_compression_percent: number_text(s.image_compression_percent),
        image_compression_type: text_or_empty(s.image_compression_type),
    }
}

/// `t`, or `None` when it is empty.
pub open spec fn none_if_empty(t: Seq<char>) -> Option<Seq<char>> {
    if t.len() == 0 {
        None
    } else {
        Some(t)
    }
}

/// The number that `t` reads as, where it reads as a positive `u32`.
pub open spec fn positive_number(t: Seq<char>) -> Option<u32> {
    match parse_u32_spec(t) {
        Some(n) => if n > 0 {
            Some(n)
        } else {
            None
        },
        None => None,
    }
}

/// The settings `s` with their upload defaults taken from the options `o`.
pub open spec fn applied(o: OptionsModel, s: SettingsModel) -> SettingsModel {
    SettingsModel {
        kde_notifications: s.kde_notifications,
        format: if o.format.len() == 0 || o.format == "(default)"@ {
            None
        } else {
            Some(o.format)
        },
        original_name: if o.original_name {
            Some(true)
        } else {
            None
        },
        deletes_at: none_if_empty(o.deletes_at),
        max_views: positive_number(o.max_views),
        password: none_if_empty(o.password),
        folder_id: none_if_empty(o.folder_id),
        domain: none_if_empty(o.domain),
        image_compression_percent: positive_number(o.image_compression_percent),
        image_compression_type: none_if_empty(o.image_compression_type),
        allowed_extensions: s.allowed_extensions,
    }
}

/// The headers that the options `o` add to one upload, in the order they are sent.
pub open spec fn option_headers(o: OptionsModel) -> Seq<HeaderText> {
    (if o.format.len() > 0 && o.format != "(default)"@ {
        seq![("x-zipline-format"@, o.format)]
    } else {
        seq![]
    }) + (if o.original_name {
        seq![("x-zipline-original-name"@, "true"@)]
    } else {
        seq![]
    }) + text_header("x-zipline-deletes-at"@, Some(o.deletes_at)) + count_header(
        "x-zipline-max-views"@,
        positive_number(o.max_views),
    ) + text_header("x-zipline-password"@, Some(o.password)) + text_header(
        "x-zipline-folder"@,
        Some(o.folder_id),
    ) + text_header("x-zipline-domain"@, Some(o.domain)) + option_compression_headers(o)
}

/// The expiry suffix of the custom unit `u`.
pub open spec fn unit_suffix(u: usize) -> Seq<char> {
    if u == 0 {
        "m"@
    } else if u == 1 {
        "h"@
    } else if u == 2 {
        "d"@
    } else if u == 3 {
        "w"@
    } else {
        "y"@
    }
}

/// The expiry that the chosen preset of `o` stands for.
pub open spec fn preset_expiry(o: OptionsModel) -> Seq<char> {
    if o.deletes_at_preset == 0 {
        seq![]
    } else if o.deletes_at_preset == 1 {
        "1h"@
    } else if o.deletes_at_preset == 2 {
        "3h"@
    } else if o.deletes_at_preset == 3 {
        "1d"@
    } else if o.deletes_at_preset == 4 {
        "1w"@
    } else if o.deletes_at_preset == 5 {
        if trimmed(o.custom_amount).len() > 0 {
            trimmed(o.custom_amount) + unit_suffix(o.custom_unit)
        } else {
            seq![]
        }
    } else {
        o.deletes_at
    }
}

/// A custom expiry is the trimmed amount followed by the unit's letter: m for minutes, h for
/// hours, d for days, w for weeks and y for years; a blank amount means no expiry. The fixed
/// presets stand for never, 1h, 3h, 1d and 1w.
pub proof fn lemma_expiry_choices(o: OptionsModel)
    ensures
        o.deletes_at_preset == 0 ==> preset_expiry(o).len() == 0,
        o.deletes_at_preset == 1 ==> preset_expiry(o) == seq!['1', 'h'],
        o.deletes_at_preset == 2 ==> preset_expiry(o) == seq!['3', 'h'],
        o.deletes_at_preset == 3 ==> preset_expiry(o) == seq!['1', 'd'],
        o.deletes_at_preset == 4 ==> preset_expiry(o) == seq!['1', 'w'],
        o.deletes_at_preset == 5 && trimmed(o.custom_amount).len() == 0 ==> preset_expiry(o).len()
            == 0,
        o.deletes_at_preset == 5 && trimmed(o.custom_amount).len() > 0 ==> preset_expiry(o)
            == trimmed(o.custom_amount) + seq![
            if o.custom_unit == 0 {
                'm'
            } else if o.custom_unit == 1 {
                'h'
            } else if o.custom_unit == 2 {
                'd'
            } else if o.custom_unit == 3 {
                'w'
            } else {
                'y'
            },
        ],
        o.deletes_at_preset > 5 ==> preset_expiry(o) == o.deletes_at,
{
    reveal_strlit("1h");
    reveal_strlit("3h");
    reveal_strlit("1d");
    reveal_strlit("1w");
    reveal_strlit("m");
    reveal_strlit("h");
    reveal_strlit("d");
    reveal_strlit("w");
    reveal_strlit("y");
    assert("1h"@ =~= seq!['1', 'h']);
    assert("3h"@ =~= seq!['3', 'h']);
    assert("1d"@ =~= seq!['1', 'd']);
    assert("1w"@ =~= seq!['1', 'w']);
    assert("m"@ =~= seq!['m']);
    assert("h"@ =~= seq!['h']);
    assert("d"@ =~= seq!['d']);
    assert("w"@ =~= seq!['w']);
    assert("y"@ =~= seq!['y']);
}

/// Settings whose upload defaults are stored the way the window stores them: no empty
/// text, no `(default)` format, no `false` for the original name and no zero count.
pub open spec fn normalized(s: SettingsModel) -> bool {
    &&& s.format is Some ==> s.format->0.len() > 0 && s.format->0 != "(default)"@
    &&& s.original_name is Some ==> s.original_name->0
    &&& s.deletes_at is Some ==> s.deletes_at->0.len() > 0
    &&& s.max_views is Some ==> s.max_views->0 > 0
    &&& s.password is Some ==> s.password->0.len() > 0
    &&& s.folder_id is Some ==> s.folder_id->0.len() > 0
    &&& s.domain is Some ==> s.domain->0.len() > 0
    &&& s.image_compression_percent is Some ==> s.image_compression_percent->0 > 0
    &&& s.image_compression_type is Some ==> s.image_compression_type->0.len() > 0
}

/// Saving the options that the window shows for normalized settings gives those settings
/// back: the upload defaults of `s` survive the trip through the window unchanged, and the
/// notification style and allowlist of the settings saved into stay.
pub proof fn lemma_options_round_trip(s: SettingsModel, t: SettingsModel)
    requires
        normalized(s),
    ensures
        applied(options_of(s), t) == (SettingsModel {
            kde_notifications: t.kde_notifications,
            allowed_extensions: t.allowed_extensions,
            ..s
        }),
{
    if let Some(n) = s.max_views {
        lemma_parse_decimal(n);
    }
    if let Some(n) = s.image_compression_percent {
        lemma_parse_decimal(n);
    }
    assert(parse_u32_spec(Seq::<char>::empty()) is None);
}

/// Whatever the options, the upload defaults they are saved as are normalized.
pub proof fn lemma_applied_normalized(o: OptionsModel, s: SettingsModel)
    ensures
        normalized(applied(o, s)),
{
}

/// Saving the options shown for saved settings changes nothing: the window's save is
/// idempotent.
pub proof fn lemma_save_idempotent(o: OptionsModel, s: SettingsModel)
    ensures
        applied(options_of(applied(o, s)), applied(o, s)) == applied(o, s),
{
    lemma_applied_normalized(o, s);
    lemma_options_round_trip(applied(o, s), applied(o, s));
}

/// A single upload with some options sends exactly the headers that the settings send once
/// those options are saved into them.
pub proof fn lemma_option_headers_are_saved_headers(o: OptionsModel, s: SettingsModel)
    ensures
        option_headers(o) == settings_headers(applied(o, s)),
{
    let a = applied(o, s);
    assert(text_header("x-zipline-deletes-at"@, Some(o.deletes_at)) == text_header(
        "x-zipline-deletes-at"@,
        a.deletes_at,
    ));
    assert(text_header("x-zipline-password"@, Some(o.password)) == text_header(
        "x-zipline-password"@,
        a.password,
    ));
    assert(text_header("x-zipline-folder"@, Some(o.folder_id)) == text_header(
        "x-zipline-folder"@,
        a.folder_id,
    ));
    assert(text_header("x-zipline-domain"@, Some(o.domain)) == text_header(
        "x-zipline-domain"@,
        a.domain,
    ));
    assert(text_header("x-zipline-image-compression-type"@, Some(o.image_compression_type))
        == text_header("x-zipline-image-compression-type"@, a.image_compression_type));
    assert(option_compression_headers(o) =~= crate::settings::compression_headers(a));
    assert((if o.format.len() > 0 && o.format != "(default)"@ {
        seq![("x-zipline-format"@, o.format)]
    } else {
        seq![]
    }) == text_header("x-zipline-format"@, a.format));
}

/// For normalized settings, a single upload with the options shown for them sends exactly
/// the headers that the settings send.
pub proof fn lemma_option_headers_match_settings(s: SettingsModel)
    requires
        normalized(s),
    ensures
        option_headers(options_of(s)) == settings_headers(s),
{
    if let Some(n) = s.max_views {
        lemma_parse_decimal(n);
    }
    if let Some(n) = s.image_compression_percent {
        lemma_parse_decimal(n);
    }
    assert(parse_u32_spec(Seq::<char>::empty()) is None);
    let o = options_of(s);
    assert(text_header("x-zipline-deletes-at"@, Some(o.deletes_at)) == text_header(
        "x-zipline-deletes-at"@,
        s.deletes_at,
    ));
    assert(text_header("x-zipline-image-compression-type"@, Some(o.image_compression_type))
        == text_header("x-zipline-image-compression-type"@, s.image_compression_type));
    assert(option_compression_headers(o) =~= crate::settings::compression_headers(s));
}

fn text_of(o: &Option<String>) -> (r: String)
    ensures
        r@ == text_or_empty(opt_view(*o)),
{
    match o {
        Some(t) => t.clone(),
        None => String::new(),
    }
}

fn number_of(o: Option<u32>) -> (r: String)
    ensures
        r@ == number_text(o),
{
    match o {
        Some(n) => decimal_string(n),
        None => String::new(),
    }
}

fn text_or_none(t: &String) -> (r: Option<String>)
    ensures
        opt_view(r) == none_if_empty(t@),
{
    if t.unicode_len() == 0 {
        None
    } else {
        Some(t.clone())
    }
}

fn positive_of(t: &String) -> (r: Option<u32>)
    ensures
        r == positive_number(t@),
{
    match parse_u32(t.as_str()) {
        Some(n) => if n > 0 {
            Some(n)
        } else {
            None
        },
        None => None,
    }
}

fn push_nonempty(h: &mut Vec<(String, String)>, name: &str, value: &String)
    ensures
        headers_view(final(h)@) == headers_view(old(h)@) + text_header(name@, Some(value@)),
{
    if value.unicode_len() > 0 {
        push_header(h, name, value.clone());
    }
    assert(headers_view(h@) =~= headers_view(old(h)@) + text_header(name@, Some(value@)));
}

/// The compression headers of the options `o`.
pub open spec fn option_compression_headers(o: OptionsModel) -> Seq<HeaderText> {
    match positive_number(o.image_compression_percent) {
        Some(p) => seq![("x-zipline-image-compression-percent"@, decimal(p as nat))]
            + text_header("x-zipline-image-compression-type"@, Some(o.image_compression_type)),
        None => seq![],
    }
}

fn push_compression(h: &mut Vec<(String, String)>, o: &UploadOptions)
    ensures
        headers_view(final(h)@) == headers_view(old(h)@) + option_compression_headers(o@),
{
    match positive_of(&o.image_compression_percent) {
        Some(pct) => {
            push_header(h, "x-zipline-image-compression-percent", decimal_string(pct));
            push_nonempty(h, "x-zipline-image-compression-type", &o.image_compression_type);
        },
        None => {},
    }
    assert(headers_view(h@) =~= headers_view(old(h)@) + option_compression_headers(o@));
}

impl UploadOptions {
    /// The options that show the settings `s`: every setting as text (empty where unset),
    /// the expiry preset that matches the saved expiry, and an empty custom amount in hours.
    pub fn from_settings(s: &Settings) -> (r: Self)
        ensures
            r@ == options_of(s@),
    {
        let (deletes_at, preset): (String, usize) = match &s.deletes_at {
            None => (String::new(), 0),
            Some(v) => {
                if v.unicode_len() == 0 {
                    (String::new(), 0)
                } else if same_text(v.as_str(), "1h") {
                    (String::from_str("1h"), 1)
                } else if same_text(v.as_str(), "3h") {
                    (String::from_str("3h"), 2)
                } else if same_text(v.as_str(), "1d") {
                    (String::from_str("1d"), 3)
                } else if same_text(v.as_str(), "1w") {
                    (String::from_str("1w"), 4)
                } else {
                    (v.clone(), 5)
                }
            },
        };
        let r = UploadOptions {
            format: text_of(&s.format),
            original_name: s.original_name == Some(true),
            deletes_at,
            deletes_at_preset: preset,
            custom_amount: String::new(),
            custom_unit: 1,
            max_views: number_of(s.max_views),
            password: text_of(&s.password),
            folder_id: text_of(&s.folder_id),
            domain: text_of(&s.domain),
            image_compression_percent: number_of(s.image_compression_percent),
            image_compression_type: text_of(&s.image_compression_type),
        };
        assert(r@.custom_amount =~= options_of(s@).custom_amount);
        r
    }

    /// Stores the options as upload defaults in `s`: empty text and the `(default)` format
    /// become unset, an unchecked original name becomes unset, and counts that do not read
    /// as a positive number become unset. The notification style and the allowlist stay.
    pub fn apply_to_settings(&self, s: &mut Settings)
        ensures
            final(s)@ == applied(self@, old(s)@),
    {
        s.format = if self.format.unicode_len() == 0 || same_text(
            self.format.as_str(),
            "(default)",
        ) {
            None
        } else {
            Some(self.format.clone())
        };
        s.original_name = if self.original_name {
            Some(true)
        } else {
            None
        };
        s.deletes_at = text_or_none(&self.deletes_at);
        s.max_views = positive_of(&self.max_views);
        s.password = text_or_none(&self.password);
        s.folder_id = text_or_none(&self.folder_id);
        s.domain = text_or_none(&self.domain);
        s.image_compression_percent = positive_of(&self.image_compression_percent);
        s.image_compression_type = text_or_none(&self.image_compression_type);
    }

    /// The headers for one upload with these options. Only what is set is sent: empty text,
    /// the `(default)` format and counts that are not positive send nothing, and the
    /// compression format goes with a positive percentage only when it is not empty (empty
    /// means the server's default).
    pub fn to_extra_headers(&self) -> (r: Vec<(String, String)>)
        ensures
            headers_view(r@) == option_headers(self@),
    {
        let mut h: Vec<(String, String)> = Vec::new();
        assert(headers_view(h@) =~= Seq::<HeaderText>::empty());
        if self.format.unicode_len() > 0 && !same_text(self.format.as_str(), "(default)") {
            push_header(&mut h, "x-zipline-format", self.format.clone());
        }
        if self.original_name {
            push_header(&mut h, "x-zipline-original-name", String::from_str("true"));
        }
        push_nonempty(&mut h, "x-zipline-deletes-at", &self.deletes_at);
        push_count_header(&mut h, "x-zipline-max-views", positive_of(&self.max_views));
        push_nonempty(&mut h, "x-zipline-password", &self.password);
        push_nonempty(&mut h, "x-zipline-folder", &self.folder_id);
        push_nonempty(&mut h, "x-zipline-domain", &self.domain);
        push_compression(&mut h, self);
        assert(headers_view(h@) =~= option_headers(self@));
        h
    }

    /// Sets the expiry from the chosen preset: empty for "never", the preset's text for
    /// the fixed presets, and for a custom expiry the trimmed amount followed by the unit's
    /// letter (empty when the amount is blank). Nothing else changes.
    pub fn sync_expiry(&mut self)
        requires
            old(self).deletes_at_preset == 5 ==> old(self).custom_unit < 5,
        ensures
            final(self)@ == (OptionsModel { deletes_at: preset_expiry(old(self)@), ..old(self)@ }),
    {
        let p = self.deletes_at_preset;
        if p == 0 {
            self.deletes_at = String::new();
        } else if p == 1 {
            self.deletes_at = String::from_str("1h");
        } else if p == 2 {
            self.deletes_at = String::from_str("3h");
        } else if p == 3 {
            self.deletes_at = String::from_str("1d");
        } else if p == 4 {
            self.deletes_at = String::from_str("1w");
        } else if p == 5 {
            let amt = trim(self.custom_amount.as_str());
            if amt.unicode_len() > 0 {
                let u = self.custom_unit;
                let suffix = if u == 0 {
                    "m"
                } else if u == 1 {
                    "h"
                } else if u == 2 {
                    "d"
                } else if u == 3 {
                    "w"
                } else {
                    "y"
                };
                self.deletes_at = concat2(amt.as_str(), suffix);
            } else {
                self.deletes_at = String::new();
            }
        }
        assert(self@.deletes_at =~= preset_expiry(old(self)@));
    }
}

} // verus!

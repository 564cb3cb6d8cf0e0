use vstd::prelude::*;
use crate::headers::headers_view;
use crate::options::{applied, option_headers, options_of, UploadOptions};
use crate::paths::{extension_of, path_extension};
use crate::settings::{allows, extension_list, parse_extension_list, Settings};
use crate::text::{concat2, concat3, join, joined, opt_view};
use vstd::string::StringSliceAdditionalSpecFns;

verus! {

/// What the upload tab shows.
#[derive(Debug)]
pub enum Status {
    Idle,
    Uploading,
    Done { url: String, copied: bool },
    Error(String),
    Blocked(String),
}

/// What the shorten tab shows.
#[derive(Debug)]
pub enum ShortenStatus {
    Idle,
    Working,
    Done(String),
    Error(String),
}

/// The tab on display.
#[derive(Debug, PartialEq, Eq, Structural)]
pub enum Tab {
    Upload,
    Shorten,
    Settings,
}

/// How a background upload ended.
#[derive(Debug)]
pub enum UploadResult {
    Uploaded { url: String, copied: bool },
    Failed(String),
}

/// The state of the uploader's window, apart from the widgets and the channels to the
/// background work.
#[derive(Debug)]
pub struct AppState {
    pub status: Status,
    pub queued: Option<String>,
    pub kde: bool,
    pub tab: Tab,
    /// The settings as last saved.
    pub saved_settings: Settings,
    /// The upload defaults as edited on the settings tab.
    pub settings_opts: UploadOptions,
    /// The allowlist as edited on the settings tab.
    pub settings_ext_text: String,
    /// The options for the next upload.
    pub per_upload: UploadOptions,
    pub show_per_upload: bool,
    pub shorten_url: String,
    pub shorten_vanity: String,
    pub shorten_status: ShortenStatus,
}

/// `b` is `a` with at most its upload status changed.
pub open spec fn same_but_status(a: AppState, b: AppState) -> bool {
    &&& b.queued == a.queued
    &&& b.kde == a.kde
    &&& b.tab == a.tab
    &&& b.saved_settings == a.saved_settings
    &&& b.settings_opts == a.settings_opts
    &&& b.settings_ext_text == a.settings_ext_text
    &&& b.per_upload == a.per_upload
    &&& b.show_per_upload == a.show_per_upload
    &&& b.shorten_url == a.shorten_url
    &&& b.shorten_vanity == a.shorten_vanity
    &&& b.shorten_status == a.shorten_status
}

/// A shortening may start: the form is shown (idle or after an error) and the URL is not
/// empty.
pub open spec fn shorten_allowed(a: AppState) -> bool {
    (a.shorten_status is Idle || a.shorten_status is Error) && a.shorten_url@.len() > 0
}

/// An upload may start: the upload tab is idle, so no other upload is in flight.
pub open spec fn upload_allowed(a: AppState) -> bool {
    a.status is Idle
}

/// `b` is `a` with at most the saved notification style changed.
pub open spec fn same_but_style(a: AppState, b: AppState) -> bool {
    &&& b.status == a.status
    &&& b.queued == a.queued
    &&& b.kde == a.kde
    &&& b.tab == a.tab
    &&& b.saved_settings@ == (crate::settings::SettingsModel {
        kde_notifications: b.saved_settings@.kde_notifications,
        ..a.saved_settings@
    })
    &&& b.settings_opts == a.settings_opts
    &&& b.settings_ext_text == a.settings_ext_text
    &&& b.per_upload == a.per_upload
    &&& b.show_per_upload == a.show_per_upload
    &&& b.shorten_url == a.shorten_url
    &&& b.shorten_vanity == a.shorten_vanity
    &&& b.shorten_status == a.shorten_status
}

/// While an upload is in flight no other one may start, and a waiting file is not handed
/// out: at most one upload runs at a time.
pub proof fn lemma_one_upload_at_a_time(a: AppState)
    requires
        a.status is Uploading,
    ensures
        !upload_allowed(a),
{
}

/// A running shortening cannot be started again.
pub proof fn lemma_one_shortening_at_a_time(a: AppState)
    requires
        a.shorten_status is Working,
    ensures
        !shorten_allowed(a),
{
}

/// What one step of the window's upload handling does, seen from the status: an upload
/// starts only from `Idle` in a step that delivered no result, and the window is uploading
/// afterwards exactly when an upload started or one was running and did not end.
pub open spec fn upload_step_effect(before: AppState, after: AppState, finished: bool, started: bool) -> bool {
    &&& started ==> before.status is Idle && !finished
    &&& (after.status is Uploading) == (started || (!finished && before.status is Uploading))
}

/// At most one upload is in flight: if a background upload runs exactly while the status is
/// `Uploading` before a step, it does so after the step too, where a finished step ends the
/// running upload and a started step begins the only one.
pub proof fn lemma_step_keeps_one_upload(
    before: AppState,
    after: AppState,
    finished: bool,
    started: bool,
    running: bool,
)
    requires
        running == before.status is Uploading,
        finished ==> running,
        upload_step_effect(before, after, finished, started),
    ensures
        started ==> !running,
        (after.status is Uploading) == ((running && !finished) || started),
{
}

/// `b` is `a` with at most the waiting file changed.
pub open spec fn same_but_queued(a: AppState, b: AppState) -> bool {
    &&& b.status == a.status
    &&& b.kde == a.kde
    &&& b.tab == a.tab
    &&& b.saved_settings == a.saved_settings
    &&& b.settings_opts == a.settings_opts
    &&& b.settings_ext_text == a.settings_ext_text
    &&& b.per_upload == a.per_upload
    &&& b.show_per_upload == a.show_per_upload
    &&& b.shorten_url == a.shorten_url
    &&& b.shorten_vanity == a.shorten_vanity
    &&& b.shorten_status == a.shorten_status
}

/// `b` is `a` with at most the shorten tab's status, URL and vanity name changed.
pub open spec fn same_but_shorten(a: AppState, b: AppState) -> bool {
    &&& b.status == a.status
    &&& b.queued == a.queued
    &&& b.kde == a.kde
    &&& b.tab == a.tab
    &&& b.saved_settings == a.saved_settings
    &&& b.settings_opts == a.settings_opts
    &&& b.settings_ext_text == a.settings_ext_text
    &&& b.per_upload == a.per_upload
    &&& b.show_per_upload == a.show_per_upload
}

/// The message shown when `file` is refused by the allowlist.
pub open spec fn blocked_text(file: Seq<char>) -> Seq<char> {
    "."@ + match extension_of(file) {
        Some(e) => e,
        None => "unknown"@,
    } + " is not in your allowed extensions list"@
}

/// The allowlist as the settings tab shows it: the entries joined with `, `.
pub open spec fn extensions_text(list: Option<Seq<Seq<char>>>) -> Seq<char> {
    match list {
        Some(v) => joined(v, ", "@),
        None => seq![],
    }
}

/// The message shown when `file` is refused by the allowlist: its extension (or `unknown`)
/// after a dot, and the reason.
pub fn blocked_message(file: &str) -> (r: String)
    ensures
        r@ == blocked_text(file@),
{
    match path_extension(file) {
        Some(e) => concat3(".", e.as_str(), " is not in your allowed extensions list"),
        None => concat3(".", "unknown", " is not in your allowed extensions list"),
    }
}

/// The URL as the window shows it: its first 50 bytes followed by `…` when it is longer.
pub open spec fn display_url_text(url: &str) -> Seq<char> {
    if url.spec_bytes().len() > 50 {
        vstd::utf8::decode_utf8(url.spec_bytes().subrange(0, 50)) + "…"@
    } else {
        url@
    }
}

/// The URL as the window shows it: cut after 50 bytes, with `…` after the cut. The cut must
/// fall between characters.
pub fn display_url(url: &str) -> (r: String)
    requires
        url.spec_bytes().len() <= usize::MAX,
        url.spec_bytes().len() <= 50 || vstd::utf8::is_char_boundary(url.spec_bytes(), 50),
    ensures
        r@ == display_url_text(url),
{
    if url.len() > 50 {
        let (head, _) = url.split_at(50);
        proof {
            vstd::utf8::encode_utf8_decode_utf8(head@);
        }
        concat2(head, "…")
    } else {
        String::from_str(url)
    }
}

fn extensions_of(s: &Settings) -> (r: String)
    ensures
        r@ == extensions_text(s@.allowed_extensions),
{
    match &s.allowed_extensions {
        Some(v) => join(v, ", "),
        None => String::new(),
    }
}

impl AppState {
    /// The window's state on opening with the saved settings `s`: the upload tab, idle,
    /// both option sets showing the saved settings, and the allowlist joined with `, `.
    pub fn new(s: Settings, kde: bool) -> (r: Self)
        ensures
            r.status is Idle,
            r.queued is None,
            r.kde == kde,
            r.tab == Tab::Upload,
            r.saved_settings@ == s@,
            r.settings_opts@ == options_of(s@),
            r.per_upload@ == options_of(s@),
            r.settings_ext_text@ == extensions_text(s@.allowed_extensions),
            !r.show_per_upload,
            r.shorten_url@.len() == 0,
            r.shorten_vanity@.len() == 0,
            r.shorten_status is Idle,
    {
        let ext_text = extensions_of(&s);
        let opts = UploadOptions::from_settings(&s);
        let per_upload = opts.clone();
        AppState {
            status: Status::Idle,
            queued: None,
            kde,
            tab: Tab::Upload,
            saved_settings: s,
            settings_opts: opts,
            settings_ext_text: ext_text,
            per_upload,
            show_per_upload: false,
            shorten_url: String::new(),
            shorten_vanity: String::new(),
            shorten_status: ShortenStatus::Idle,
        }
    }

    /// Starts uploading `file`. When the saved allowlist refuses it, the status becomes
    /// `Blocked` with the reason and `None` is returned; otherwise the status becomes
    /// `Uploading` and the headers of the per-upload options are returned for the upload.
    pub fn start_upload(&mut self, file: &str) -> (r: Option<Vec<(String, String)>>)
        requires
            upload_allowed(*old(self)),
        ensures
            match r {
                Some(h) => {
                    &&& allows(old(self).saved_settings@.allowed_extensions, file@)
                    &&& final(self).status is Uploading
                    &&& headers_view(h@) == option_headers(old(self).per_upload@)
                },
                None => {
                    &&& !allows(old(self).saved_settings@.allowed_extensions, file@)
                    &&& final(self).status matches Status::Blocked(m) && m@ == blocked_text(file@)
                },
            },
            same_but_status(*old(self), *final(self)),
    {
        if !self.saved_settings.extension_allowed(file) {
            self.status = Status::Blocked(blocked_message(file));
            return None;
        }
        self.status = Status::Uploading;
        Some(self.per_upload.to_extra_headers())
    }

    /// Whether an upload may start now: the upload tab is idle.
    pub fn can_upload(&self) -> (r: bool)
        ensures
            r == upload_allowed(*self),
    {
        match self.status {
            Status::Idle => true,
            _ => false,
        }
    }

    /// A file dropped on the window or picked in the file dialog: it waits in place of any
    /// earlier one until the upload tab is idle.
    pub fn drop_file(&mut self, path: String)
        ensures
            final(self).queued == Some(path),
            same_but_queued(*old(self), *final(self)),
    {
        self.queued = Some(path);
    }

    /// The settings tab shows a notification style: where none is saved, the one in force
    /// is filled in. Nothing else changes.
    pub fn fill_notification_style(&mut self)
        ensures
            final(self).saved_settings.kde_notifications == Some(
                match old(self).saved_settings.kde_notifications {
                    Some(k) => k,
                    None => old(self).kde,
                },
            ),
            same_but_style(*old(self), *final(self)),
    {
        if self.saved_settings.kde_notifications.is_none() {
            self.saved_settings.kde_notifications = Some(self.kde);
        }
    }

    /// The file waiting to be uploaded, taken when the upload tab is idle.
    pub fn take_queued(&mut self) -> (r: Option<String>)
        ensures
            upload_allowed(*old(self)) ==> r == old(self).queued && final(self).queued is None,
            !upload_allowed(*old(self)) ==> r is None && final(self).queued == old(self).queued,
            same_but_queued(*old(self), *final(self)),
    {
        match self.status {
            Status::Idle => self.queued.take(),
            _ => None,
        }
    }

    /// One step of the window's upload handling: records how the background upload ended
    /// (`finished`), lets a dropped file wait (`dropped`), then, when the upload tab is idle,
    /// takes the waiting file and starts its upload. Returns the file and the headers to
    /// upload it with when an upload starts.
    pub fn upload_step(&mut self, finished: Option<UploadResult>, dropped: Option<String>) -> (r:
        Option<(String, Vec<(String, String)>)>)
        ensures
            upload_step_effect(*old(self), *final(self), finished is Some, r is Some),
            match r {
                Some((file, h)) => {
                    &&& old(self).queued is Some || dropped is Some
                    &&& file == (match dropped {
                        Some(d) => d,
                        None => old(self).queued->0,
                    })
                    &&& allows(old(self).saved_settings@.allowed_extensions, file@)
                    &&& headers_view(h@) == option_headers(old(self).per_upload@)
                    &&& final(self).queued is None
                },
                None => true,
            },
            final(self).saved_settings == old(self).saved_settings,
            final(self).per_upload == old(self).per_upload,
    {
        match finished {
            Some(res) => self.finish_upload(res),
            None => {},
        }
        match dropped {
            Some(p) => self.drop_file(p),
            None => {},
        }
        if !self.can_upload() {
            return None;
        }
        match self.take_queued() {
            Some(file) => match self.start_upload(file.as_str()) {
                Some(h) => Some((file, h)),
                None => None,
            },
            None => None,
        }
    }

    /// Records how the background upload ended.
    pub fn finish_upload(&mut self, result: UploadResult)
        ensures
            match result {
                UploadResult::Uploaded { url, copied } => final(self).status == (Status::Done {
                    url,
                    copied,
                }),
                UploadResult::Failed(msg) => final(self).status == Status::Error(msg),
            },
            same_but_status(*old(self), *final(self)),
    {
        self.status = match result {
            UploadResult::Uploaded { url, copied } => Status::Done { url, copied },
            UploadResult::Failed(msg) => Status::Error(msg),
        };
    }

    /// Back to the idle upload tab after a refusal or a failure.
    pub fn back_to_idle(&mut self)
        ensures
            final(self).status is Idle,
            same_but_status(*old(self), *final(self)),
    {
        self.status = Status::Idle;
    }

    /// Ready for another upload: idle, with the per-upload options reset to the saved
    /// settings and their panel closed.
    pub fn upload_another(&mut self)
        ensures
            final(self).status is Idle,
            final(self).per_upload@ == options_of(old(self).saved_settings@),
            !final(self).show_per_upload,
            final(self).saved_settings == old(self).saved_settings,
            final(self).queued == old(self).queued,
            final(self).kde == old(self).kde,
            final(self).tab == old(self).tab,
            final(self).settings_opts == old(self).settings_opts,
            final(self).settings_ext_text == old(self).settings_ext_text,
            final(self).shorten_url == old(self).shorten_url,
            final(self).shorten_vanity == old(self).shorten_vanity,
            final(self).shorten_status == old(self).shorten_status,
    {
        self.status = Status::Idle;
        self.per_upload = UploadOptions::from_settings(&self.saved_settings);
        self.show_per_upload = false;
    }

    /// Saves the settings tab: the edited upload defaults and the allowlist text (split at
    /// commas and spaces, trimmed, in lowercase, empty entries dropped; no entry at all
    /// means no allowlist) go into the saved settings, and the per-upload options are reset
    /// to them. Writing them to disk is left to the caller.
    pub fn save_settings(&mut self)
        ensures
            final(self).saved_settings@ == ({
                let a = applied(old(self).settings_opts@, old(self).saved_settings@);
                let exts = extension_list(old(self).settings_ext_text@);
                crate::settings::SettingsModel {
                    allowed_extensions: if exts.len() == 0 {
                        None
                    } else {
                        Some(exts)
                    },
                    ..a
                }
            }),
            final(self).per_upload@ == options_of(final(self).saved_settings@),
            final(self).settings_opts@ == old(self).settings_opts@,
            final(self).settings_ext_text@ == old(self).settings_ext_text@,
            final(self).status == old(self).status,
            final(self).queued == old(self).queued,
            final(self).kde == old(self).kde,
            final(self).tab == old(self).tab,
            final(self).show_per_upload == old(self).show_per_upload,
            final(self).shorten_url == old(self).shorten_url,
            final(self).shorten_vanity == old(self).shorten_vanity,
            final(self).shorten_status == old(self).shorten_status,
    {
        self.settings_opts.apply_to_settings(&mut self.saved_settings);
        let exts = parse_extension_list(self.settings_ext_text.as_str());
        self.saved_settings.allowed_extensions = if exts.len() == 0 {
            None
        } else {
            Some(exts)
        };
        self.per_upload = UploadOptions::from_settings(&self.saved_settings);
    }

    /// Whether a shortening may start: the shorten tab shows its form (idle or after an
    /// error) and a URL has been entered.
    pub fn can_shorten(&self) -> (r: bool)
        ensures
            r == shorten_allowed(*self),
    {
        (match self.shorten_status {
            ShortenStatus::Idle => true,
            ShortenStatus::Error(_) => true,
            _ => false,
        }) && self.shorten_url.unicode_len() > 0
    }

    /// Starts shortening from the form with a URL entered: the status becomes `Working`, and
    /// the URL and the vanity name (`None` when it is empty) are returned for the request.
    pub fn begin_shorten(&mut self) -> (r: (String, Option<String>))
        requires
            shorten_allowed(*old(self)),
        ensures
            final(self).shorten_status is Working,
            r.0@ == old(self).shorten_url@,
            opt_view(r.1) == (if old(self).shorten_vanity@.len() == 0 {
                None
            } else {
                Some(old(self).shorten_vanity@)
            }),
            final(self).shorten_url == old(self).shorten_url,
            final(self).shorten_vanity == old(self).shorten_vanity,
            same_but_shorten(*old(self), *final(self)),
    {
        self.shorten_status = ShortenStatus::Working;
        let destination = self.shorten_url.clone();
        let vanity = if self.shorten_vanity.unicode_len() == 0 {
            None
        } else {
            Some(self.shorten_vanity.clone())
        };
        (destination, vanity)
    }

    /// Records how the background shortening ended.
    pub fn finish_shorten(&mut self, result: Result<String, String>)
        ensures
            match result {
                Ok(url) => final(self).shorten_status == ShortenStatus::Done(url),
                Err(msg) => final(self).shorten_status == ShortenStatus::Error(msg),
            },
            final(self).shorten_url == old(self).shorten_url,
            final(self).shorten_vanity == old(self).shorten_vanity,
            same_but_shorten(*old(self), *final(self)),
    {
        self.shorten_status = match result {
            Ok(url) => ShortenStatus::Done(url),
            Err(msg) => ShortenStatus::Error(msg),
        };
    }

    /// Ready for another shortening: idle, with the URL and vanity name cleared.
    pub fn shorten_another(&mut self)
        ensures
            final(self).shorten_status is Idle,
            final(self).shorten_url@.len() == 0,
            final(self).shorten_vanity@.len() == 0,
            same_but_shorten(*old(self), *final(self)),
    {
        self.shorten_status = ShortenStatus::Idle;
        self.shorten_url = String::new();
        self.shorten_vanity = String::new();
    }
}

} // verus!

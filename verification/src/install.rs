use vstd::prelude::*;
use crate::text::replace_all;
use crate::text::replaced;

verus! {

/// The desktop entry that opens files with the uploader.
pub const DESKTOP_TEMPLATE: &'static str = "[Desktop Entry]
Name=Zipline Upload
Comment=Upload a file to Zipline and copy the URL to clipboard
Exec={bin_path} %f
Icon=document-send
Terminal=false
Type=Application
MimeType=application/octet-stream;
NoDisplay=false
Categories=Utility;
";

/// The desktop entry that opens files in the window with the upload options.
pub const DESKTOP_ADVANCED_TEMPLATE: &'static str = "[Desktop Entry]
Name=Zipline Upload (Advanced)
Comment=Upload a file to Zipline with custom options
Exec={bin_path} --advanced %f
Icon=document-send
Terminal=false
Type=Application
MimeType=application/octet-stream;
NoDisplay=false
Categories=Utility;
";

/// What registering the desktop entries has to do.
#[derive(Debug, PartialEq, Eq, Structural)]
pub enum InstallPlan {
    /// Both entries and the marker are there.
    UpToDate,
    /// First run: write both entries and the marker.
    FullInstall,
    /// Upgrade from a version without the advanced entry: write that entry only.
    AddAdvanced,
}

/// The desktop entry text with the executable's path `bin` in place of `{bin_path}`.
pub open spec fn desktop_entry_text(bin: Seq<char>, advanced: bool) -> Seq<char> {
    if advanced {
        replaced(DESKTOP_ADVANCED_TEMPLATE@, "{bin_path}"@, bin)
    } else {
        replaced(DESKTOP_TEMPLATE@, "{bin_path}"@, bin)
    }
}

/// The work to do given whether the install marker and the advanced entry exist.
pub fn install_plan(marker_exists: bool, advanced_entry_exists: bool) -> (r: InstallPlan)
    ensures
        !marker_exists ==> r == InstallPlan::FullInstall,
        marker_exists && !advanced_entry_exists ==> r == InstallPlan::AddAdvanced,
        marker_exists && advanced_entry_exists ==> r == InstallPlan::UpToDate,
{
    if !marker_exists {
        InstallPlan::FullInstall
    } else if !advanced_entry_exists {
        InstallPlan::AddAdvanced
    } else {
        InstallPlan::UpToDate
    }
}

/// The desktop entry for the executable at `bin`: the plain entry, or the one that opens the
/// upload options.
pub fn desktop_entry(bin: &str, advanced: bool) -> (r: String)
    ensures
        r@ == desktop_entry_text(bin@, advanced),
{
    proof {
        reveal_strlit("{bin_path}");
    }
    if advanced {
        replace_all(DESKTOP_ADVANCED_TEMPLATE, "{bin_path}", bin)
    } else {
        replace_all(DESKTOP_TEMPLATE, "{bin_path}", bin)
    }
}

} // verus!

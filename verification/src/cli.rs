use vstd::prelude::*;
use crate::settings::texts_view;
use crate::text::{contains, has_prefix, has_substring, lowercase, same_text, starts_with};

verus! {

/// The notification style chosen on the command line, if any.
#[derive(Debug)]
pub struct AppFlags {
    pub kde: Option<bool>,
}

/// What the command line asks for, once every argument has been read.
#[derive(Debug)]
pub struct CliArgs {
    pub file: Option<String>,
    pub kde_override: Option<bool>,
    pub advanced: bool,
    pub uninstall: bool,
}

/// The outcome of reading the command line.
#[derive(Debug)]
pub enum CliCommand {
    /// `--help` or `-h`: print the usage and stop.
    Help,
    /// An argument that starts with `--` and is no known flag.
    UnknownFlag(String),
    /// Go on with these arguments.
    Run(CliArgs),
}

/// The command line as values.
pub enum CliModel {
    Help,
    UnknownFlag(Seq<char>),
    Run { file: Option<Seq<char>>, kde_override: Option<bool>, advanced: bool, uninstall: bool },
}

/// The effect of the argument `arg` on what the preceding arguments asked for. Help and
/// unknown flags stop the reading: later arguments change nothing.
pub open spec fn cli_step(m: CliModel, arg: Seq<char>) -> CliModel {
    match m {
        CliModel::Run { file, kde_override, advanced, uninstall } => {
            if arg == "--kde"@ {
                CliModel::Run { file, kde_override: Some(true), advanced, uninstall }
            } else if arg == "--no-kde"@ {
                CliModel::Run { file, kde_override: Some(false), advanced, uninstall }
            } else if arg == "--advanced"@ {
                CliModel::Run { file, kde_override, advanced: true, uninstall }
            } else if arg == "--uninstall"@ {
                CliModel::Run { file, kde_override, advanced, uninstall: true }
            } else if arg == "--help"@ || arg == "-h"@ {
                CliModel::Help
            } else if !has_prefix(arg, "--"@) {
                CliModel::Run { file: Some(arg), kde_override, advanced, uninstall }
            } else {
                CliModel::UnknownFlag(arg)
            }
        },
        other => other,
    }
}

/// What the arguments `args` (the program's name left out) ask for, read from left to right.
pub open spec fn cli_model(args: Seq<Seq<char>>) -> CliModel
    decreases args.len(),
{
    if args.len() == 0 {
        CliModel::Run { file: None, kde_override: None, advanced: false, uninstall: false }
    } else {
        cli_step(cli_model(args.drop_last()), args.last())
    }
}

pub open spec fn command_view(c: CliCommand) -> CliModel {
    match c {
        CliCommand::Help => CliModel::Help,
        CliCommand::UnknownFlag(a) => CliModel::UnknownFlag(a@),
        CliCommand::Run(a) => CliModel::Run {
            file: crate::text::opt_view(a.file),
            kde_override: a.kde_override,
            advanced: a.advanced,
            uninstall: a.uninstall,
        },
    }
}

/// Whether the session's variables name KDE: `KDE_FULL_SESSION` is set, or
/// `DESKTOP_SESSION` or `XDG_CURRENT_DESKTOP` holds `kde` in any case.
pub open spec fn is_kde_session(
    full_session_set: bool,
    desktop_session: Seq<char>,
    current_desktop: Seq<char>,
) -> bool {
    ||| full_session_set
    ||| has_substring(lowercase(desktop_session), "kde"@)
    ||| has_substring(lowercase(current_desktop), "kde"@)
}

/// A KDE session is recognised from any one of its three signs: the full-session variable
/// being set, or `kde` in any case in either desktop name; with none of them it is not one.
pub proof fn lemma_kde_signs(full_session_set: bool, desktop_session: Seq<char>, current_desktop: Seq<char>)
    ensures
        full_session_set ==> is_kde_session(full_session_set, desktop_session, current_desktop),
        has_substring(lowercase(desktop_session), "kde"@) ==> is_kde_session(
            full_session_set,
            desktop_session,
            current_desktop,
        ),
        has_substring(lowercase(current_desktop), "kde"@) ==> is_kde_session(
            full_session_set,
            desktop_session,
            current_desktop,
        ),
        !full_session_set && !has_substring(lowercase(desktop_session), "kde"@)
            && !has_substring(lowercase(current_desktop), "kde"@) ==> !is_kde_session(
            full_session_set,
            desktop_session,
            current_desktop,
        ),
{
}

impl AppFlags {
    /// Whether notifications use the KDE style: as the flag says, or as `detect` finds when
    /// no flag was given. `detect` is only called in that case.
    pub fn is_kde<F: FnOnce() -> bool>(&self, detect: F) -> (r: bool)
        requires
            self.kde is None ==> call_requires(detect, ()),
        ensures
            match self.kde {
                Some(k) => r == k,
                None => call_ensures(detect, (), r),
            },
    {
        match self.kde {
            Some(k) => k,
            None => detect(),
        }
    }
}

/// The notification style in force: the command line's choice, else the saved setting,
/// else what `detect` finds. `detect` is only called in that last case.
pub fn resolve_kde<F: FnOnce() -> bool>(
    command_line: Option<bool>,
    saved: Option<bool>,
    detect: F,
) -> (r: bool)
    requires
        command_line is None && saved is None ==> call_requires(detect, ()),
    ensures
        command_line is Some ==> r == command_line->0,
        command_line is None && saved is Some ==> r == saved->0,
        command_line is None && saved is None ==> call_ensures(detect, (), r),
{
    match command_line {
        Some(k) => k,
        None => match saved {
            Some(k) => k,
            None => detect(),
        },
    }
}

/// Whether the session's variables name KDE; an unset variable is passed as empty text.
pub fn kde_session(full_session_set: bool, desktop_session: &str, current_desktop: &str) -> (r:
    bool)
    ensures
        r == is_kde_session(full_session_set, desktop_session@, current_desktop@),
{
    if full_session_set {
        return true;
    }
    let ds = desktop_session.to_lowercase();
    if contains(ds.as_str(), "kde") {
        return true;
    }
    let cd = current_desktop.to_lowercase();
    contains(cd.as_str(), "kde")
}

/// Reads the command line `args`, the program's name left out, from left to right.
pub fn parse_args(args: &Vec<String>) -> (r: CliCommand)
    ensures
        command_view(r) == cli_model(texts_view(args@)),
{
    let ghost views = texts_view(args@);
    let mut file: Option<String> = None;
    let mut kde_override: Option<bool> = None;
    let mut advanced = false;
    let mut uninstall = false;
    let mut i: usize = 0;
    assert(views.take(0) =~= Seq::<Seq<char>>::empty());
    while i < args.len()
        invariant
            i <= args@.len(),
            views == texts_view(args@),
            cli_model(views.take(i as int)) == (CliModel::Run {
                file: crate::text::opt_view(file),
                kde_override,
                advanced,
                uninstall,
            }),
        decreases args@.len() - i,
    {
        assert(views.take(i + 1).drop_last() =~= views.take(i as int));
        assert(views.take(i + 1).last() == args@[i as int]@);
        let a = args[i].as_str();
        if same_text(a, "--kde") {
            kde_override = Some(true);
        } else if same_text(a, "--no-kde") {
            kde_override = Some(false);
        } else if same_text(a, "--advanced") {
            advanced = true;
        } else if same_text(a, "--uninstall") {
            uninstall = true;
        } else if same_text(a, "--help") || same_text(a, "-h") {
            proof {
                lemma_cli_stops(views, i as int + 1);
            }
            return CliCommand::Help;
        } else if !starts_with(a, "--") {
            file = Some(args[i].clone());
        } else {
            let flag = args[i].clone();
            proof {
                lemma_cli_stops(views, i as int + 1);
            }
            return CliCommand::UnknownFlag(flag);
        }
        i = i + 1;
    }
    assert(views.take(args@.len() as int) =~= views);
    CliCommand::Run(CliArgs { file, kde_override, advanced, uninstall })
}

/// Once help is asked for or an unknown flag is met, the arguments after it change nothing.
pub proof fn lemma_cli_stops(args: Seq<Seq<char>>, k: int)
    requires
        0 <= k <= args.len(),
        !(cli_model(args.take(k)) is Run),
    ensures
        cli_model(args) == cli_model(args.take(k)),
    decreases args.len() - k,
{
    if k < args.len() {
        assert(args.take(k + 1).drop_last() =~= args.take(k));
        lemma_cli_stops(args, k + 1);
    } else {
        assert(args.take(k) =~= args);
    }
}

} // verus!

verus! {

/// The known flags are distinct texts, each beginning with `--`, and none is a help flag.
spec fn known_flags_differ() -> bool {
    &&& "--kde"@ != "--no-kde"@
    &&& "--kde"@ != "--advanced"@
    &&& "--kde"@ != "--uninstall"@
    &&& "--no-kde"@ != "--advanced"@
    &&& "--no-kde"@ != "--uninstall"@
    &&& "--advanced"@ != "--uninstall"@
    &&& has_prefix("--kde"@, "--"@)
    &&& has_prefix("--no-kde"@, "--"@)
    &&& has_prefix("--advanced"@, "--"@)
    &&& has_prefix("--uninstall"@, "--"@)
    &&& "--kde"@ != "--help"@ && "--kde"@ != "-h"@
    &&& "--no-kde"@ != "--help"@ && "--no-kde"@ != "-h"@
    &&& "--advanced"@ != "--help"@ && "--advanced"@ != "-h"@
    &&& "--uninstall"@ != "--help"@ && "--uninstall"@ != "-h"@
}

proof fn lemma_known_flags_differ()
    ensures
        known_flags_differ(),
{
    reveal_strlit("--kde");
    reveal_strlit("--no-kde");
    reveal_strlit("--advanced");
    reveal_strlit("--uninstall");
    reveal_strlit("--help");
    reveal_strlit("-h");
    reveal_strlit("--");
    assert("--kde"@[2] != "--no-kde"@[2]);
    assert("--kde"@[2] != "--advanced"@[2]);
    assert("--kde"@[2] != "--uninstall"@[2]);
    assert("--no-kde"@[2] != "--advanced"@[2]);
    assert("--no-kde"@[2] != "--uninstall"@[2]);
    assert("--advanced"@[2] != "--uninstall"@[2]);
    assert("--kde"@[2] != "--help"@[2]);
    assert("--no-kde"@[2] != "--help"@[2]);
    assert("--advanced"@[2] != "--help"@[2]);
    assert("--uninstall"@[2] != "--help"@[2]);
    assert("--kde"@.len() != "-h"@.len());
    assert("--no-kde"@.len() != "-h"@.len());
    assert("--advanced"@.len() != "-h"@.len());
    assert("--uninstall"@.len() != "-h"@.len());
    assert("--kde"@.subrange(0, 2) =~= "--"@);
    assert("--no-kde"@.subrange(0, 2) =~= "--"@);
    assert("--advanced"@.subrange(0, 2) =~= "--"@);
    assert("--uninstall"@.subrange(0, 2) =~= "--"@);
}

/// Each flag sets only its own field. Where the command line is read to the end (no help and
/// no unknown flag), the uninstall and advanced modes are on exactly when their flags occur,
/// the notification style is chosen exactly when `--kde` or `--no-kde` occurs and follows the
/// last argument when that is one of them, and an argument that is no flag, given last,
/// becomes the file.
pub proof fn lemma_flags_set_their_own_fields(args: Seq<Seq<char>>)
    ensures
        cli_model(args) matches CliModel::Run { file, kde_override, advanced, uninstall } ==> {
            &&& uninstall == args.contains("--uninstall"@)
            &&& advanced == args.contains("--advanced"@)
            &&& (kde_override is None) == (!args.contains("--kde"@) && !args.contains(
                "--no-kde"@,
            ))
            &&& (args.len() > 0 && args.last() == "--kde"@ ==> kde_override == Some(true))
            &&& (args.len() > 0 && args.last() == "--no-kde"@ ==> kde_override == Some(false))
            &&& (args.len() > 0 && !has_prefix(args.last(), "--"@) ==> file == Some(args.last()))
            &&& (file matches Some(f) ==> args.contains(f) && !has_prefix(f, "--"@))
        },
    decreases args.len(),
{
    lemma_known_flags_differ();
    if args.len() > 0 {
        let prev = args.drop_last();
        let a = args.last();
        lemma_flags_set_their_own_fields(prev);
        assert(args =~= prev.push(a));
        if cli_model(args) is Run {
            assert(cli_model(prev) is Run);
            assert forall|x: Seq<char>| args.contains(x) <==> (prev.contains(x) || x == a) by {
                if args.contains(x) {
                    let k = choose|k: int| 0 <= k < args.len() && args[k] == x;
                    if k < prev.len() {
                        assert(prev[k] == x);
                    }
                }
                if prev.contains(x) {
                    let k = choose|k: int| 0 <= k < prev.len() && prev[k] == x;
                    assert(args[k] == x);
                }
                if x == a {
                    assert(args[args.len() - 1] == x);
                }
            }
            if !has_prefix(a, "--"@) {
                assert(a != "--kde"@ && a != "--no-kde"@ && a != "--advanced"@ && a != "--uninstall"@);
            }
        }
    }
}

} // verus!

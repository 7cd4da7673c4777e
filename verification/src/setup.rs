//! Start-up decisions: which yt-dlp to use and where to keep it, and how the
//! output of small helper programs is read.
use vstd::prelude::*;
use crate::path::{join, spec_join, with_extension, spec_with_extension};
use crate::ffmpeg::{push_text, views};
use crate::text::{trim, trimmed};

verus! {

/// The operating systems that the start-up tells apart.
#[derive(PartialEq, Eq, Structural, Clone, Copy, Debug)]
pub enum Os {
    Linux,
    MacOs,
    Windows,
    Other,
}

/// The name of the yt-dlp executable.
pub open spec fn spec_binary_name(windows: bool) -> Seq<char> {
    if windows {
        "yt-dlp.exe"@
    } else {
        "yt-dlp"@
    }
}

pub fn binary_name(windows: bool) -> (res: &'static str)
    ensures
        res@ == spec_binary_name(windows),
{
    if windows {
        "yt-dlp.exe"
    } else {
        "yt-dlp"
    }
}

/// The embedded resource that holds yt-dlp for this platform, which start-up
/// extracts as the fallback yt-dlp.
pub fn extract_yt_dlp(windows: bool) -> (res: String)
    ensures
        res@ == spec_binary_name(windows),
{
    String::from_str(binary_name(windows))
}

/// The name under which an embedded resource is extracted to the temporary directory.
pub fn extracted_name(resource: &str) -> (res: String)
    ensures
        res@ == "neumusic-"@ + resource@,
{
    let mut r = String::from_str("neumusic-");
    r.append(resource);
    r
}

/// The directory that holds per-user application data, from the environment:
/// `$XDG_DATA_HOME` or `$HOME/.local/share` on Linux, `$HOME/Library/Application
/// Support` on macOS (`/tmp` standing in for a missing `$HOME`), `%APPDATA%` or
/// `C:\temp` on Windows, and the temporary directory elsewhere.
pub open spec fn spec_data_dir(
    os: Os,
    xdg_data_home: Option<Seq<char>>,
    home: Option<Seq<char>>,
    appdata: Option<Seq<char>>,
    temp: Seq<char>,
) -> Seq<char> {
    let home_or_tmp = match home {
        Some(h) => h,
        None => "/tmp"@,
    };
    match os {
        Os::Linux => match xdg_data_home {
            Some(x) => x,
            None => spec_join(home_or_tmp, ".local/share"@, false),
        },
        Os::MacOs => spec_join(home_or_tmp, "Library/Application Support"@, false),
        Os::Windows => match appdata {
            Some(a) => a,
            None => "C:\\temp"@,
        },
        Os::Other => temp,
    }
}

/// The directory where the updated yt-dlp is kept: `neumusic` in the data directory.
pub open spec fn spec_cache_dir(
    os: Os,
    xdg_data_home: Option<Seq<char>>,
    home: Option<Seq<char>>,
    appdata: Option<Seq<char>>,
    temp: Seq<char>,
) -> Seq<char> {
    spec_join(
        spec_data_dir(os, xdg_data_home, home, appdata, temp),
        "neumusic"@,
        os == Os::Windows,
    )
}

pub open spec fn opt_text(o: Option<&str>) -> Option<Seq<char>> {
    match o {
        Some(s) => Some(s@),
        None => None,
    }
}

pub fn yt_dlp_cache_dir(
    os: Os,
    xdg_data_home: Option<&str>,
    home: Option<&str>,
    appdata: Option<&str>,
    temp: &str,
) -> (res: String)
    ensures
        res@ == spec_cache_dir(os, opt_text(xdg_data_home), opt_text(home), opt_text(appdata), temp@),
{
    let home_or_tmp: &str = match home {
        Some(h) => h,
        None => "/tmp",
    };
    let base = match os {
        Os::Linux => match xdg_data_home {
            Some(x) => x.to_owned(),
            None => join(home_or_tmp, ".local/share", false),
        },
        Os::MacOs => join(home_or_tmp, "Library/Application Support", false),
        Os::Windows => match appdata {
            Some(a) => a.to_owned(),
            None => String::from_str("C:\\temp"),
        },
        Os::Other => temp.to_owned(),
    };
    join(base.as_str(), "neumusic", os == Os::Windows)
}

/// The name of the partial download of a new yt-dlp beside the executable
/// (`Path::with_extension(".tmp")`).
pub fn download_tmp_name(binary: &str) -> (res: String)
    ensures
        res@ == spec_with_extension(binary@, ".tmp"@),
{
    with_extension(binary, ".tmp")
}

/// The useful output of a helper program: what it printed, trimmed, where it
/// succeeded and printed something (how the yt-dlp version and the ffmpeg
/// location are read).
pub open spec fn spec_printed_value(success: bool, stdout: Seq<char>) -> Option<Seq<char>> {
    if success && trimmed(stdout).len() > 0 {
        Some(trimmed(stdout))
    } else {
        None
    }
}

pub fn printed_value(success: bool, stdout: &str) -> (res: Option<String>)
    ensures
        match spec_printed_value(success, stdout@) {
            Some(v) => res matches Some(r) && r@ == v,
            None => res is None,
        },
{
    if !success {
        return None;
    }
    let t = trim(stdout);
    if t.as_str().unicode_len() == 0 {
        None
    } else {
        Some(t)
    }
}

/// What a clipboard program handed over: its trimmed output where it succeeded.
pub fn clipboard_text(success: bool, stdout: &str) -> (res: Option<String>)
    ensures
        success ==> (res matches Some(r) && r@ == trimmed(stdout@)),
        !success ==> res is None,
{
    if success {
        Some(trim(stdout))
    } else {
        None
    }
}

/// Whether the cache needs a fresh copy of the embedded yt-dlp: where the cached one
/// is missing or does not report a version.
pub fn needs_seeding(cached_exists: bool, cached_version: &Option<String>) -> (res: bool)
    ensures
        res == (!cached_exists || cached_version is None),
{
    !cached_exists || cached_version.is_none()
}

/// The clipboard programs, in the order they are tried, each with its arguments:
/// PowerShell's `Get-Clipboard` on Windows; elsewhere `xclip`, then `xsel`, then
/// `wl-paste`.
pub open spec fn spec_clipboard_commands(windows: bool) -> Seq<(Seq<char>, Seq<Seq<char>>)> {
    if windows {
        seq![("powershell"@, seq!["-command"@, "Get-Clipboard"@])]
    } else {
        seq![
            ("xclip"@, seq!["-o"@, "-selection"@, "clipboard"@]),
            ("xsel"@, seq!["-b"@, "-o"@]),
            ("wl-paste"@, Seq::<Seq<char>>::empty()),
        ]
    }
}

/// A program to run, with its arguments.
pub struct HelperCommand {
    pub program: String,
    pub args: Vec<String>,
}

pub open spec fn command_view(c: HelperCommand) -> (Seq<char>, Seq<Seq<char>>) {
    (c.program@, views(c.args@))
}

fn helper_command(program: &str, args: &[&str]) -> (c: HelperCommand)
    ensures
        c.program@ == program@,
        views(c.args@) == args@.map_values(|a: &str| a@),
{
    let mut v: Vec<String> = Vec::new();
    let mut i: usize = 0;
    while i < args.len()
        invariant
            i <= args@.len(),
            views(v@) == args@.take(i as int).map_values(|a: &str| a@),
        decreases args.len() - i,
    {
        let ghost before = views(v@);
        push_text(&mut v, args[i]);
        assert(args@.take(i + 1).map_values(|a: &str| a@) =~= before.push(args@[i as int]@));
        i = i + 1;
    }
    assert(args@.take(args@.len() as int) =~= args@);
    HelperCommand { program: program.to_owned(), args: v }
}

/// The clipboard program tried in place `k`.
pub fn clipboard_command(windows: bool, k: usize) -> (c: HelperCommand)
    requires
        k < spec_clipboard_commands(windows).len(),
    ensures
        command_view(c) == spec_clipboard_commands(windows)[k as int],
{
    let c = if windows {
        helper_command("powershell", &["-command", "Get-Clipboard"])
    } else if k == 0 {
        helper_command("xclip", &["-o", "-selection", "clipboard"])
    } else if k == 1 {
        helper_command("xsel", &["-b", "-o"])
    } else {
        helper_command("wl-paste", &[])
    };
    proof {
        reveal_strlit("-command");
        reveal_strlit("Get-Clipboard");
        reveal_strlit("-o");
        reveal_strlit("-selection");
        reveal_strlit("clipboard");
        reveal_strlit("-b");
    }
    assert(views(c.args@) =~= spec_clipboard_commands(windows)[k as int].1);
    c
}

/// What to do next to read the clipboard.
pub enum ClipboardStep {
    /// Run this program and report how it went.
    Run(HelperCommand),
    /// The clipboard text, or `None` where no program gave one.
    Done(Option<String>),
}

/// The first step of reading the clipboard: run the first program.
pub fn clipboard_start(windows: bool) -> (step: ClipboardStep)
    ensures
        step matches ClipboardStep::Run(c) && command_view(c) == spec_clipboard_commands(windows)[0],
{
    ClipboardStep::Run(clipboard_command(windows, 0))
}

/// The step after program `tried` ran (`Some` with whether it succeeded and what it
/// printed) or could not be started (`None`): its trimmed output where it
/// succeeded; otherwise the next program, or no text when none is left.
pub fn clipboard_next(windows: bool, tried: usize, outcome: Option<(bool, String)>) -> (step: ClipboardStep)
    requires
        tried < spec_clipboard_commands(windows).len(),
    ensures
        match outcome {
            Some((true, out)) => step matches ClipboardStep::Done(Some(t)) && t@ == trimmed(out@),
            _ => if tried + 1 < spec_clipboard_commands(windows).len() {
                step matches ClipboardStep::Run(c) && command_view(c) == spec_clipboard_commands(
                    windows,
                )[tried + 1]
            } else {
                step matches ClipboardStep::Done(None)
            },
        },
{
    if let Some((true, out)) = &outcome {
        return ClipboardStep::Done(Some(trim(out.as_str())));
    }
    let count: usize = if windows {
        1
    } else {
        3
    };
    if tried + 1 < count {
        ClipboardStep::Run(clipboard_command(windows, tried + 1))
    } else {
        ClipboardStep::Done(None)
    }
}

} // verus!

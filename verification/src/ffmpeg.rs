//! Output formats and the ffmpeg / ffprobe command lines for converting, padding
//! with silence and re-encoding at a fixed bitrate.
use vstd::prelude::*;
use crate::path::{join, spec_join, parent, spec_parent, with_extension, spec_with_extension};
use crate::text::{
    decimal, decimal_string, failure_text, parse_failure, parse_failure_of, parse_unsigned,
    parse_u32, same_text, spec_failure_text, trim, trimmed,
};

verus! {

/// The views of a list of texts.
pub open spec fn views(v: Seq<String>) -> Seq<Seq<char>> {
    v.map_values(|s: String| s@)
}

pub fn push_text(v: &mut Vec<String>, s: &str)
    ensures
        views(final(v)@) == views(old(v)@).push(s@),
{
    v.push(s.to_owned());
    assert(views(v@) =~= views(old(v)@).push(s@));
}

/// The two output formats.
#[derive(PartialEq, Eq, Structural, Clone, Copy, Debug)]
pub enum AudioFormat {
    Mp3,
    Ogg,
}

/// The format that a format name names: `"mp3"` or `"ogg"`.
pub open spec fn spec_format_named(name: Seq<char>) -> Option<AudioFormat> {
    if name == "mp3"@ {
        Some(AudioFormat::Mp3)
    } else if name == "ogg"@ {
        Some(AudioFormat::Ogg)
    } else {
        None
    }
}

/// The message for a format name that names no format.
pub open spec fn unknown_format_message(name: Seq<char>) -> Seq<char> {
    "Unknown format: "@ + name
}

/// The format named `name`, or the unknown-format message.
pub fn format_named(name: &str) -> (res: Result<AudioFormat, String>)
    ensures
        match spec_format_named(name@) {
            Some(f) => res == Ok::<AudioFormat, String>(f),
            None => res matches Err(m) && m@ == unknown_format_message(name@),
        },
{
    if same_text(name, "mp3") {
        Ok(AudioFormat::Mp3)
    } else if same_text(name, "ogg") {
        Ok(AudioFormat::Ogg)
    } else {
        let mut m = String::from_str("Unknown format: ");
        m.append(name);
        Err(m)
    }
}

impl AudioFormat {
    pub open spec fn spec_ext(self) -> Seq<char> {
        match self {
            AudioFormat::Mp3 => "mp3"@,
            AudioFormat::Ogg => "ogg"@,
        }
    }

    /// The file extension, which is also the format's name.
    pub fn ext(&self) -> (res: &'static str)
        ensures
            res@ == self.spec_ext(),
    {
        match self {
            AudioFormat::Mp3 => "mp3",
            AudioFormat::Ogg => "ogg",
        }
    }

    /// The bitrate cap, in kbps: 192 for MP3, 208 for OGG.
    pub open spec fn spec_target_kbps(self) -> u64 {
        match self {
            AudioFormat::Mp3 => 192,
            AudioFormat::Ogg => 208,
        }
    }

    pub fn target_kbps(&self) -> (res: u64)
        ensures
            res == self.spec_target_kbps(),
    {
        match self {
            AudioFormat::Mp3 => 192,
            AudioFormat::Ogg => 208,
        }
    }

    pub open spec fn spec_codec_label(self) -> Seq<char> {
        match self {
            AudioFormat::Mp3 => "MP3"@,
            AudioFormat::Ogg => "OGG"@,
        }
    }

    /// The label of the codec in the log.
    pub fn codec_label(&self) -> (res: &'static str)
        ensures
            res@ == self.spec_codec_label(),
    {
        match self {
            AudioFormat::Mp3 => "MP3",
            AudioFormat::Ogg => "OGG",
        }
    }
}

/// The name of the ffprobe executable.
pub open spec fn probe_name(windows: bool) -> Seq<char> {
    if windows {
        "ffprobe.exe"@
    } else {
        "ffprobe"@
    }
}

/// ffprobe beside the ffmpeg executable: the directory of `ffmpeg` (the empty path
/// where it has none) joined with `ffprobe`, or `ffprobe.exe` on Windows.
pub open spec fn spec_ffprobe_cmd(ffmpeg: Seq<char>, windows: bool) -> Seq<char> {
    let dir = match spec_parent(ffmpeg, windows) {
        Some(d) => d,
        None => Seq::empty(),
    };
    spec_join(dir, probe_name(windows), windows)
}

pub fn ffprobe_cmd(ffmpeg: &str, windows: bool) -> (res: String)
    ensures
        res@ == spec_ffprobe_cmd(ffmpeg@, windows),
{
    let dir = match parent(ffmpeg, windows) {
        Some(d) => d,
        None => String::new(),
    };
    let name = if windows {
        "ffprobe.exe"
    } else {
        "ffprobe"
    };
    join(dir.as_str(), name, windows)
}

/// The arguments that ask ffprobe for `entries` of the file at `path`, one value
/// per line without keys.
pub open spec fn spec_probe_args(entries: Seq<char>, path: Seq<char>) -> Seq<Seq<char>> {
    seq![
        "-v"@,
        "error"@,
        "-show_entries"@,
        entries,
        "-of"@,
        "default=noprint_wrappers=1:nokey=1"@,
        path,
    ]
}

pub fn probe_args(entries: &str, path: &str) -> (res: Vec<String>)
    ensures
        views(res@) == spec_probe_args(entries@, path@),
{
    let mut v: Vec<String> = Vec::new();
    push_text(&mut v, "-v");
    push_text(&mut v, "error");
    push_text(&mut v, "-show_entries");
    push_text(&mut v, entries);
    push_text(&mut v, "-of");
    push_text(&mut v, "default=noprint_wrappers=1:nokey=1");
    push_text(&mut v, path);
    assert(views(v@) =~= spec_probe_args(entries@, path@));
    v
}

/// What ffprobe printed, as the tools here read it: without surrounding white space.
pub fn probe_text(stdout: &str) -> (res: String)
    ensures
        res@ == trimmed(stdout@),
{
    trim(stdout)
}

/// The message when ffprobe's answer is no sample rate: the reason `str::parse`
/// gives behind "Не удалось прочитать sample rate: ".
pub open spec fn sample_rate_error(text: Seq<char>) -> Seq<char> {
    "Не удалось прочитать sample rate: "@ + spec_failure_text(parse_failure(text, u32::MAX as nat))
}

/// The sample rate that ffprobe printed for `stream=sample_rate`: the trimmed
/// output read as a `u32`, or the message saying why it is not one (one stream per
/// line, so two streams are not one number either).
pub fn get_sample_rate(probe_output: &str) -> (res: Result<u32, String>)
    ensures
        match parse_unsigned(trimmed(probe_output@), u32::MAX as nat) {
            Some(v) => res == Ok::<u32, String>(v as u32),
            None => res matches Err(m) && m@ == sample_rate_error(trimmed(probe_output@)),
        },
{
    let s = trim(probe_output);
    match parse_u32(s.as_str()) {
        Some(v) => Ok(v),
        None => {
            let mut m = String::from_str("Не удалось прочитать sample rate: ");
            m.append(failure_text(parse_failure_of(s.as_str(), u32::MAX as u64)));
            Err(m)
        },
    }
}

/// The bitrate arguments of a format: average bitrate capped at the target with
/// `-maxrate` and `-bufsize`, and the Vorbis encoder for OGG.
pub open spec fn rate_args(f: AudioFormat) -> Seq<Seq<char>> {
    match f {
        AudioFormat::Ogg => seq![
            "-b:a"@,
            "208k"@,
            "-maxrate"@,
            "208k"@,
            "-bufsize"@,
            "208k"@,
            "-c:a"@,
            "libvorbis"@,
        ],
        AudioFormat::Mp3 => seq!["-b:a"@, "192k"@, "-maxrate"@, "192k"@, "-bufsize"@, "192k"@],
    }
}

/// The highest sample rate written; faster sources are resampled to it.
pub const MAX_SAMPLE_RATE: u32 = 48000;

/// Resampling arguments: `-ar 48000` where the source is faster than 48 kHz.
pub open spec fn resample_args(sample_rate: u32) -> Seq<Seq<char>> {
    if sample_rate > MAX_SAMPLE_RATE {
        seq!["-ar"@, "48000"@]
    } else {
        Seq::empty()
    }
}

fn push_rate_args(v: &mut Vec<String>, f: AudioFormat)
    ensures
        views(final(v)@) == views(old(v)@) + rate_args(f),
{
    let ghost start = views(v@);
    match f {
        AudioFormat::Ogg => {
            push_text(v, "-b:a");
            push_text(v, "208k");
            push_text(v, "-maxrate");
            push_text(v, "208k");
            push_text(v, "-bufsize");
            push_text(v, "208k");
            push_text(v, "-c:a");
            push_text(v, "libvorbis");
        },
        AudioFormat::Mp3 => {
            push_text(v, "-b:a");
            push_text(v, "192k");
            push_text(v, "-maxrate");
            push_text(v, "192k");
            push_text(v, "-bufsize");
            push_text(v, "192k");
        },
    }
    assert(views(v@) =~= start + rate_args(f));
}

fn push_resample_args(v: &mut Vec<String>, sample_rate: u32)
    ensures
        views(final(v)@) == views(old(v)@) + resample_args(sample_rate),
{
    if sample_rate > MAX_SAMPLE_RATE {
        push_text(v, "-ar");
        push_text(v, "48000");
    }
    assert(views(v@) =~= views(old(v)@) + resample_args(sample_rate));
}

/// The message when ffmpeg cannot be started.
pub fn launch_failure(error: &str) -> (res: String)
    ensures
        res@ == "Не удалось запустить ffmpeg: "@ + error@,
{
    let mut t = String::from_str("Не удалось запустить ffmpeg: ");
    t.append(error);
    t
}

/// One run of ffmpeg on a file in the output directory.
pub struct FfmpegJob {
    /// The arguments of ffmpeg.
    pub args: Vec<String>,
    /// The name of the file that ffmpeg writes.
    pub written: String,
    /// The name of the result, to which `written` is renamed where they differ.
    pub output: String,
    /// The message when ffmpeg reports failure.
    pub failure: String,
}

impl FfmpegJob {
    /// Whether the written file is renamed to the result.
    pub fn renames(&self) -> (res: bool)
        ensures
            res == (self.written@ != self.output@),
    {
        !same_text(self.written.as_str(), self.output.as_str())
    }
}

/// The name of the converted file, where conversion has work to do: `name` with the
/// format's extension, `None` where that is `name` itself. An unknown format is an
/// error.
pub open spec fn spec_convert_target(name: Seq<char>, format: Seq<char>) -> Result<
    Option<Seq<char>>,
    Seq<char>,
> {
    match spec_format_named(format) {
        None => Err(unknown_format_message(format)),
        Some(f) => {
            let out = spec_with_extension(name, f.spec_ext());
            if out == name {
                Ok(None)
            } else {
                Ok(Some(out))
            }
        },
    }
}

pub fn convert_target(name: &str, format: &str) -> (res: Result<Option<String>, String>)
    ensures
        match spec_convert_target(name@, format@) {
            Ok(None) => res matches Ok(None),
            Ok(Some(o)) => res matches Ok(Some(r)) && r@ == o,
            Err(m) => res matches Err(e) && e@ == m,
        },
{
    let f = match format_named(format) {
        Ok(f) => f,
        Err(m) => return Err(m),
    };
    let out = with_extension(name, f.ext());
    if same_text(out.as_str(), name) {
        Ok(None)
    } else {
        Ok(Some(out))
    }
}

/// The arguments that convert the file at `input` to `format` at `output`.
pub open spec fn spec_convert_args(
    input: Seq<char>,
    output: Seq<char>,
    f: AudioFormat,
    sample_rate: u32,
) -> Seq<Seq<char>> {
    seq!["-y"@, "-i"@, input] + rate_args(f) + resample_args(sample_rate) + seq![output]
}

/// The ffmpeg run that converts `name` in `dir` to `output` (see `convert_target`);
/// `sample_rate` is what ffprobe reported for the source, 0 where it reported nothing.
pub fn convert_audio(
    dir: &str,
    name: &str,
    output: &str,
    format: AudioFormat,
    sample_rate: u32,
    windows: bool,
) -> (job: FfmpegJob)
    ensures
        views(job.args@) == spec_convert_args(
            spec_join(dir@, name@, windows),
            spec_join(dir@, output@, windows),
            format,
            sample_rate,
        ),
        job.written@ == output@,
        job.output@ == output@,
        job.failure@ == "ffmpeg: ошибка конвертации"@,
{
    let mut args: Vec<String> = Vec::new();
    push_text(&mut args, "-y");
    push_text(&mut args, "-i");
    let input_path = join(dir, name, windows);
    push_text(&mut args, input_path.as_str());
    push_rate_args(&mut args, format);
    push_resample_args(&mut args, sample_rate);
    let output_path = join(dir, output, windows);
    push_text(&mut args, output_path.as_str());
    FfmpegJob {
        args,
        written: output.to_owned(),
        output: output.to_owned(),
        failure: String::from_str("ffmpeg: ошибка конвертации"),
    }
}

/// The filter that delays every channel by `ms` milliseconds: `adelay=ms|ms`.
pub open spec fn delay_filter(ms: u64) -> Seq<char> {
    "adelay="@ + decimal(ms as nat) + "|"@ + decimal(ms as nat)
}

/// The arguments that write `input` with `ms` of leading silence to `tmp`.
pub open spec fn spec_silence_args(
    input: Seq<char>,
    tmp: Seq<char>,
    ms: u64,
    f: AudioFormat,
    sample_rate: u32,
) -> Seq<Seq<char>> {
    seq!["-y"@, "-i"@, input] + rate_args(f) + resample_args(sample_rate) + seq![
        "-af"@,
        delay_filter(ms),
        tmp,
    ]
}

/// The ffmpeg run that prefixes `name` in `dir` with `ms` milliseconds of silence:
/// ffmpeg writes `<stem>.silence.<ext>`, which then replaces `<stem>.<ext>`.
pub fn add_silence(
    dir: &str,
    name: &str,
    ms: u64,
    format: AudioFormat,
    sample_rate: u32,
    windows: bool,
) -> (job: FfmpegJob)
    ensures
        job.written@ == spec_with_extension(name@, "silence."@ + format.spec_ext()),
        job.output@ == spec_with_extension(name@, format.spec_ext()),
        views(job.args@) == spec_silence_args(
            spec_join(dir@, name@, windows),
            spec_join(dir@, job.written@, windows),
            ms,
            format,
            sample_rate,
        ),
        job.failure@ == "ffmpeg: ошибка добавления тишины"@,
{
    let mut tmp_ext = String::from_str("silence.");
    tmp_ext.append(format.ext());
    let tmp = with_extension(name, tmp_ext.as_str());
    let mut filter = String::from_str("adelay=");
    let digits = decimal_string(ms);
    filter.append(digits.as_str());
    filter.append("|");
    filter.append(digits.as_str());
    let mut args: Vec<String> = Vec::new();
    push_text(&mut args, "-y");
    push_text(&mut args, "-i");
    let input_path = join(dir, name, windows);
    push_text(&mut args, input_path.as_str());
    push_rate_args(&mut args, format);
    push_resample_args(&mut args, sample_rate);
    push_text(&mut args, "-af");
    push_text(&mut args, filter.as_str());
    let tmp_path = join(dir, tmp.as_str(), windows);
    push_text(&mut args, tmp_path.as_str());
    assert(views(args@) =~= spec_silence_args(
        spec_join(dir@, name@, windows),
        spec_join(dir@, tmp@, windows),
        ms,
        format,
        sample_rate,
    ));
    FfmpegJob {
        args,
        written: tmp,
        output: with_extension(name, format.ext()),
        failure: String::from_str("ffmpeg: ошибка добавления тишины"),
    }
}

/// The arguments that re-encode `input` at `kbps` to `tmp`.
pub open spec fn spec_debloat_args(input: Seq<char>, tmp: Seq<char>, kbps: u64, f: AudioFormat) -> Seq<
    Seq<char>,
> {
    seq!["-y"@, "-i"@, input, "-b:a"@, decimal(kbps as nat) + "k"@] + (match f {
        AudioFormat::Ogg => seq!["-c:a"@, "libvorbis"@],
        AudioFormat::Mp3 => Seq::empty(),
    }) + seq![tmp]
}

/// The ffmpeg run that re-encodes `name` in `dir` at a constant `kbps`: none where
/// `kbps` is 0; an unknown format is an error. ffmpeg writes `<stem>.debloat.<ext>`,
/// which then replaces `<stem>.<ext>`.
pub fn debloat(dir: &str, name: &str, format: &str, kbps: u64, windows: bool) -> (res: Result<
    Option<FfmpegJob>,
    String,
>)
    ensures
        kbps == 0 ==> res matches Ok(None),
        kbps != 0 ==> match spec_format_named(format@) {
            None => res matches Err(m) && m@ == unknown_format_message(format@),
            Some(f) => res matches Ok(Some(job)) && {
                &&& job.written@ == spec_with_extension(name@, "debloat."@ + f.spec_ext())
                &&& job.output@ == spec_with_extension(name@, f.spec_ext())
                &&& views(job.args@) == spec_debloat_args(
                    spec_join(dir@, name@, windows),
                    spec_join(dir@, job.written@, windows),
                    kbps,
                    f,
                )
                &&& job.failure@ == "ffmpeg: ошибка деблоатинга"@
            },
        },
{
    if kbps == 0 {
        return Ok(None);
    }
    let f = match format_named(format) {
        Ok(f) => f,
        Err(m) => return Err(m),
    };
    let mut tmp_ext = String::from_str("debloat.");
    tmp_ext.append(f.ext());
    let tmp = with_extension(name, tmp_ext.as_str());
    let mut rate = decimal_string(kbps);
    rate.append("k");
    let mut args: Vec<String> = Vec::new();
    push_text(&mut args, "-y");
    push_text(&mut args, "-i");
    let input_path = join(dir, name, windows);
    push_text(&mut args, input_path.as_str());
    push_text(&mut args, "-b:a");
    push_text(&mut args, rate.as_str());
    match f {
        AudioFormat::Ogg => {
            push_text(&mut args, "-c:a");
            push_text(&mut args, "libvorbis");
        },
        AudioFormat::Mp3 => {},
    }
    let tmp_path = join(dir, tmp.as_str(), windows);
    push_text(&mut args, tmp_path.as_str());
    assert(views(args@) =~= spec_debloat_args(
        spec_join(dir@, name@, windows),
        spec_join(dir@, tmp@, windows),
        kbps,
        f,
    ));
    Ok(
        Some(
            FfmpegJob {
                args,
                written: tmp,
                output: with_extension(name, f.ext()),
                failure: String::from_str("ffmpeg: ошибка деблоатинга"),
            },
        ),
    )
}

} // verus!

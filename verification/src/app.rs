//! The state of the window and how it answers the user and the background tasks.
use vstd::prelude::*;
use crate::ffmpeg::AudioFormat;
use crate::lang::{phrase_in, pick, say, t, Lang};
use crate::messages::{
    notice_text, spec_notice_text, Notice, ERROR_PREFIX, NEED_FOLDER, NEED_SOURCE, NO_CLIPBOARD,
    READY, STARTING,
};
use crate::pipeline::{LocalSource, Msg, PipelineConfig, ProgressMark};
use crate::text::{parse_u64, parse_unsigned, trim, trimmed};
use crate::updates::{UpdateState, UpdateStateView};

pub use crate::updates::YtdlpUpdateEvent;

verus! {

/// The colour of a log line: plain, warning, error.
#[derive(PartialEq, Eq, Structural, Clone, Copy, Debug)]
pub enum LogColor {
    White,
    Yellow,
    Red,
}

pub struct LogLine {
    pub text: String,
    pub color: LogColor,
}

pub open spec fn log_view(v: Seq<LogLine>) -> Seq<(Seq<char>, LogColor)> {
    v.map_values(|l: LogLine| (l.text@, l.color))
}

/// Where the background update of yt-dlp stands, as the settings show it.
pub enum YtdlpUpdateState {
    Idle,
    Checking,
    UpToDate,
    /// This version is being downloaded.
    Downloading(String),
    Downloaded,
    Error(String),
}

/// What a run needs from the window: the trimmed URL, the output directory, the
/// chosen local file, and the settings.
pub struct RunRequest {
    pub url: String,
    pub dir: String,
    pub local_file: Option<String>,
    pub convert: bool,
    pub format: AudioFormat,
    pub silence: bool,
    pub silence_ms: u64,
    pub playlist: bool,
    pub debloat: bool,
    pub debloat_kbps: u64,
    pub lang: Lang,
}

impl RunRequest {
    /// The settings of the run, with the local file as found on disk.
    pub fn config(&self, local: Option<LocalSource>) -> (c: PipelineConfig)
        ensures
            c.convert == self.convert,
            c.format == self.format,
            c.silence == self.silence,
            c.silence_ms == self.silence_ms,
            c.playlist == self.playlist,
            c.debloat == self.debloat,
            c.debloat_kbps == self.debloat_kbps,
            c.lang == self.lang,
            c.local == local,
    {
        PipelineConfig {
            convert: self.convert,
            format: self.format,
            silence: self.silence,
            silence_ms: self.silence_ms,
            playlist: self.playlist,
            debloat: self.debloat,
            debloat_kbps: self.debloat_kbps,
            lang: self.lang,
            local,
        }
    }
}

/// The silence length of a run: the field read as a number of milliseconds, 2000
/// where it is not one.
pub open spec fn silence_ms_of(field: Seq<char>) -> u64 {
    match parse_unsigned(field, u64::MAX as nat) {
        Some(v) => v as u64,
        None => 2000,
    }
}

/// The window's state.
pub struct NeuMusicApp {
    pub yt_dlp: String,
    pub ffmpeg: String,
    pub url: String,
    pub output_dir: String,
    pub local_file: Option<String>,
    pub convert_192: bool,
    pub output_format: AudioFormat,
    pub add_silence: bool,
    pub silence_ms: String,
    pub playlist: bool,
    pub debloat_enabled: bool,
    pub debloat_bitrate: u32,
    pub lang: Lang,
    pub status: String,
    pub progress: ProgressMark,
    pub busy: bool,
    pub log: Vec<LogLine>,
    pub update_state: UpdateState,
    pub ytdlp_display: String,
    pub ytdlp_update_state: YtdlpUpdateState,
}

/// The view of the parts of the window that messages of a run change.
pub struct RunView {
    pub status: Seq<char>,
    pub log: Seq<(Seq<char>, LogColor)>,
    pub progress: ProgressMark,
    pub ended: bool,
}

/// The window after a message of a run: a status is shown and logged, a warning
/// logged in yellow, an error shown and logged in red behind "Error: ", a progress
/// mark shown; an error or "done" ends the run.
pub open spec fn apply_msg(r: RunView, lang: Lang, m: Msg<Seq<char>>) -> RunView {
    match m {
        Msg::Status(s) => RunView { status: s, log: r.log.push((s, LogColor::White)), ..r },
        Msg::Progress(p) => RunView { progress: p, ..r },
        Msg::Warning(w) => RunView { log: r.log.push((w, LogColor::Yellow)), ..r },
        Msg::Error(e) => {
            let text = spec_notice_text(lang, Notice::Failed(e));
            RunView { status: text, log: r.log.push((text, LogColor::Red)), ended: true, ..r }
        },
        Msg::Done => RunView { ended: true, ..r },
    }
}

/// The window after the messages `msgs`, in order.
pub open spec fn apply_msgs(r: RunView, lang: Lang, msgs: Seq<Msg<Seq<char>>>) -> RunView
    decreases msgs.len(),
{
    if msgs.len() == 0 {
        r
    } else {
        apply_msg(apply_msgs(r, lang, msgs.drop_last()), lang, msgs.last())
    }
}

impl NeuMusicApp {
    pub open spec fn run_view(&self) -> RunView {
        RunView {
            status: self.status@,
            log: log_view(self.log@),
            progress: self.progress,
            ended: false,
        }
    }

    /// The window at start-up: yt-dlp and ffmpeg as found, the output directory as
    /// saved last time (none where nothing was saved), conversion to MP3 on,
    /// 2000 ms of silence when enabled, English, "Ready".
    pub fn new(yt_dlp: String, ffmpeg: String, saved_dir: Option<String>) -> (app: Self)
        ensures
            app.yt_dlp@ == yt_dlp@,
            app.ffmpeg@ == ffmpeg@,
            app.output_dir@ == match saved_dir {
                Some(d) => d@,
                None => Seq::<char>::empty(),
            },
            app.url@.len() == 0,
            app.local_file is None,
            app.convert_192,
            app.output_format == AudioFormat::Mp3,
            !app.add_silence,
            app.silence_ms@ == "2000"@,
            !app.playlist,
            !app.debloat_enabled,
            app.debloat_bitrate == 0,
            app.lang == Lang::En,
            app.status@ == "Ready"@,
            app.progress == ProgressMark::Zero,
            !app.busy,
            log_view(app.log@) == seq![("Ready"@, LogColor::White)],
            app.update_state is Idle,
            app.ytdlp_display@.len() == 0,
            app.ytdlp_update_state is Idle,
    {
        let output_dir = match saved_dir {
            Some(d) => d,
            None => String::new(),
        };
        let mut log: Vec<LogLine> = Vec::new();
        log.push(LogLine { text: String::from_str("Ready"), color: LogColor::White });
        assert(log_view(log@) =~= seq![("Ready"@, LogColor::White)]);
        NeuMusicApp {
            yt_dlp,
            ffmpeg,
            url: String::new(),
            output_dir,
            local_file: None,
            convert_192: true,
            output_format: AudioFormat::Mp3,
            add_silence: false,
            silence_ms: String::from_str("2000"),
            playlist: false,
            debloat_enabled: false,
            debloat_bitrate: 0,
            lang: Lang::En,
            status: String::from_str("Ready"),
            progress: ProgressMark::Zero,
            busy: false,
            log,
            update_state: UpdateState::Idle,
            ytdlp_display: String::new(),
            ytdlp_update_state: YtdlpUpdateState::Idle,
        }
    }

    /// After a change of language: "Ready" in the new language, as the status and as
    /// the whole log.
    pub fn on_lang_changed(&mut self)
        ensures
            final(self).status@ == phrase_in(READY, old(self).lang),
            log_view(final(self).log@) == seq![(phrase_in(READY, old(self).lang), LogColor::White)],
            *final(self) == (NeuMusicApp { status: final(self).status, log: final(self).log, ..*old(self) }),
    {
        let msg = say(&READY, self.lang);
        self.status = String::from_str(msg);
        let mut log: Vec<LogLine> = Vec::new();
        log.push(LogLine { text: String::from_str(msg), color: LogColor::White });
        assert(log_view(log@) =~= seq![(phrase_in(READY, self.lang), LogColor::White)]);
        self.log = log;
    }

    /// The user chose an output directory.
    pub fn set_output_dir(&mut self, dir: String)
        ensures
            *final(self) == (NeuMusicApp { output_dir: dir, ..*old(self) }),
    {
        self.output_dir = dir;
    }

    /// The user chose a local file.
    pub fn set_local_file(&mut self, path: String)
        ensures
            *final(self) == (NeuMusicApp { local_file: Some(path), ..*old(self) }),
    {
        self.local_file = Some(path);
    }

    /// The user removed the local file.
    pub fn clear_local_file(&mut self)
        ensures
            *final(self) == (NeuMusicApp { local_file: None, ..*old(self) }),
    {
        self.local_file = None;
    }

    /// The URL field holds more than white space.
    pub open spec fn spec_has_url(&self) -> bool {
        trimmed(self.url@).len() > 0
    }

    pub fn has_url(&self) -> (res: bool)
        ensures
            res == self.spec_has_url(),
    {
        trim(self.url.as_str()).as_str().unicode_len() > 0
    }

    /// Whether a run can start: none is running, there is a URL or a local file, and
    /// an output directory.
    pub fn can_start(&self) -> (res: bool)
        ensures
            res == (!self.busy && (self.spec_has_url() || self.local_file is Some)
                && self.output_dir@.len() > 0),
    {
        !self.busy && (self.has_url() || self.local_file.is_some())
            && self.output_dir.as_str().unicode_len() > 0
    }

    /// The label of the start button: "Convert" for a local file, "Download" otherwise.
    pub fn start_label(&self) -> (res: String)
        ensures
            self.local_file is Some ==> res@ == pick(
                self.lang,
                "Конвертировать"@,
                "Convert"@,
                "Convertir"@,
                "変換"@,
                "변환"@,
                "转换"@,
                "Converter"@,
            ),
            self.local_file is None ==> res@ == pick(
                self.lang,
                "Скачать"@,
                "Download"@,
                "MATUSABOMBER"@,
                "ダウンロード"@,
                "다운로드"@,
                "下载"@,
                "Baixar"@,
            ),
    {
        if self.local_file.is_some() {
            t(&self.lang, "Конвертировать", "Convert", "Convertir", "変換", "변환", "转换", "Converter")
        } else {
            t(&self.lang, "Скачать", "Download", "MATUSABOMBER", "ダウンロード", "다운로드", "下载", "Baixar")
        }
    }

    /// The Start button: without a URL or local file, or without an output directory,
    /// only the status line says what is missing; otherwise the window becomes busy,
    /// progress and log start over with "Downloading...", and the run is described.
    pub fn start_processing(&mut self) -> (req: Option<RunRequest>)
        ensures
            !old(self).spec_has_url() && old(self).local_file is None ==> {
                &&& req is None
                &&& final(self).status@ == phrase_in(NEED_SOURCE, old(self).lang)
                &&& *final(self) == (NeuMusicApp { status: final(self).status, ..*old(self) })
            },
            (old(self).spec_has_url() || old(self).local_file is Some) && old(self).output_dir@.len()
                == 0 ==> {
                &&& req is None
                &&& final(self).status@ == phrase_in(NEED_FOLDER, old(self).lang)
                &&& *final(self) == (NeuMusicApp { status: final(self).status, ..*old(self) })
            },
            (old(self).spec_has_url() || old(self).local_file is Some) && old(self).output_dir@.len()
                > 0 ==> {
                &&& *final(self) == (NeuMusicApp {
                    status: final(self).status,
                    log: final(self).log,
                    busy: true,
                    progress: ProgressMark::Zero,
                    ..*old(self)
                })
                &&& final(self).status@ == phrase_in(STARTING, old(self).lang)
                &&& log_view(final(self).log@) == seq![
                    (phrase_in(STARTING, old(self).lang), LogColor::White),
                ]
                &&& req matches Some(r) && {
                    &&& r.url@ == trimmed(old(self).url@)
                    &&& r.dir@ == old(self).output_dir@
                    &&& r.local_file == old(self).local_file
                    &&& r.convert == old(self).convert_192
                    &&& r.format == old(self).output_format
                    &&& r.silence == old(self).add_silence
                    &&& r.silence_ms == silence_ms_of(old(self).silence_ms@)
                    &&& r.playlist == old(self).playlist
                    &&& r.debloat == old(self).debloat_enabled
                    &&& r.debloat_kbps == old(self).debloat_bitrate as u64
                    &&& r.lang == old(self).lang
                }
            },
    {
        let has_url = self.has_url();
        let has_local = self.local_file.is_some();
        if !has_url && !has_local {
            self.status = notice_text(self.lang, &Notice::NeedSource);
            return None;
        }
        if self.output_dir.as_str().unicode_len() == 0 {
            self.status = notice_text(self.lang, &Notice::NeedFolder);
            return None;
        }
        self.busy = true;
        self.progress = ProgressMark::Zero;
        let text = notice_text(self.lang, &Notice::Starting);
        self.status = notice_text(self.lang, &Notice::Starting);
        let mut log: Vec<LogLine> = Vec::new();
        log.push(LogLine { text, color: LogColor::White });
        assert(log_view(log@) =~= seq![(phrase_in(STARTING, self.lang), LogColor::White)]);
        self.log = log;
        let ms: u64 = match parse_u64(self.silence_ms.as_str()) {
            Some(v) => v,
            None => 2000,
        };
        Some(
            RunRequest {
                url: trim(self.url.as_str()),
                dir: self.output_dir.clone(),
                local_file: self.local_file.clone(),
                convert: self.convert_192,
                format: self.output_format,
                silence: self.add_silence,
                silence_ms: ms,
                playlist: self.playlist,
                debloat: self.debloat_enabled,
                debloat_kbps: self.debloat_bitrate as u64,
                lang: self.lang,
            },
        )
    }

    /// Take in the messages that a run sent since the last look, in order; whether
    /// one of them ended the run, which leaves the window no longer busy.
    pub fn handle_messages(&mut self, msgs: Vec<Msg<String>>) -> (ended: bool)
        ensures
            ({
                let r = apply_msgs(old(self).run_view(), old(self).lang, crate::pipeline::msg_views(msgs@));
                &&& final(self).status@ == r.status
                &&& log_view(final(self).log@) == r.log
                &&& final(self).progress == r.progress
                &&& ended == r.ended
                &&& final(self).busy == (old(self).busy && !r.ended)
            }),
            *final(self) == (NeuMusicApp {
                status: final(self).status,
                log: final(self).log,
                progress: final(self).progress,
                busy: final(self).busy,
                ..*old(self)
            }),
    {
        let ghost start = self.run_view();
        let ghost lang = self.lang;
        let ghost mv = crate::pipeline::msg_views(msgs@);
        let mut ended = false;
        let mut i: usize = 0;
        while i < msgs.len()
            invariant
                i <= msgs@.len(),
                lang == self.lang,
                mv == crate::pipeline::msg_views(msgs@),
                ({
                    let r = apply_msgs(start, lang, mv.take(i as int));
                    &&& self.status@ == r.status
                    &&& log_view(self.log@) == r.log
                    &&& self.progress == r.progress
                    &&& ended == r.ended
                }),
                *self == (NeuMusicApp {
                    status: self.status,
                    log: self.log,
                    progress: self.progress,
                    ..*old(self)
                }),
            decreases msgs.len() - i,
        {
            assert(mv.take(i + 1).drop_last() =~= mv.take(i as int));
            assert(mv.take(i + 1).last() == msgs@[i as int]@);
            let ghost before = log_view(self.log@);
            match &msgs[i] {
                Msg::Status(s) => {
                    self.status = s.clone();
                    self.log.push(LogLine { text: s.clone(), color: LogColor::White });
                    assert(log_view(self.log@) =~= before.push((s@, LogColor::White)));
                },
                Msg::Progress(p) => {
                    self.progress = *p;
                },
                Msg::Warning(w) => {
                    self.log.push(LogLine { text: w.clone(), color: LogColor::Yellow });
                    assert(log_view(self.log@) =~= before.push((w@, LogColor::Yellow)));
                },
                Msg::Error(e) => {
                    let text = notice_text(self.lang, &Notice::Failed(e.clone()));
                    self.status = text.clone();
                    self.log.push(LogLine { text, color: LogColor::Red });
                    assert(log_view(self.log@) =~= before.push(
                        (spec_notice_text(lang, Notice::Failed(e@)), LogColor::Red),
                    ));
                    ended = true;
                },
                Msg::Done => {
                    ended = true;
                },
            }
            i = i + 1;
        }
        assert(mv.take(msgs@.len() as int) =~= mv);
        if ended {
            self.busy = false;
        }
        ended
    }

    /// The user pasted by the Paste button: the clipboard text replaces the URL; with
    /// no clipboard program the status line says which to install.
    pub fn paste_from_button(&mut self, clipboard: Option<String>)
        ensures
            clipboard is Some ==> *final(self) == (NeuMusicApp { url: clipboard->0, ..*old(self) }),
            clipboard is None ==> final(self).status@ == phrase_in(NO_CLIPBOARD, old(self).lang)
                && *final(self) == (NeuMusicApp { status: final(self).status, ..*old(self) }),
    {
        match clipboard {
            Some(text) => {
                self.url = text;
            },
            None => {
                self.status = notice_text(self.lang, &Notice::NoClipboard);
            },
        }
    }

    /// The user pressed Ctrl+V: the clipboard text, where there is one, replaces the URL.
    pub fn paste_from_keys(&mut self, clipboard: Option<String>)
        ensures
            clipboard is Some ==> *final(self) == (NeuMusicApp { url: clipboard->0, ..*old(self) }),
            clipboard is None ==> *final(self) == *old(self),
    {
        if let Some(text) = clipboard {
            self.url = text;
        }
    }

    /// The output directory to remember for the next start, where one is chosen.
    pub fn saved_output_dir(&self) -> (res: Option<String>)
        ensures
            self.output_dir@.len() > 0 ==> res == Some(self.output_dir),
            self.output_dir@.len() == 0 ==> res is None,
    {
        if self.output_dir.as_str().unicode_len() > 0 {
            Some(self.output_dir.clone())
        } else {
            None
        }
    }

    /// The application's update check has started.
    pub fn begin_update_check(&mut self)
        ensures
            *final(self) == (NeuMusicApp { update_state: UpdateState::Checking, ..*old(self) }),
    {
        self.update_state = UpdateState::Checking;
    }

    /// The application's update check has an outcome.
    pub fn set_update_state(&mut self, state: UpdateState)
        ensures
            *final(self) == (NeuMusicApp { update_state: state, ..*old(self) }),
    {
        self.update_state = state;
    }

    /// Take in an event of the yt-dlp updater; whether it was the last one.
    pub fn on_ytdlp_event(&mut self, ev: YtdlpUpdateEvent) -> (last: bool)
        ensures
            last == (ev is Done),
            match ev {
                YtdlpUpdateEvent::Checking => final(self).ytdlp_display@.len() == 0
                    && final(self).ytdlp_update_state is Checking,
                YtdlpUpdateEvent::Version(v) => final(self).ytdlp_display@ == "yt-dlp v"@ + v@
                    && final(self).ytdlp_update_state == old(self).ytdlp_update_state,
                YtdlpUpdateEvent::Current => final(self).ytdlp_update_state is UpToDate
                    && final(self).ytdlp_display == old(self).ytdlp_display,
                YtdlpUpdateEvent::Available(v) => final(self).ytdlp_update_state
                    == YtdlpUpdateState::Downloading(v) && final(self).ytdlp_display
                    == old(self).ytdlp_display,
                YtdlpUpdateEvent::Downloaded => final(self).ytdlp_update_state is Downloaded
                    && final(self).ytdlp_display@ == "yt-dlp v"@ + match old(self).ytdlp_update_state {
                    YtdlpUpdateState::Downloading(v) => v@,
                    _ => Seq::<char>::empty(),
                },
                YtdlpUpdateEvent::Error(e) => final(self).ytdlp_update_state
                    == YtdlpUpdateState::Error(e) && final(self).ytdlp_display
                    == old(self).ytdlp_display,
                YtdlpUpdateEvent::Done => final(self).ytdlp_update_state
                    == old(self).ytdlp_update_state && final(self).ytdlp_display
                    == old(self).ytdlp_display,
            },
            *final(self) == (NeuMusicApp {
                ytdlp_display: final(self).ytdlp_display,
                ytdlp_update_state: final(self).ytdlp_update_state,
                ..*old(self)
            }),
    {
        match ev {
            YtdlpUpdateEvent::Checking => {
                self.ytdlp_display = String::new();
                self.ytdlp_update_state = YtdlpUpdateState::Checking;
                false
            },
            YtdlpUpdateEvent::Version(v) => {
                let mut d = String::from_str("yt-dlp v");
                d.append(v.as_str());
                self.ytdlp_display = d;
                false
            },
            YtdlpUpdateEvent::Current => {
                self.ytdlp_update_state = YtdlpUpdateState::UpToDate;
                false
            },
            YtdlpUpdateEvent::Available(v) => {
                self.ytdlp_update_state = YtdlpUpdateState::Downloading(v);
                false
            },
            YtdlpUpdateEvent::Downloaded => {
                let v = match &self.ytdlp_update_state {
                    YtdlpUpdateState::Downloading(v) => v.clone(),
                    _ => String::new(),
                };
                let mut d = String::from_str("yt-dlp v");
                d.append(v.as_str());
                self.ytdlp_display = d;
                self.ytdlp_update_state = YtdlpUpdateState::Downloaded;
                false
            },
            YtdlpUpdateEvent::Error(e) => {
                self.ytdlp_update_state = YtdlpUpdateState::Error(e);
                false
            },
            YtdlpUpdateEvent::Done => true,
        }
    }

    /// Whether the progress bar is shown: once a run reported any progress.
    pub fn progress_shown(&self) -> (res: bool)
        ensures
            res == (self.progress != ProgressMark::Zero),
    {
        self.progress != ProgressMark::Zero
    }

    /// Whether the progress bar shows completion.
    pub fn progress_complete(&self) -> (res: bool)
        ensures
            res == (self.progress == ProgressMark::Complete),
    {
        self.progress == ProgressMark::Complete
    }
}

/// Within any batch of messages of a run, a batch that carries "done" or an error
/// leaves the window no longer busy, and every status, warning and error adds one
/// log line.
pub proof fn lemma_messages_end_run(r: RunView, lang: Lang, msgs: Seq<Msg<Seq<char>>>)
    ensures
        apply_msgs(r, lang, msgs).ended == (r.ended || exists|i: int|
            0 <= i < msgs.len() && (#[trigger] msgs[i] is Done || msgs[i] is Error)),
        apply_msgs(r, lang, msgs).log.len() == r.log.len() + log_lines(msgs),
    decreases msgs.len(),
{
    if msgs.len() > 0 {
        lemma_messages_end_run(r, lang, msgs.drop_last());
        let p = msgs.drop_last();
        assert forall|i: int| 0 <= i < p.len() implies #[trigger] p[i] == msgs[i] by {}
        if exists|i: int| 0 <= i < p.len() && (#[trigger] p[i] is Done || p[i] is Error) {
            let i = choose|i: int| 0 <= i < p.len() && (#[trigger] p[i] is Done || p[i] is Error);
            assert(msgs[i] == p[i]);
        }
        if exists|i: int| 0 <= i < msgs.len() && (#[trigger] msgs[i] is Done || msgs[i] is Error) {
            let i = choose|i: int| 0 <= i < msgs.len() && (#[trigger] msgs[i] is Done || msgs[i] is Error);
            if i < msgs.len() - 1 {
                assert(p[i] == msgs[i]);
            }
        }
    }
}

/// The number of log lines that `msgs` add: one per status, warning and error.
pub open spec fn log_lines(msgs: Seq<Msg<Seq<char>>>) -> int
    decreases msgs.len(),
{
    if msgs.len() == 0 {
        0
    } else {
        log_lines(msgs.drop_last()) + match msgs.last() {
            Msg::Status(_) | Msg::Warning(_) | Msg::Error(_) => 1int,
            _ => 0int,
        }
    }
}

impl Default for NeuMusicApp {
    /// The window with nothing found yet: no yt-dlp, ffmpeg or output directory, an
    /// empty log, otherwise as at start-up.
    fn default() -> (app: Self)
        ensures
            app.yt_dlp@.len() == 0,
            app.ffmpeg@.len() == 0,
            app.output_dir@.len() == 0,
            app.url@.len() == 0,
            app.local_file is None,
            app.convert_192,
            app.output_format == AudioFormat::Mp3,
            !app.add_silence,
            app.silence_ms@ == "2000"@,
            !app.playlist,
            !app.debloat_enabled,
            app.debloat_bitrate == 0,
            app.lang == Lang::En,
            app.status@ == "Ready"@,
            app.progress == ProgressMark::Zero,
            !app.busy,
            app.log@.len() == 0,
            app.update_state is Idle,
            app.ytdlp_display@.len() == 0,
            app.ytdlp_update_state is Idle,
    {
        NeuMusicApp {
            yt_dlp: String::new(),
            ffmpeg: String::new(),
            url: String::new(),
            output_dir: String::new(),
            local_file: None,
            convert_192: true,
            output_format: AudioFormat::Mp3,
            add_silence: false,
            silence_ms: String::from_str("2000"),
            playlist: false,
            debloat_enabled: false,
            debloat_bitrate: 0,
            lang: Lang::En,
            status: String::from_str("Ready"),
            progress: ProgressMark::Zero,
            busy: false,
            log: Vec::new(),
            update_state: UpdateState::Idle,
            ytdlp_display: String::new(),
            ytdlp_update_state: YtdlpUpdateState::Idle,
        }
    }
}

} // verus!

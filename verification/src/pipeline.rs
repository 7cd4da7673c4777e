//! The processing run behind the Download / Convert button, as a state machine.
//!
//! A run takes one source (a local file, or a URL that yt-dlp downloads, one track
//! or a whole playlist) and, for every resulting file in turn: measures its bitrate,
//! converts it, pads it with silence, re-encodes it at a fixed bitrate, measures it
//! again and removes the leftovers beside it, each step where the settings ask for
//! it. The machine decides; whoever drives it performs each `Action` on the files
//! and hands back the matching `Event`. Every step also yields the messages for the
//! status line, the log and the progress bar.
use vstd::prelude::*;
use crate::ffmpeg::{views, AudioFormat};
use crate::lang::Lang;
use crate::messages::{notice_text, spec_notice_text, Notice};
use crate::path::{
    extension_or_empty, extension_text, file_name, same_path, same_place, spec_file_name, spec_join,
    spec_with_extension, join, with_extension,
};
use crate::selection::{audio_order, find_all_audio, DirEntry};
use crate::text::same_text;

verus! {

/// How far the run has come, as the progress bar shows it: nothing yet, download
/// started (5 %), download finished (30 %), `done` of `total` files finished
/// (30 % + 65 % · done / total), all finished (100 %).
#[derive(PartialEq, Eq, Structural, Clone, Copy, Debug)]
pub enum ProgressMark {
    Zero,
    Started,
    Downloaded,
    Step { done: usize, total: usize },
    Complete,
}

pub open spec fn progress_rank(p: ProgressMark) -> int {
    match p {
        ProgressMark::Zero => 0,
        ProgressMark::Started => 1,
        ProgressMark::Downloaded => 2,
        ProgressMark::Step { .. } => 3,
        ProgressMark::Complete => 4,
    }
}

/// `a` shows no more progress than `b`.
pub open spec fn progress_le(a: ProgressMark, b: ProgressMark) -> bool {
    match (a, b) {
        (ProgressMark::Step { done: d1, total: t1 }, ProgressMark::Step { done: d2, total: t2 }) => d1
            * t2 <= d2 * t1,
        _ => progress_rank(a) <= progress_rank(b),
    }
}

/// A message of a run to the window; `S` is the type of its texts.
pub enum Msg<S> {
    /// A new status line, also appended to the log.
    Status(S),
    /// A warning for the log.
    Warning(S),
    /// The run failed with this error.
    Error(S),
    Progress(ProgressMark),
    /// The run finished.
    Done,
}

impl<S: View<V = Seq<char>>> View for Msg<S> {
    type V = Msg<Seq<char>>;

    open spec fn view(&self) -> Msg<Seq<char>> {
        match self {
            Msg::Status(s) => Msg::Status(s@),
            Msg::Warning(s) => Msg::Warning(s@),
            Msg::Error(s) => Msg::Error(s@),
            Msg::Progress(p) => Msg::Progress(*p),
            Msg::Done => Msg::Done,
        }
    }
}

pub open spec fn msg_views(v: Seq<Msg<String>>) -> Seq<Msg<Seq<char>>> {
    v.map_values(|m: Msg<String>| m@)
}

/// What the machine asks to be done next; file names are names in the output
/// directory.
pub enum Action<S> {
    /// List the names in the output directory.
    ListNames,
    /// Copy the local file into the output directory under this name.
    CopyLocal(S),
    /// Download the URL into the output directory and report the newest audio file.
    Download,
    /// List the files of the output directory with their modification times.
    ListAudio,
    /// Measure the average bitrate of the file, in bits per second.
    Measure(S),
    /// Convert the file to the output format.
    Convert(S),
    /// Pad the file with this many milliseconds of leading silence.
    AddSilence(S, u64),
    /// Re-encode the file at this many kbps.
    Debloat(S, u64),
    /// Remove the leftovers of this finished file.
    Cleanup(S),
    /// Rename the first file to the second.
    Rename(S, S),
    /// The run is over.
    Stop,
}

impl<S: View<V = Seq<char>>> View for Action<S> {
    type V = Action<Seq<char>>;

    open spec fn view(&self) -> Action<Seq<char>> {
        match self {
            Action::ListNames => Action::ListNames,
            Action::CopyLocal(s) => Action::CopyLocal(s@),
            Action::Download => Action::Download,
            Action::ListAudio => Action::ListAudio,
            Action::Measure(s) => Action::Measure(s@),
            Action::Convert(s) => Action::Convert(s@),
            Action::AddSilence(s, ms) => Action::AddSilence(s@, *ms),
            Action::Debloat(s, k) => Action::Debloat(s@, *k),
            Action::Cleanup(s) => Action::Cleanup(s@),
            Action::Rename(a, b) => Action::Rename(a@, b@),
            Action::Stop => Action::Stop,
        }
    }
}

/// What came of an action.
pub enum Event {
    /// The names in the output directory (for `ListNames`).
    Names(Vec<String>),
    /// The copy (for `CopyLocal`), or its error.
    Copied(Result<(), String>),
    /// The name of the downloaded file (for `Download`), or the error.
    Downloaded(Result<String, String>),
    /// The files of the output directory (for `ListAudio`).
    Entries(Vec<DirEntry>),
    /// The measured bitrate in bits per second, where it could be measured (for `Measure`).
    Bitrate(Option<u64>),
    /// The name of the file that resulted (for `Convert`, `AddSilence`, `Debloat`), or the error.
    Produced(Result<String, String>),
    /// Cleanup is over (for `Cleanup`).
    CleanedUp,
    /// The rename (for `Rename`), or its error.
    Renamed(Result<(), String>),
}

/// A local file to process: its name, and whether it already lies in the output
/// directory (so that it is processed as a copy named `_work_<name>` and the
/// result renamed back).
pub struct LocalSource {
    pub name: String,
    pub in_place: bool,
}

/// The local file `local` as a run on the output directory `dir` takes it: its
/// file name (`file` where it has none), and whether the file already lies in
/// `dir` under that name, the two paths compared as `Path`'s `==` compares them.
pub open spec fn spec_local_source(dir: Seq<char>, local: Seq<char>, windows: bool) -> (Seq<char>, bool) {
    let name = match spec_file_name(local, windows) {
        Some(n) => n,
        None => "file"@,
    };
    (name, same_path(spec_join(dir, name, windows), local, windows))
}

pub fn local_source(dir: &str, local: &str, windows: bool) -> (res: LocalSource)
    ensures
        (res.name@, res.in_place) == spec_local_source(dir@, local@, windows),
{
    let name = match file_name(local, windows) {
        Some(n) => n,
        None => String::from_str("file"),
    };
    let dest = join(dir, name.as_str(), windows);
    let in_place = same_place(dest.as_str(), local, windows);
    LocalSource { name, in_place }
}

/// The settings of a run.
pub struct PipelineConfig {
    pub convert: bool,
    pub format: AudioFormat,
    pub silence: bool,
    pub silence_ms: u64,
    pub playlist: bool,
    pub debloat: bool,
    pub debloat_kbps: u64,
    pub lang: Lang,
    pub local: Option<LocalSource>,
}

pub struct ConfigView {
    pub convert: bool,
    pub format: AudioFormat,
    pub silence: bool,
    pub silence_ms: u64,
    pub playlist: bool,
    pub debloat: bool,
    pub debloat_kbps: u64,
    pub lang: Lang,
    pub local: Option<(Seq<char>, bool)>,
}

impl View for PipelineConfig {
    type V = ConfigView;

    open spec fn view(&self) -> ConfigView {
        ConfigView {
            convert: self.convert,
            format: self.format,
            silence: self.silence,
            silence_ms: self.silence_ms,
            playlist: self.playlist,
            debloat: self.debloat,
            debloat_kbps: self.debloat_kbps,
            lang: self.lang,
            local: match self.local {
                Some(l) => Some((l.name@, l.in_place)),
                None => None,
            },
        }
    }
}

/// Where the run stands: which event it waits for.
#[derive(PartialEq, Eq, Structural, Clone, Copy, Debug)]
pub enum Stage {
    Fresh,
    ListingNames,
    Copying,
    Downloading,
    ListingAudio,
    MeasuringSource,
    Converting,
    MeasuringConverted,
    AddingSilence,
    Debloating,
    MeasuringFinal,
    CleaningUp,
    Renaming,
    Stopped,
}

/// The stages spent on one file.
pub open spec fn is_file_stage(st: Stage) -> bool {
    match st {
        Stage::MeasuringSource | Stage::Converting | Stage::MeasuringConverted
        | Stage::AddingSilence | Stage::Debloating | Stage::MeasuringFinal
        | Stage::CleaningUp => true,
        _ => false,
    }
}

pub struct PipelineView {
    pub cfg: ConfigView,
    pub stage: Stage,
    pub snapshot: Seq<Seq<char>>,
    pub files: Seq<Seq<char>>,
    pub idx: int,
    pub current: Seq<char>,
    pub src_kbps: u64,
    pub actual: u64,
    pub first_done: Option<Seq<char>>,
    pub rename_to: Option<Seq<char>>,
    pub progress: ProgressMark,
}

/// A run.
pub struct Pipeline {
    pub cfg: PipelineConfig,
    pub stage: Stage,
    /// The names in the output directory before a playlist download.
    pub snapshot: Vec<String>,
    /// The files to process, in order.
    pub files: Vec<String>,
    /// The index of the file in process.
    pub idx: usize,
    /// The name of the file in process, in its latest form.
    pub current: String,
    /// Bitrate of the file in process before any step, in kbps (0 where unknown).
    pub src_kbps: u64,
    /// Bitrate of the file in process after every step, in kbps (0 where unknown).
    pub actual: u64,
    /// The first file once finished.
    pub first_done: Option<String>,
    /// The name that the first finished file takes back, for a local file processed
    /// as a copy.
    pub rename_to: Option<String>,
    /// The last progress reported.
    pub progress: ProgressMark,
}

pub open spec fn opt_view(o: Option<String>) -> Option<Seq<char>> {
    match o {
        Some(s) => Some(s@),
        None => None,
    }
}

impl View for Pipeline {
    type V = PipelineView;

    open spec fn view(&self) -> PipelineView {
        PipelineView {
            cfg: self.cfg@,
            stage: self.stage,
            snapshot: views(self.snapshot@),
            files: views(self.files@),
            idx: self.idx as int,
            current: self.current@,
            src_kbps: self.src_kbps,
            actual: self.actual,
            first_done: opt_view(self.first_done),
            rename_to: opt_view(self.rename_to),
            progress: self.progress,
        }
    }
}

/// The result of one step: the next state, the messages to send, the next action.
pub struct StepView {
    pub st: PipelineView,
    pub msgs: Seq<Msg<Seq<char>>>,
    pub act: Action<Seq<char>>,
}

/// The state is consistent: the file index never passes the list of files, and
/// points into it while a file is in process.
pub open spec fn view_wf(s: PipelineView) -> bool {
    &&& 0 <= s.idx <= s.files.len() <= usize::MAX
    &&& is_file_stage(s.stage) ==> s.idx < s.files.len()
}

/// The event that answers the action of the current stage.
pub open spec fn expects(s: PipelineView, e: Event) -> bool {
    match (s.stage, e) {
        (Stage::ListingNames, Event::Names(_)) => true,
        (Stage::Copying, Event::Copied(_)) => true,
        (Stage::Downloading, Event::Downloaded(_)) => true,
        (Stage::ListingAudio, Event::Entries(_)) => true,
        (Stage::MeasuringSource, Event::Bitrate(_)) => true,
        (Stage::MeasuringConverted, Event::Bitrate(_)) => true,
        (Stage::MeasuringFinal, Event::Bitrate(_)) => true,
        (Stage::Converting, Event::Produced(_)) => true,
        (Stage::AddingSilence, Event::Produced(_)) => true,
        (Stage::Debloating, Event::Produced(_)) => true,
        (Stage::CleaningUp, Event::CleanedUp) => true,
        (Stage::Renaming, Event::Renamed(_)) => true,
        _ => false,
    }
}

/// Bits per second to whole kbps; an unknown bitrate counts as 0.
pub open spec fn kbps_of(b: Option<u64>) -> u64 {
    match b {
        Some(x) => x / 1000,
        None => 0,
    }
}

pub open spec fn status(s: PipelineView, n: Notice<Seq<char>>) -> Msg<Seq<char>> {
    Msg::Status(spec_notice_text(s.cfg.lang, n))
}

/// The run succeeded: 100 %, "Done" and the end.
pub open spec fn sp_complete(s: PipelineView, m: Seq<Msg<Seq<char>>>) -> StepView {
    StepView {
        st: PipelineView { stage: Stage::Stopped, progress: ProgressMark::Complete, ..s },
        msgs: m.push(Msg::Progress(ProgressMark::Complete)).push(
            status(s, Notice::Finished),
        ).push(Msg::Done),
        act: Action::Stop,
    }
}

/// The run failed with `e`.
pub open spec fn sp_fail(s: PipelineView, m: Seq<Msg<Seq<char>>>, e: Seq<char>) -> StepView {
    StepView {
        st: PipelineView { stage: Stage::Stopped, ..s },
        msgs: m.push(Msg::Error(e)),
        act: Action::Stop,
    }
}

/// The name that the finished copy of a local file takes: the original name with
/// the extension of the finished file.
pub open spec fn restored_name(orig: Seq<char>, finished: Seq<char>) -> Seq<char> {
    spec_with_extension(orig, extension_or_empty(finished))
}

/// Every file is finished: rename the finished copy of a local file back, or end.
pub open spec fn sp_finish(s: PipelineView, m: Seq<Msg<Seq<char>>>) -> StepView {
    match (s.rename_to, s.first_done) {
        (Some(o), Some(f)) => StepView {
            st: PipelineView { stage: Stage::Renaming, ..s },
            msgs: m,
            act: Action::Rename(f, restored_name(o, f)),
        },
        _ => sp_complete(s, m),
    }
}

/// Take up file `s.idx`, or finish where there is none left.
pub open spec fn sp_begin(s: PipelineView, m: Seq<Msg<Seq<char>>>) -> StepView {
    if s.idx < s.files.len() {
        let c = s.files[s.idx];
        StepView {
            st: PipelineView { stage: Stage::MeasuringSource, current: c, ..s },
            msgs: m,
            act: Action::Measure(c),
        }
    } else {
        sp_finish(s, m)
    }
}

pub open spec fn sp_measure_final(s: PipelineView, m: Seq<Msg<Seq<char>>>) -> StepView {
    StepView {
        st: PipelineView { stage: Stage::MeasuringFinal, ..s },
        msgs: m,
        act: Action::Measure(s.current),
    }
}

pub open spec fn sp_after_silence(s: PipelineView, m: Seq<Msg<Seq<char>>>) -> StepView {
    if s.cfg.debloat && s.cfg.debloat_kbps > 0 {
        StepView {
            st: PipelineView { stage: Stage::Debloating, ..s },
            msgs: m.push(status(s, Notice::Debloating(s.cfg.debloat_kbps))),
            act: Action::Debloat(s.current, s.cfg.debloat_kbps),
        }
    } else {
        sp_measure_final(s, m)
    }
}

pub open spec fn sp_after_convert(s: PipelineView, m: Seq<Msg<Seq<char>>>) -> StepView {
    if s.cfg.silence {
        StepView {
            st: PipelineView { stage: Stage::AddingSilence, ..s },
            msgs: m.push(status(s, Notice::AddingSilence)),
            act: Action::AddSilence(s.current, s.cfg.silence_ms),
        }
    } else {
        sp_after_silence(s, m)
    }
}

/// The source is in the output directory: a playlist asks for the new audio files,
/// otherwise the one file is processed.
pub open spec fn sp_select(s: PipelineView, m: Seq<Msg<Seq<char>>>) -> StepView {
    if s.cfg.local is None && s.cfg.playlist {
        StepView { st: PipelineView { stage: Stage::ListingAudio, ..s }, msgs: m, act: Action::ListAudio }
    } else {
        sp_begin(PipelineView { files: seq![s.current], idx: 0, ..s }, m)
    }
}

/// The name under which a local file is copied into the output directory.
pub open spec fn work_name(name: Seq<char>, in_place: bool) -> Seq<char> {
    if in_place {
        "_work_"@ + name
    } else {
        name
    }
}

/// Fetch the source: copy the local file, or download.
pub open spec fn sp_source(s: PipelineView, m: Seq<Msg<Seq<char>>>) -> StepView {
    match s.cfg.local {
        Some((name, in_place)) => {
            let to = work_name(name, in_place);
            StepView {
                st: PipelineView {
                    stage: Stage::Copying,
                    current: to,
                    rename_to: if in_place {
                        Some(name)
                    } else {
                        None
                    },
                    ..s
                },
                msgs: m,
                act: Action::CopyLocal(to),
            }
        },
        None => StepView {
            st: PipelineView { stage: Stage::Downloading, progress: ProgressMark::Started, ..s },
            msgs: m.push(Msg::Progress(ProgressMark::Started)).push(
                status(s, Notice::Downloading),
            ),
            act: Action::Download,
        },
    }
}

/// The first step of a run: a playlist download first lists what the output
/// directory already holds.
pub open spec fn sp_start(s: PipelineView) -> StepView {
    if s.cfg.playlist && s.cfg.local is None {
        StepView {
            st: PipelineView { stage: Stage::ListingNames, ..s },
            msgs: Seq::empty(),
            act: Action::ListNames,
        }
    } else {
        sp_source(s, Seq::empty())
    }
}

/// The names of `names` that are not in `snapshot`, in order.
pub open spec fn fresh_names(names: Seq<Seq<char>>, snapshot: Seq<Seq<char>>) -> Seq<Seq<char>>
    decreases names.len(),
{
    if names.len() == 0 {
        Seq::empty()
    } else {
        let rest = fresh_names(names.drop_last(), snapshot);
        if snapshot.contains(names.last()) {
            rest
        } else {
            rest.push(names.last())
        }
    }
}

/// The files of a playlist download: the audio files of the output directory,
/// oldest first, that were not there before the download.
pub open spec fn playlist_files(es: Seq<DirEntry>, snapshot: Seq<Seq<char>>) -> Seq<Seq<char>> {
    fresh_names(audio_order(es).map_values(|i: usize| es[i as int].name@), snapshot)
}

/// The warning condition: without re-encoding, a source of known bitrate below the
/// format's cap came out at a higher bitrate.
pub open spec fn is_bloated(s: PipelineView) -> bool {
    &&& !s.cfg.debloat
    &&& s.src_kbps > 0
    &&& s.actual > s.src_kbps
    &&& s.src_kbps < s.cfg.format.spec_target_kbps()
}

/// The name of the local file of a run, if it has one.
pub open spec fn local_name(s: PipelineView) -> Seq<char> {
    match s.cfg.local {
        Some((n, _)) => n,
        None => Seq::empty(),
    }
}

/// One step of a run: the state, messages and action that follow event `e`.
pub open spec fn sp_step(s: PipelineView, e: Event) -> StepView {
    let none = Seq::<Msg<Seq<char>>>::empty();
    match (s.stage, e) {
        (Stage::ListingNames, Event::Names(ns)) => sp_source(
            PipelineView { snapshot: views(ns@), ..s },
            none,
        ),
        (Stage::Copying, Event::Copied(Ok(_))) => sp_select(
            s,
            seq![status(s, Notice::LocalFile(local_name(s)))],
        ),
        (Stage::Copying, Event::Copied(Err(err))) => sp_fail(s, none, err@),
        (Stage::Downloading, Event::Downloaded(Ok(n))) => sp_select(
            PipelineView { current: n@, progress: ProgressMark::Downloaded, ..s },
            seq![Msg::Progress(ProgressMark::Downloaded), status(s, Notice::Downloaded)],
        ),
        (Stage::Downloading, Event::Downloaded(Err(err))) => sp_fail(s, none, err@),
        (Stage::ListingAudio, Event::Entries(es)) => sp_begin(
            PipelineView { files: playlist_files(es@, s.snapshot), idx: 0, ..s },
            none,
        ),
        (Stage::MeasuringSource, Event::Bitrate(b)) => {
            let s1 = PipelineView { src_kbps: kbps_of(b), ..s };
            if s.cfg.convert {
                let p = ProgressMark::Step { done: s.idx as usize, total: s.files.len() as usize };
                StepView {
                    st: PipelineView { stage: Stage::Converting, progress: p, ..s1 },
                    msgs: seq![Msg::Progress(p), status(s, Notice::Converting(s.cfg.format))],
                    act: Action::Convert(s.current),
                }
            } else {
                sp_after_convert(s1, none)
            }
        },
        (Stage::Converting, Event::Produced(Ok(n))) => StepView {
            st: PipelineView { stage: Stage::MeasuringConverted, current: n@, ..s },
            msgs: none,
            act: Action::Measure(n@),
        },
        (Stage::MeasuringConverted, Event::Bitrate(b)) => sp_after_convert(
            s,
            seq![
                status(
                    s,
                    Notice::Converted(
                        match b {
                            Some(x) => Some(x / 1000),
                            None => None,
                        },
                    ),
                ),
            ],
        ),
        (Stage::AddingSilence, Event::Produced(Ok(n))) => sp_after_silence(
            PipelineView { current: n@, ..s },
            seq![status(s, Notice::SilenceAdded)],
        ),
        (Stage::Debloating, Event::Produced(Ok(n))) => sp_measure_final(
            PipelineView { current: n@, ..s },
            seq![status(s, Notice::Debloated(s.cfg.debloat_kbps))],
        ),
        (Stage::Converting, Event::Produced(Err(err))) => sp_fail(s, none, err@),
        (Stage::AddingSilence, Event::Produced(Err(err))) => sp_fail(s, none, err@),
        (Stage::Debloating, Event::Produced(Err(err))) => sp_fail(s, none, err@),
        (Stage::MeasuringFinal, Event::Bitrate(b)) => {
            let a = kbps_of(b);
            StepView {
                st: PipelineView { stage: Stage::CleaningUp, actual: a, ..s },
                msgs: if a > 0 {
                    seq![status(s, Notice::FinalBitrate(a))]
                } else {
                    none
                },
                act: Action::Cleanup(s.current),
            }
        },
        (Stage::CleaningUp, Event::CleanedUp) => {
            let w = if is_bloated(s) {
                seq![
                    Msg::Warning(
                        spec_notice_text(s.cfg.lang, Notice::PossiblyBloated(s.src_kbps, s.actual)),
                    ),
                ]
            } else {
                none
            };
            let p = ProgressMark::Step { done: (s.idx + 1) as usize, total: s.files.len() as usize };
            sp_begin(
                PipelineView {
                    idx: s.idx + 1,
                    progress: p,
                    first_done: if s.idx == 0 {
                        Some(s.current)
                    } else {
                        s.first_done
                    },
                    ..s
                },
                w.push(Msg::Progress(p)),
            )
        },
        (Stage::Renaming, Event::Renamed(Ok(_))) => sp_complete(s, none),
        (Stage::Renaming, Event::Renamed(Err(err))) => sp_fail(s, none, err@),
        _ => StepView { st: s, msgs: none, act: Action::Stop },
    }
}

/// The outcome of one step.
pub struct Output {
    pub messages: Vec<Msg<String>>,
    pub action: Action<String>,
}

pub open spec fn produced(s: PipelineView, out: Output, r: StepView) -> bool {
    &&& s == r.st
    &&& msg_views(out.messages@) == r.msgs
    &&& out.action@ == r.act
}

fn push_msg(msgs: &mut Vec<Msg<String>>, m: Msg<String>)
    ensures
        msg_views(final(msgs)@) == msg_views(old(msgs)@).push(m@),
{
    msgs.push(m);
    assert(msg_views(msgs@) =~= msg_views(old(msgs)@).push(m@));
}

fn fresh_names_exec(names: &Vec<String>, snapshot: &Vec<String>) -> (res: Vec<String>)
    ensures
        views(res@) == fresh_names(views(names@), views(snapshot@)),
{
    let mut res: Vec<String> = Vec::new();
    let mut i: usize = 0;
    while i < names.len()
        invariant
            i <= names@.len(),
            views(res@) == fresh_names(views(names@).take(i as int), views(snapshot@)),
        decreases names.len() - i,
    {
        let mut seen = false;
        let mut j: usize = 0;
        while j < snapshot.len()
            invariant
                i < names@.len(),
                j <= snapshot@.len(),
                seen == exists|k: int| 0 <= k < j && snapshot@[k]@ == names@[i as int]@,
            decreases snapshot.len() - j,
        {
            if same_text(snapshot[j].as_str(), names[i].as_str()) {
                seen = true;
            }
            j = j + 1;
        }
        let ghost t = views(names@).take(i + 1);
        assert(t.drop_last() =~= views(names@).take(i as int));
        assert(t.last() == names@[i as int]@);
        assert(seen == views(snapshot@).contains(names@[i as int]@)) by {
            if seen {
                let k = choose|k: int| 0 <= k < snapshot@.len() && snapshot@[k]@ == names@[i as int]@;
                assert(views(snapshot@)[k] == names@[i as int]@);
            }
            if views(snapshot@).contains(names@[i as int]@) {
                let k = choose|k: int| 0 <= k < views(snapshot@).len() && views(snapshot@)[k] == names@[i as int]@;
                assert(snapshot@[k]@ == names@[i as int]@);
            }
        }
        if !seen {
            let ghost before = views(res@);
            res.push(names[i].clone());
            assert(views(res@) =~= before.push(names@[i as int]@));
        }
        i = i + 1;
    }
    assert(views(names@).take(names@.len() as int) =~= views(names@));
    res
}

impl Pipeline {
    pub open spec fn wf(&self) -> bool {
        view_wf(self@)
    }

    /// A run with the given settings, not started yet.
    pub fn new(cfg: PipelineConfig) -> (p: Pipeline)
        ensures
            p@.cfg == cfg@,
            p@.stage == Stage::Fresh,
            p@.progress == ProgressMark::Zero,
            p@.snapshot.len() == 0,
            p@.files.len() == 0,
            p@.idx == 0,
            p@.current.len() == 0,
            p@.src_kbps == 0,
            p@.actual == 0,
            p@.first_done is None,
            p@.rename_to is None,
            p.wf(),
    {
        let p = Pipeline {
            cfg,
            stage: Stage::Fresh,
            snapshot: Vec::new(),
            files: Vec::new(),
            idx: 0,
            current: String::new(),
            src_kbps: 0,
            actual: 0,
            first_done: None,
            rename_to: None,
            progress: ProgressMark::Zero,
        };
        assert(views(p.files@) =~= Seq::<Seq<char>>::empty());
        assert(views(p.snapshot@) =~= Seq::<Seq<char>>::empty());
        p
    }

    fn complete(&mut self, msgs: &mut Vec<Msg<String>>) -> (act: Action<String>)
        ensures
            produced(final(self)@, Output { messages: *final(msgs), action: act }, sp_complete(old(self)@, msg_views(old(msgs)@))),
    {
        let ghost s = self@;
        push_msg(msgs, Msg::Progress(ProgressMark::Complete));
        push_msg(msgs, Msg::Status(notice_text(self.cfg.lang, &Notice::Finished)));
        push_msg(msgs, Msg::Done);
        self.stage = Stage::Stopped;
        self.progress = ProgressMark::Complete;
        Action::Stop
    }

    fn fail(&mut self, msgs: &mut Vec<Msg<String>>, err: String) -> (act: Action<String>)
        ensures
            produced(final(self)@, Output { messages: *final(msgs), action: act }, sp_fail(old(self)@, msg_views(old(msgs)@), err@)),
    {
        push_msg(msgs, Msg::Error(err));
        self.stage = Stage::Stopped;
        Action::Stop
    }

    fn finish(&mut self, msgs: &mut Vec<Msg<String>>) -> (act: Action<String>)
        ensures
            produced(final(self)@, Output { messages: *final(msgs), action: act }, sp_finish(old(self)@, msg_views(old(msgs)@))),
    {
        match (&self.rename_to, &self.first_done) {
            (Some(o), Some(f)) => {
                let to = with_extension(o.as_str(), extension_text(f.as_str()).as_str());
                let from = f.clone();
                self.stage = Stage::Renaming;
                Action::Rename(from, to)
            },
            _ => self.complete(msgs),
        }
    }

    fn begin(&mut self, msgs: &mut Vec<Msg<String>>) -> (act: Action<String>)
        requires
            old(self).idx <= old(self).files.len(),
        ensures
            produced(final(self)@, Output { messages: *final(msgs), action: act }, sp_begin(old(self)@, msg_views(old(msgs)@))),
    {
        if self.idx < self.files.len() {
            let c = self.files[self.idx].clone();
            self.current = c.clone();
            self.stage = Stage::MeasuringSource;
            Action::Measure(c)
        } else {
            self.finish(msgs)
        }
    }

    fn measure_final(&mut self, msgs: &mut Vec<Msg<String>>) -> (act: Action<String>)
        ensures
            produced(final(self)@, Output { messages: *final(msgs), action: act }, sp_measure_final(old(self)@, msg_views(old(msgs)@))),
    {
        self.stage = Stage::MeasuringFinal;
        Action::Measure(self.current.clone())
    }

    fn after_silence(&mut self, msgs: &mut Vec<Msg<String>>) -> (act: Action<String>)
        ensures
            produced(final(self)@, Output { messages: *final(msgs), action: act }, sp_after_silence(old(self)@, msg_views(old(msgs)@))),
    {
        if self.cfg.debloat && self.cfg.debloat_kbps > 0 {
            let k = self.cfg.debloat_kbps;
            push_msg(msgs, Msg::Status(notice_text(self.cfg.lang, &Notice::Debloating(k))));
            self.stage = Stage::Debloating;
            Action::Debloat(self.current.clone(), k)
        } else {
            self.measure_final(msgs)
        }
    }

    fn after_convert(&mut self, msgs: &mut Vec<Msg<String>>) -> (act: Action<String>)
        ensures
            produced(final(self)@, Output { messages: *final(msgs), action: act }, sp_after_convert(old(self)@, msg_views(old(msgs)@))),
    {
        if self.cfg.silence {
            push_msg(msgs, Msg::Status(notice_text(self.cfg.lang, &Notice::AddingSilence)));
            self.stage = Stage::AddingSilence;
            Action::AddSilence(self.current.clone(), self.cfg.silence_ms)
        } else {
            self.after_silence(msgs)
        }
    }

    fn select(&mut self, msgs: &mut Vec<Msg<String>>) -> (act: Action<String>)
        ensures
            produced(final(self)@, Output { messages: *final(msgs), action: act }, sp_select(old(self)@, msg_views(old(msgs)@))),
    {
        if self.cfg.local.is_none() && self.cfg.playlist {
            self.stage = Stage::ListingAudio;
            Action::ListAudio
        } else {
            let mut files: Vec<String> = Vec::new();
            files.push(self.current.clone());
            assert(views(files@) =~= seq![self.current@]);
            self.files = files;
            self.idx = 0;
            self.begin(msgs)
        }
    }

    fn source(&mut self, msgs: &mut Vec<Msg<String>>) -> (act: Action<String>)
        ensures
            produced(final(self)@, Output { messages: *final(msgs), action: act }, sp_source(old(self)@, msg_views(old(msgs)@))),
    {
        match &self.cfg.local {
            Some(l) => {
                let to = if l.in_place {
                    let mut w = String::from_str("_work_");
                    w.append(l.name.as_str());
                    w
                } else {
                    l.name.clone()
                };
                self.rename_to = if l.in_place {
                    Some(l.name.clone())
                } else {
                    None
                };
                self.current = to.clone();
                self.stage = Stage::Copying;
                Action::CopyLocal(to)
            },
            None => {
                push_msg(msgs, Msg::Progress(ProgressMark::Started));
                push_msg(msgs, Msg::Status(notice_text(self.cfg.lang, &Notice::Downloading)));
                self.stage = Stage::Downloading;
                self.progress = ProgressMark::Started;
                Action::Download
            },
        }
    }

    /// Whether `e` answers the action that the run waits on.
    pub fn accepts(&self, e: &Event) -> (res: bool)
        ensures
            res == expects(self@, *e),
    {
        match (self.stage, e) {
            (Stage::ListingNames, Event::Names(_)) => true,
            (Stage::Copying, Event::Copied(_)) => true,
            (Stage::Downloading, Event::Downloaded(_)) => true,
            (Stage::ListingAudio, Event::Entries(_)) => true,
            (Stage::MeasuringSource, Event::Bitrate(_)) => true,
            (Stage::MeasuringConverted, Event::Bitrate(_)) => true,
            (Stage::MeasuringFinal, Event::Bitrate(_)) => true,
            (Stage::Converting, Event::Produced(_)) => true,
            (Stage::AddingSilence, Event::Produced(_)) => true,
            (Stage::Debloating, Event::Produced(_)) => true,
            (Stage::CleaningUp, Event::CleanedUp) => true,
            (Stage::Renaming, Event::Renamed(_)) => true,
            _ => false,
        }
    }

    /// Start the run.
    pub fn start(&mut self) -> (out: Output)
        requires
            old(self).stage == Stage::Fresh,
            old(self).wf(),
        ensures
            produced(final(self)@, out, sp_start(old(self)@)),
            final(self).wf(),
    {
        let mut msgs: Vec<Msg<String>> = Vec::new();
        assert(msg_views(msgs@) =~= Seq::<Msg<Seq<char>>>::empty());
        let action = if self.cfg.playlist && self.cfg.local.is_none() {
            self.stage = Stage::ListingNames;
            Action::ListNames
        } else {
            self.source(&mut msgs)
        };
        Output { messages: msgs, action }
    }

    /// Take in what came of the last action and go on.
    pub fn step(&mut self, e: Event) -> (out: Output)
        requires
            old(self).wf(),
            expects(old(self)@, e),
        ensures
            produced(final(self)@, out, sp_step(old(self)@, e)),
            final(self).wf(),
    {
        match e {
            Event::Names(ns) => self.on_names(ns),
            Event::Copied(r) => self.on_copied(r),
            Event::Downloaded(r) => self.on_downloaded(r),
            Event::Entries(es) => self.on_entries(es),
            Event::Bitrate(b) => {
                match self.stage {
                    Stage::MeasuringSource => self.on_source_bitrate(b),
                    Stage::MeasuringConverted => self.on_converted_bitrate(b),
                    _ => self.on_final_bitrate(b),
                }
            },
            Event::Produced(r) => self.on_produced(r),
            Event::CleanedUp => self.on_cleaned_up(),
            Event::Renamed(r) => self.on_renamed(r),
        }
    }

    fn on_names(&mut self, ns: Vec<String>) -> (out: Output)
        requires
            old(self).wf(),
            old(self).stage == Stage::ListingNames,
        ensures
            produced(final(self)@, out, sp_step(old(self)@, Event::Names(ns))),
            final(self).wf(),
    {
        let mut msgs: Vec<Msg<String>> = Vec::new();
        assert(msg_views(msgs@) =~= Seq::<Msg<Seq<char>>>::empty());
        self.snapshot = ns;
        let action = self.source(&mut msgs);
        Output { messages: msgs, action }
    }

    fn on_copied(&mut self, r: Result<(), String>) -> (out: Output)
        requires
            old(self).wf(),
            old(self).stage == Stage::Copying,
        ensures
            produced(final(self)@, out, sp_step(old(self)@, Event::Copied(r))),
            final(self).wf(),
    {
        let ghost s = self@;
        let mut msgs: Vec<Msg<String>> = Vec::new();
        assert(msg_views(msgs@) =~= Seq::<Msg<Seq<char>>>::empty());
        let action = match r {
            Ok(()) => {
                let name = match &self.cfg.local {
                    Some(l) => l.name.clone(),
                    None => String::new(),
                };
                assert(name@ == local_name(s));
                push_msg(&mut msgs, Msg::Status(notice_text(self.cfg.lang, &Notice::LocalFile(name))));
                assert(msg_views(msgs@) =~= seq![status(s, Notice::LocalFile(local_name(s)))]);
                self.select(&mut msgs)
            },
            Err(err) => self.fail(&mut msgs, err),
        };
        Output { messages: msgs, action }
    }

    fn on_downloaded(&mut self, r: Result<String, String>) -> (out: Output)
        requires
            old(self).wf(),
            old(self).stage == Stage::Downloading,
        ensures
            produced(final(self)@, out, sp_step(old(self)@, Event::Downloaded(r))),
            final(self).wf(),
    {
        let ghost s = self@;
        let mut msgs: Vec<Msg<String>> = Vec::new();
        assert(msg_views(msgs@) =~= Seq::<Msg<Seq<char>>>::empty());
        let action = match r {
            Ok(n) => {
                push_msg(&mut msgs, Msg::Progress(ProgressMark::Downloaded));
                push_msg(&mut msgs, Msg::Status(notice_text(self.cfg.lang, &Notice::Downloaded)));
                assert(msg_views(msgs@) =~= seq![Msg::Progress(ProgressMark::Downloaded), status(s, Notice::Downloaded)]);
                self.current = n;
                self.progress = ProgressMark::Downloaded;
                self.select(&mut msgs)
            },
            Err(err) => self.fail(&mut msgs, err),
        };
        Output { messages: msgs, action }
    }

    fn on_entries(&mut self, es: Vec<DirEntry>) -> (out: Output)
        requires
            old(self).wf(),
            old(self).stage == Stage::ListingAudio,
        ensures
            produced(final(self)@, out, sp_step(old(self)@, Event::Entries(es))),
            final(self).wf(),
    {
        let mut msgs: Vec<Msg<String>> = Vec::new();
        assert(msg_views(msgs@) =~= Seq::<Msg<Seq<char>>>::empty());
        let order = find_all_audio(&es);
        let mut names: Vec<String> = Vec::new();
        let mut k: usize = 0;
        while k < order.len()
            invariant
                k <= order@.len(),
                order@ == audio_order(es@),
                forall|p: int| 0 <= p < order@.len() ==> #[trigger] order@[p] < es@.len(),
                views(names@) == order@.take(k as int).map_values(|i: usize| es@[i as int].name@),
            decreases order.len() - k,
        {
            let ghost before = views(names@);
            names.push(es[order[k]].name.clone());
            assert(views(names@) =~= order@.take(k + 1).map_values(|i: usize| es@[i as int].name@)) by {
                assert(views(names@) =~= before.push(es@[order@[k as int] as int].name@));
            }
            k = k + 1;
        }
        assert(order@.take(order@.len() as int) =~= order@);
        self.files = fresh_names_exec(&names, &self.snapshot);
        assert(self.files@.len() == self.files.len());
        self.idx = 0;
        let action = self.begin(&mut msgs);
        Output { messages: msgs, action }
    }

    fn on_source_bitrate(&mut self, b: Option<u64>) -> (out: Output)
        requires
            old(self).wf(),
            old(self).stage == Stage::MeasuringSource,
        ensures
            produced(final(self)@, out, sp_step(old(self)@, Event::Bitrate(b))),
            final(self).wf(),
    {
        let ghost s = self@;
        let mut msgs: Vec<Msg<String>> = Vec::new();
        assert(msg_views(msgs@) =~= Seq::<Msg<Seq<char>>>::empty());
        self.src_kbps = match b {
            Some(x) => x / 1000,
            None => 0,
        };
        let action = if self.cfg.convert {
            let p = ProgressMark::Step { done: self.idx, total: self.files.len() };
            push_msg(&mut msgs, Msg::Progress(p));
            push_msg(&mut msgs, Msg::Status(notice_text(self.cfg.lang, &Notice::Converting(self.cfg.format))));
            assert(msg_views(msgs@) =~= seq![Msg::Progress(p), status(s, Notice::Converting(s.cfg.format))]);
            self.stage = Stage::Converting;
            self.progress = p;
            Action::Convert(self.current.clone())
        } else {
            self.after_convert(&mut msgs)
        };
        Output { messages: msgs, action }
    }

    fn on_converted_bitrate(&mut self, b: Option<u64>) -> (out: Output)
        requires
            old(self).wf(),
            old(self).stage == Stage::MeasuringConverted,
        ensures
            produced(final(self)@, out, sp_step(old(self)@, Event::Bitrate(b))),
            final(self).wf(),
    {
        let ghost s = self@;
        let mut msgs: Vec<Msg<String>> = Vec::new();
        assert(msg_views(msgs@) =~= Seq::<Msg<Seq<char>>>::empty());
        let shown: Option<u64> = match b {
            Some(x) => Some(x / 1000),
            None => None,
        };
        push_msg(&mut msgs, Msg::Status(notice_text(self.cfg.lang, &Notice::Converted(shown))));
        assert(msg_views(msgs@) =~= seq![status(s, Notice::Converted(shown))]);
        let action = self.after_convert(&mut msgs);
        Output { messages: msgs, action }
    }

    fn on_final_bitrate(&mut self, b: Option<u64>) -> (out: Output)
        requires
            old(self).wf(),
            old(self).stage == Stage::MeasuringFinal,
        ensures
            produced(final(self)@, out, sp_step(old(self)@, Event::Bitrate(b))),
            final(self).wf(),
    {
        let ghost s = self@;
        let mut msgs: Vec<Msg<String>> = Vec::new();
        assert(msg_views(msgs@) =~= Seq::<Msg<Seq<char>>>::empty());
        let kbps: u64 = match b {
            Some(x) => x / 1000,
            None => 0,
        };
        self.actual = kbps;
        if kbps > 0 {
            push_msg(&mut msgs, Msg::Status(notice_text(self.cfg.lang, &Notice::FinalBitrate(kbps))));
        }
        assert(msg_views(msgs@) =~= (if kbps > 0 {
            seq![status(s, Notice::FinalBitrate(kbps))]
        } else {
            Seq::<Msg<Seq<char>>>::empty()
        }));
        self.stage = Stage::CleaningUp;
        Output { messages: msgs, action: Action::Cleanup(self.current.clone()) }
    }

    fn on_produced(&mut self, r: Result<String, String>) -> (out: Output)
        requires
            old(self).wf(),
            old(self).stage == Stage::Converting || old(self).stage == Stage::AddingSilence
                || old(self).stage == Stage::Debloating,
        ensures
            produced(final(self)@, out, sp_step(old(self)@, Event::Produced(r))),
            final(self).wf(),
    {
        let ghost s = self@;
        let mut msgs: Vec<Msg<String>> = Vec::new();
        assert(msg_views(msgs@) =~= Seq::<Msg<Seq<char>>>::empty());
        let action = match r {
            Err(err) => self.fail(&mut msgs, err),
            Ok(n) => {
                match self.stage {
                    Stage::Converting => {
                        self.current = n.clone();
                        self.stage = Stage::MeasuringConverted;
                        Action::Measure(n)
                    },
                    Stage::AddingSilence => {
                        push_msg(&mut msgs, Msg::Status(notice_text(self.cfg.lang, &Notice::SilenceAdded)));
                        assert(msg_views(msgs@) =~= seq![status(s, Notice::SilenceAdded)]);
                        self.current = n;
                        self.after_silence(&mut msgs)
                    },
                    _ => {
                        push_msg(&mut msgs, Msg::Status(notice_text(self.cfg.lang, &Notice::Debloated(self.cfg.debloat_kbps))));
                        assert(msg_views(msgs@) =~= seq![status(s, Notice::Debloated(s.cfg.debloat_kbps))]);
                        self.current = n;
                        self.measure_final(&mut msgs)
                    },
                }
            },
        };
        Output { messages: msgs, action }
    }

    fn on_cleaned_up(&mut self) -> (out: Output)
        requires
            old(self).wf(),
            old(self).stage == Stage::CleaningUp,
        ensures
            produced(final(self)@, out, sp_step(old(self)@, Event::CleanedUp)),
            final(self).wf(),
    {
        let ghost s = self@;
        let mut msgs: Vec<Msg<String>> = Vec::new();
        assert(msg_views(msgs@) =~= Seq::<Msg<Seq<char>>>::empty());
        let total = self.files.len();
        let next = self.idx + 1;
        if !self.cfg.debloat && self.src_kbps > 0 && self.actual > self.src_kbps && self.src_kbps
            < self.cfg.format.target_kbps() {
            push_msg(&mut msgs, Msg::Warning(notice_text(self.cfg.lang, &Notice::PossiblyBloated(self.src_kbps, self.actual))));
        }
        let p = ProgressMark::Step { done: next, total };
        push_msg(&mut msgs, Msg::Progress(p));
        if self.idx == 0 {
            self.first_done = Some(self.current.clone());
        }
        self.idx = next;
        self.progress = p;
        let action = self.begin(&mut msgs);
        Output { messages: msgs, action }
    }

    fn on_renamed(&mut self, r: Result<(), String>) -> (out: Output)
        requires
            old(self).wf(),
            old(self).stage == Stage::Renaming,
        ensures
            produced(final(self)@, out, sp_step(old(self)@, Event::Renamed(r))),
            final(self).wf(),
    {
        let mut msgs: Vec<Msg<String>> = Vec::new();
        assert(msg_views(msgs@) =~= Seq::<Msg<Seq<char>>>::empty());
        let action = match r {
            Ok(()) => self.complete(&mut msgs),
            Err(err) => self.fail(&mut msgs, err),
        };
        Output { messages: msgs, action }
    }
}

} // verus!

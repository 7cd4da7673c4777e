//! Downloading with yt-dlp: its command line, the retry that lets SoundCloud offer
//! every format, and the watch over the running process that cancelling can end.
use vstd::prelude::*;
use crate::ffmpeg::{push_text, views};
use crate::path::{join, spec_join};
use crate::selection::{audio_at, find_newest_audio, time_le, DirEntry};

verus! {

/// The output template of yt-dlp: the title and the extension of the track.
pub open spec fn template_name() -> Seq<char> {
    "%(title)s.%(ext)s"@
}

/// The arguments of the first attempt: best audio only, extracted, written through
/// the output template in `dir`; ffmpeg's directory where known; one track unless a
/// playlist is asked for; the URL last.
pub open spec fn spec_download_args(
    dir: Seq<char>,
    url: Seq<char>,
    playlist: bool,
    ffmpeg_dir: Option<Seq<char>>,
    windows: bool,
) -> Seq<Seq<char>> {
    seq!["-f"@, "bestaudio/best"@, "-x"@, "-o"@, spec_join(dir, template_name(), windows)] + (
    match ffmpeg_dir {
        Some(d) => seq!["--ffmpeg-location"@, d],
        None => Seq::empty(),
    }) + (if playlist {
        Seq::empty()
    } else {
        seq!["--no-playlist"@]
    }) + seq![url]
}

pub fn download_args(dir: &str, url: &str, playlist: bool, ffmpeg_dir: Option<&str>, windows: bool) -> (res:
    Vec<String>)
    ensures
        views(res@) == spec_download_args(
            dir@,
            url@,
            playlist,
            match ffmpeg_dir {
                Some(d) => Some(d@),
                None => None,
            },
            windows,
        ),
{
    let mut args: Vec<String> = Vec::new();
    push_text(&mut args, "-f");
    push_text(&mut args, "bestaudio/best");
    push_text(&mut args, "-x");
    push_text(&mut args, "-o");
    let template = join(dir, "%(title)s.%(ext)s", windows);
    push_text(&mut args, template.as_str());
    match ffmpeg_dir {
        Some(d) => {
            push_text(&mut args, "--ffmpeg-location");
            push_text(&mut args, d);
        },
        None => {},
    }
    if !playlist {
        push_text(&mut args, "--no-playlist");
    }
    push_text(&mut args, url);
    proof {
        let fd = match ffmpeg_dir {
            Some(d) => Some(d@),
            None => None,
        };
        assert(views(args@) =~= spec_download_args(dir@, url@, playlist, fd, windows));
    }
    args
}

/// The arguments of the retry: the first attempt's, behind the request to take
/// every SoundCloud format.
pub open spec fn spec_retry_args(args: Seq<Seq<char>>) -> Seq<Seq<char>> {
    seq!["--extractor-args"@, "soundcloud:formats=*"@] + args
}

pub fn retry_args(args: &Vec<String>) -> (res: Vec<String>)
    ensures
        views(res@) == spec_retry_args(views(args@)),
{
    let mut res: Vec<String> = Vec::new();
    push_text(&mut res, "--extractor-args");
    push_text(&mut res, "soundcloud:formats=*");
    let mut i: usize = 0;
    while i < args.len()
        invariant
            i <= args@.len(),
            views(res@) == spec_retry_args(views(args@).take(i as int)),
        decreases args.len() - i,
    {
        push_text(&mut res, args[i].as_str());
        assert(views(args@).take(i + 1) =~= views(args@).take(i as int).push(args@[i as int]@));
        assert(views(res@) =~= spec_retry_args(views(args@).take(i + 1)));
        i = i + 1;
    }
    assert(views(args@).take(args@.len() as int) =~= views(args@));
    res
}

/// What the process slot holds when it is looked at.
pub enum ChildState {
    /// The slot is empty: the process was taken away.
    Missing,
    /// The process is still running.
    Running,
    /// The process exited, successfully or not.
    Exited(bool),
    /// Asking the process for its state failed with this error.
    WaitFailed(String),
}

/// What to do after looking at the running yt-dlp.
pub enum Poll {
    /// Look again after a while.
    Wait,
    /// Kill the process, wait for it, and fail with this text.
    Kill(String),
    /// Empty the slot: yt-dlp finished, successfully or not.
    Finished(bool),
    /// Empty the slot and fail with this text.
    Failed(String),
    /// Fail with this text.
    Vanished(String),
}

pub open spec fn cancelled_by_user() -> Seq<char> {
    "Отменено пользователем"@
}

/// One look at the running yt-dlp: cancelling wins; then an exited process ends the
/// attempt, an error of the query fails it, a missing process fails it.
pub fn poll_child(cancelled: bool, child: ChildState) -> (res: Poll)
    ensures
        cancelled ==> (res matches Poll::Kill(t) && t@ == cancelled_by_user()),
        !cancelled ==> match child {
            ChildState::Missing => res matches Poll::Vanished(t) && t@ == "Процесс yt-dlp был завершён"@,
            ChildState::Running => res is Wait,
            ChildState::Exited(ok) => res == Poll::Finished(ok),
            ChildState::WaitFailed(e) => res matches Poll::Failed(t) && t@ == "Ошибка yt-dlp: "@ + e@,
        },
{
    if cancelled {
        return Poll::Kill(String::from_str("Отменено пользователем"));
    }
    match child {
        ChildState::Missing => Poll::Vanished(String::from_str("Процесс yt-dlp был завершён")),
        ChildState::Running => Poll::Wait,
        ChildState::Exited(ok) => Poll::Finished(ok),
        ChildState::WaitFailed(e) => {
            let mut t = String::from_str("Ошибка yt-dlp: ");
            t.append(e.as_str());
            Poll::Failed(t)
        },
    }
}

/// The message when yt-dlp cannot be started.
pub fn launch_failure(error: &str) -> (res: String)
    ensures
        res@ == "Не удалось запустить yt-dlp: "@ + error@,
{
    let mut t = String::from_str("Не удалось запустить yt-dlp: ");
    t.append(error);
    t
}

/// Where a download stands.
#[derive(PartialEq, Eq, Structural, Clone, Copy, Debug)]
pub enum DownloadStage {
    FirstAttempt,
    Retry,
    Finding,
    Over,
}

/// What a download asks for next.
pub enum DownloadAction {
    /// Run yt-dlp with these arguments.
    Run(Vec<String>),
    /// List the files of the output directory with their modification times.
    ListFiles,
    /// The download is over: the name of the downloaded file, or the error.
    Finish(Result<String, String>),
}

/// What came of a download action.
pub enum DownloadEvent {
    /// yt-dlp ran (whether it succeeded) or could not be run; and whether the user
    /// asked to cancel.
    Ran(Result<bool, String>, bool),
    /// The files of the output directory.
    Listed(Vec<DirEntry>),
}

/// A download: the arguments of its first attempt and where it stands.
pub struct Download {
    pub args: Vec<String>,
    pub stage: DownloadStage,
}

pub open spec fn not_found() -> Seq<char> {
    "Не найден скачанный аудиофайл"@
}

pub open spec fn drm_failure() -> Seq<char> {
    "yt-dlp: ошибка загрузки. Возможно, контент защищён DRM."@
}

impl Download {
    /// A download that starts by running yt-dlp with `args`.
    pub fn start(args: Vec<String>) -> (res: (Download, DownloadAction))
        ensures
            res.0.stage == DownloadStage::FirstAttempt,
            res.0.args@ == args@,
            res.1 matches DownloadAction::Run(a) && a@ == args@,
    {
        let first = args.clone();
        assert(first@ =~= args@) by {
            assert forall|i: int| 0 <= i < args@.len() implies first@[i] == args@[i] by {
                assert(cloned::<String>(args@[i], first@[i]));
            }
        }
        (Download { args, stage: DownloadStage::FirstAttempt }, DownloadAction::Run(first))
    }

    /// Go on after `e`.
    pub fn step(&mut self, e: DownloadEvent) -> (act: DownloadAction)
        requires
            old(self).stage == DownloadStage::FirstAttempt || old(self).stage == DownloadStage::Retry
                ==> e is Ran,
            old(self).stage == DownloadStage::Finding ==> e is Listed,
            old(self).stage != DownloadStage::Over,
        ensures
            final(self).args == old(self).args,
            match (old(self).stage, e) {
                (_, DownloadEvent::Ran(Err(err), _)) => (act matches DownloadAction::Finish(Err(t))
                    && t@ == err@ && final(self).stage == DownloadStage::Over),
                (_, DownloadEvent::Ran(Ok(true), _)) => act is ListFiles && final(self).stage
                    == DownloadStage::Finding,
                (DownloadStage::FirstAttempt, DownloadEvent::Ran(Ok(false), true)) => (act matches DownloadAction::Finish(Err(t))
                    && t@ == "Отменено"@ && final(self).stage == DownloadStage::Over),
                (DownloadStage::FirstAttempt, DownloadEvent::Ran(Ok(false), false)) => (act matches DownloadAction::Run(a)
                    && views(a@) == spec_retry_args(views(old(self).args@)) && final(self).stage
                    == DownloadStage::Retry),
                (DownloadStage::Retry, DownloadEvent::Ran(Ok(false), _)) => (act matches DownloadAction::Finish(Err(t))
                    && t@ == drm_failure() && final(self).stage == DownloadStage::Over),
                (_, DownloadEvent::Listed(es)) => final(self).stage == DownloadStage::Over && match act {
                    DownloadAction::Finish(Ok(name)) => exists|i: int|
                        {
                            &&& audio_at(es@, i)
                            &&& name@ == es@[i].name@
                            &&& forall|k: int| #![trigger audio_at(es@, k)]
                                audio_at(es@, k) ==> time_le(es@[k].modified, es@[i].modified)
                            &&& forall|k: int| #![trigger audio_at(es@, k)]
                                i < k && audio_at(es@, k) ==> !time_le(es@[i].modified, es@[k].modified)
                        },
                    DownloadAction::Finish(Err(t)) => t@ == not_found() && forall|k: int| !audio_at(es@, k),
                    _ => false,
                },
                _ => true,
            },
    {
        match e {
            DownloadEvent::Ran(Err(err), _) => {
                self.stage = DownloadStage::Over;
                DownloadAction::Finish(Err(err))
            },
            DownloadEvent::Ran(Ok(true), _) => {
                self.stage = DownloadStage::Finding;
                DownloadAction::ListFiles
            },
            DownloadEvent::Ran(Ok(false), cancelled) => {
                if self.stage == DownloadStage::FirstAttempt {
                    if cancelled {
                        self.stage = DownloadStage::Over;
                        DownloadAction::Finish(Err(String::from_str("Отменено")))
                    } else {
                        self.stage = DownloadStage::Retry;
                        DownloadAction::Run(retry_args(&self.args))
                    }
                } else {
                    self.stage = DownloadStage::Over;
                    DownloadAction::Finish(
                        Err(String::from_str("yt-dlp: ошибка загрузки. Возможно, контент защищён DRM.")),
                    )
                }
            },
            DownloadEvent::Listed(es) => {
                self.stage = DownloadStage::Over;
                match find_newest_audio(&es) {
                    Some(i) => {
                        let name = es[i].name.clone();
                        assert(audio_at(es@, i as int));
                        DownloadAction::Finish(Ok(name))
                    },
                    None => DownloadAction::Finish(Err(String::from_str("Не найден скачанный аудиофайл"))),
                }
            },
        }
    }
}

} // verus!

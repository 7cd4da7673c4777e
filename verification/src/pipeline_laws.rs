//! What every run keeps: progress never goes back, each file passes its steps in
//! one fixed order, the bloat warning comes exactly when its condition holds, and
//! a run ends once, with "done" or with the error.
use vstd::prelude::*;
use crate::messages::{spec_notice_text, Notice};
use crate::lang::Lang;
use crate::selection::{audio_at, audio_order, lemma_audio_order_len, DirEntry};
use crate::pipeline::{
    fresh_names, playlist_files, expects, is_bloated, is_file_stage, progress_le, progress_rank, sp_start, sp_step, view_wf, Action,
    Event, Msg, PipelineView, ProgressMark, Stage,
};

verus! {

/// The progress marks among `msgs`, starting from `p`, never go back; the last
/// mark reached, or `None` where one goes back.
pub open spec fn climb(p: ProgressMark, msgs: Seq<Msg<Seq<char>>>) -> Option<ProgressMark>
    decreases msgs.len(),
{
    if msgs.len() == 0 {
        Some(p)
    } else {
        match msgs[0] {
            Msg::Progress(q) => if progress_le(p, q) {
                climb(q, msgs.drop_first())
            } else {
                None
            },
            _ => climb(p, msgs.drop_first()),
        }
    }
}

/// What the last progress mark of a run can be at each stage.
pub open spec fn progress_inv(s: PipelineView) -> bool {
    match s.stage {
        Stage::Fresh | Stage::ListingNames | Stage::Copying => s.progress == ProgressMark::Zero,
        Stage::Downloading => s.progress == ProgressMark::Started,
        Stage::ListingAudio => progress_rank(s.progress) <= 2,
        Stage::Renaming | Stage::Stopped => true,
        _ => {
            &&& progress_rank(s.progress) <= 3
            &&& s.progress is Step ==> s.progress->total == s.files.len() && s.progress->done <= s.idx
        },
    }
}

/// The rank of a stage among the steps spent on one file.
pub open spec fn file_rank(st: Stage) -> int {
    match st {
        Stage::MeasuringSource => 0,
        Stage::Converting => 1,
        Stage::MeasuringConverted => 2,
        Stage::AddingSilence => 3,
        Stage::Debloating => 4,
        Stage::MeasuringFinal => 5,
        _ => 6,
    }
}

pub open spec fn has_warning(msgs: Seq<Msg<Seq<char>>>) -> bool {
    exists|i: int| 0 <= i < msgs.len() && #[trigger] msgs[i] is Warning
}

/// The message that ends a run: "done" or the error.
pub open spec fn is_end(m: Msg<Seq<char>>) -> bool {
    m is Done || m is Error
}

proof fn lemma_step_mul(d1: nat, d2: nat, t: nat)
    requires
        d1 <= d2,
    ensures
        d1 * t <= d2 * t,
{
    assert(d1 * t <= d2 * t) by (nonlinear_arith)
        requires
            d1 <= d2,
    ;
}

/// A fresh run starts with its progress at zero and climbs from there.
pub proof fn lemma_start_progress(s: PipelineView)
    requires
        view_wf(s),
        s.stage == Stage::Fresh,
        s.progress == ProgressMark::Zero,
    ensures
        progress_inv(sp_start(s).st),
        climb(s.progress, sp_start(s).msgs) == Some(sp_start(s).st.progress),
{
    reveal_with_fuel(climb, 3);
}

/// Progress never goes back: within one step the marks rise, starting from the last
/// mark of the state before and ending at the last mark of the state after.
pub proof fn lemma_progress_never_decreases(s: PipelineView, e: Event)
    requires
        view_wf(s),
        progress_inv(s),
        expects(s, e),
    ensures
        progress_inv(sp_step(s, e).st),
        climb(s.progress, sp_step(s, e).msgs) == Some(sp_step(s, e).st.progress),
{
    reveal_with_fuel(climb, 6);
    let r = sp_step(s, e);
    match (s.stage, e) {
        (Stage::MeasuringSource, Event::Bitrate(_)) => {
            if s.progress is Step {
                lemma_step_mul(s.progress->done as nat, s.idx as nat, s.files.len());
            }
        },
        (Stage::CleaningUp, Event::CleanedUp) => {
            if s.progress is Step {
                lemma_step_mul(s.progress->done as nat, (s.idx + 1) as nat, s.files.len());
            }
        },
        _ => {},
    }
}

/// Each file passes its steps in one order: source bitrate, conversion, converted
/// bitrate, silence, re-encoding, final bitrate, cleanup. A step on a file either
/// moves to a later step of the same file, or, from cleanup, to the next file, or
/// ends the run.
pub proof fn lemma_file_steps_in_order(s: PipelineView, e: Event)
    requires
        view_wf(s),
        expects(s, e),
        is_file_stage(s.stage),
    ensures
        ({
            let r = sp_step(s, e);
            ||| r.st.stage == Stage::Stopped
            ||| r.st.stage == Stage::Renaming
            ||| (r.st.idx == s.idx && is_file_stage(r.st.stage) && file_rank(s.stage) < file_rank(
                r.st.stage,
            ))
            ||| (s.stage == Stage::CleaningUp && r.st.idx == s.idx + 1)
        }),
{
}

/// Every file is measured first, as it came, whatever else the settings ask for: a
/// step that takes up a file asks for the bitrate of that very file.
pub proof fn lemma_source_measured_first(s: PipelineView, e: Event)
    requires
        view_wf(s),
        expects(s, e),
    ensures
        ({
            let r = sp_step(s, e);
            r.st.stage == Stage::MeasuringSource ==> {
                &&& r.st.idx < r.st.files.len()
                &&& r.st.current == r.st.files[r.st.idx]
                &&& r.act == Action::Measure(r.st.files[r.st.idx])
            }
        }),
        sp_start(s).st.stage != Stage::MeasuringSource,
{
}

/// The warning about a possibly bloated file comes with the cleanup of a file, and
/// exactly when no re-encoding was asked for and a source of known bitrate below the
/// format's cap came out at a higher bitrate.
pub proof fn lemma_bloat_warning(s: PipelineView, e: Event)
    requires
        view_wf(s),
        expects(s, e),
    ensures
        has_warning(sp_step(s, e).msgs) <==> (s.stage == Stage::CleaningUp && is_bloated(s)),
{
    reveal_with_fuel(climb, 1);
    let r = sp_step(s, e);
    if s.stage == Stage::CleaningUp && is_bloated(s) {
        assert(r.msgs[0] is Warning);
    }
    if has_warning(r.msgs) {
        let i = choose|i: int| 0 <= i < r.msgs.len() && #[trigger] r.msgs[i] is Warning;
        if !(s.stage == Stage::CleaningUp && is_bloated(s)) {
            assert(!(r.msgs[i] is Warning));
        }
    }
}

/// A run ends exactly when it asks for nothing more; its last message then is
/// "done" or the error, and no step before carries either.
pub proof fn lemma_run_ends_once(s: PipelineView, e: Event)
    requires
        view_wf(s),
        expects(s, e),
    ensures
        ({
            let r = sp_step(s, e);
            &&& (r.act is Stop <==> r.st.stage == Stage::Stopped)
            &&& r.act is Stop ==> r.msgs.len() > 0 && is_end(r.msgs.last())
            &&& forall|i: int| 0 <= i < r.msgs.len() - 1 ==> !is_end(#[trigger] r.msgs[i])
            &&& !(r.act is Stop) ==> forall|i: int| 0 <= i < r.msgs.len() ==> !is_end(#[trigger] r.msgs[i])
        }),
{
}

/// A failed action ends the run with its error as the only message.
pub proof fn lemma_failure_ends_run(s: PipelineView, e: Event, err: String)
    requires
        view_wf(s),
        expects(s, e),
        e == Event::Copied(Err(err)) || e == Event::Downloaded(Err(err)) || e == Event::Produced(
            Err(err),
        ) || e == Event::Renamed(Err(err)),
    ensures
        sp_step(s, e).act is Stop,
        sp_step(s, e).st.stage == Stage::Stopped,
        sp_step(s, e).msgs == seq![Msg::Error(err@)],
{
    assert(sp_step(s, e).msgs =~= seq![Msg::Error(err@)]);
}

/// A progress mark that lies within the bar: a file mark counts at most all files,
/// of which there is at least one.
pub open spec fn mark_in_range(m: Msg<Seq<char>>) -> bool {
    match m {
        Msg::Progress(ProgressMark::Step { done, total }) => 0 < total && done <= total,
        _ => true,
    }
}

pub open spec fn marks_in_range(msgs: Seq<Msg<Seq<char>>>) -> bool {
    forall|i: int| 0 <= i < msgs.len() ==> mark_in_range(#[trigger] msgs[i])
}

/// Messages that end with "done" end with 100 %, then "Done" in `lang`, then "done".
pub open spec fn done_after_complete(msgs: Seq<Msg<Seq<char>>>, lang: Lang) -> bool {
    msgs.len() > 0 && msgs.last() is Done ==> {
        &&& msgs.len() >= 3
        &&& msgs[msgs.len() - 3] == Msg::<Seq<char>>::Progress(ProgressMark::Complete)
        &&& msgs[msgs.len() - 2] == Msg::Status(spec_notice_text(lang, Notice::Finished))
    }
}

/// The state after the events `es`, from `s`.
pub open spec fn run_state(s: PipelineView, es: Seq<Event>) -> PipelineView
    decreases es.len(),
{
    if es.len() == 0 {
        s
    } else {
        run_state(sp_step(s, es[0]).st, es.drop_first())
    }
}

/// The messages sent on the way through the events `es`, from `s`, in order.
pub open spec fn run_msgs(s: PipelineView, es: Seq<Event>) -> Seq<Msg<Seq<char>>>
    decreases es.len(),
{
    if es.len() == 0 {
        Seq::empty()
    } else {
        let r = sp_step(s, es[0]);
        r.msgs + run_msgs(r.st, es.drop_first())
    }
}

/// Each event of `es` answers the action that the run asks for at that point.
pub open spec fn answers(s: PipelineView, es: Seq<Event>) -> bool
    decreases es.len(),
{
    es.len() == 0 || (expects(s, es[0]) && answers(sp_step(s, es[0]).st, es.drop_first()))
}

proof fn lemma_fresh_names_len(names: Seq<Seq<char>>, snapshot: Seq<Seq<char>>)
    ensures
        fresh_names(names, snapshot).len() <= names.len(),
    decreases names.len(),
{
    if names.len() > 0 {
        lemma_fresh_names_len(names.drop_last(), snapshot);
    }
}

/// One step keeps the state consistent and the settings as they were; its progress
/// marks lie within the bar, and if it ends the run with "done", 100 % and "Done"
/// come right before.
proof fn lemma_step_shape(s: PipelineView, e: Event)
    requires
        view_wf(s),
        expects(s, e),
    ensures
        view_wf(sp_step(s, e).st),
        sp_step(s, e).st.cfg == s.cfg,
        marks_in_range(sp_step(s, e).msgs),
        done_after_complete(sp_step(s, e).msgs, s.cfg.lang),
{
    if let Event::Entries(v) = e {
        assert(v@.len() == v.len());
        lemma_audio_order_len(v@);
        lemma_fresh_names_len(
            audio_order(v@).map_values(|i: usize| v@[i as int].name@),
            s.snapshot,
        );
        assert(playlist_files(v@, s.snapshot).len() <= v@.len());
    }
}

proof fn lemma_climb_append(p: ProgressMark, a: Seq<Msg<Seq<char>>>, b: Seq<Msg<Seq<char>>>)
    ensures
        climb(p, a + b) == match climb(p, a) {
            Some(q) => climb(q, b),
            None => None,
        },
    decreases a.len(),
{
    if a.len() == 0 {
        assert(a + b =~= b);
    } else {
        assert((a + b)[0] == a[0]);
        assert((a + b).drop_first() =~= a.drop_first() + b);
        match a[0] {
            Msg::Progress(q) => {
                if progress_le(p, q) {
                    lemma_climb_append(q, a.drop_first(), b);
                }
            },
            _ => {
                lemma_climb_append(p, a.drop_first(), b);
            },
        }
    }
}

proof fn lemma_marks_append(a: Seq<Msg<Seq<char>>>, b: Seq<Msg<Seq<char>>>)
    requires
        marks_in_range(a),
        marks_in_range(b),
    ensures
        marks_in_range(a + b),
{
    assert forall|i: int| 0 <= i < (a + b).len() implies mark_in_range(#[trigger] (a + b)[i]) by {
        if i < a.len() {
            assert((a + b)[i] == a[i]);
        } else {
            assert((a + b)[i] == b[i - a.len()]);
        }
    }
}

proof fn lemma_done_append(a: Seq<Msg<Seq<char>>>, b: Seq<Msg<Seq<char>>>, lang: Lang)
    requires
        done_after_complete(a, lang),
        done_after_complete(b, lang),
    ensures
        done_after_complete(a + b, lang),
{
    let c = a + b;
    if b.len() == 0 {
        assert(c =~= a);
    } else if c.last() is Done {
        assert(c.last() == b.last());
        assert(c[c.len() - 3] == b[b.len() - 3]);
        assert(c[c.len() - 2] == b[b.len() - 2]);
    }
}

/// Through any events that answer the run's actions, from a consistent state.
proof fn lemma_run_from(s: PipelineView, es: Seq<Event>)
    requires
        view_wf(s),
        progress_inv(s),
        answers(s, es),
    ensures
        climb(s.progress, run_msgs(s, es)) == Some(run_state(s, es).progress),
        marks_in_range(run_msgs(s, es)),
        done_after_complete(run_msgs(s, es), s.cfg.lang),
        run_state(s, es).cfg == s.cfg,
    decreases es.len(),
{
    if es.len() > 0 {
        let r = sp_step(s, es[0]);
        lemma_step_shape(s, es[0]);
        lemma_progress_never_decreases(s, es[0]);
        lemma_run_from(r.st, es.drop_first());
        lemma_climb_append(s.progress, r.msgs, run_msgs(r.st, es.drop_first()));
        lemma_marks_append(r.msgs, run_msgs(r.st, es.drop_first()));
        lemma_done_append(r.msgs, run_msgs(r.st, es.drop_first()), s.cfg.lang);
    }
}

/// Over a whole run, from its start through any events that answer its actions:
/// the progress marks never go back and end at the run's last mark, every file mark
/// lies within the bar (between none and all of at least one file), and a run that
/// ends with "done" sends 100 % and then "Done" in its language right before.
pub proof fn lemma_whole_run_progress(s: PipelineView, es: Seq<Event>)
    requires
        view_wf(s),
        s.stage == Stage::Fresh,
        s.progress == ProgressMark::Zero,
        answers(sp_start(s).st, es),
    ensures
        ({
            let all = sp_start(s).msgs + run_msgs(sp_start(s).st, es);
            &&& climb(ProgressMark::Zero, all) == Some(run_state(sp_start(s).st, es).progress)
            &&& marks_in_range(all)
            &&& done_after_complete(all, s.cfg.lang)
        }),
{
    let st = sp_start(s);
    lemma_start_progress(s);
    assert(view_wf(st.st) && st.st.cfg == s.cfg);
    assert(marks_in_range(st.msgs));
    assert(done_after_complete(st.msgs, s.cfg.lang));
    lemma_run_from(st.st, es);
    lemma_climb_append(ProgressMark::Zero, st.msgs, run_msgs(st.st, es));
    lemma_marks_append(st.msgs, run_msgs(st.st, es));
    lemma_done_append(st.msgs, run_msgs(st.st, es), s.cfg.lang);
}

/// Re-encoding is opt-in: a step asks for a re-encode only where the run's
/// settings switch it on with a bitrate above zero, and then at exactly that
/// bitrate; the start of a run never asks for one.
pub proof fn lemma_debloat_only_when_enabled(s: PipelineView, e: Event)
    requires
        view_wf(s),
        expects(s, e),
    ensures
        sp_step(s, e).act is Debloat ==> {
            &&& s.cfg.debloat
            &&& s.cfg.debloat_kbps > 0
            &&& sp_step(s, e).act->Debloat_1 == s.cfg.debloat_kbps
            &&& sp_step(s, e).st.stage == Stage::Debloating
        },
        !s.cfg.debloat ==> !(sp_step(s, e).act is Debloat) && sp_step(s, e).st.stage != Stage::Debloating,
        !(sp_start(s).act is Debloat),
{
}

/// A name survives the playlist filter exactly when it was listed and is not in the
/// snapshot taken before the download.
pub proof fn lemma_fresh_names_filter(names: Seq<Seq<char>>, snapshot: Seq<Seq<char>>, x: Seq<char>)
    ensures
        fresh_names(names, snapshot).contains(x) <==> (names.contains(x) && !snapshot.contains(x)),
    decreases names.len(),
{
    if names.len() > 0 {
        let rest = names.drop_last();
        lemma_fresh_names_filter(rest, snapshot, x);
        let f = fresh_names(rest, snapshot);
        if names.contains(x) && !snapshot.contains(x) {
            let i = choose|i: int| 0 <= i < names.len() && names[i] == x;
            if i < names.len() - 1 {
                assert(rest[i] == x);
            }
            if !f.contains(x) {
                assert(names.last() == x);
                assert(fresh_names(names, snapshot) == f.push(x));
                assert(f.push(x)[f.len() as int] == x);
            } else {
                let j = choose|j: int| 0 <= j < f.len() && f[j] == x;
                if !snapshot.contains(names.last()) {
                    assert(f.push(names.last())[j] == x);
                }
            }
        }
        if fresh_names(names, snapshot).contains(x) {
            let r = fresh_names(names, snapshot);
            let j = choose|j: int| 0 <= j < r.len() && r[j] == x;
            if !snapshot.contains(names.last()) && j == f.len() {
                assert(names[names.len() - 1] == x);
            } else {
                if !snapshot.contains(names.last()) {
                    assert(r[j] == f[j]);
                }
                assert(f.contains(x));
                let i = choose|i: int| 0 <= i < rest.len() && rest[i] == x;
                assert(names[i] == x);
            }
        }
    }
}

/// A playlist run processes exactly the audio files of the output directory that
/// were not there before the download.
pub proof fn lemma_playlist_files_are_new_audio(es: Seq<DirEntry>, snapshot: Seq<Seq<char>>, x: Seq<char>)
    requires
        es.len() <= usize::MAX,
    ensures
        playlist_files(es, snapshot).contains(x) <==> (
            (exists|k: int| audio_at(es, k) && #[trigger] es[k].name@ == x)
            && !snapshot.contains(x)),
{
    lemma_audio_order_len(es);
    let o = audio_order(es);
    let names = o.map_values(|i: usize| es[i as int].name@);
    lemma_fresh_names_filter(names, snapshot, x);
    if names.contains(x) {
        let p = choose|p: int| 0 <= p < names.len() && names[p] == x;
        assert(audio_at(es, o[p] as int));
        assert(es[o[p] as int].name@ == x);
    }
    if exists|k: int| audio_at(es, k) && #[trigger] es[k].name@ == x {
        let k = choose|k: int| audio_at(es, k) && #[trigger] es[k].name@ == x;
        assert(audio_at(es, k));
        assert(o.contains(k as usize));
        let p = choose|p: int| 0 <= p < o.len() && o[p] == k as usize;
        assert(names[p] == x);
    }
}

} // verus!

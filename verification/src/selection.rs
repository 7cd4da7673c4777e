//! Choosing among the files of the output directory: the audio files, the newest
//! of them, all of them oldest first, and the leftovers that a finished file leaves.
use vstd::prelude::*;
use crate::path::{extension_text, extension_or_empty, file_stem, spec_file_stem};
use crate::text::{ends_with, has_prefix, has_suffix, same_text, starts_with};

verus! {

/// A file of the output directory: its name and its modification time in
/// nanoseconds since the Unix epoch, where the system reported one.
pub struct DirEntry {
    pub name: String,
    pub modified: Option<i128>,
}

/// The extensions of the audio files that a download may leave.
pub const AUDIO_EXTS: [&'static str; 9] = [
    "mp3",
    "m4a",
    "webm",
    "opus",
    "mka",
    "ogg",
    "aac",
    "wav",
    "flac",
];

/// The extensions of intermediate files that cleanup removes.
pub const CLEANUP_EXTS: [&'static str; 8] = ["m4a", "webm", "opus", "mka", "ogg", "aac", "wav", "flac"];

/// `e` is one of the texts of `list`.
pub open spec fn listed(list: Seq<&'static str>, e: Seq<char>) -> bool {
    exists|i: int| 0 <= i < list.len() && #[trigger] list[i]@ == e
}

fn in_list(list: &[&'static str], e: &str) -> (res: bool)
    ensures
        res == listed(list@, e@),
{
    let mut i: usize = 0;
    while i < list.len()
        invariant
            i <= list@.len(),
            forall|k: int| 0 <= k < i ==> list@[k]@ != e@,
        decreases list.len() - i,
    {
        if same_text(list[i], e) {
            assert(list@[i as int]@ == e@);
            return true;
        }
        i = i + 1;
    }
    false
}

/// A file whose extension marks it as audio.
pub open spec fn is_audio_name(name: Seq<char>) -> bool {
    match crate::path::spec_extension(name) {
        Some(e) => listed(AUDIO_EXTS@, e),
        None => false,
    }
}

pub fn audio_name(name: &str) -> (res: bool)
    ensures
        res == is_audio_name(name@),
{
    match crate::path::extension(name) {
        Some(e) => in_list(AUDIO_EXTS.as_slice(), e.as_str()),
        None => false,
    }
}

/// The order of modification times: an unknown time comes before every known one.
pub open spec fn time_le(a: Option<i128>, b: Option<i128>) -> bool {
    match (a, b) {
        (None, _) => true,
        (Some(_), None) => false,
        (Some(x), Some(y)) => x <= y,
    }
}

fn time_le_exec(a: Option<i128>, b: Option<i128>) -> (res: bool)
    ensures
        res == time_le(a, b),
{
    match (a, b) {
        (None, _) => true,
        (Some(_), None) => false,
        (Some(x), Some(y)) => x <= y,
    }
}

pub open spec fn audio_at(es: Seq<DirEntry>, k: int) -> bool {
    0 <= k < es.len() && is_audio_name(es[k].name@)
}

/// The newest audio file (`Iterator::max_by_key` on the modification time): an audio
/// file with the latest time, the last such where several share it; `None` where
/// there is no audio file.
pub fn find_newest_audio(entries: &Vec<DirEntry>) -> (res: Option<usize>)
    ensures
        match res {
            None => forall|k: int| !audio_at(entries@, k),
            Some(i) => {
                &&& audio_at(entries@, i as int)
                &&& forall|k: int| #![trigger audio_at(entries@, k)]
                    audio_at(entries@, k) ==> time_le(entries@[k].modified, entries@[i as int].modified)
                &&& forall|k: int| #![trigger audio_at(entries@, k)]
                    i < k && audio_at(entries@, k) ==> !time_le(entries@[i as int].modified, entries@[k].modified)
            },
        },
{
    let mut best: Option<usize> = None;
    let mut i: usize = 0;
    while i < entries.len()
        invariant
            i <= entries@.len(),
            match best {
                None => forall|k: int| 0 <= k < i ==> !audio_at(entries@, k),
                Some(b) => {
                    &&& b < i
                    &&& audio_at(entries@, b as int)
                    &&& forall|k: int| #![trigger audio_at(entries@, k)]
                        0 <= k < i && audio_at(entries@, k) ==> time_le(entries@[k].modified, entries@[b as int].modified)
                    &&& forall|k: int| #![trigger audio_at(entries@, k)]
                        b < k < i && audio_at(entries@, k) ==> !time_le(entries@[b as int].modified, entries@[k].modified)
                },
            },
        decreases entries.len() - i,
    {
        if audio_name(entries[i].name.as_str()) {
            match best {
                None => {
                    best = Some(i);
                },
                Some(b) => {
                    if time_le_exec(entries[b].modified, entries[i].modified) {
                        best = Some(i);
                    }
                },
            }
        }
        i = i + 1;
    }
    best
}

/// `out` is the audio files of `es` by index, each once, oldest first, files of the
/// same time in directory order (a stable sort by modification time).
pub open spec fn oldest_first(es: Seq<DirEntry>, out: Seq<usize>) -> bool {
    &&& forall|k: int| #![trigger audio_at(es, k)] audio_at(es, k) ==> out.contains(k as usize)
    &&& forall|p: int| 0 <= p < out.len() ==> audio_at(es, #[trigger] out[p] as int)
    &&& forall|p: int, q: int| 0 <= p < q < out.len() ==> #[trigger] out[p] != #[trigger] out[q]
    &&& forall|p: int, q: int|
        0 <= p < q < out.len() ==> time_le(
            es[#[trigger] out[p] as int].modified,
            es[#[trigger] out[q] as int].modified,
        )
    &&& forall|p: int, q: int|
        0 <= p < q < out.len() && es[#[trigger] out[p] as int].modified == es[#[trigger] out[
            q] as int].modified ==> out[p] < out[q]
}

/// File `a` comes before file `b` in the oldest-first order: it is older, or as old
/// and earlier in the directory.
pub open spec fn comes_before(es: Seq<DirEntry>, a: usize, b: usize) -> bool {
    &&& a != b
    &&& time_le(es[a as int].modified, es[b as int].modified)
    &&& (es[a as int].modified == es[b as int].modified ==> a < b)
}

proof fn lemma_comes_before_asymmetric(es: Seq<DirEntry>, a: usize, b: usize)
    ensures
        !(comes_before(es, a, b) && comes_before(es, b, a)),
{
    if comes_before(es, a, b) && comes_before(es, b, a) {
        assert(es[a as int].modified == es[b as int].modified);
    }
}

proof fn lemma_same_order(es: Seq<DirEntry>, o1: Seq<usize>, o2: Seq<usize>)
    requires
        forall|p: int, q: int| 0 <= p < q < o1.len() ==> comes_before(es, #[trigger] o1[p], #[trigger] o1[q]),
        forall|p: int, q: int| 0 <= p < q < o2.len() ==> comes_before(es, #[trigger] o2[p], #[trigger] o2[q]),
        forall|x: usize| o1.contains(x) <==> o2.contains(x),
    ensures
        o1 == o2,
    decreases o1.len(),
{
    if o1.len() == 0 {
        if o2.len() > 0 {
            assert(o2.contains(o2[0]));
        }
        assert(o1 =~= o2);
    } else if o2.len() == 0 {
        assert(o1.contains(o1[0]));
    } else {
        let x = o1[0];
        let y = o2[0];
        assert(o1.contains(x));
        assert(o2.contains(y));
        let j = choose|j: int| 0 <= j < o2.len() && o2[j] == x;
        let i = choose|i: int| 0 <= i < o1.len() && o1[i] == y;
        if x != y {
            assert(j > 0 && i > 0);
            assert(comes_before(es, o2[0], o2[j]));
            assert(comes_before(es, o1[0], o1[i]));
            lemma_comes_before_asymmetric(es, x, y);
        }
        let t1 = o1.drop_first();
        let t2 = o2.drop_first();
        assert forall|z: usize| t1.contains(z) <==> t2.contains(z) by {
            if t1.contains(z) {
                let p = choose|p: int| 0 <= p < t1.len() && t1[p] == z;
                assert(o1[p + 1] == z);
                assert(comes_before(es, o1[0], o1[p + 1]));
                assert(o1.contains(z));
                assert(o2.contains(z));
                let q = choose|q: int| 0 <= q < o2.len() && o2[q] == z;
                assert(q != 0);
                assert(t2[q - 1] == z);
            }
            if t2.contains(z) {
                let p = choose|p: int| 0 <= p < t2.len() && t2[p] == z;
                assert(o2[p + 1] == z);
                assert(comes_before(es, o2[0], o2[p + 1]));
                assert(o2.contains(z));
                assert(o1.contains(z));
                let q = choose|q: int| 0 <= q < o1.len() && o1[q] == z;
                assert(q != 0);
                assert(t1[q - 1] == z);
            }
        }
        assert forall|p: int, q: int| 0 <= p < q < t1.len() implies comes_before(es, #[trigger] t1[p], #[trigger] t1[q]) by {
            assert(t1[p] == o1[p + 1] && t1[q] == o1[q + 1]);
        }
        assert forall|p: int, q: int| 0 <= p < q < t2.len() implies comes_before(es, #[trigger] t2[p], #[trigger] t2[q]) by {
            assert(t2[p] == o2[p + 1] && t2[q] == o2[q + 1]);
        }
        lemma_same_order(es, t1, t2);
        assert(o1 =~= o2) by {
            assert forall|k: int| 0 <= k < o1.len() implies o1[k] == o2[k] by {
                if k > 0 {
                    assert(o1[k] == t1[k - 1]);
                    assert(o2[k] == t2[k - 1]);
                }
            }
        }
    }
}

/// The oldest-first order is fully determined by the entries: two orders that
/// both meet it are the same.
pub proof fn lemma_oldest_first_unique(es: Seq<DirEntry>, o1: Seq<usize>, o2: Seq<usize>)
    requires
        oldest_first(es, o1),
        oldest_first(es, o2),
    ensures
        o1 == o2,
{
    assert forall|p: int, q: int| 0 <= p < q < o1.len() implies comes_before(es, #[trigger] o1[p], #[trigger] o1[q]) by {}
    assert forall|p: int, q: int| 0 <= p < q < o2.len() implies comes_before(es, #[trigger] o2[p], #[trigger] o2[q]) by {}
    assert forall|x: usize| o1.contains(x) <==> o2.contains(x) by {
        if o1.contains(x) {
            let p = choose|p: int| 0 <= p < o1.len() && o1[p] == x;
            assert(audio_at(es, o1[p] as int));
        }
        if o2.contains(x) {
            let p = choose|p: int| 0 <= p < o2.len() && o2[p] == x;
            assert(audio_at(es, o2[p] as int));
        }
    }
    lemma_same_order(es, o1, o2);
}

/// `o` orders the audio files among the first `i` entries of `es` oldest first.
spec fn sorted_upto(es: Seq<DirEntry>, o: Seq<usize>, i: int) -> bool {
    &&& forall|k: int| #![trigger audio_at(es, k)] 0 <= k < i && audio_at(es, k) ==> o.contains(k as usize)
    &&& forall|p: int| 0 <= p < o.len() ==> audio_at(es, #[trigger] o[p] as int) && o[p] < i
    &&& forall|p: int, q: int| 0 <= p < q < o.len() ==> #[trigger] o[p] != #[trigger] o[q]
    &&& forall|p: int, q: int|
        0 <= p < q < o.len() ==> time_le(es[#[trigger] o[p] as int].modified, es[#[trigger] o[q] as int].modified)
    &&& forall|p: int, q: int|
        0 <= p < q < o.len() && es[#[trigger] o[p] as int].modified == es[#[trigger] o[q] as int].modified
            ==> o[p] < o[q]
}

/// Where a file of time `key` goes in the sorted `o`: after every file no later
/// than it.
spec fn insert_pos(es: Seq<DirEntry>, o: Seq<usize>, key: Option<i128>) -> int
    decreases o.len(),
{
    if o.len() == 0 {
        0
    } else if time_le(es[o.last() as int].modified, key) {
        o.len() as int
    } else {
        insert_pos(es, o.drop_last(), key)
    }
}

proof fn lemma_insert_pos(es: Seq<DirEntry>, o: Seq<usize>, key: Option<i128>)
    ensures
        0 <= insert_pos(es, o, key) <= o.len(),
        forall|p: int| insert_pos(es, o, key) <= p < o.len() ==> !time_le(es[#[trigger] o[p] as int].modified, key),
        insert_pos(es, o, key) > 0 ==> time_le(es[o[insert_pos(es, o, key) - 1] as int].modified, key),
    decreases o.len(),
{
    if o.len() > 0 && !time_le(es[o.last() as int].modified, key) {
        let t = o.drop_last();
        lemma_insert_pos(es, t, key);
        assert forall|p: int| insert_pos(es, o, key) <= p < o.len() implies !time_le(es[#[trigger] o[p] as int].modified, key) by {
            if p < t.len() {
                assert(o[p] == t[p]);
            }
        }
    }
}

/// An order of the audio files among the first `n` entries, at most `n` long.
proof fn lemma_sorted_prefix(es: Seq<DirEntry>, n: int) -> (o: Seq<usize>)
    requires
        0 <= n <= es.len(),
        es.len() <= usize::MAX,
    ensures
        sorted_upto(es, o, n),
        o.len() <= n,
    decreases n,
{
    if n == 0 {
        Seq::empty()
    } else {
        let i = n - 1;
        let old_out = lemma_sorted_prefix(es, i);
        if !audio_at(es, i) {
            old_out
        } else {
            let key = es[i].modified;
            lemma_insert_pos(es, old_out, key);
            let pos = insert_pos(es, old_out, key);
            assert forall|p: int| 0 <= p < pos implies time_le(es[#[trigger] old_out[p] as int].modified, key) by {
                if p < pos - 1 {
                    assert(time_le(es[old_out[p] as int].modified, es[old_out[pos - 1] as int].modified));
                }
            }
            let o = old_out.insert(pos, i as usize);
            old_out.insert_ensures(pos, i as usize);
            assert forall|p: int| 0 <= p < o.len() implies audio_at(es, #[trigger] o[p] as int) && o[p] < n by {
                if p < pos {
                    assert(o[p] == old_out[p]);
                } else if p > pos {
                    assert(o[p] == old_out[p - 1]);
                }
            }
            assert forall|p: int, q: int| 0 <= p < q < o.len() implies #[trigger] o[p] != #[trigger] o[q]
                && time_le(es[o[p] as int].modified, es[o[q] as int].modified)
                && (es[o[p] as int].modified == es[o[q] as int].modified ==> o[p] < o[q]) by {
                if q < pos {
                    assert(o[p] == old_out[p] && o[q] == old_out[q]);
                } else if q == pos {
                    assert(o[p] == old_out[p]);
                } else if p == pos {
                    assert(o[q] == old_out[q - 1]);
                } else if p < pos {
                    assert(o[p] == old_out[p] && o[q] == old_out[q - 1]);
                } else {
                    assert(o[p] == old_out[p - 1] && o[q] == old_out[q - 1]);
                }
            }
            assert forall|k: int| #![trigger audio_at(es, k)] 0 <= k < n && audio_at(es, k) implies o.contains(k as usize) by {
                if k == i {
                    assert(o[pos] == i as usize);
                } else {
                    assert(old_out.contains(k as usize));
                    let p = choose|p: int| 0 <= p < old_out.len() && old_out[p] == k as usize;
                    if p < pos {
                        assert(o[p] == old_out[p]);
                    } else {
                        assert(o[p + 1] == old_out[p]);
                    }
                }
            }
            o
        }
    }
}

/// A list of entries that fits in memory has its oldest-first order, and that
/// order is no longer than the list.
pub proof fn lemma_audio_order_len(es: Seq<DirEntry>)
    requires
        es.len() <= usize::MAX,
    ensures
        oldest_first(es, audio_order(es)),
        audio_order(es).len() <= es.len(),
{
    let o = lemma_sorted_prefix(es, es.len() as int);
    assert(oldest_first(es, o));
    lemma_oldest_first_unique(es, o, audio_order(es));
}

/// The audio files of `es`, oldest first.
pub open spec fn audio_order(es: Seq<DirEntry>) -> Seq<usize> {
    choose|o: Seq<usize>| oldest_first(es, o)
}

/// All audio files, oldest first (`sort_by_key` on the modification time).
pub fn find_all_audio(entries: &Vec<DirEntry>) -> (out: Vec<usize>)
    ensures
        oldest_first(entries@, out@),
        out@ == audio_order(entries@),
{
    let ghost es = entries@;
    let mut out: Vec<usize> = Vec::new();
    let mut i: usize = 0;
    while i < entries.len()
        invariant
            es == entries@,
            i <= es.len(),
            forall|k: int| #![trigger audio_at(es, k)] 0 <= k < i && audio_at(es, k) ==> out@.contains(k as usize),
            forall|p: int| 0 <= p < out@.len() ==> audio_at(es, #[trigger] out@[p] as int),
            forall|p: int| 0 <= p < out@.len() ==> #[trigger] out@[p] < i,
            forall|p: int, q: int| 0 <= p < q < out@.len() ==> #[trigger] out@[p] != #[trigger] out@[q],
            forall|p: int, q: int|
                0 <= p < q < out@.len() ==> time_le(
                    es[#[trigger] out@[p] as int].modified,
                    es[#[trigger] out@[q] as int].modified,
                ),
            forall|p: int, q: int|
                0 <= p < q < out@.len() && es[#[trigger] out@[p] as int].modified
                    == es[#[trigger] out@[q] as int].modified ==> out@[p] < out@[q],
        decreases es.len() - i,
    {
        if audio_name(entries[i].name.as_str()) {
            let key = entries[i].modified;
            let mut pos: usize = out.len();
            while pos > 0 && !time_le_exec(entries[out[pos - 1]].modified, key)
                invariant
                    es == entries@,
                    i < es.len(),
                    key == es[i as int].modified,
                    pos <= out@.len(),
                    forall|p: int| 0 <= p < out@.len() ==> #[trigger] out@[p] < i,
                    forall|p: int| pos <= p < out@.len() ==> !time_le(es[#[trigger] out@[p] as int].modified, key),
                decreases pos,
            {
                pos = pos - 1;
            }
            let ghost old_out = out@;
            proof {
                old_out.insert_ensures(pos as int, i);
                // everything before `pos` is no later than the new file
                assert forall|p: int| 0 <= p < pos implies time_le(es[#[trigger] old_out[p] as int].modified, key) by {
                    if pos > 0 {
                        assert(time_le(es[old_out[pos - 1] as int].modified, key));
                        if p < pos - 1 {
                            assert(time_le(es[old_out[p] as int].modified, es[old_out[pos - 1] as int].modified));
                        }
                    }
                }
            }
            out.insert(pos, i);
            proof {
                let o = out@;
                assert forall|p: int| 0 <= p < o.len() implies #[trigger] o[p] < i + 1 && audio_at(es, o[p] as int) by {
                    if p < pos {
                        assert(o[p] == old_out[p]);
                    } else if p > pos {
                        assert(o[p] == old_out[p - 1]);
                    }
                }
                assert forall|p: int, q: int| 0 <= p < q < o.len() implies #[trigger] o[p] != #[trigger] o[q]
                    && time_le(es[o[p] as int].modified, es[o[q] as int].modified)
                    && (es[o[p] as int].modified == es[o[q] as int].modified ==> o[p] < o[q]) by {
                    if q < pos {
                        assert(o[p] == old_out[p] && o[q] == old_out[q]);
                    } else if q == pos {
                        assert(o[p] == old_out[p]);
                        assert(time_le(es[old_out[p] as int].modified, key));
                    } else if p == pos {
                        assert(o[q] == old_out[q - 1]);
                        assert(!time_le(es[old_out[q - 1] as int].modified, key));
                    } else if p < pos {
                        assert(o[p] == old_out[p] && o[q] == old_out[q - 1]);
                        assert(time_le(es[old_out[p] as int].modified, key));
                        assert(!time_le(es[old_out[q - 1] as int].modified, key));
                    } else {
                        assert(o[p] == old_out[p - 1] && o[q] == old_out[q - 1]);
                    }
                }
                assert forall|k: int| #![trigger audio_at(es, k)] 0 <= k < i + 1 && audio_at(es, k) implies o.contains(k as usize) by {
                    if k == i {
                        assert(o[pos as int] == i);
                    } else {
                        assert(old_out.contains(k as usize));
                        let p = choose|p: int| 0 <= p < old_out.len() && old_out[p] == k as usize;
                        if p < pos {
                            assert(o[p] == old_out[p]);
                        } else {
                            assert(o[p + 1] == old_out[p]);
                        }
                    }
                }
            }
        }
        i = i + 1;
    }
    proof {
        assert(oldest_first(es, out@));
        lemma_oldest_first_unique(es, out@, audio_order(es));
    }
    out
}

/// A file that cleanup removes once `keep` is finished in `format`: another file of
/// the same stem (its name is the stem of `keep` followed by a dot and more) that
/// has one of the intermediate extensions, or is a leftover `.silence.<format>` or
/// `.debloat.<format>` file. Other tracks whose names merely begin with that stem
/// are left alone.
pub open spec fn is_leftover(name: Seq<char>, keep: Seq<char>, format: Seq<char>) -> bool {
    &&& name != keep
    &&& has_prefix(name, spec_file_stem(keep) + "."@)
    &&& {
        ||| listed(CLEANUP_EXTS@, extension_or_empty(name))
        ||| has_suffix(name, ".silence."@ + format)
        ||| has_suffix(name, ".debloat."@ + format)
    }
}

/// The files of the output directory that cleanup removes after `keep` is finished,
/// by index, in directory order.
pub fn cleanup(entries: &Vec<String>, keep: &str, format: &str) -> (res: Vec<usize>)
    ensures
        forall|p: int| 0 <= p < res@.len() ==> #[trigger] res@[p] < entries@.len(),
        forall|p: int, q: int| 0 <= p < q < res@.len() ==> #[trigger] res@[p] < #[trigger] res@[q],
        forall|k: int|
            0 <= k < entries@.len() ==> (res@.contains(k as usize) <==> is_leftover(
                #[trigger] entries@[k]@,
                keep@,
                format@,
            )),
{
    let mut stem = file_stem(keep);
    stem.append(".");
    let mut silence_tmp = String::from_str(".silence.");
    silence_tmp.append(format);
    let mut debloat_tmp = String::from_str(".debloat.");
    debloat_tmp.append(format);
    let mut res: Vec<usize> = Vec::new();
    let mut i: usize = 0;
    while i < entries.len()
        invariant
            i <= entries@.len(),
            stem@ == spec_file_stem(keep@) + "."@,
            silence_tmp@ == ".silence."@ + format@,
            debloat_tmp@ == ".debloat."@ + format@,
            forall|p: int| 0 <= p < res@.len() ==> #[trigger] res@[p] < i,
            forall|p: int, q: int| 0 <= p < q < res@.len() ==> #[trigger] res@[p] < #[trigger] res@[q],
            forall|k: int|
                0 <= k < i ==> (res@.contains(k as usize) <==> is_leftover(
                    #[trigger] entries@[k]@,
                    keep@,
                    format@,
                )),
        decreases entries.len() - i,
    {
        let name = entries[i].as_str();
        let remove = !same_text(name, keep) && starts_with(name, stem.as_str()) && (in_list(
            CLEANUP_EXTS.as_slice(),
            extension_text(name).as_str(),
        ) || ends_with(name, silence_tmp.as_str()) || ends_with(name, debloat_tmp.as_str()));
        let ghost old_res = res@;
        if remove {
            res.push(i);
        }
        proof {
            assert forall|k: int|
                0 <= k < i + 1 implies (res@.contains(k as usize) <==> is_leftover(
                #[trigger] entries@[k]@,
                keep@,
                format@,
            )) by {
                if k < i {
                    if res@.contains(k as usize) && !old_res.contains(k as usize) {
                        assert(res@.last() == i);
                        let p = choose|p: int| 0 <= p < res@.len() && res@[p] == k as usize;
                        assert(p < old_res.len());
                    }
                    if old_res.contains(k as usize) {
                        let p = choose|p: int| 0 <= p < old_res.len() && old_res[p] == k as usize;
                        assert(res@[p] == k as usize);
                    }
                } else {
                    if remove {
                        assert(res@[res@.len() - 1] == i);
                    } else {
                        assert(res@ == old_res);
                    }
                }
            }
        }
        i = i + 1;
    }
    res
}

/// The extensions of the intermediate files a download or conversion leaves: m4a,
/// webm, opus, mka, ogg, aac, wav and flac.
pub open spec fn intermediate_ext(e: Seq<char>) -> bool {
    ||| e == "m4a"@
    ||| e == "webm"@
    ||| e == "opus"@
    ||| e == "mka"@
    ||| e == "ogg"@
    ||| e == "aac"@
    ||| e == "wav"@
    ||| e == "flac"@
}

/// Cleanup removes only leftovers: another file of the same stem with an
/// intermediate extension, or a `.silence.<format>` / `.debloat.<format>` temporary
/// file; so a finished MP3 beside a new OGG of the same stem stays, and the kept
/// file itself always stays.
pub proof fn lemma_cleanup_removes_only_leftovers(name: Seq<char>, keep: Seq<char>, format: Seq<char>)
    ensures
        is_leftover(name, keep, format) ==> {
            &&& name != keep
            &&& has_prefix(name, spec_file_stem(keep) + "."@)
            &&& {
                ||| intermediate_ext(extension_or_empty(name))
                ||| has_suffix(name, ".silence."@ + format)
                ||| has_suffix(name, ".debloat."@ + format)
            }
        },
        extension_or_empty(name) == "mp3"@ && !has_suffix(name, ".silence."@ + format)
            && !has_suffix(name, ".debloat."@ + format) ==> !is_leftover(name, keep, format),
        !is_leftover(keep, keep, format),
{
    reveal_strlit("m4a");
    reveal_strlit("webm");
    reveal_strlit("opus");
    reveal_strlit("mka");
    reveal_strlit("ogg");
    reveal_strlit("aac");
    reveal_strlit("wav");
    reveal_strlit("flac");
    reveal_strlit("mp3");
    let e = extension_or_empty(name);
    if listed(CLEANUP_EXTS@, e) {
        let i = choose|i: int| 0 <= i < CLEANUP_EXTS@.len() && #[trigger] CLEANUP_EXTS@[i]@ == e;
        assert(CLEANUP_EXTS@[0]@ == "m4a"@);
        assert(CLEANUP_EXTS@[1]@ == "webm"@);
        assert(CLEANUP_EXTS@[2]@ == "opus"@);
        assert(CLEANUP_EXTS@[3]@ == "mka"@);
        assert(CLEANUP_EXTS@[4]@ == "ogg"@);
        assert(CLEANUP_EXTS@[5]@ == "aac"@);
        assert(CLEANUP_EXTS@[6]@ == "wav"@);
        assert(CLEANUP_EXTS@[7]@ == "flac"@);
        assert(intermediate_ext(e));
    }
    let m = "mp3"@;
    assert(m[1] != "m4a"@[1] && m[1] != "mka"@[1] && m[0] != "ogg"@[0] && m[0] != "aac"@[0]
        && m[0] != "wav"@[0]);
    assert(m.len() != "webm"@.len() && m.len() != "opus"@.len() && m.len() != "flac"@.len());
    assert(!intermediate_ext(m));
}

} // verus!

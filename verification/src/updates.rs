//! Update checks: reading the tag of the latest release from GitHub's answer, the
//! state of the application's own update check, and the background update of
//! yt-dlp.
use vstd::prelude::*;
use crate::text::{chars_of, same_text};

verus! {

/// What precedes the tag in GitHub's release JSON.
pub open spec fn tag_key() -> Seq<char> {
    seq!['"', 't', 'a', 'g', '_', 'n', 'a', 'm', 'e', '"', ':', '"']
}

/// `p` occurs in `s` at `i`.
pub open spec fn occurs_at(s: Seq<char>, p: Seq<char>, i: int) -> bool {
    0 <= i && i + p.len() <= s.len() && s.subrange(i, i + p.len()) == p
}

/// `i` is where `p` first occurs in `s`.
pub open spec fn first_occurrence(s: Seq<char>, p: Seq<char>, i: int) -> bool {
    occurs_at(s, p, i) && forall|j: int| 0 <= j < i ==> !occurs_at(s, p, j)
}

/// The index of the first `"` of `s`, or its length.
pub open spec fn quote_end(s: Seq<char>) -> int
    decreases s.len(),
{
    if s.len() == 0 {
        0
    } else if s[0] == '"' {
        0
    } else {
        1 + quote_end(s.drop_first())
    }
}

/// The tag of a release in GitHub's JSON answer (what
/// `split("\"tag_name\":\"").nth(1).and_then(|s| s.split('"').next())` reads): the
/// text after the first `"tag_name":"` up to the next `"`; `None` where the key is
/// missing.
pub open spec fn spec_tag_name(body: Seq<char>) -> Option<Seq<char>> {
    if exists|i: int| occurs_at(body, tag_key(), i) {
        let i = choose|i: int| first_occurrence(body, tag_key(), i);
        let rest = body.skip(i + tag_key().len());
        Some(rest.take(quote_end(rest)))
    } else {
        None
    }
}

proof fn lemma_quote_end(s: Seq<char>)
    ensures
        0 <= quote_end(s) <= s.len(),
        quote_end(s) < s.len() ==> s[quote_end(s)] == '"',
        forall|k: int| 0 <= k < quote_end(s) ==> s[k] != '"',
    decreases s.len(),
{
    if s.len() > 0 && s[0] != '"' {
        lemma_quote_end(s.drop_first());
        assert forall|k: int| 0 <= k < quote_end(s) implies s[k] != '"' by {
            if k > 0 {
                assert(s[k] == s.drop_first()[k - 1]);
            }
        }
    }
}

proof fn lemma_first_occurrence_unique(s: Seq<char>, p: Seq<char>, i: int, j: int)
    requires
        first_occurrence(s, p, i),
        first_occurrence(s, p, j),
    ensures
        i == j,
{
    if i < j {
        assert(!occurs_at(s, p, i));
    }
    if j < i {
        assert(!occurs_at(s, p, j));
    }
}

fn occurs_exec(v: &Vec<char>, p: &Vec<char>, i: usize) -> (res: bool)
    requires
        i + p@.len() <= v@.len(),
    ensures
        res == occurs_at(v@, p@, i as int),
{
    let vl = v.len();
    let mut k: usize = 0;
    while k < p.len()
        invariant
            vl == v@.len(),
            i + p@.len() <= v@.len(),
            k <= p@.len(),
            forall|m: int| 0 <= m < k ==> v@[i + m] == p@[m],
        decreases p.len() - k,
    {
        if v[i + k] != p[k] {
            assert(v@.subrange(i as int, i + p@.len())[k as int] != p@[k as int]);
            return false;
        }
        k = k + 1;
    }
    assert(v@.subrange(i as int, i + p@.len()) =~= p@);
    true
}

/// The tag of the latest release in GitHub's JSON answer.
pub fn tag_name(body: &str) -> (res: Option<String>)
    ensures
        match spec_tag_name(body@) {
            Some(t) => res matches Some(r) && r@ == t,
            None => res is None,
        },
{
    let v = chars_of(body);
    let key = chars_of("\"tag_name\":\"");
    proof {
        reveal_strlit("\"tag_name\":\"");
    }
    assert(key@ =~= tag_key());
    let n = v.len();
    let m = key.len();
    if m > n {
        assert forall|i: int| !occurs_at(body@, tag_key(), i) by {}
        return None;
    }
    let mut i: usize = 0;
    while i <= n - m
        invariant
            v@ == body@,
            key@ == tag_key(),
            m == key@.len(),
            n == v@.len(),
            m <= n,
            i <= n - m + 1,
            forall|j: int| 0 <= j < i ==> !occurs_at(body@, tag_key(), j),
        decreases n - i,
    {
        if occurs_exec(&v, &key, i) {
            proof {
                let c = choose|c: int| first_occurrence(body@, tag_key(), c);
                assert(first_occurrence(body@, tag_key(), i as int));
                lemma_first_occurrence_unique(body@, tag_key(), c, i as int);
            }
            let start = i + m;
            let ghost rest = body@.skip(start as int);
            let mut e: usize = start;
            assert(rest.skip(0) =~= rest);
            while e < n && v[e] != '"'
                invariant
                    v@ == body@,
                    n == v@.len(),
                    start <= e <= n,
                    rest == body@.skip(start as int),
                    quote_end(rest) == (e - start) + quote_end(rest.skip(e - start)),
                decreases n - e,
            {
                let ghost t = rest.skip(e - start);
                assert(t.drop_first() =~= rest.skip(e + 1 - start));
                e = e + 1;
            }
            proof {
                let t = rest.skip(e - start);
                assert(quote_end(t) == 0);
                assert(rest.take(quote_end(rest)) =~= body@.subrange(start as int, e as int));
            }
            return Some(body.substring_char(start, e).to_owned());
        }
        i = i + 1;
    }
    assert forall|j: int| !occurs_at(body@, tag_key(), j) by {
        if 0 <= j && j + m <= n {
            assert(j < i);
        }
    }
    None
}

/// `s` without its leading `v`s (`trim_start_matches('v')`).
pub open spec fn strip_v(s: Seq<char>) -> Seq<char>
    decreases s.len(),
{
    if s.len() > 0 && s[0] == 'v' {
        strip_v(s.drop_first())
    } else {
        s
    }
}

/// The state of the application's own update check.
pub enum UpdateState {
    Idle,
    Checking,
    /// A newer release, by its tag.
    Available(String),
    Current,
    Error(String),
}

pub enum UpdateStateView {
    Idle,
    Checking,
    Available(Seq<char>),
    Current,
    Error(Seq<char>),
}

impl View for UpdateState {
    type V = UpdateStateView;

    open spec fn view(&self) -> UpdateStateView {
        match self {
            UpdateState::Idle => UpdateStateView::Idle,
            UpdateState::Checking => UpdateStateView::Checking,
            UpdateState::Available(v) => UpdateStateView::Available(v@),
            UpdateState::Current => UpdateStateView::Current,
            UpdateState::Error(e) => UpdateStateView::Error(e@),
        }
    }
}

/// Why fetching a release failed.
pub enum FetchError {
    /// The request failed, with this error.
    Http(String),
    /// The answer could not be read, with this error.
    Read(String),
}

/// The text of a failed fetch: `HTTP: <error>` or `Read: <error>`.
pub open spec fn fetch_error_text(e: FetchError) -> Seq<char> {
    match e {
        FetchError::Http(m) => "HTTP: "@ + m@,
        FetchError::Read(m) => "Read: "@ + m@,
    }
}

pub fn fetch_error_message(e: FetchError) -> (res: String)
    ensures
        res@ == fetch_error_text(e),
{
    match e {
        FetchError::Http(m) => {
            let mut t = String::from_str("HTTP: ");
            t.append(m.as_str());
            t
        },
        FetchError::Read(m) => {
            let mut t = String::from_str("Read: ");
            t.append(m.as_str());
            t
        },
    }
}

/// The outcome of the application's update check, given GitHub's answer about the
/// latest release and the running version: the tag without leading `v`s must not be
/// empty; the same as the running version is up to date; otherwise `v<tag>` is
/// available.
pub open spec fn spec_update_state(answer: Result<String, FetchError>, current: Seq<char>) -> UpdateStateView {
    match answer {
        Err(e) => UpdateStateView::Error(fetch_error_text(e)),
        Ok(body) => {
            let tag = strip_v(
                match spec_tag_name(body@) {
                    Some(t) => t,
                    None => Seq::empty(),
                },
            );
            if tag.len() == 0 {
                UpdateStateView::Error("Parse error"@)
            } else if tag == current {
                UpdateStateView::Current
            } else {
                UpdateStateView::Available("v"@ + tag)
            }
        },
    }
}

pub fn update_state(answer: Result<String, FetchError>, current: &str) -> (res: UpdateState)
    ensures
        res@ == spec_update_state(answer, current@),
{
    match answer {
        Err(e) => UpdateState::Error(fetch_error_message(e)),
        Ok(body) => {
            let t = match tag_name(body.as_str()) {
                Some(t) => t,
                None => String::new(),
            };
            let v = chars_of(t.as_str());
            let mut k: usize = 0;
            assert(t@.skip(0) =~= t@);
            while k < v.len() && v[k] == 'v'
                invariant
                    v@ == t@,
                    k <= v@.len(),
                    strip_v(t@) == strip_v(t@.skip(k as int)),
                decreases v.len() - k,
            {
                assert(t@.skip(k as int).drop_first() =~= t@.skip(k + 1));
                k = k + 1;
            }
            assert(strip_v(t@.skip(k as int)) == t@.skip(k as int));
            assert(t@.skip(k as int) =~= t@.subrange(k as int, v@.len() as int));
            let tag = t.as_str().substring_char(k, v.len());
            if k == v.len() {
                UpdateState::Error(String::from_str("Parse error"))
            } else if same_text(tag, current) {
                UpdateState::Current
            } else {
                let mut a = String::from_str("v");
                a.append(tag);
                UpdateState::Available(a)
            }
        },
    }
}

/// What the background updater of yt-dlp reports.
pub enum YtdlpUpdateEvent {
    Checking,
    /// The version of the yt-dlp in use.
    Version(String),
    Current,
    /// A newer release is being downloaded.
    Available(String),
    Downloaded,
    Error(String),
    Done,
}

/// What the updater does once it knows the latest release.
pub enum ReleaseDecision {
    /// The yt-dlp in use is the latest.
    UpToDate,
    /// Download this version from this address.
    Fetch(String, String),
    /// The check failed with this text.
    Failed(String),
}

pub open spec fn release_url(version: Seq<char>, windows: bool) -> Seq<char> {
    "https://github.com/yt-dlp/yt-dlp/releases/download/"@ + version + "/yt-dlp"@ + (if windows {
        ".exe"@
    } else {
        Seq::empty()
    })
}

/// The decision of the yt-dlp updater, given GitHub's answer about the latest
/// release and the version in use: a missing tag is a parse error; the version in
/// use is up to date; another tag is downloaded from its release.
pub fn release_decision(answer: Result<String, FetchError>, current: &str, windows: bool) -> (res:
    ReleaseDecision)
    ensures
        match answer {
            Err(e) => res matches ReleaseDecision::Failed(t) && t@ == fetch_error_text(e),
            Ok(body) => match spec_tag_name(body@) {
                None => res matches ReleaseDecision::Failed(t) && t@ == "Parse error"@,
                Some(tag) => if tag == current@ {
                    res is UpToDate
                } else {
                    res matches ReleaseDecision::Fetch(v, u) && v@ == tag && u@ == release_url(tag, windows)
                },
            },
        },
{
    match answer {
        Err(e) => ReleaseDecision::Failed(fetch_error_message(e)),
        Ok(body) => match tag_name(body.as_str()) {
            None => ReleaseDecision::Failed(String::from_str("Parse error")),
            Some(tag) => {
                if same_text(tag.as_str(), current) {
                    ReleaseDecision::UpToDate
                } else {
                    let mut u = String::from_str("https://github.com/yt-dlp/yt-dlp/releases/download/");
                    u.append(tag.as_str());
                    u.append("/yt-dlp");
                    if windows {
                        u.append(".exe");
                    }
                    proof {
                        reveal_strlit(".exe");
                    }
                    ReleaseDecision::Fetch(tag, u)
                }
            },
        },
    }
}

} // verus!

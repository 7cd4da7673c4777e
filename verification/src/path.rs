//! File names and paths as text.
//!
//! A *file name* is one path component, as `read_dir` hands it out. Its stem,
//! extension and replacement extension follow `std::path::Path`: the extension is
//! what follows the last `.`, unless that `.` opens the name; `..` has none.
//!
//! A *path* is text whose components are separated by `/`, and also by `\` in the
//! Windows style, where a path may also open with a drive such as `C:`. Joining,
//! taking the parent, splitting into components and comparing follow `std::path`,
//! which skips empty and `.` components except a leading `.`. The other Windows
//! prefixes (`\\server\share`, `\\?\`, `\\.\`) are read as a root followed by
//! ordinary components.
use vstd::prelude::*;
use crate::text::{chars_of, same_text};

verus! {

/// Index of the last `c` in `s`, or -1.
pub open spec fn rfind_char(s: Seq<char>, c: char) -> int
    decreases s.len(),
{
    if s.len() == 0 {
        -1
    } else if s.last() == c {
        s.len() - 1
    } else {
        rfind_char(s.drop_last(), c)
    }
}

proof fn lemma_rfind_char(s: Seq<char>, c: char)
    ensures
        -1 <= rfind_char(s, c) < s.len(),
        rfind_char(s, c) >= 0 ==> s[rfind_char(s, c)] == c,
        forall|i: int| rfind_char(s, c) < i < s.len() ==> s[i] != c,
    decreases s.len(),
{
    if s.len() > 0 && s.last() != c {
        lemma_rfind_char(s.drop_last(), c);
        assert forall|i: int| rfind_char(s, c) < i < s.len() implies s[i] != c by {
            if i < s.len() - 1 {
                assert(s[i] == s.drop_last()[i]);
            }
        }
    }
}

/// Index of the last `.` of `name` that separates a stem from an extension, if any.
pub open spec fn ext_dot(name: Seq<char>) -> Option<int> {
    let k = rfind_char(name, '.');
    if name == seq!['.', '.'] || k <= 0 {
        None
    } else {
        Some(k)
    }
}

/// The stem of a file name (`Path::file_stem`).
pub open spec fn spec_file_stem(name: Seq<char>) -> Seq<char> {
    match ext_dot(name) {
        Some(k) => name.take(k),
        None => name,
    }
}

/// The extension of a file name (`Path::extension`).
pub open spec fn spec_extension(name: Seq<char>) -> Option<Seq<char>> {
    match ext_dot(name) {
        Some(k) => Some(name.skip(k + 1)),
        None => None,
    }
}

/// A file name that `Path::file_name` recognises as one.
pub open spec fn is_file_name(name: Seq<char>) -> bool {
    name.len() > 0 && name != seq!['.'] && name != seq!['.', '.']
}

/// `name` with its extension replaced by `ext` (`Path::with_extension`): the stem,
/// then `.` and `ext` where `ext` is not empty.
pub open spec fn spec_with_extension(name: Seq<char>, ext: Seq<char>) -> Seq<char> {
    if !is_file_name(name) {
        name
    } else if ext.len() == 0 {
        spec_file_stem(name)
    } else {
        spec_file_stem(name) + seq!['.'] + ext
    }
}

fn ext_dot_exec(v: &Vec<char>) -> (res: Option<usize>)
    ensures
        match res {
            Some(k) => ext_dot(v@) == Some(k as int) && 0 < k < v@.len(),
            None => ext_dot(v@) is None,
        },
{
    proof {
        lemma_rfind_char(v@, '.');
    }
    let n = v.len();
    if n == 2 && v[0] == '.' && v[1] == '.' {
        assert(v@ =~= seq!['.', '.']);
        return None;
    }
    let mut k: usize = n;
    while k > 0 && v[k - 1] != '.'
        invariant
            k <= n == v.len(),
            forall|i: int| k <= i < n ==> v@[i] != '.',
            rfind_char(v@, '.') < k,
            -1 <= rfind_char(v@, '.'),
            rfind_char(v@, '.') >= 0 ==> v@[rfind_char(v@, '.')] == '.',
        decreases k,
    {
        k = k - 1;
    }
    if k <= 1 {
        None
    } else {
        assert(rfind_char(v@, '.') == k - 1);
        Some(k - 1)
    }
}

/// The stem of a file name.
pub fn file_stem(name: &str) -> (res: String)
    ensures
        res@ == spec_file_stem(name@),
{
    let v = chars_of(name);
    match ext_dot_exec(&v) {
        Some(k) => {
            assert(name@.subrange(0, k as int) =~= name@.take(k as int));
            name.substring_char(0, k).to_owned()
        },
        None => name.to_owned(),
    }
}

/// The extension of a file name, if it has one.
pub fn extension(name: &str) -> (res: Option<String>)
    ensures
        match spec_extension(name@) {
            Some(e) => res matches Some(r) && r@ == e,
            None => res is None,
        },
{
    let v = chars_of(name);
    let r = ext_dot_exec(&v);
    match r {
        Some(k) => {
            assert(k < v.len());
            assert(name@.subrange(k + 1, v.len() as int) =~= name@.skip(k + 1));
            Some(name.substring_char(k + 1, v.len()).to_owned())
        },
        None => None,
    }
}

/// The extension of a file name, or the empty text where it has none.
pub open spec fn extension_or_empty(name: Seq<char>) -> Seq<char> {
    match spec_extension(name) {
        Some(e) => e,
        None => Seq::empty(),
    }
}

pub fn extension_text(name: &str) -> (res: String)
    ensures
        res@ == extension_or_empty(name@),
{
    match extension(name) {
        Some(e) => e,
        None => String::new(),
    }
}

/// `name` with its extension replaced by `ext`.
pub fn with_extension(name: &str, ext: &str) -> (res: String)
    ensures
        res@ == spec_with_extension(name@, ext@),
{
    let v = chars_of(name);
    let n = v.len();
    if n == 0 || (n == 1 && v[0] == '.') || (n == 2 && v[0] == '.' && v[1] == '.') {
        proof {
            if n == 1 {
                assert(name@ =~= seq!['.']);
            }
            if n == 2 {
                assert(name@ =~= seq!['.', '.']);
            }
        }
        return name.to_owned();
    }
    assert(is_file_name(name@)) by {
        if name@ == seq!['.'] {
            assert(name@[0] == '.');
        }
        if name@ == seq!['.', '.'] {
            assert(name@[0] == '.' && name@[1] == '.');
        }
    }
    let mut res = file_stem(name);
    if ext.unicode_len() > 0 {
        proof {
            reveal_strlit(".");
        }
        res.append(".");
        res.append(ext);
    }
    res
}

/// A path separator: `/`, and `\` in the Windows style.
pub open spec fn is_separator(c: char, windows: bool) -> bool {
    c == '/' || (windows && c == '\\')
}

fn separator(c: char, windows: bool) -> (b: bool)
    ensures
        b == is_separator(c, windows),
{
    c == '/' || (windows && c == '\\')
}

/// The separator that joining inserts.
pub open spec fn main_separator(windows: bool) -> char {
    if windows {
        '\\'
    } else {
        '/'
    }
}

/// A drive letter: an ASCII letter.
pub open spec fn is_drive_letter(c: char) -> bool {
    ('a' <= c && c <= 'z') || ('A' <= c && c <= 'Z')
}

/// The length of the drive prefix (`C:`) that opens a Windows path, 0 where there
/// is none.
pub open spec fn prefix_len(s: Seq<char>, windows: bool) -> int {
    if windows && s.len() >= 2 && is_drive_letter(s[0]) && s[1] == ':' {
        2
    } else {
        0
    }
}

/// The drive of a Windows path, as the code of its upper-case letter.
pub open spec fn drive(s: Seq<char>, windows: bool) -> Option<u32> {
    if prefix_len(s, windows) == 2 {
        Some(upper_code(s[0]))
    } else {
        None
    }
}

pub open spec fn upper_code(c: char) -> u32 {
    if 'a' <= c && c <= 'z' {
        (c as u32 - 32) as u32
    } else {
        c as u32
    }
}

/// The path is absolute: it has a root, and on Windows a drive as well.
pub open spec fn is_absolute(s: Seq<char>, windows: bool) -> bool {
    has_root(s, windows) && (!windows || prefix_len(s, windows) > 0)
}

/// `base` followed by `rel` (`Path::join`): `rel` alone where it is absolute or
/// names a drive; on Windows, a `rel` that starts at a root keeps only the drive of
/// `base`; otherwise `rel` follows `base`, with a separator between them where
/// `base` does not end in one and is not a bare drive such as `C:`.
pub open spec fn spec_join(base: Seq<char>, rel: Seq<char>, windows: bool) -> Seq<char> {
    if is_absolute(rel, windows) || prefix_len(rel, windows) > 0 {
        rel
    } else if has_root(rel, windows) {
        base.take(prefix_len(base, windows)) + rel
    } else if base.len() == 0 || is_separator(base.last(), windows) || prefix_len(base, windows)
        == base.len() {
        base + rel
    } else {
        base + seq![main_separator(windows)] + rel
    }
}

fn drive_letter(c: char) -> (b: bool)
    ensures
        b == is_drive_letter(c),
{
    ('a' <= c && c <= 'z') || ('A' <= c && c <= 'Z')
}

fn prefix_len_exec(v: &Vec<char>, windows: bool) -> (p: usize)
    ensures
        p as int == prefix_len(v@, windows),
{
    if windows && v.len() >= 2 && drive_letter(v[0]) && v[1] == ':' {
        2
    } else {
        0
    }
}

/// The shape of the start of a path: its drive prefix, whether a root follows, and
/// whether a leading `.` does.
fn head_of(v: &Vec<char>, windows: bool) -> (r: (usize, bool, bool))
    ensures
        r.0 as int == prefix_len(v@, windows),
        r.1 == has_root(v@, windows),
        r.2 == starts_at_cur_dir(v@, windows),
{
    let p = prefix_len_exec(v, windows);
    let len = v.len();
    let root = len > p && separator(v[p], windows);
    let cur_dir = !root && len > p && v[p] == '.' && (len == p + 1 || separator(v[p + 1], windows));
    (p, root, cur_dir)
}

pub fn join(base: &str, rel: &str, windows: bool) -> (res: String)
    ensures
        res@ == spec_join(base@, rel@, windows),
{
    let b = chars_of(base);
    let r = chars_of(rel);
    let (rp, rroot, _) = head_of(&r, windows);
    if (rroot && (!windows || rp > 0)) || rp > 0 {
        return rel.to_owned();
    }
    let (bp, _, _) = head_of(&b, windows);
    if rroot {
        let mut res = base.substring_char(0, bp).to_owned();
        res.append(rel);
        return res;
    }
    let mut res = base.to_owned();
    if !(b.len() == 0 || separator(b[b.len() - 1], windows) || bp == b.len()) {
        proof {
            reveal_strlit("\\");
            reveal_strlit("/");
        }
        if windows {
            res.append("\\");
        } else {
            res.append("/");
        }
    }
    res.append(rel);
    res
}

/// The path starts at a root: a separator, after the drive where there is one.
pub open spec fn has_root(s: Seq<char>, windows: bool) -> bool {
    let p = prefix_len(s, windows);
    s.len() > p && is_separator(s[p], windows)
}

/// The path is `.` or starts with `./`, after the drive where there is one: its
/// first component is the current directory, which `std::path` keeps only in that
/// place, and only where there is no drive.
pub open spec fn starts_at_cur_dir(s: Seq<char>, windows: bool) -> bool {
    let p = prefix_len(s, windows);
    &&& !has_root(s, windows)
    &&& s.len() > p
    &&& s[p] == '.'
    &&& (s.len() == p + 1 || is_separator(s[p + 1], windows))
}

/// How many leading characters precede the components that can be taken off the
/// end: the drive, then the root or a leading `.`.
pub open spec fn head_len(s: Seq<char>, windows: bool) -> int {
    prefix_len(s, windows) + if has_root(s, windows) || starts_at_cur_dir(s, windows) {
        1int
    } else {
        0int
    }
}

/// Index of the last separator among `s[b..n]`, or -1.
pub open spec fn last_sep(s: Seq<char>, b: int, n: int, windows: bool) -> int
    decreases n,
{
    if n <= b || n <= 0 {
        -1
    } else if is_separator(s[n - 1], windows) {
        n - 1
    } else {
        last_sep(s, b, n - 1, windows)
    }
}

/// Where the last component of `s[..n]` starts.
pub open spec fn comp_start(s: Seq<char>, b: int, n: int, windows: bool) -> int {
    let k = last_sep(s, b, n, windows);
    if k < 0 {
        b
    } else {
        k + 1
    }
}

/// Where `s[..n]` ends once its last component and the separator before it are
/// taken off.
pub open spec fn cut(s: Seq<char>, b: int, n: int, windows: bool) -> int {
    let k = last_sep(s, b, n, windows);
    if k < 0 {
        b
    } else {
        k
    }
}

/// The last component of `s[..n]` is empty or `.`, which `std::path` skips.
pub open spec fn skipped_last(s: Seq<char>, b: int, n: int, windows: bool) -> bool {
    let c = comp_start(s, b, n, windows);
    n == c || (n == c + 1 && s[c] == '.')
}

/// The last separator, where there is one, lies among `s[b..n]`.
pub proof fn lemma_last_sep(s: Seq<char>, b: int, n: int, windows: bool)
    requires
        0 <= b,
    ensures
        last_sep(s, b, n, windows) == -1 || (b <= last_sep(s, b, n, windows) < n),
    decreases n,
{
    if n > b && !is_separator(s[n - 1], windows) {
        lemma_last_sep(s, b, n - 1, windows);
    }
}

/// The length of `s[..n]` once its trailing empty and `.` components are taken
/// off, as `Components::as_path` does.
pub open spec fn trimmed_len(s: Seq<char>, b: int, n: int, windows: bool) -> int
    decreases n,
{
    if n <= b || b < 0 {
        n
    } else if skipped_last(s, b, n, windows) {
        proof {
            lemma_last_sep(s, b, n, windows);
        }
        trimmed_len(s, b, cut(s, b, n, windows), windows)
    } else {
        n
    }
}

/// The length of the parent of `s[..n]`: the last component that is neither empty
/// nor `.` is taken off with what trails it; where none is left, the path has no
/// parent if it is a drive, a root or empty, and the empty parent if it is `.`.
pub open spec fn parent_len(s: Seq<char>, b: int, n: int, windows: bool) -> Option<int>
    decreases n,
{
    if n > b && b >= 0 {
        proof {
            lemma_last_sep(s, b, n, windows);
        }
        if skipped_last(s, b, n, windows) {
            parent_len(s, b, cut(s, b, n, windows), windows)
        } else {
            Some(trimmed_len(s, b, cut(s, b, n, windows), windows))
        }
    } else if starts_at_cur_dir(s, windows) && prefix_len(s, windows) == 0 {
        Some(0)
    } else {
        None
    }
}

/// The directory that holds `path` (`Path::parent`): `None` for the empty path, a
/// drive or a root alone, the empty path for a single relative component or `.`;
/// empty and `.` components after the start are skipped, as `std::path` skips them.
pub open spec fn spec_parent(path: Seq<char>, windows: bool) -> Option<Seq<char>> {
    match parent_len(path, head_len(path, windows), path.len() as int, windows) {
        Some(m) => Some(path.take(m)),
        None => None,
    }
}

/// The last separator among `v[b..n]`: where `v[..n]` is cut, and where its last
/// component starts.
fn cut_point(v: &Vec<char>, b: usize, n: usize, windows: bool) -> (r: (usize, usize))
    requires
        b <= n <= v.len(),
    ensures
        r.0 == cut(v@, b as int, n as int, windows),
        r.1 == comp_start(v@, b as int, n as int, windows),
        n > b ==> b <= r.0 < n && r.0 <= r.1 <= n,
{
    proof {
        lemma_last_sep(v@, b as int, n as int, windows);
    }
    let mut m = n;
    while m > b && !separator(v[m - 1], windows)
        invariant
            b <= m <= n <= v.len(),
            last_sep(v@, b as int, n as int, windows) == last_sep(v@, b as int, m as int, windows),
        decreases m,
    {
        m = m - 1;
    }
    if m > b {
        (m - 1, m)
    } else {
        (b, b)
    }
}

/// Whether the component `v[c..n]` is empty or `.`.
fn skipped_comp(v: &Vec<char>, c: usize, n: usize) -> (res: bool)
    requires
        c <= n <= v.len(),
    ensures
        res == (n == c || (n == c + 1 && v@[c as int] == '.')),
{
    n == c || (n == c + 1 && v[c] == '.')
}

fn trimmed_len_exec(v: &Vec<char>, b: usize, n: usize, windows: bool) -> (m: usize)
    requires
        b <= n <= v.len(),
    ensures
        m as int == trimmed_len(v@, b as int, n as int, windows),
        m <= n,
{
    let mut m = n;
    while m > b
        invariant
            b <= m <= n <= v.len(),
            trimmed_len(v@, b as int, n as int, windows) == trimmed_len(v@, b as int, m as int, windows),
        decreases m,
    {
        let (c, st) = cut_point(v, b, m, windows);
        if skipped_comp(v, st, m) {
            m = c;
        } else {
            return m;
        }
    }
    m
}

pub fn parent(path: &str, windows: bool) -> (res: Option<String>)
    ensures
        match spec_parent(path@, windows) {
            Some(d) => res matches Some(r) && r@ == d,
            None => res is None,
        },
{
    let v = chars_of(path);
    let len = v.len();
    let (p, root, cur_dir) = head_of(&v, windows);
    let b: usize = if root || cur_dir {
        p + 1
    } else {
        p
    };
    let ghost s = path@;
    assert(b as int == head_len(s, windows));
    let mut n = len;
    while n > b
        invariant
            v@ == s,
            s == path@,
            len == s.len(),
            b as int == head_len(s, windows),
            b <= n <= len,
            parent_len(s, b as int, len as int, windows) == parent_len(s, b as int, n as int, windows),
        decreases n,
    {
        let (c, st) = cut_point(&v, b, n, windows);
        if skipped_comp(&v, st, n) {
            n = c;
        } else {
            let m = trimmed_len_exec(&v, b, c, windows);
            return Some(path.substring_char(0, m).to_owned());
        }
    }
    if cur_dir && p == 0 {
        Some(String::new())
    } else {
        None
    }
}

/// The components of `s[..n]` after its head, in order, as `Path::components`
/// yields them: empty and `.` components are skipped, `..` is kept.
pub open spec fn comps(s: Seq<char>, b: int, n: int, windows: bool) -> Seq<Seq<char>>
    decreases n,
{
    if n > b && b >= 0 {
        proof {
            lemma_last_sep(s, b, n, windows);
        }
        let rest = comps(s, b, cut(s, b, n, windows), windows);
        if skipped_last(s, b, n, windows) {
            rest
        } else {
            rest.push(s.subrange(comp_start(s, b, n, windows), n))
        }
    } else {
        Seq::empty()
    }
}

/// The components of `path` after its root or leading `.`.
pub open spec fn path_comps(path: Seq<char>, windows: bool) -> Seq<Seq<char>> {
    comps(path, head_len(path, windows), path.len() as int, windows)
}

/// The path starts with a `.` component that `std::path` yields: one without a
/// drive before it.
pub open spec fn leading_cur_dir(s: Seq<char>, windows: bool) -> bool {
    starts_at_cur_dir(s, windows) && prefix_len(s, windows) == 0
}

/// Two paths name the same place as `Path`'s `==` sees it: the same drive (whatever
/// the case of its letter), the same root or leading `.`, and the same components.
pub open spec fn same_path(a: Seq<char>, b: Seq<char>, windows: bool) -> bool {
    &&& drive(a, windows) == drive(b, windows)
    &&& has_root(a, windows) == has_root(b, windows)
    &&& leading_cur_dir(a, windows) == leading_cur_dir(b, windows)
    &&& path_comps(a, windows) == path_comps(b, windows)
}

/// The last component of `path` (`Path::file_name`), unless that is `..` or there
/// is none.
pub open spec fn spec_file_name(path: Seq<char>, windows: bool) -> Option<Seq<char>> {
    let c = path_comps(path, windows);
    if c.len() > 0 && c.last() != ".."@ {
        Some(c.last())
    } else {
        None
    }
}

fn head_len_exec(v: &Vec<char>, windows: bool) -> (b: usize)
    ensures
        b as int == head_len(v@, windows),
        b <= v@.len(),
{
    let (p, root, cur_dir) = head_of(v, windows);
    if root || cur_dir {
        p + 1
    } else {
        p
    }
}

/// The components of `path` after its head.
pub fn components(path: &str, windows: bool) -> (res: Vec<String>)
    ensures
        res@.map_values(|c: String| c@) == path_comps(path@, windows),
{
    let v = chars_of(path);
    let b = head_len_exec(&v, windows);
    let ghost s = path@;
    let mut res: Vec<String> = Vec::new();
    let mut n = v.len();
    while n > b
        invariant
            v@ == s,
            s == path@,
            b as int == head_len(s, windows),
            b <= n <= s.len(),
            path_comps(s, windows) == comps(s, b as int, n as int, windows) + res@.map_values(
                |c: String| c@,
            ),
        decreases n,
    {
        let (c, st) = cut_point(&v, b, n, windows);
        let ghost before = res@.map_values(|c: String| c@);
        if !skipped_comp(&v, st, n) {
            let part = path.substring_char(st, n).to_owned();
            res.insert(0, part);
            assert(res@.map_values(|c: String| c@) =~= seq![s.subrange(st as int, n as int)] + before);
            assert(comps(s, b as int, c as int, windows).push(s.subrange(st as int, n as int)) + before
                =~= comps(s, b as int, c as int, windows) + (seq![s.subrange(st as int, n as int)] + before));
        }
        n = c;
    }
    assert(comps(s, b as int, n as int, windows) =~= Seq::<Seq<char>>::empty());
    assert(Seq::<Seq<char>>::empty() + res@.map_values(|c: String| c@) =~= res@.map_values(|c: String| c@));
    res
}

fn upper(c: char) -> (u: u32)
    ensures
        u == upper_code(c),
{
    if 'a' <= c && c <= 'z' {
        c as u32 - 32
    } else {
        c as u32
    }
}

/// Whether `a` and `b` name the same place as `Path`'s `==` sees it.
pub fn same_place(a: &str, b: &str, windows: bool) -> (res: bool)
    ensures
        res == same_path(a@, b@, windows),
{
    let va = chars_of(a);
    let vb = chars_of(b);
    let (pa, root_a, cur_a) = head_of(&va, windows);
    let (pb, root_b, cur_b) = head_of(&vb, windows);
    if pa != pb || (pa == 2 && upper(va[0]) != upper(vb[0])) {
        return false;
    }
    if root_a != root_b || (cur_a && pa == 0) != (cur_b && pb == 0) {
        return false;
    }
    let ca = components(a, windows);
    let cb = components(b, windows);
    let ghost sa = ca@.map_values(|c: String| c@);
    let ghost sb = cb@.map_values(|c: String| c@);
    if ca.len() != cb.len() {
        assert(sa.len() != sb.len());
        return false;
    }
    let mut i: usize = 0;
    while i < ca.len()
        invariant
            ca@.len() == cb@.len(),
            i <= ca@.len(),
            sa == ca@.map_values(|c: String| c@),
            sb == cb@.map_values(|c: String| c@),
            sa == path_comps(a@, windows),
            sb == path_comps(b@, windows),
            forall|k: int| 0 <= k < i ==> sa[k] == sb[k],
        decreases ca.len() - i,
    {
        if !same_text(ca[i].as_str(), cb[i].as_str()) {
            assert(sa[i as int] != sb[i as int]);
            return false;
        }
        i = i + 1;
    }
    assert(sa =~= sb);
    true
}

/// The last component of `path` (`Path::file_name`).
pub fn file_name(path: &str, windows: bool) -> (res: Option<String>)
    ensures
        match spec_file_name(path@, windows) {
            Some(n) => res matches Some(r) && r@ == n,
            None => res is None,
        },
{
    let c = components(path, windows);
    let ghost sc = c@.map_values(|x: String| x@);
    if c.len() == 0 {
        return None;
    }
    let last = c[c.len() - 1].as_str();
    assert(sc.last() == last@);
    proof {
        reveal_strlit("..");
    }
    if same_text(last, "..") {
        None
    } else {
        Some(last.to_owned())
    }
}

} // verus!

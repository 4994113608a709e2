//! Slash-separated paths and the string operations on them: joining,
//! prefixes and suffixes, the last component and its stem, and replacing a
//! pattern.

use vstd::prelude::*;
use crate::text::chars_of;
use crate::text::push_char;

verus! {

/// `base` joined with `segment` the way `Path::join` joins on Unix: an
/// absolute segment replaces the base; else a `/` goes between them unless
/// the base is empty or ends with one.
pub open spec fn path_join(base: Seq<char>, segment: Seq<char>) -> Seq<char> {
    if segment.len() > 0 && segment[0] == '/' {
        segment
    } else if base.len() == 0 || base.last() == '/' {
        base + segment
    } else {
        base + seq!['/'] + segment
    }
}

/// Join `segment` onto `base`.
pub fn join_path(base: &str, segment: &str) -> (r: String)
    ensures
        r@ == path_join(base@, segment@),
{
    let b = chars_of(base);
    let s = chars_of(segment);
    if s.len() > 0 && s[0] == '/' {
        return String::from_str(segment);
    }
    let mut r = String::from_str(base);
    if b.len() > 0 && b[b.len() - 1] != '/' {
        push_char(&mut r, '/');
    }
    r.append(segment);
    r
}

/// Whether `s` begins with `prefix`.
pub open spec fn starts_with(s: Seq<char>, prefix: Seq<char>) -> bool {
    prefix.len() <= s.len() && s.take(prefix.len() as int) == prefix
}

/// Whether `s` ends with `suffix`.
pub open spec fn ends_with(s: Seq<char>, suffix: Seq<char>) -> bool {
    suffix.len() <= s.len() && s.skip(s.len() - suffix.len()) == suffix
}

/// Whether `s` begins with `prefix`.
pub fn has_prefix(s: &str, prefix: &str) -> (r: bool)
    ensures
        r == starts_with(s@, prefix@),
{
    let a = chars_of(s);
    let p = chars_of(prefix);
    if p.len() > a.len() {
        return false;
    }
    let mut i: usize = 0;
    while i < p.len()
        invariant
            i <= p.len() <= a.len(),
            a@ == s@,
            p@ == prefix@,
            forall|k: int| 0 <= k < i ==> a@[k] == p@[k],
        decreases p.len() - i,
    {
        if a[i] != p[i] {
            return false;
        }
        i = i + 1;
    }
    proof {
        assert(s@.take(prefix@.len() as int) =~= prefix@);
    }
    true
}

/// Whether `s` ends with `suffix`.
pub fn has_suffix(s: &str, suffix: &str) -> (r: bool)
    ensures
        r == ends_with(s@, suffix@),
{
    let a = chars_of(s);
    let p = chars_of(suffix);
    if p.len() > a.len() {
        return false;
    }
    let start = a.len() - p.len();
    let mut i: usize = 0;
    while i < p.len()
        invariant
            i <= p.len() <= a.len(),
            start == a.len() - p.len(),
            a@ == s@,
            p@ == suffix@,
            forall|k: int| 0 <= k < i ==> a@[start + k] == p@[k],
        decreases p.len() - i,
    {
        if a[start + i] != p[i] {
            return false;
        }
        i = i + 1;
    }
    proof {
        assert(s@.skip(s@.len() - suffix@.len()) =~= suffix@);
    }
    true
}

/// The position of the last `c` in `s`, if any.
pub open spec fn last_index_of(s: Seq<char>, c: char) -> Option<int>
    decreases s.len(),
{
    if s.len() == 0 {
        None
    } else if s.last() == c {
        Some(s.len() - 1)
    } else {
        last_index_of(s.drop_last(), c)
    }
}

/// The last component of a slash-separated path: what follows its last
/// `/`, or the whole path.
pub open spec fn last_component(path: Seq<char>) -> Seq<char> {
    match last_index_of(path, '/') {
        Some(i) => path.skip(i + 1),
        None => path,
    }
}

/// The stem of a file name, as `Path::file_stem` gives it: the part before
/// its last `.`, or the whole name where there is no `.` but a leading one.
pub open spec fn stem(name: Seq<char>) -> Seq<char> {
    match last_index_of(name, '.') {
        Some(i) => if i == 0 {
            name
        } else {
            name.take(i)
        },
        None => name,
    }
}

/// `last_index_of` finds the last occurrence.
proof fn lemma_last_index_of(s: Seq<char>, c: char)
    ensures
        match last_index_of(s, c) {
            Some(i) => 0 <= i < s.len() && s[i] == c && forall|k: int| i < k < s.len() ==> s[k] != c,
            None => forall|k: int| 0 <= k < s.len() ==> s[k] != c,
        },
    decreases s.len(),
{
    if s.len() > 0 {
        lemma_last_index_of(s.drop_last(), c);
        assert forall|k: int| 0 <= k < s.len() - 1 implies s[k] == s.drop_last()[k] by {}
    }
}

/// The position of the last `c` in `cs`.
fn find_last(cs: &Vec<char>, c: char) -> (r: Option<usize>)
    ensures
        match r {
            Some(i) => last_index_of(cs@, c) == Some(i as int),
            None => last_index_of(cs@, c) is None,
        },
{
    let mut i: usize = cs.len();
    proof {
        assert(cs@.take(cs@.len() as int) =~= cs@);
    }
    while i > 0
        invariant
            i <= cs@.len(),
            last_index_of(cs@, c) == last_index_of(cs@.take(i as int), c),
        decreases i,
    {
        proof {
            assert(cs@.take(i as int).drop_last() =~= cs@.take(i - 1));
        }
        if cs[i - 1] == c {
            return Some(i - 1);
        }
        i = i - 1;
    }
    None
}

/// The characters of `cs` from `start` to `end` as a string.
fn string_of_range(cs: &Vec<char>, start: usize, end: usize) -> (r: String)
    requires
        start <= end <= cs@.len(),
    ensures
        r@ == cs@.subrange(start as int, end as int),
{
    let mut r = String::new();
    let mut i = start;
    while i < end
        invariant
            start <= i <= end <= cs@.len(),
            r@ == cs@.subrange(start as int, i as int),
        decreases end - i,
    {
        push_char(&mut r, cs[i]);
        i = i + 1;
        proof {
            assert(r@ =~= cs@.subrange(start as int, i as int));
        }
    }
    r
}

/// The stem of a file name.
pub fn stem_of(name: &str) -> (r: String)
    ensures
        r@ == stem(name@),
{
    let ns = chars_of(name);
    proof {
        lemma_last_index_of(ns@, '.');
    }
    match find_last(&ns, '.') {
        Some(i) => {
            if i == 0 {
                String::from_str(name)
            } else {
                let r = string_of_range(&ns, 0, i);
                proof {
                    assert(r@ =~= ns@.take(i as int));
                }
                r
            }
        },
        None => String::from_str(name),
    }
}

/// `s` with each occurrence of `from` replaced by `to`, scanning from the
/// left and not overlapping, as `str::replace` does.
pub open spec fn replace_all(s: Seq<char>, from: Seq<char>, to: Seq<char>) -> Seq<char>
    recommends
        from.len() > 0,
    decreases s.len(),
{
    if from.len() == 0 || s.len() < from.len() {
        s
    } else if s.take(from.len() as int) == from {
        to + replace_all(s.skip(from.len() as int), from, to)
    } else {
        seq![s[0]] + replace_all(s.skip(1), from, to)
    }
}

/// `s` with each occurrence of `from` replaced by `to`.
pub fn replace_str(s: &str, from: &str, to: &str) -> (r: String)
    requires
        from@.len() > 0,
    ensures
        r@ == replace_all(s@, from@, to@),
{
    let cs = chars_of(s);
    let fs = chars_of(from);
    let mut out = String::new();
    let mut i: usize = 0;
    proof {
        assert(cs@.skip(0) =~= s@);
        assert(out@ + replace_all(cs@.skip(0), from@, to@) =~= replace_all(s@, from@, to@));
    }
    while i < cs.len()
        invariant
            i <= cs@.len(),
            cs@ == s@,
            fs@ == from@,
            fs@.len() > 0,
            out@ + replace_all(cs@.skip(i as int), from@, to@) == replace_all(s@, from@, to@),
        decreases cs@.len() - i,
    {
        let ghost rest = cs@.skip(i as int);
        let mut matched = fs.len() <= cs.len() - i;
        let mut k: usize = 0;
        while matched && k < fs.len()
            invariant
                k <= fs@.len(),
                i <= cs@.len(),
                cs@ == s@,
                fs@ == from@,
                rest == cs@.skip(i as int),
                matched ==> i + fs@.len() <= cs@.len(),
                matched ==> forall|j: int| 0 <= j < k ==> cs@[i + j] == fs@[j],
                !matched ==> !(fs@.len() <= rest.len() && rest.take(fs@.len() as int) == fs@),
            decreases fs@.len() - k, if matched { 1int } else { 0int },
        {
            assert(matched);
            assert(i + k < cs.len());
            if cs[i + k] != fs[k] {
                proof {
                    assert(rest.take(fs@.len() as int)[k as int] == cs@[i + k]);
                }
                matched = false;
            } else {
                k = k + 1;
            }
        }
        if matched {
            proof {
                assert(rest.take(fs@.len() as int) =~= fs@);
                assert(rest.skip(fs@.len() as int) =~= cs@.skip(i + fs@.len()));
                assert(out@ + to@ + replace_all(cs@.skip(i + fs@.len()), from@, to@) =~= out@ + (to@
                    + replace_all(rest.skip(fs@.len() as int), from@, to@)));
            }
            out.append(to);
            i = i + fs.len();
        } else {
            proof {
                assert(rest.skip(1) =~= cs@.skip(i + 1));
                assert(rest[0] == cs@[i as int]);
                if rest.len() >= fs@.len() {
                    assert(!(rest.take(fs@.len() as int) == fs@));
                }
                assert(out@.push(cs@[i as int]) + replace_all(cs@.skip(i + 1), from@, to@) =~= out@ + (
                seq![rest[0]] + replace_all(rest.skip(1), from@, to@)));
            }
            push_char(&mut out, cs[i]);
            i = i + 1;
        }
    }
    proof {
        assert(cs@.skip(i as int) =~= Seq::<char>::empty());
    }
    out
}

/// The last segment of a path once `/`s and `.` segments at its end are
/// set aside, as `Path::components` normalizes them away.
pub open spec fn last_segment(path: Seq<char>) -> Option<Seq<char>>
    decreases path.len(),
{
    if path.len() == 0 {
        None
    } else if path.last() == '/' {
        last_segment(path.drop_last())
    } else if last_component(path) == seq!['.'] {
        last_segment(path.drop_last())
    } else {
        Some(last_component(path))
    }
}

/// The file name of a path, as `Path::file_name` gives it: its last
/// segment, unless that is `..` or there is none.
pub open spec fn file_name(path: Seq<char>) -> Option<Seq<char>> {
    match last_segment(path) {
        Some(c) => if c == seq!['.', '.'] {
            None
        } else {
            Some(c)
        },
        None => None,
    }
}

/// The file name of a path.
pub fn file_name_of(path: &str) -> (r: Option<String>)
    ensures
        match r {
            Some(n) => file_name(path@) == Some(n@),
            None => file_name(path@) is None,
        },
{
    let cs = chars_of(path);
    let mut end: usize = cs.len();
    proof {
        assert(cs@.take(end as int) =~= path@);
    }
    while end > 0
        invariant
            end <= cs@.len(),
            cs@ == path@,
            last_segment(path@) == last_segment(cs@.take(end as int)),
        decreases end,
    {
        let ghost prefix = cs@.take(end as int);
        proof {
            assert(prefix.drop_last() =~= cs@.take(end - 1));
            lemma_last_index_of(prefix, '/');
        }
        if cs[end - 1] == '/' {
            end = end - 1;
        } else {
            let start = match find_last_before(&cs, '/', end) {
                Some(i) => i + 1,
                None => 0,
            };
            proof {
                assert(last_component(prefix) =~= cs@.subrange(start as int, end as int));
            }
            if end - start == 1 && cs[start] == '.' {
                proof {
                    assert(last_component(prefix) =~= seq!['.']);
                }
                end = end - 1;
            } else {
                proof {
                    let sub = cs@.subrange(start as int, end as int);
                    if sub == seq!['.'] {
                        assert(sub.len() == 1);
                        assert(sub[0] == cs@[start as int]);
                    }
                    assert(last_component(prefix) != seq!['.']);
                }
                let name = string_of_range(&cs, start, end);
                if end - start == 2 && cs[start] == '.' && cs[start + 1] == '.' {
                    proof {
                        assert(name@ =~= seq!['.', '.']);
                    }
                    return None;
                }
                proof {
                    if name@ == seq!['.', '.'] {
                        assert(name@.len() == 2);
                    }
                }
                return Some(name);
            }
        }
    }
    None
}

/// Where the last segment of a path ends once `/`s and `.` segments at its
/// end are set aside (0 where there is none).
pub open spec fn segment_end(path: Seq<char>) -> int
    decreases path.len(),
{
    if path.len() == 0 {
        0
    } else if path.last() == '/' {
        segment_end(path.drop_last())
    } else if last_component(path) == seq!['.'] {
        segment_end(path.drop_last())
    } else {
        path.len() as int
    }
}

/// The path with its extension set to `ext`, as `Path::with_extension`
/// gives it: cut after the stem of its file name, then `.` and `ext` where
/// `ext` is not empty; unchanged where it has no file name.
pub open spec fn with_extension_text(path: Seq<char>, ext: Seq<char>) -> Seq<char> {
    match file_name(path) {
        None => path,
        Some(n) => path.take(segment_end(path) - n.len() + stem(n).len()) + if ext.len() > 0 {
            seq!['.'] + ext
        } else {
            Seq::empty()
        },
    }
}

/// Where the last segment of a path starts and ends, once `/`s and `.`
/// segments at its end are set aside.
fn last_segment_span(cs: &Vec<char>) -> (r: Option<(usize, usize)>)
    ensures
        match r {
            Some((start, end)) => start <= end <= cs@.len() && last_segment(cs@) == Some(
                cs@.subrange(start as int, end as int),
            ) && segment_end(cs@) == end,
            None => last_segment(cs@) is None,
        },
{
    let mut end: usize = cs.len();
    proof {
        assert(cs@.take(end as int) =~= cs@);
    }
    while end > 0
        invariant
            end <= cs@.len(),
            last_segment(cs@) == last_segment(cs@.take(end as int)),
            segment_end(cs@) == segment_end(cs@.take(end as int)),
        decreases end,
    {
        let ghost prefix = cs@.take(end as int);
        proof {
            assert(prefix.drop_last() =~= cs@.take(end - 1));
            lemma_last_index_of(prefix, '/');
        }
        if cs[end - 1] == '/' {
            end = end - 1;
        } else {
            let start = match find_last_before(cs, '/', end) {
                Some(i) => i + 1,
                None => 0,
            };
            proof {
                assert(last_component(prefix) =~= cs@.subrange(start as int, end as int));
            }
            if end - start == 1 && cs[start] == '.' {
                proof {
                    assert(last_component(prefix) =~= seq!['.']);
                }
                end = end - 1;
            } else {
                proof {
                    let sub = cs@.subrange(start as int, end as int);
                    if sub == seq!['.'] {
                        assert(sub.len() == 1);
                        assert(sub[0] == cs@[start as int]);
                    }
                    assert(last_component(prefix) != seq!['.']);
                }
                return Some((start, end));
            }
        }
    }
    None
}

/// The path with its extension set to `ext`.
pub fn with_extension(path: &str, ext: &str) -> (r: String)
    ensures
        r@ == with_extension_text(path@, ext@),
{
    let cs = chars_of(path);
    match last_segment_span(&cs) {
        None => String::from_str(path),
        Some((start, end)) => {
            let name = string_of_range(&cs, start, end);
            if end - start == 2 && cs[start] == '.' && cs[start + 1] == '.' {
                proof {
                    assert(name@ =~= seq!['.', '.']);
                }
                return String::from_str(path);
            }
            proof {
                if name@ == seq!['.', '.'] {
                    assert(name@.len() == 2);
                    assert(name@[0] == cs@[start as int]);
                    assert(name@[1] == cs@[start + 1]);
                }
                lemma_last_index_of(name@, '.');
            }
            let st = stem_of(name.as_str());
            let stem_len = chars_of(st.as_str()).len();
            proof {
                assert(stem_len <= end - start);
            }
            let cut = start + stem_len;
            let mut out = string_of_range(&cs, 0, cut);
            proof {
                assert(cs@.subrange(0, cut as int) =~= path@.take(cut as int));
            }
            if !ext.is_empty() {
                push_char(&mut out, '.');
                out.append(ext);
            }
            proof {
                assert(ext@.len() > 0 ==> out@ =~= path@.take(cut as int) + (seq!['.'] + ext@));
                assert(ext@.len() == 0 ==> out@ =~= path@.take(cut as int) + Seq::<char>::empty());
            }
            out
        },
    }
}

/// The extension of a path, as `Path::extension` gives it: what follows the
/// last `.` of its file name, unless that `.` begins the name.
pub open spec fn extension(path: Seq<char>) -> Option<Seq<char>> {
    match file_name(path) {
        Some(n) => match last_index_of(n, '.') {
            Some(i) => if i > 0 {
                Some(n.skip(i + 1))
            } else {
                None
            },
            None => None,
        },
        None => None,
    }
}

/// The extension of a path.
pub fn extension_of(path: &str) -> (r: Option<String>)
    ensures
        match r {
            Some(e) => extension(path@) == Some(e@),
            None => extension(path@) is None,
        },
{
    match file_name_of(path) {
        Some(name) => {
            let cs = chars_of(name.as_str());
            match find_last(&cs, '.') {
                Some(i) => {
                    proof {
                        lemma_last_index_of(cs@, '.');
                    }
                    let end = cs.len();
                    assert(i < end);
                    if i > 0 {
                        let start = i + 1;
                        let e = string_of_range(&cs, start, end);
                        proof {
                            assert(cs@.subrange(i + 1, cs@.len() as int) =~= cs@.skip(i + 1));
                        }
                        Some(e)
                    } else {
                        None
                    }
                },
                None => None,
            }
        },
        None => None,
    }
}

/// Whether `part` occurs in `whole` as a contiguous piece.
pub open spec fn occurs_in(part: Seq<char>, whole: Seq<char>) -> bool {
    exists|i: int|
        0 <= i && i + part.len() <= whole.len() && #[trigger] whole.subrange(i, i + part.len())
            == part
}

/// Whether `part` occurs in `whole` (what `str::contains` answers).
pub fn contains_text(whole: &str, part: &str) -> (r: bool)
    ensures
        r == occurs_in(part@, whole@),
{
    let w = chars_of(whole);
    let p = chars_of(part);
    if p.len() > w.len() {
        return false;
    }
    let mut i: usize = 0;
    while i <= w.len() - p.len()
        invariant
            p.len() <= w.len(),
            w@ == whole@,
            p@ == part@,
            forall|k: int| 0 <= k < i ==> #[trigger] w@.subrange(k, k + p@.len()) != p@,
        decreases w.len() - p.len() + 1 - i,
    {
        let mut j: usize = 0;
        while j < p.len() && w[i + j] == p[j]
            invariant
                i + p.len() <= w.len(),
                j <= p.len(),
                forall|t: int| 0 <= t < j ==> w@[i + t] == p@[t],
            decreases p.len() - j,
        {
            j = j + 1;
        }
        if j == p.len() {
            assert(w@.subrange(i as int, i + p@.len()) =~= p@);
            return true;
        }
        assert(w@.subrange(i as int, i + p@.len())[j as int] != p@[j as int]);
        i = i + 1;
    }
    false
}

/// The position of the last `c` among the first `end` characters of `cs`.
fn find_last_before(cs: &Vec<char>, c: char, end: usize) -> (r: Option<usize>)
    requires
        end <= cs@.len(),
    ensures
        match r {
            Some(i) => last_index_of(cs@.take(end as int), c) == Some(i as int),
            None => last_index_of(cs@.take(end as int), c) is None,
        },
{
    let mut i: usize = end;
    proof {
        assert(cs@.take(end as int).take(end as int) =~= cs@.take(end as int));
    }
    while i > 0
        invariant
            i <= end <= cs@.len(),
            last_index_of(cs@.take(end as int), c) == last_index_of(cs@.take(i as int), c),
        decreases i,
    {
        proof {
            assert(cs@.take(i as int).drop_last() =~= cs@.take(i - 1));
        }
        if cs[i - 1] == c {
            return Some(i - 1);
        }
        i = i - 1;
    }
    None
}

} // verus!

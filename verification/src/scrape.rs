//! Extraction of embedded screenshot paths from a fetched HTML page.
//!
//! The page text is scanned line by line. On each line the first occurrence
//! of the marker `<img src="` is located; the text following the marker, up
//! to the next `" ` delimiter, is the raw candidate path. Only candidates
//! that carry the well-known `/screenshot` path prefix are kept, so unrelated
//! images on the page are ignored. A line without the marker, or without the
//! closing delimiter after it, yields nothing.

use vstd::assert_by_contradiction;
use vstd::prelude::*;
use vstd::string::*;

verus! {

/// The marker that introduces an embedded image path.
pub open spec fn marker() -> Seq<char> {
    "<img src=\""@
}

/// The delimiter that ends the embedded image path.
pub open spec fn delim() -> Seq<char> {
    "\" "@
}

/// The path prefix a candidate must carry to be accepted.
pub open spec fn screenshot_prefix() -> Seq<char> {
    "/screenshot"@
}

/// `pat` occurs in `s` at position `i`.
pub open spec fn spec_match_at(s: Seq<char>, pat: Seq<char>, i: int) -> bool {
    &&& 0 <= i
    &&& i + pat.len() <= s.len()
    &&& s.subrange(i, i + pat.len()) == pat
}

/// Position of the first occurrence of `pat` in `s` at or after `from`, if
/// any.
pub open spec fn spec_find(s: Seq<char>, pat: Seq<char>, from: int) -> Option<int>
    decreases s.len() - from + 1,
{
    if from + pat.len() > s.len() {
        None
    } else if spec_match_at(s, pat, from) {
        Some(from)
    } else {
        spec_find(s, pat, from + 1)
    }
}

/// A found position lies between `from` and the end of `s`, and `pat` indeed
/// occurs there.
pub proof fn lemma_find_found(s: Seq<char>, pat: Seq<char>, from: int, i: int)
    requires
        0 <= from,
        spec_find(s, pat, from) == Some(i),
    ensures
        from <= i,
        i + pat.len() <= s.len(),
        spec_match_at(s, pat, i),
    decreases s.len() - from + 1,
{
    if from + pat.len() > s.len() {
        // spec_find is None here; the premise rules this out.
    } else if spec_match_at(s, pat, from) {
    } else {
        lemma_find_found(s, pat, from + 1, i);
    }
}

/// A found position is the first: `pat` occurs nowhere between `from` and it.
pub proof fn lemma_find_first(s: Seq<char>, pat: Seq<char>, from: int, j: int)
    requires
        0 <= from,
        spec_find(s, pat, from) is Some,
        from <= j < spec_find(s, pat, from)->0,
    ensures
        !spec_match_at(s, pat, j),
    decreases j - from,
{
    if from + pat.len() > s.len() {
    } else if spec_match_at(s, pat, from) {
    } else if from < j {
        lemma_find_first(s, pat, from + 1, j);
    }
}

/// A `None` answer is exhaustive: `pat` occurs nowhere at or after `from`.
pub proof fn lemma_find_none(s: Seq<char>, pat: Seq<char>, from: int, j: int)
    requires
        spec_find(s, pat, from) is None,
        from <= j,
    ensures
        !spec_match_at(s, pat, j),
    decreases j - from,
{
    if from + pat.len() > s.len() {
    } else if from < j {
        lemma_find_none(s, pat, from + 1, j);
    }
}

/// The lines of `s`, split on the newline character, with `cur` the part of
/// the current line read so far. Every line is kept, the empty last one
/// included.
pub open spec fn spec_lines_from(s: Seq<char>, cur: Seq<char>) -> Seq<Seq<char>>
    decreases s.len(),
{
    if s.len() == 0 {
        seq![cur]
    } else if s[0] == '\n' {
        seq![cur] + spec_lines_from(s.skip(1), Seq::empty())
    } else {
        spec_lines_from(s.skip(1), cur.push(s[0]))
    }
}

/// The lines of `s`, split on the newline character.
pub open spec fn spec_lines(s: Seq<char>) -> Seq<Seq<char>> {
    spec_lines_from(s, Seq::empty())
}

/// The raw candidate of one line: the text after the first marker, up to the
/// next delimiter. `None` when the line has no marker, or no delimiter after
/// it.
pub open spec fn spec_raw_candidate(line: Seq<char>) -> Option<Seq<char>> {
    match spec_find(line, marker(), 0) {
        None => None,
        Some(m) => {
            let rest = line.skip(m + marker().len() as int);
            match spec_find(rest, delim(), 0) {
                None => None,
                Some(d) => Some(rest.take(d)),
            }
        },
    }
}

/// The accepted candidate of one line: the raw candidate, kept only when it
/// carries the screenshot path prefix.
pub open spec fn spec_line_candidate(line: Seq<char>) -> Option<Seq<char>> {
    match spec_raw_candidate(line) {
        None => None,
        Some(cand) => if screenshot_prefix().is_prefix_of(cand) {
            Some(cand)
        } else {
            None
        },
    }
}

/// All accepted candidates of a sequence of lines, in line order.
pub open spec fn spec_candidates_of(lines: Seq<Seq<char>>) -> Seq<Seq<char>>
    decreases lines.len(),
{
    if lines.len() == 0 {
        Seq::empty()
    } else {
        spec_candidates_of(lines.drop_last()) + (match spec_line_candidate(lines.last()) {
            Some(c) => seq![c],
            None => Seq::empty(),
        })
    }
}

/// All accepted candidates of a page body, scanned line by line.
pub open spec fn spec_candidates(body: Seq<char>) -> Seq<Seq<char>> {
    spec_candidates_of(spec_lines(body))
}

/// Law: the filter is real — every accepted candidate of a line sequence
/// carries the screenshot path prefix.
pub proof fn lemma_candidates_have_prefix(lines: Seq<Seq<char>>, k: int)
    requires
        0 <= k < spec_candidates_of(lines).len(),
    ensures
        screenshot_prefix().is_prefix_of(spec_candidates_of(lines)[k]),
    decreases lines.len(),
{
    if lines.len() > 0 {
        let head = spec_candidates_of(lines.drop_last());
        if k < head.len() {
            lemma_candidates_have_prefix(lines.drop_last(), k);
        }
    }
}

/// Law: every path scraped from a page body carries the screenshot path
/// prefix, so no unrelated image on the page is ever fetched.
pub proof fn lemma_scraped_paths_have_prefix(body: Seq<char>, k: int)
    requires
        0 <= k < spec_candidates(body).len(),
    ensures
        screenshot_prefix().is_prefix_of(spec_candidates(body)[k]),
{
    lemma_candidates_have_prefix(spec_lines(body), k);
}

/// Relies on `String::push` of std: it appends the given character to the
/// end of the string.
pub assume_specification[ String::push ](s: &mut String, ch: char)
    ensures
        final(s)@ == old(s)@.push(ch),
;

/// The characters of `s`, in order, as a vector.
fn str_chars(s: &str) -> (v: Vec<char>)
    ensures
        v@ == s@,
{
    let n = s.unicode_len();
    let mut v: Vec<char> = Vec::new();
    let mut i: usize = 0;
    while i < n
        invariant
            i <= n,
            n == s@.len(),
            v@ == s@.take(i as int),
        decreases n - i,
    {
        let c = s.get_char(i);
        v.push(c);
        proof {
            assert(s@.take(i + 1) =~= s@.take(i as int).push(s@[i as int]));
        }
        i += 1;
    }
    proof {
        assert(s@.take(n as int) =~= s@);
    }
    v
}

/// A string holding exactly the given characters, in order.
fn chars_to_string(v: &Vec<char>) -> (s: String)
    ensures
        s@ == v@,
{
    let mut s = String::new();
    let mut i: usize = 0;
    while i < v.len()
        invariant
            i <= v@.len(),
            s@ == v@.take(i as int),
        decreases v@.len() - i,
    {
        s.push(v[i]);
        proof {
            assert(v@.take(i + 1) =~= v@.take(i as int).push(v@[i as int]));
        }
        i += 1;
    }
    proof {
        assert(v@.take(v@.len() as int) =~= v@);
    }
    s
}

/// The elements of `v` from `from` (inclusive) to `to` (exclusive).
fn vec_slice(v: &Vec<char>, from: usize, to: usize) -> (r: Vec<char>)
    requires
        from <= to <= v@.len(),
    ensures
        r@ == v@.subrange(from as int, to as int),
{
    let mut r: Vec<char> = Vec::new();
    let mut i: usize = from;
    while i < to
        invariant
            from <= i <= to <= v@.len(),
            r@ == v@.subrange(from as int, i as int),
        decreases to - i,
    {
        r.push(v[i]);
        proof {
            assert(v@.subrange(from as int, i + 1) =~= v@.subrange(from as int, i as int).push(
                v@[i as int],
            ));
        }
        i += 1;
    }
    r
}

/// Whether `pat` occurs in `s` at position `i`.
fn match_at(s: &Vec<char>, pat: &Vec<char>, i: usize) -> (b: bool)
    requires
        i + pat@.len() <= s@.len(),
    ensures
        b == spec_match_at(s@, pat@, i as int),
{
    let n = s.len();
    let mut j: usize = 0;
    while j < pat.len()
        invariant
            n == s@.len(),
            i + pat@.len() <= s@.len(),
            j <= pat@.len(),
            forall|k: int| 0 <= k < j ==> s@[i + k] == pat@[k],
        decreases pat@.len() - j,
    {
        if s[i + j] != pat[j] {
            proof {
                assert_by_contradiction!(!spec_match_at(s@, pat@, i as int), {
                    assert(s@.subrange(i as int, i + pat@.len())[j as int] == pat@[j as int]);
                });
            }
            return false;
        }
        j += 1;
    }
    proof {
        assert(s@.subrange(i as int, i + pat@.len()) =~= pat@);
    }
    true
}

/// Position of the first occurrence of `pat` in `s` at or after `from`, if
/// any.
fn find_pat(s: &Vec<char>, pat: &Vec<char>, from: usize) -> (r: Option<usize>)
    requires
        from <= s@.len(),
        1 <= pat@.len(),
    ensures
        ({
            let f = spec_find(s@, pat@, from as int);
            match r {
                Some(i) => f == Some(i as int),
                None => f is None,
            }
        }),
{
    let n = s.len();
    let m = pat.len();
    let mut i: usize = from;
    while m <= n - i
        invariant
            from <= i <= n,
            n == s@.len(),
            m == pat@.len(),
            1 <= m,
            spec_find(s@, pat@, from as int) == spec_find(s@, pat@, i as int),
        decreases n - i,
    {
        if match_at(s, pat, i) {
            return Some(i);
        }
        proof {
            assert(spec_find(s@, pat@, i as int) == spec_find(s@, pat@, i + 1));
        }
        i += 1;
    }
    proof {
        assert(spec_find(s@, pat@, i as int) is None);
    }
    None
}

/// The accepted candidate of one line, or `None` when the line yields
/// nothing.
fn scan_line(
    line: &Vec<char>,
    pat_marker: &Vec<char>,
    pat_delim: &Vec<char>,
    prefix: &Vec<char>,
) -> (r: Option<Vec<char>>)
    requires
        pat_marker@ == marker(),
        pat_delim@ == delim(),
        prefix@ == screenshot_prefix(),
    ensures
        ({
            let c = spec_line_candidate(line@);
            match r {
                Some(cand) => c == Some(cand@),
                None => c is None,
            }
        }),
{
    proof {
        reveal_strlit("<img src=\"");
        reveal_strlit("\" ");
    }
    let m = match find_pat(line, pat_marker, 0) {
        Some(m) => m,
        None => {
            return None;
        },
    };
    proof {
        lemma_find_found(line@, marker(), 0, m as int);
    }
    let line_len = line.len();
    let rest = vec_slice(line, m + pat_marker.len(), line_len);
    proof {
        assert(rest@ =~= line@.skip(m + marker().len() as int));
    }
    let d = match find_pat(&rest, pat_delim, 0) {
        Some(d) => d,
        None => {
            return None;
        },
    };
    proof {
        lemma_find_found(rest@, delim(), 0, d as int);
    }
    let cand = vec_slice(&rest, 0, d);
    proof {
        assert(cand@ =~= rest@.take(d as int));
    }
    if prefix.len() <= cand.len() && match_at(&cand, prefix, 0) {
        proof {
            assert(cand@.subrange(0, screenshot_prefix().len() as int) =~= cand@.take(
                screenshot_prefix().len() as int,
            ));
        }
        Some(cand)
    } else {
        proof {
            if screenshot_prefix().is_prefix_of(cand@) {
                assert(cand@.subrange(0, screenshot_prefix().len() as int) =~= cand@.take(
                    screenshot_prefix().len() as int,
                ));
                assert(spec_match_at(cand@, screenshot_prefix(), 0));
            }
        }
        None
    }
}

/// The lines of `chars`, split on the newline character.
fn split_lines(chars: &Vec<char>) -> (lines: Vec<Vec<char>>)
    ensures
        lines@.map_values(|l: Vec<char>| l@) == spec_lines(chars@),
{
    let mut lines: Vec<Vec<char>> = Vec::new();
    let mut cur: Vec<char> = Vec::new();
    let mut i: usize = 0;
    proof {
        assert(chars@.skip(0) =~= chars@);
        assert(lines@.map_values(|l: Vec<char>| l@) =~= Seq::<Seq<char>>::empty());
        assert(Seq::<Seq<char>>::empty() + spec_lines_from(chars@, cur@) =~= spec_lines_from(
            chars@,
            cur@,
        ));
    }
    while i < chars.len()
        invariant
            i <= chars@.len(),
            spec_lines(chars@) == lines@.map_values(|l: Vec<char>| l@) + spec_lines_from(
                chars@.skip(i as int),
                cur@,
            ),
        decreases chars@.len() - i,
    {
        let ghost prev_lines = lines@.map_values(|l: Vec<char>| l@);
        let ghost prev_cur = cur@;
        let c = chars[i];
        proof {
            assert(chars@.skip(i as int)[0] == chars@[i as int]);
            assert(chars@.skip(i as int).skip(1) =~= chars@.skip(i + 1));
        }
        if c == '\n' {
            lines.push(cur);
            cur = Vec::new();
            proof {
                assert(lines@.map_values(|l: Vec<char>| l@) =~= prev_lines.push(prev_cur));
                assert(spec_lines_from(chars@.skip(i as int), prev_cur) == seq![prev_cur]
                    + spec_lines_from(chars@.skip(i + 1), Seq::empty()));
                assert(prev_lines + (seq![prev_cur] + spec_lines_from(
                    chars@.skip(i + 1),
                    Seq::empty(),
                )) =~= prev_lines.push(prev_cur) + spec_lines_from(
                    chars@.skip(i + 1),
                    Seq::empty(),
                ));
            }
        } else {
            cur.push(c);
            proof {
                assert(cur@ =~= prev_cur.push(chars@[i as int]));
                assert(spec_lines_from(chars@.skip(i as int), prev_cur) == spec_lines_from(
                    chars@.skip(i + 1),
                    cur@,
                ));
            }
        }
        i += 1;
    }
    let ghost prev_lines = lines@.map_values(|l: Vec<char>| l@);
    let ghost prev_cur = cur@;
    lines.push(cur);
    proof {
        assert(chars@.skip(chars@.len() as int) =~= Seq::<char>::empty());
        assert(spec_lines_from(Seq::<char>::empty(), prev_cur) == seq![prev_cur]);
        assert(lines@.map_values(|l: Vec<char>| l@) =~= prev_lines.push(prev_cur));
        assert(prev_lines + seq![prev_cur] =~= prev_lines.push(prev_cur));
    }
    lines
}

/// All accepted screenshot paths embedded in `body`, scanned line by line:
/// on each line, the text after the first `<img src="` marker up to the next
/// `" ` delimiter, kept only when it starts with `/screenshot`.
pub fn scrape_candidates(body: &str) -> (r: Vec<String>)
    ensures
        r@.map_values(|s: String| s@) == spec_candidates(body@),
{
    let chars = str_chars(body);
    let pat_marker = str_chars("<img src=\"");
    let pat_delim = str_chars("\" ");
    let prefix = str_chars("/screenshot");
    let lines = split_lines(&chars);
    let ghost lv = lines@.map_values(|l: Vec<char>| l@);
    let mut out: Vec<String> = Vec::new();
    let mut i: usize = 0;
    proof {
        assert(lv.take(0) =~= Seq::<Seq<char>>::empty());
        assert(out@.map_values(|s: String| s@) =~= Seq::<Seq<char>>::empty());
    }
    while i < lines.len()
        invariant
            i <= lines@.len(),
            lv == lines@.map_values(|l: Vec<char>| l@),
            lv == spec_lines(chars@),
            chars@ == body@,
            pat_marker@ == marker(),
            pat_delim@ == delim(),
            prefix@ == screenshot_prefix(),
            out@.map_values(|s: String| s@) == spec_candidates_of(lv.take(i as int)),
        decreases lines@.len() - i,
    {
        let ghost prev_out = out@.map_values(|s: String| s@);
        proof {
            assert(lv.take(i + 1).drop_last() =~= lv.take(i as int));
            assert(lv.take(i + 1).last() == lv[i as int]);
            assert(lv[i as int] == lines@[i as int]@);
        }
        match scan_line(&lines[i], &pat_marker, &pat_delim, &prefix) {
            Some(cand) => {
                let s = chars_to_string(&cand);
                out.push(s);
                proof {
                    assert(out@.map_values(|s: String| s@) =~= prev_out.push(cand@));
                    assert(prev_out + seq![cand@] =~= prev_out.push(cand@));
                }
            },
            None => {},
        }
        i += 1;
    }
    proof {
        assert(lv.take(lines@.len() as int) =~= lv);
    }
    out
}

} // verus!

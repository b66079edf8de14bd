//! A small line searcher: split a text into lines, keep the lines that
//! contain a query, either exactly or ignoring letter case.

use crate::seqs::{find_char, lemma_find_char_is, lemma_filter_grow};
use vstd::prelude::*;

verus! {

/// A line as produced from a segment that was terminated by `'\n'`:
/// a trailing `'\r'` is not part of the line.
pub open spec fn strip_cr(line: Seq<char>) -> Seq<char> {
    if line.len() > 0 && line[line.len() - 1] == '\r' {
        line.drop_last()
    } else {
        line
    }
}

/// The lines of `text`: segments separated by `'\n'`, where a segment
/// terminated by `'\n'` loses a trailing `'\r'`, a final segment keeps
/// every character, and a trailing line terminator opens no extra line.
pub open spec fn spec_lines(text: Seq<char>) -> Seq<Seq<char>>
    decreases text.len(),
{
    if text.len() == 0 {
        Seq::empty()
    } else {
        let i = find_char(text, '\n') as int;
        if i >= text.len() {
            seq![text]
        } else {
            seq![strip_cr(text.subrange(0, i))] + spec_lines(
                text.subrange(i + 1, text.len() as int),
            )
        }
    }
}

/// Splitting the tail from `start` opens with the line that runs up to the
/// newline at `i`, when nothing between `start` and `i` is a newline.
proof fn lemma_lines_step(text: Seq<char>, start: int, i: int)
    requires
        0 <= start <= i < text.len(),
        text[i] == '\n',
        forall|k: int| start <= k < i ==> text[k] != '\n',
    ensures
        spec_lines(text.subrange(start, text.len() as int)) == seq![
            strip_cr(text.subrange(start, i)),
        ] + spec_lines(text.subrange(i + 1, text.len() as int)),
{
    let n = text.len() as int;
    let t = text.subrange(start, n);
    assert forall|j: int| 0 <= j < i - start implies t[j] != '\n' by {
        assert(t[j] == text[start + j]);
    }
    assert(t[i - start] == text[i]);
    lemma_find_char_is(t, '\n', i - start);
    assert(t.subrange(0, i - start) =~= text.subrange(start, i));
    assert(t.subrange(i - start + 1, t.len() as int) =~= text.subrange(i + 1, n));
}

/// The tail from `start` is a single line, or no line at all when `start`
/// is the end, when no newline follows `start`.
proof fn lemma_lines_tail(text: Seq<char>, start: int)
    requires
        0 <= start <= text.len(),
        forall|k: int| start <= k < text.len() ==> text[k] != '\n',
    ensures
        start == text.len() ==> spec_lines(text.subrange(start, text.len() as int))
            == Seq::<Seq<char>>::empty(),
        start < text.len() ==> spec_lines(text.subrange(start, text.len() as int)) == seq![
            text.subrange(start, text.len() as int),
        ],
{
    let n = text.len() as int;
    let t = text.subrange(start, n);
    if start < text.len() {
        assert forall|j: int| 0 <= j < t.len() implies t[j] != '\n' by {
            assert(t[j] == text[start + j]);
        }
        lemma_find_char_is(t, '\n', t.len() as int);
    }
}

/// Splits a text into its lines, as `spec_lines` describes them.
pub fn split_lines<'a>(text: &'a str) -> (r: Vec<&'a str>)
    ensures
        r.deep_view() == spec_lines(text@),
{
    let n = text.unicode_len();
    let mut out: Vec<&'a str> = Vec::new();
    let mut start: usize = 0;
    let mut i: usize = 0;
    proof {
        assert(text@.subrange(0, n as int) =~= text@);
        assert(out.deep_view() =~= Seq::<Seq<char>>::empty());
        assert(out.deep_view() + spec_lines(text@) =~= spec_lines(text@));
    }
    while i < n
        invariant
            start <= i <= n,
            n == text@.len(),
            forall|k: int| start <= k < i ==> text@[k] != '\n',
            out.deep_view() + spec_lines(text@.subrange(start as int, n as int)) == spec_lines(
                text@,
            ),
        decreases n - i,
    {
        let ghost prev = out.deep_view();
        if text.get_char(i) == '\n' {
            let line = if i > start && text.get_char(i - 1) == '\r' {
                text.substring_char(start, i - 1)
            } else {
                text.substring_char(start, i)
            };
            proof {
                let seg = text@.subrange(start as int, i as int);
                if i > start && text@[i as int - 1] == '\r' {
                    assert(seg[seg.len() - 1] == '\r');
                    assert(line@ =~= strip_cr(seg));
                } else {
                    assert(line@ =~= strip_cr(seg));
                }
                lemma_lines_step(text@, start as int, i as int);
            }
            out.push(line);
            proof {
                assert(out.deep_view() =~= prev.push(line@));
                assert(prev.push(line@) + spec_lines(
                    text@.subrange(i as int + 1, n as int),
                ) =~= prev + spec_lines(text@.subrange(start as int, n as int)));
            }
            start = i + 1;
        }
        i = i + 1;
    }
    if start < n {
        let line = text.substring_char(start, n);
        proof {
            lemma_lines_tail(text@, start as int);
        }
        let ghost prev = out.deep_view();
        out.push(line);
        proof {
            assert(out.deep_view() =~= prev.push(line@));
            assert(prev.push(line@) =~= prev + spec_lines(
                text@.subrange(start as int, n as int),
            ));
        }
    } else {
        proof {
            lemma_lines_tail(text@, start as int);
            assert(out.deep_view() + spec_lines(text@.subrange(start as int, n as int))
                =~= out.deep_view());
        }
    }
    out
}

/// The needle occurs in the haystack starting at position `i`.
pub open spec fn contains_at(hay: Seq<char>, needle: Seq<char>, i: int) -> bool {
    0 <= i && i + needle.len() <= hay.len() && hay.subrange(i, i + needle.len()) == needle
}

/// The needle occurs somewhere in the haystack.
pub open spec fn spec_contains(hay: Seq<char>, needle: Seq<char>) -> bool {
    exists|i: int| contains_at(hay, needle, i)
}

/// Whether `needle` occurs in `hay` starting exactly at position `i`.
fn match_at(hay: &str, needle: &str, i: usize) -> (r: bool)
    requires
        i + needle@.len() <= hay@.len(),
    ensures
        r == contains_at(hay@, needle@, i as int),
{
    let hn = hay.unicode_len();
    let m = needle.unicode_len();
    let mut j: usize = 0;
    while j < m
        invariant
            j <= m,
            m == needle@.len(),
            hn == hay@.len(),
            i + m <= hn,
            forall|k: int| 0 <= k < j ==> hay@[i + k] == needle@[k],
        decreases m - j,
    {
        if hay.get_char(i + j) != needle.get_char(j) {
            proof {
                if contains_at(hay@, needle@, i as int) {
                    assert(hay@.subrange(i as int, i as int + needle@.len())[j as int]
                        == needle@[j as int]);
                }
            }
            return false;
        }
        j = j + 1;
    }
    proof {
        assert(hay@.subrange(i as int, i as int + needle@.len()) =~= needle@);
    }
    true
}

/// Whether `needle` occurs in `hay` as a contiguous run of characters.
/// The empty needle occurs in every haystack.
pub fn contains_str(hay: &str, needle: &str) -> (r: bool)
    ensures
        r == spec_contains(hay@, needle@),
{
    let n = hay.unicode_len();
    let m = needle.unicode_len();
    if m > n {
        proof {
            assert forall|i: int| !contains_at(hay@, needle@, i) by {}
        }
        return false;
    }
    if m == 0 {
        proof {
            assert(hay@.subrange(0, 0) =~= needle@);
            assert(contains_at(hay@, needle@, 0));
        }
        return true;
    }
    let mut i: usize = 0;
    while i <= n - m
        invariant
            1 <= m <= n,
            n == hay@.len(),
            m == needle@.len(),
            i <= n - m + 1,
            forall|k: int| 0 <= k < i ==> !contains_at(hay@, needle@, k),
        decreases n - i,
    {
        if match_at(hay, needle, i) {
            return true;
        }
        i = i + 1;
    }
    proof {
        assert forall|k: int| !contains_at(hay@, needle@, k) by {
            if contains_at(hay@, needle@, k) {
                assert(0 <= k < i);
            }
        }
    }
    false
}

/// The test a line must pass in a case-sensitive search for `query`.
pub open spec fn matches_query(query: Seq<char>) -> spec_fn(Seq<char>) -> bool {
    |line: Seq<char>| spec_contains(line, query)
}

/// Returns the lines of `contents` that contain `query`, in order.
pub fn search<'a>(query: &str, contents: &'a str) -> (r: Vec<&'a str>)
    ensures
        r.deep_view() == spec_lines(contents@).filter(matches_query(query@)),
{
    let lines = split_lines(contents);
    let ghost all = spec_lines(contents@);
    let ghost pred = matches_query(query@);
    let mut out: Vec<&'a str> = Vec::new();
    let mut i: usize = 0;
    while i < lines.len()
        invariant
            i <= lines@.len(),
            lines.deep_view() == all,
            all == spec_lines(contents@),
            pred == matches_query(query@),
            out.deep_view() == all.subrange(0, i as int).filter(pred),
        decreases lines@.len() - i,
    {
        let ghost prev = out.deep_view();
        let line = lines[i];
        proof {
            assert(line@ == all[i as int]);
        }
        let keep = contains_str(line, query);
        if keep {
            out.push(line);
            proof {
                assert(out.deep_view() =~= prev.push(line@));
            }
        }
        proof {
            lemma_filter_grow(all, pred, i as int);
        }
        i = i + 1;
    }
    proof {
        assert(all.subrange(0, all.len() as int) =~= all);
    }
    out
}

/// A case-sensitive search keeps exactly the matching lines: every line
/// it returns contains the query, and every line of the text that
/// contains the query is among the returned ones.
pub proof fn lemma_search_exact(text: Seq<char>, query: Seq<char>)
    ensures
        forall|i: int|
            0 <= i < spec_lines(text).filter(matches_query(query)).len() ==> spec_contains(
                #[trigger] spec_lines(text).filter(matches_query(query))[i],
                query,
            ),
        forall|i: int|
            0 <= i < spec_lines(text).len() && spec_contains(#[trigger] spec_lines(text)[i], query)
                ==> spec_lines(text).filter(matches_query(query)).contains(spec_lines(text)[i]),
{
    broadcast use vstd::seq_lib::group_filter_ensures;

    let lines = spec_lines(text);
    let pred = matches_query(query);
    assert forall|i: int| 0 <= i < lines.filter(pred).len() implies spec_contains(
        lines.filter(pred)[i],
        query,
    ) by {
        assert(pred(lines.filter(pred)[i]));
    }
    assert forall|i: int|
        0 <= i < lines.len() && spec_contains(lines[i], query) implies lines.filter(pred).contains(
        lines[i],
    ) by {
        assert(pred(lines[i]));
    }
}

/// The lowercase form of a sequence of characters, as Unicode defines it.
pub uninterp spec fn lower_of(s: Seq<char>) -> Seq<char>;

/// Relies on str::to_lowercase: the result depends on the characters alone.
#[verifier::external_body]
fn lowercase(s: &str) -> (r: String)
    ensures
        r@ == lower_of(s@),
        s@.len() == 0 ==> r@.len() == 0,
{
    s.to_lowercase()
}

/// The test a line must pass in a case-insensitive search for `query`.
pub open spec fn matches_query_ci(query: Seq<char>) -> spec_fn(Seq<char>) -> bool {
    |line: Seq<char>| spec_contains(lower_of(line), lower_of(query))
}

/// Returns the lines of `contents` whose lowercase form contains the
/// lowercase form of `query`, in order.
pub fn search_case_insensitive<'a>(query: &str, contents: &'a str) -> (r: Vec<&'a str>)
    ensures
        r.deep_view() == spec_lines(contents@).filter(matches_query_ci(query@)),
{
    let ghost q = query@;
    let lowered_query = lowercase(query);
    let ghost pred = matches_query_ci(q);
    let lines = split_lines(contents);
    let ghost all = spec_lines(contents@);
    let mut out: Vec<&'a str> = Vec::new();
    let mut i: usize = 0;
    while i < lines.len()
        invariant
            i <= lines@.len(),
            lines.deep_view() == all,
            all == spec_lines(contents@),
            pred == matches_query_ci(q),
            lowered_query@ == lower_of(q),
            out.deep_view() == all.subrange(0, i as int).filter(pred),
        decreases lines@.len() - i,
    {
        let ghost prev = out.deep_view();
        let line = lines[i];
        proof {
            assert(line@ == all[i as int]);
        }
        let lowered = lowercase(line);
        let keep = contains_str(lowered.as_str(), lowered_query.as_str());
        if keep {
            out.push(line);
            proof {
                assert(out.deep_view() =~= prev.push(line@));
            }
        }
        proof {
            lemma_filter_grow(all, pred, i as int);
        }
        i = i + 1;
    }
    proof {
        assert(all.subrange(0, all.len() as int) =~= all);
    }
    out
}

/// The case of the query does not matter: two queries with the same
/// lowercase form put every text through the same test, so a
/// case-insensitive search answers them with the same lines.
pub proof fn lemma_query_case_irrelevant(text: Seq<char>, q1: Seq<char>, q2: Seq<char>)
    requires
        lower_of(q1) == lower_of(q2),
    ensures
        matches_query_ci(q1) == matches_query_ci(q2),
        spec_lines(text).filter(matches_query_ci(q1)) == spec_lines(text).filter(
            matches_query_ci(q2),
        ),
{
    assert(matches_query_ci(q1) =~= matches_query_ci(q2));
}

/// The last character of the first line of `text`: `None` when the text
/// has no lines at all or its first line is empty.
pub fn last_char_of_first_line(text: &str) -> (r: Option<char>)
    ensures
        r == if spec_lines(text@).len() == 0 || spec_lines(text@)[0].len() == 0 {
            None::<char>
        } else {
            Some(spec_lines(text@)[0].last())
        },
{
    let lines = split_lines(text);
    if lines.len() == 0 {
        return None;
    }
    let line = lines[0];
    proof {
        assert(line@ == spec_lines(text@)[0]);
    }
    let m = line.unicode_len();
    if m == 0 {
        None
    } else {
        Some(line.get_char(m - 1))
    }
}

/// What a search run needs to know: the query, the file to search, and
/// whether letter case is ignored.
pub struct Config {
    pub query: String,
    pub filename: String,
    pub ignore_case: bool,
}

impl Config {
    /// Reads the query and the file name out of a full argument list,
    /// whose first entry is the program's own name. Fails, naming what is
    /// missing, when fewer than two arguments follow that entry.
    pub fn new(args: &Vec<String>, ignore_case: bool) -> (r: Result<Config, &'static str>)
        ensures
            args@.len() < 2 ==> (r matches Err(e) && e@ == "Didn't get a query string"@),
            args@.len() == 2 ==> (r matches Err(e) && e@ == "Didn't get a file name"@),
            args@.len() >= 3 ==> (r matches Ok(c) && c.query@ == args@[1]@ && c.filename@
                == args@[2]@ && c.ignore_case == ignore_case),
    {
        if args.len() < 2 {
            return Err("Didn't get a query string");
        }
        if args.len() < 3 {
            return Err("Didn't get a file name");
        }
        let query = args[1].clone();
        let filename = args[2].clone();
        Ok(Config { query, filename, ignore_case })
    }
}

} // verus!

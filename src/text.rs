//! Text helpers over character sequences: substring replacement and the
//! line-per-entry format of the persisted file.

use vstd::prelude::*;

verus! {

/// `s` with every non-overlapping occurrence of `pat`, scanned from the
/// left, replaced by `rep`.
pub open spec fn replaced(s: Seq<char>, pat: Seq<char>, rep: Seq<char>) -> Seq<char>
    decreases s.len(),
{
    if s.len() == 0 {
        seq![]
    } else if 0 < pat.len() <= s.len() && s.take(pat.len() as int) == pat {
        rep + replaced(s.skip(pat.len() as int), pat, rep)
    } else {
        seq![s[0]] + replaced(s.skip(1), pat, rep)
    }
}

/// `l` without one trailing carriage return.
pub open spec fn strip_cr(l: Seq<char>) -> Seq<char> {
    if l.len() > 0 && l.last() == '\r' {
        l.drop_last()
    } else {
        l
    }
}

/// Left-to-right scan of `t`: the lines ended by a newline so far, and the
/// characters of the line still open.
pub open spec fn scan_lines(t: Seq<char>) -> (Seq<Seq<char>>, Seq<char>)
    decreases t.len(),
{
    if t.len() == 0 {
        (seq![], seq![])
    } else {
        let (done, cur) = scan_lines(t.drop_last());
        if t.last() == '\n' {
            (done.push(strip_cr(cur)), seq![])
        } else {
            (done, cur.push(t.last()))
        }
    }
}

/// The lines of `t`: split at each newline, a carriage return before the
/// newline dropped, the final newline optional.
pub open spec fn lines_of(t: Seq<char>) -> Seq<Seq<char>> {
    let (done, cur) = scan_lines(t);
    if cur.len() == 0 {
        done
    } else {
        done.push(cur)
    }
}

/// Each entry of `ls` followed by a newline, in order.
pub open spec fn joined(ls: Seq<Seq<char>>) -> Seq<char>
    decreases ls.len(),
{
    if ls.len() == 0 {
        seq![]
    } else {
        joined(ls.drop_last()) + ls.last() + seq!['\n']
    }
}

/// A line that the line format gives back unchanged: no newline inside and
/// no carriage return at its end.
pub open spec fn is_plain_line(l: Seq<char>) -> bool {
    &&& forall|i: int| 0 <= i < l.len() ==> l[i] != '\n'
    &&& !(l.len() > 0 && l.last() == '\r')
}

/// Relies on `String::push`: appends one character at the end.
#[verifier::external_body]
pub(crate) fn push_char(s: &mut String, c: char)
    ensures
        final(s)@ == old(s)@.push(c),
{
    s.push(c)
}

/// A string holding the characters of `cs`.
pub fn string_of_chars(cs: &Vec<char>) -> (r: String)
    ensures
        r@ == cs@,
{
    let mut r = String::new();
    let mut i: usize = 0;
    while i < cs.len()
        invariant
            i <= cs.len(),
            r@ == cs@.take(i as int),
        decreases cs.len() - i,
    {
        push_char(&mut r, cs[i]);
        i = i + 1;
        assert(r@ =~= cs@.take(i as int));
    }
    assert(cs@.take(cs.len() as int) =~= cs@);
    r
}

/// Whether `pat` stands in `s` at character position `at`.
fn occurs_at(s: &str, n: usize, pat: &str, m: usize, at: usize) -> (r: bool)
    requires
        n == s@.len(),
        m == pat@.len(),
        at + m <= n,
    ensures
        r == (s@.subrange(at as int, at + m) == pat@),
{
    let mut j: usize = 0;
    while j < m
        invariant
            j <= m,
            n == s@.len(),
            m == pat@.len(),
            at + m <= n,
            forall|k: int| 0 <= k < j ==> s@[at + k] == pat@[k],
        decreases m - j,
    {
        if s.get_char(at + j) != pat.get_char(j) {
            assert(s@.subrange(at as int, at + m)[j as int] != pat@[j as int]);
            return false;
        }
        j = j + 1;
    }
    assert(s@.subrange(at as int, at + m) =~= pat@);
    true
}

/// Replaces every occurrence of the non-empty `pat` in `s` by `rep`,
/// scanning from the left.
pub fn replace_all(s: &str, pat: &str, rep: &str) -> (r: String)
    requires
        pat@.len() > 0,
    ensures
        r@ == replaced(s@, pat@, rep@),
{
    let n = s.unicode_len();
    let m = pat.unicode_len();
    let mut out = String::new();
    let mut i: usize = 0;
    assert(s@.skip(0) =~= s@);
    while i < n
        invariant
            n == s@.len(),
            m == pat@.len(),
            m > 0,
            i <= n,
            out@ + replaced(s@.skip(i as int), pat@, rep@) == replaced(s@, pat@, rep@),
        decreases n - i,
    {
        let rest = Ghost(s@.skip(i as int));
        if m <= n - i && occurs_at(s, n, pat, m, i) {
            assert(rest@.take(m as int) =~= s@.subrange(i as int, i + m));
            assert(rest@.skip(m as int) =~= s@.skip(i + m));
            let ghost before = out@;
            out.append(rep);
            assert(before + (rep@ + replaced(s@.skip(i + m), pat@, rep@)) =~= out@ + replaced(
                s@.skip(i + m),
                pat@,
                rep@,
            ));
            i = i + m;
        } else {
            assert(m <= rest@.len() ==> rest@.take(m as int) =~= s@.subrange(i as int, i + m));
            assert(rest@.skip(1) =~= s@.skip(i + 1));
            let c = s.get_char(i);
            let ghost before = out@;
            push_char(&mut out, c);
            assert(before + (seq![c] + replaced(s@.skip(i + 1), pat@, rep@)) =~= out@ + replaced(
                s@.skip(i + 1),
                pat@,
                rep@,
            ));
            i = i + 1;
        }
    }
    assert(out@ + replaced(s@.skip(n as int), pat@, rep@) =~= out@);
    out
}

/// The character sequences of a sequence of strings.
pub open spec fn views(v: Seq<String>) -> Seq<Seq<char>> {
    v.map_values(|l: String| l@)
}

/// Splits `t` into its lines: at each newline, dropping a carriage return
/// that stands just before it; a last line without a newline is kept.
pub fn split_lines(t: &str) -> (r: Vec<String>)
    ensures
        views(r@) == lines_of(t@),
{
    let n = t.unicode_len();
    let mut lines: Vec<String> = Vec::new();
    let mut cur: Vec<char> = Vec::new();
    let mut i: usize = 0;
    assert(t@.take(0) =~= seq![]);
    assert(views(lines@) =~= seq![]);
    while i < n
        invariant
            n == t@.len(),
            i <= n,
            views(lines@) == scan_lines(t@.take(i as int)).0,
            cur@ == scan_lines(t@.take(i as int)).1,
        decreases n - i,
    {
        let c = t.get_char(i);
        assert(t@.take(i + 1).drop_last() =~= t@.take(i as int));
        let ghost before = views(lines@);
        if c == '\n' {
            if cur.len() > 0 && cur[cur.len() - 1] == '\r' {
                cur.pop();
            }
            let line = string_of_chars(&cur);
            lines.push(line);
            assert(views(lines@) =~= before.push(line@));
            cur = Vec::new();
            assert(cur@ =~= seq![]);
        } else {
            cur.push(c);
            assert(views(lines@) =~= before);
        }
        i = i + 1;
    }
    assert(t@.take(n as int) =~= t@);
    if cur.len() > 0 {
        let ghost before = views(lines@);
        let line = string_of_chars(&cur);
        lines.push(line);
        assert(views(lines@) =~= before.push(line@));
    }
    lines
}

/// Writes each string of `ls` followed by a newline, in order.
pub fn join_lines(ls: &Vec<String>) -> (r: String)
    ensures
        r@ == joined(views(ls@)),
{
    let mut out = String::new();
    let mut i: usize = 0;
    assert(views(ls@.take(0)) =~= seq![]);
    while i < ls.len()
        invariant
            i <= ls.len(),
            out@ == joined(views(ls@.take(i as int))),
        decreases ls.len() - i,
    {
        out.append(ls[i].as_str());
        push_char(&mut out, '\n');
        assert(views(ls@.take(i + 1)).drop_last() =~= views(ls@.take(i as int)));
        assert(views(ls@.take(i + 1)).last() == ls@[i as int]@);
        i = i + 1;
    }
    assert(ls@.take(ls.len() as int) =~= ls@);
    out
}

/// Characters without a newline extend the open line of a scan.
proof fn lemma_scan_extend(p: Seq<char>, s: Seq<char>)
    requires
        forall|i: int| 0 <= i < s.len() ==> s[i] != '\n',
    ensures
        scan_lines(p + s) == (scan_lines(p).0, scan_lines(p).1 + s),
    decreases s.len(),
{
    if s.len() == 0 {
        assert(p + s =~= p);
        assert(scan_lines(p).1 + s =~= scan_lines(p).1);
    } else {
        lemma_scan_extend(p, s.drop_last());
        assert((p + s).drop_last() =~= p + s.drop_last());
        assert(scan_lines(p).1 + s.drop_last() + seq![s.last()] =~= scan_lines(p).1 + s);
    }
}

/// Scanning the joined form of plain lines closes every line and leaves
/// none open.
proof fn lemma_scan_joined(ls: Seq<Seq<char>>)
    requires
        forall|i: int| 0 <= i < ls.len() ==> is_plain_line(#[trigger] ls[i]),
    ensures
        scan_lines(joined(ls)) == (ls, Seq::<char>::empty()),
    decreases ls.len(),
{
    if ls.len() > 0 {
        let front = ls.drop_last();
        assert forall|i: int| 0 <= i < front.len() implies is_plain_line(#[trigger] front[i]) by {
            assert(front[i] == ls[i]);
        }
        lemma_scan_joined(front);
        let l = ls.last();
        assert(is_plain_line(ls[ls.len() - 1]));
        lemma_scan_extend(joined(front), l);
        assert(Seq::<char>::empty() + l =~= l);
        let t = joined(ls);
        assert(t.drop_last() =~= joined(front) + l);
        assert(front.push(l) =~= ls);
    }
}

/// Reading back the joined form of plain lines gives the same lines.
pub proof fn lemma_lines_of_joined(ls: Seq<Seq<char>>)
    requires
        forall|i: int| 0 <= i < ls.len() ==> is_plain_line(#[trigger] ls[i]),
    ensures
        lines_of(joined(ls)) == ls,
{
    lemma_scan_joined(ls);
}

} // verus!

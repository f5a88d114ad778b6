//! The process log shown to the user: newest entry first, at most
//! `LOG_CAPACITY` lines.

use vstd::prelude::*;
use crate::text::{chars_of, string_from_chars};

verus! {

/// How many lines the process log keeps.
pub const LOG_CAPACITY: usize = 12usize;

/// Index of the first '\n' in `s`, or `s.len()` when there is none.
pub open spec fn first_newline(s: Seq<char>) -> nat
    decreases s.len(),
{
    if s.len() == 0 {
        0
    } else if s[0] == '\n' {
        0
    } else {
        1 + first_newline(s.drop_first())
    }
}

/// A line without the '\r' of a "\r\n" ending.
pub open spec fn strip_cr(l: Seq<char>) -> Seq<char> {
    if l.len() > 0 && l.last() == '\r' { l.drop_last() } else { l }
}

pub proof fn lemma_first_newline(s: Seq<char>)
    ensures
        first_newline(s) <= s.len(),
        first_newline(s) < s.len() ==> s[first_newline(s) as int] == '\n',
        forall|i: int| 0 <= i < first_newline(s) ==> s[i] != '\n',
    decreases s.len(),
{
    if s.len() > 0 && s[0] != '\n' {
        lemma_first_newline(s.drop_first());
        assert forall|i: int| 0 <= i < first_newline(s) implies s[i] != '\n' by {
            if i > 0 {
                assert(s[i] == s.drop_first()[i - 1]);
            }
        }
    }
}

/// `str::lines`: the text split at '\n', each line without a trailing '\r'
/// before its '\n'; a final '\n' starts no further line.
pub open spec fn lines_of(s: Seq<char>) -> Seq<Seq<char>>
    decreases s.len(),
{
    if s.len() == 0 {
        Seq::empty()
    } else {
        let k = first_newline(s);
        if k >= s.len() {
            seq![s]
        } else {
            seq![strip_cr(s.take(k as int))] + lines_of(s.skip(k as int + 1))
        }
    }
}

/// The lines joined by '\n'.
pub open spec fn join_lines(ls: Seq<Seq<char>>) -> Seq<char>
    decreases ls.len(),
{
    if ls.len() == 0 {
        Seq::empty()
    } else if ls.len() == 1 {
        ls[0]
    } else {
        ls[0] + seq!['\n'] + join_lines(ls.drop_first())
    }
}

/// One log entry: "[timestamp] message".
pub open spec fn log_entry(timestamp: Seq<char>, msg: Seq<char>) -> Seq<char> {
    seq!['['] + timestamp + seq![']', ' '] + msg
}

/// The log after adding an entry in front of `current`, cut to
/// `LOG_CAPACITY` lines when it has more.
pub open spec fn appended_log(current: Seq<char>, timestamp: Seq<char>, msg: Seq<char>) -> Seq<char> {
    let new_line = log_entry(timestamp, msg);
    let combined = if current.len() == 0 { new_line } else { new_line + seq!['\n'] + current };
    if lines_of(combined).len() > LOG_CAPACITY {
        join_lines(lines_of(combined).take(LOG_CAPACITY as int))
    } else {
        combined
    }
}

/// The views of a list of lines.
pub open spec fn line_views(v: Seq<Vec<char>>) -> Seq<Seq<char>> {
    v.map_values(|w: Vec<char>| w@)
}

fn push_all(a: &mut Vec<char>, b: &Vec<char>)
    ensures
        final(a)@ == old(a)@ + b@,
{
    let mut i: usize = 0;
    while i < b.len()
        invariant
            i <= b@.len(),
            a@ == old(a)@ + b@.take(i as int),
        decreases b@.len() - i,
    {
        a.push(b[i]);
        i = i + 1;
        assert(a@ =~= old(a)@ + b@.take(i as int));
    }
    assert(b@.take(b@.len() as int) =~= b@);
}

/// The lines of `s`, as `str::lines` gives them.
fn split_lines(s: &Vec<char>) -> (r: Vec<Vec<char>>)
    ensures
        line_views(r@) == lines_of(s@),
{
    let mut out: Vec<Vec<char>> = Vec::new();
    let mut pos: usize = 0;
    let n = s.len();
    assert(s@.skip(0) =~= s@);
    while pos < n
        invariant
            pos <= n == s@.len(),
            lines_of(s@) == line_views(out@) + lines_of(s@.skip(pos as int)),
        decreases n - pos,
    {
        let ghost rest = s@.skip(pos as int);
        proof {
            lemma_first_newline(rest);
        }
        let mut k: usize = pos;
        while k < n && s[k] != '\n'
            invariant
                pos <= k <= n == s@.len(),
                rest == s@.skip(pos as int),
                forall|i: int| pos <= i < k ==> s@[i] != '\n',
            decreases n - k,
        {
            k = k + 1;
        }
        proof {
            let f = first_newline(rest) as int;
            if f < k - pos {
                assert(rest[f] == s@[pos + f]);
            }
            if k < n && k - pos < f {
                assert(rest[k - pos] == s@[k as int]);
            }
            assert(f == k - pos);
        }
        let mut line: Vec<char> = Vec::new();
        let mut j: usize = pos;
        while j < k
            invariant
                pos <= j <= k <= n == s@.len(),
                line@ == s@.subrange(pos as int, j as int),
            decreases k - j,
        {
            line.push(s[j]);
            j = j + 1;
            assert(line@ =~= s@.subrange(pos as int, j as int));
        }
        let ghost before = line_views(out@);
        if k < n {
            if line.len() > 0 && line[line.len() - 1] == '\r' {
                line.pop();
            }
            proof {
                assert(rest.take(k - pos) =~= s@.subrange(pos as int, k as int));
                assert(rest.skip(k - pos + 1) =~= s@.skip(k + 1));
            }
            out.push(line);
            pos = k + 1;
        } else {
            proof {
                assert(rest =~= s@.subrange(pos as int, k as int));
                assert(s@.skip(n as int) =~= Seq::<char>::empty());
            }
            out.push(line);
            pos = n;
        }
        assert(line_views(out@) =~= before.push(out@.last()@));
    }
    assert(s@.skip(n as int) =~= Seq::<char>::empty());
    assert(line_views(out@) + Seq::<Seq<char>>::empty() =~= line_views(out@));
    out
}

/// The first `count` lines joined by '\n'.
fn join_first_lines(ls: &Vec<Vec<char>>, count: usize) -> (r: Vec<char>)
    requires
        count <= ls@.len(),
    ensures
        r@ == join_lines(line_views(ls@).take(count as int)),
{
    let mut out: Vec<char> = Vec::new();
    let mut i: usize = count;
    // Build from the back: out == join_lines(views[i..count]).
    assert(line_views(ls@).subrange(count as int, count as int) =~= Seq::<Seq<char>>::empty());
    while i > 0
        invariant
            i <= count <= ls@.len(),
            out@ == join_lines(line_views(ls@).subrange(i as int, count as int)),
        decreases i,
    {
        i = i - 1;
        let ghost tail = line_views(ls@).subrange(i + 1, count as int);
        let ghost whole = line_views(ls@).subrange(i as int, count as int);
        assert(whole.drop_first() =~= tail);
        assert(whole[0] == ls@[i as int]@);
        let mut next: Vec<char> = ls[i].clone();
        if i + 1 < count {
            next.push('\n');
            push_all(&mut next, &out);
        } else {
            assert(whole =~= seq![ls@[i as int]@]);
        }
        out = next;
    }
    assert(line_views(ls@).subrange(0, count as int) =~= line_views(ls@).take(count as int));
    out
}

/// Puts "[timestamp] msg" in front of the log `current` (separated by '\n'
/// when the log is not empty) and keeps only the first `LOG_CAPACITY` lines
/// when there are more.
pub fn log_append(current: &str, timestamp: &str, msg: &str) -> (r: String)
    ensures
        r@ == appended_log(current@, timestamp@, msg@),
{
    let cur = chars_of(current);
    let ts = chars_of(timestamp);
    let m = chars_of(msg);
    let mut combined: Vec<char> = Vec::new();
    combined.push('[');
    push_all(&mut combined, &ts);
    combined.push(']');
    combined.push(' ');
    push_all(&mut combined, &m);
    assert(combined@ =~= log_entry(timestamp@, msg@));
    let ghost entry = combined@;
    if cur.len() > 0 {
        combined.push('\n');
        push_all(&mut combined, &cur);
        assert(combined@ =~= entry + seq!['\n'] + current@);
    }
    let lines = split_lines(&combined);
    assert(line_views(lines@).len() == lines@.len());
    if lines.len() > LOG_CAPACITY {
        let kept = join_first_lines(&lines, LOG_CAPACITY);
        string_from_chars(kept.as_slice())
    } else {
        string_from_chars(combined.as_slice())
    }
}

/// `s` has no '\n'.
pub open spec fn no_newline(s: Seq<char>) -> bool {
    forall|i: int| 0 <= i < s.len() ==> s[i] != '\n'
}

proof fn lemma_first_newline_at(s: Seq<char>, k: int)
    requires
        0 <= k < s.len(),
        s[k] == '\n',
        forall|i: int| 0 <= i < k ==> s[i] != '\n',
    ensures
        first_newline(s) == k,
{
    lemma_first_newline(s);
    let f = first_newline(s) as int;
    if f < k {
        assert(s[f] == '\n');
    }
}

proof fn lemma_lines_have_no_newline(s: Seq<char>)
    ensures
        forall|j: int| 0 <= j < lines_of(s).len() ==> no_newline(#[trigger] lines_of(s)[j]),
    decreases s.len(),
{
    if s.len() > 0 {
        lemma_first_newline(s);
        let k = first_newline(s);
        if k >= s.len() {
            assert(lines_of(s) =~= seq![s]);
            assert forall|i: int| 0 <= i < s.len() implies s[i] != '\n' by {}
        } else {
            lemma_lines_have_no_newline(s.skip(k as int + 1));
            let head = strip_cr(s.take(k as int));
            assert(no_newline(head)) by {
                assert forall|i: int| 0 <= i < head.len() implies head[i] != '\n' by {
                    assert(head[i] == s[i]);
                }
            }
            assert forall|j: int| 0 <= j < lines_of(s).len() implies no_newline(#[trigger] lines_of(s)[j]) by {
                if j > 0 {
                    assert(lines_of(s)[j] == lines_of(s.skip(k as int + 1))[j - 1]);
                }
            }
        }
    }
}

proof fn lemma_lines_of_join(ls: Seq<Seq<char>>)
    requires
        forall|j: int| 0 <= j < ls.len() ==> no_newline(#[trigger] ls[j]),
    ensures
        lines_of(join_lines(ls)).len() <= ls.len(),
    decreases ls.len(),
{
    if ls.len() == 1 {
        let l = ls[0];
        if l.len() > 0 {
            lemma_first_newline(l);
            if first_newline(l) < l.len() {
                assert(l[first_newline(l) as int] == '\n');
            }
        }
    } else if ls.len() >= 2 {
        let l0 = ls[0];
        let rest = join_lines(ls.drop_first());
        let s = l0 + seq!['\n'] + rest;
        assert(join_lines(ls) == s);
        assert(s[l0.len() as int] == '\n');
        assert forall|i: int| 0 <= i < l0.len() implies s[i] != '\n' by {
            assert(s[i] == l0[i]);
        }
        lemma_first_newline_at(s, l0.len() as int);
        assert(s.skip(l0.len() as int + 1) =~= rest);
        assert forall|j: int| 0 <= j < ls.drop_first().len() implies no_newline(#[trigger] ls.drop_first()[j]) by {
            assert(ls.drop_first()[j] == ls[j + 1]);
        }
        lemma_lines_of_join(ls.drop_first());
    }
}

/// The process log never holds more than `LOG_CAPACITY` lines after an entry
/// is added, whatever it held before.
pub proof fn law_log_capacity(current: Seq<char>, timestamp: Seq<char>, msg: Seq<char>)
    ensures
        lines_of(appended_log(current, timestamp, msg)).len() <= LOG_CAPACITY,
{
    let new_line = log_entry(timestamp, msg);
    let combined = if current.len() == 0 { new_line } else { new_line + seq!['\n'] + current };
    let ls = lines_of(combined);
    if ls.len() > LOG_CAPACITY {
        lemma_lines_have_no_newline(combined);
        let kept = ls.take(LOG_CAPACITY as int);
        assert forall|j: int| 0 <= j < kept.len() implies no_newline(#[trigger] kept[j]) by {
            assert(kept[j] == ls[j]);
        }
        lemma_lines_of_join(kept);
    }
}

/// The newest entry comes first: when the timestamp and the message hold no
/// line break, the log after adding an entry starts with that entry.
pub proof fn law_log_newest_first(current: Seq<char>, timestamp: Seq<char>, msg: Seq<char>)
    requires
        no_newline(timestamp),
        no_newline(msg),
        forall|i: int| 0 <= i < msg.len() ==> msg[i] != '\r',
    ensures
        appended_log(current, timestamp, msg).take(log_entry(timestamp, msg).len() as int)
            == log_entry(timestamp, msg),
{
    let e = log_entry(timestamp, msg);
    assert(no_newline(e)) by {
        assert forall|i: int| 0 <= i < e.len() implies e[i] != '\n' by {
            if 1 <= i < 1 + timestamp.len() {
                assert(e[i] == timestamp[i - 1]);
            } else if i >= timestamp.len() + 3 {
                assert(e[i] == msg[i - timestamp.len() - 3]);
            }
        }
    }
    assert(e.last() != '\r') by {
        if msg.len() > 0 {
            assert(e.last() == msg[msg.len() - 1]);
        }
    }
    let combined = if current.len() == 0 { e } else { e + seq!['\n'] + current };
    assert(combined.take(e.len() as int) =~= e);
    let ls = lines_of(combined);
    if ls.len() > LOG_CAPACITY {
        if current.len() == 0 {
            lemma_first_newline(e);
            if first_newline(e) < e.len() {
                assert(e[first_newline(e) as int] == '\n');
            }
            assert(ls =~= seq![e]);
        } else {
            assert(combined[e.len() as int] == '\n');
            assert forall|i: int| 0 <= i < e.len() implies combined[i] != '\n' by {
                assert(combined[i] == e[i]);
            }
            lemma_first_newline_at(combined, e.len() as int);
            assert(combined.take(e.len() as int) =~= e);
            assert(ls[0] == e);
            let kept = ls.take(LOG_CAPACITY as int);
            assert(kept[0] == e);
            assert(join_lines(kept) == kept[0] + seq!['\n'] + join_lines(kept.drop_first()));
            assert(join_lines(kept).take(e.len() as int) =~= e);
        }
    }
}

/// The line ends with '\r'.
pub open spec fn ends_with_cr(l: Seq<char>) -> bool {
    l.len() > 0 && l.last() == '\r'
}

proof fn lemma_lines_of_join_exact(ls: Seq<Seq<char>>)
    requires
        ls.len() > 0,
        forall|j: int| 0 <= j < ls.len() ==> no_newline(#[trigger] ls[j]),
        forall|j: int| 0 <= j < ls.len() - 1 ==> !ends_with_cr(#[trigger] ls[j]),
        ls.last().len() > 0,
    ensures
        lines_of(join_lines(ls)) == ls,
    decreases ls.len(),
{
    if ls.len() == 1 {
        let l = ls[0];
        lemma_first_newline(l);
        if first_newline(l) < l.len() {
            assert(l[first_newline(l) as int] == '\n');
        }
        assert(lines_of(l) =~= seq![l]);
        assert(ls =~= seq![l]);
    } else {
        let l0 = ls[0];
        let t = ls.drop_first();
        let rest = join_lines(t);
        let s = l0 + seq!['\n'] + rest;
        assert(join_lines(ls) == s);
        assert(s[l0.len() as int] == '\n');
        assert forall|i: int| 0 <= i < l0.len() implies s[i] != '\n' by {
            assert(s[i] == l0[i]);
        }
        lemma_first_newline_at(s, l0.len() as int);
        assert(s.skip(l0.len() as int + 1) =~= rest);
        assert(s.take(l0.len() as int) =~= l0);
        assert(!ends_with_cr(ls[0]));
        assert(strip_cr(l0) == l0);
        assert forall|j: int| 0 <= j < t.len() implies no_newline(#[trigger] t[j]) by {
            assert(t[j] == ls[j + 1]);
        }
        assert forall|j: int| 0 <= j < t.len() - 1 implies !ends_with_cr(#[trigger] t[j]) by {
            assert(t[j] == ls[j + 1]);
        }
        lemma_lines_of_join_exact(t);
        assert(lines_of(s) =~= seq![l0] + t);
        assert(ls =~= seq![l0] + t);
    }
}

/// Adding an entry to the log gives exactly the entry as first line,
/// followed by the old log's first lines, `min(LOG_CAPACITY, old + 1)` lines
/// in all. It holds when the timestamp and message hold no '\n', the message
/// does not end in '\r', and, where the old log is cut, none of its first ten
/// lines ends in '\r' and its eleventh (the last one kept) is not empty.
pub proof fn law_log_exact(current: Seq<char>, timestamp: Seq<char>, msg: Seq<char>)
    requires
        no_newline(timestamp),
        no_newline(msg),
        !ends_with_cr(msg),
        lines_of(current).len() >= LOG_CAPACITY ==> {
            &&& forall|j: int| 0 <= j < LOG_CAPACITY - 2 ==> !ends_with_cr(#[trigger] lines_of(current)[j])
            &&& lines_of(current)[LOG_CAPACITY - 2].len() > 0
        },
    ensures
        ({
            let old_lines = lines_of(current);
            let new_lines = lines_of(appended_log(current, timestamp, msg));
            &&& new_lines.len() == if old_lines.len() + 1 < LOG_CAPACITY {
                (old_lines.len() + 1) as int
            } else {
                LOG_CAPACITY as int
            }
            &&& new_lines[0] == log_entry(timestamp, msg)
            &&& new_lines.skip(1) == old_lines.take(new_lines.len() - 1)
        }),
{
    let e = log_entry(timestamp, msg);
    let old_lines = lines_of(current);
    assert(no_newline(e)) by {
        assert forall|i: int| 0 <= i < e.len() implies e[i] != '\n' by {
            if 1 <= i < 1 + timestamp.len() {
                assert(e[i] == timestamp[i - 1]);
            } else if i >= timestamp.len() + 3 {
                assert(e[i] == msg[i - timestamp.len() - 3]);
            }
        }
    }
    assert(!ends_with_cr(e)) by {
        if msg.len() > 0 {
            assert(e.last() == msg.last());
        }
    }
    lemma_first_newline(e);
    if first_newline(e) < e.len() {
        assert(e[first_newline(e) as int] == '\n');
    }
    let combined = if current.len() == 0 { e } else { e + seq!['\n'] + current };
    let ls = lines_of(combined);
    if current.len() == 0 {
        assert(ls =~= seq![e]);
        assert(old_lines =~= Seq::<Seq<char>>::empty());
    } else {
        assert(combined[e.len() as int] == '\n');
        assert forall|i: int| 0 <= i < e.len() implies combined[i] != '\n' by {
            assert(combined[i] == e[i]);
        }
        lemma_first_newline_at(combined, e.len() as int);
        assert(combined.take(e.len() as int) =~= e);
        assert(combined.skip(e.len() as int + 1) =~= current);
        assert(strip_cr(e) == e);
        assert(ls =~= seq![e] + old_lines);
    }
    assert(ls =~= seq![e] + old_lines);
    if ls.len() > LOG_CAPACITY {
        let kept = ls.take(LOG_CAPACITY as int);
        lemma_lines_have_no_newline(combined);
        assert forall|j: int| 0 <= j < kept.len() implies no_newline(#[trigger] kept[j]) by {
            assert(kept[j] == ls[j]);
        }
        assert forall|j: int| 0 <= j < kept.len() - 1 implies !ends_with_cr(#[trigger] kept[j]) by {
            if j > 0 {
                assert(kept[j] == old_lines[j - 1]);
            }
        }
        assert(kept.last() == old_lines[LOG_CAPACITY - 2]);
        lemma_lines_of_join_exact(kept);
        assert(kept.skip(1) =~= old_lines.take(LOG_CAPACITY - 1));
    } else {
        assert(ls.skip(1) =~= old_lines);
        assert(old_lines.take(old_lines.len() as int) =~= old_lines);
    }
}

} // verus!

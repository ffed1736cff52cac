//! Splitting text into trimmed pieces, words and lines, as `str::trim`,
//! `str::split_whitespace` and `str::lines` do.
use vstd::prelude::*;
use crate::text::{chars_of, is_whitespace, push_char, same_text, unicode_whitespace};

verus! {

/// `s` without its leading whitespace.
pub open spec fn trim_start_ws(s: Seq<char>) -> Seq<char>
    decreases s.len(),
{
    if s.len() > 0 && unicode_whitespace(s[0]) {
        trim_start_ws(s.drop_first())
    } else {
        s
    }
}

/// `s` without its trailing whitespace.
pub open spec fn trim_end_ws(s: Seq<char>) -> Seq<char>
    decreases s.len(),
{
    if s.len() > 0 && unicode_whitespace(s.last()) {
        trim_end_ws(s.drop_last())
    } else {
        s
    }
}

/// `s` without leading and trailing whitespace.
pub open spec fn trim_ws(s: Seq<char>) -> Seq<char> {
    trim_end_ws(trim_start_ws(s))
}

/// The words of `s` read so far, and whether the last character read belongs
/// to a word.
pub open spec fn words_scan(s: Seq<char>) -> (Seq<Seq<char>>, bool)
    decreases s.len(),
{
    if s.len() == 0 {
        (Seq::empty(), false)
    } else {
        let (ws, in_word) = words_scan(s.drop_last());
        let c = s.last();
        if unicode_whitespace(c) {
            (ws, false)
        } else if in_word {
            (ws.drop_last().push(ws.last().push(c)), true)
        } else {
            (ws.push(seq![c]), true)
        }
    }
}

/// The maximal runs of non-whitespace characters of `s`, in order.
pub open spec fn words(s: Seq<char>) -> Seq<Seq<char>> {
    words_scan(s).0
}

/// The flag of the word scan tells whether the text ends inside a word, and
/// then at least one word was read.
pub proof fn lemma_words_scan_flag(s: Seq<char>)
    ensures
        words_scan(s).1 == (s.len() > 0 && !unicode_whitespace(s.last())),
        words_scan(s).1 ==> words_scan(s).0.len() > 0,
    decreases s.len(),
{
    if s.len() > 0 {
        lemma_words_scan_flag(s.drop_last());
    }
}

/// After text that does not end inside a word, the words of what follows are
/// read on their own.
pub proof fn lemma_words_append(s: Seq<char>, t: Seq<char>)
    requires
        !words_scan(s).1,
    ensures
        words_scan(s + t) == (words(s) + words_scan(t).0, words_scan(t).1),
    decreases t.len(),
{
    if t.len() == 0 {
        assert(s + t =~= s);
        assert(words(s) + Seq::<Seq<char>>::empty() =~= words(s));
    } else {
        let t0 = t.drop_last();
        let c = t.last();
        lemma_words_append(s, t0);
        assert((s + t).drop_last() =~= s + t0);
        assert((s + t).last() == c);
        let (w0, f0) = words_scan(t0);
        lemma_words_scan_flag(t0);
        if !unicode_whitespace(c) && f0 {
            let big = words(s) + w0;
            assert(big.drop_last().push(big.last().push(c)) =~= words(s) + w0.drop_last().push(w0.last().push(c)));
        } else if !unicode_whitespace(c) {
            assert((words(s) + w0).push(seq![c]) =~= words(s) + w0.push(seq![c]));
        }
    }
}

/// A non-empty run without whitespace is one word.
pub proof fn lemma_single_word(w: Seq<char>)
    requires
        w.len() > 0,
        forall|i: int| 0 <= i < w.len() ==> !unicode_whitespace(#[trigger] w[i]),
    ensures
        words_scan(w) == (seq![w], true),
    decreases w.len(),
{
    let w0 = w.drop_last();
    if w0.len() == 0 {
        assert(words_scan(w0) == (Seq::<Seq<char>>::empty(), false));
        assert(seq![w.last()] =~= w);
    } else {
        assert forall|i: int| 0 <= i < w0.len() implies !unicode_whitespace(#[trigger] w0[i]) by {
            assert(w0[i] == w[i]);
        }
        lemma_single_word(w0);
        assert(w0.push(w.last()) =~= w);
        assert(seq![w0].drop_last() =~= Seq::<Seq<char>>::empty());
        assert(seq![w0].drop_last().push(seq![w0].last().push(w.last())) =~= seq![w]);
    }
}

/// Words each followed by one space.
pub open spec fn spaced(parts: Seq<Seq<char>>) -> Seq<char>
    decreases parts.len(),
{
    if parts.len() == 0 {
        Seq::empty()
    } else {
        spaced(parts.drop_last()) + parts.last() + seq![' ']
    }
}

/// A word is a non-empty run without whitespace.
pub open spec fn is_word(w: Seq<char>) -> bool {
    w.len() > 0 && forall|i: int| 0 <= i < w.len() ==> !unicode_whitespace(#[trigger] w[i])
}

/// Words joined by single spaces and followed by one more word split back
/// into exactly those words.
pub proof fn lemma_words_of_spaced(parts: Seq<Seq<char>>, last: Seq<char>)
    requires
        forall|i: int| 0 <= i < parts.len() ==> is_word(#[trigger] parts[i]),
        is_word(last),
    ensures
        words(spaced(parts) + last) == parts.push(last),
        !words_scan(spaced(parts)).1,
        words(spaced(parts)) == parts,
    decreases parts.len(),
{
    lemma_single_word(last);
    if parts.len() == 0 {
        assert(spaced(parts) + last =~= last);
        assert(words(spaced(parts)) =~= parts);
        assert(Seq::<Seq<char>>::empty().push(last) =~= seq![last]);
    } else {
        let p0 = parts.drop_last();
        let w = parts.last();
        assert forall|i: int| 0 <= i < p0.len() implies is_word(#[trigger] p0[i]) by {
            assert(p0[i] == parts[i]);
        }
        lemma_words_of_spaced(p0, w);
        let ws = spaced(p0) + w;
        assert(spaced(parts) =~= ws.push(' '));
        assert(ws.push(' ').drop_last() =~= ws);
        lemma_words_scan_flag(spaced(parts));
        assert(words(spaced(parts)) =~= parts);
        lemma_words_append(spaced(parts), last);
        assert(parts + seq![last] =~= parts.push(last));
    }
}

/// A line without the carriage return that ended it before its newline.
pub open spec fn strip_cr(l: Seq<char>) -> Seq<char> {
    if l.len() > 0 && l.last() == '\r' { l.drop_last() } else { l }
}

/// The lines of `s` read so far, and whether the last one is still open
/// (not yet ended by a newline).
pub open spec fn lines_scan(s: Seq<char>) -> (Seq<Seq<char>>, bool)
    decreases s.len(),
{
    if s.len() == 0 {
        (Seq::empty(), false)
    } else {
        let (ls, open) = lines_scan(s.drop_last());
        let c = s.last();
        if c == '\n' {
            if open {
                (ls.drop_last().push(strip_cr(ls.last())), false)
            } else {
                (ls.push(Seq::empty()), false)
            }
        } else if open {
            (ls.drop_last().push(ls.last().push(c)), true)
        } else {
            (ls.push(seq![c]), true)
        }
    }
}

/// The lines of `s`: split at `\n`, a `\r` right before a `\n` dropped, and
/// no empty last line after a final newline.
pub open spec fn lines(s: Seq<char>) -> Seq<Seq<char>> {
    lines_scan(s).0
}

/// The views of a list of strings.
pub open spec fn views(v: Seq<String>) -> Seq<Seq<char>> {
    v.map_values(|s: String| s@)
}

/// Whether `name` is one of the strings in `list`.
pub fn is_listed(name: &str, list: &Vec<String>) -> (b: bool)
    ensures
        b == views(list@).contains(name@),
{
    let n = list.len();
    for i in 0..n
        invariant
            n == list@.len(),
            forall|j: int| 0 <= j < i ==> views(list@)[j] != name@,
    {
        if same_text(list[i].as_str(), name) {
            assert(views(list@)[i as int] == name@);
            return true;
        }
    }
    false
}

proof fn lemma_trim_start_skip(s: Seq<char>, i: int)
    requires
        0 <= i <= s.len(),
        forall|j: int| 0 <= j < i ==> unicode_whitespace(#[trigger] s[j]),
    ensures
        trim_start_ws(s) == trim_start_ws(s.skip(i)),
    decreases i,
{
    if i > 0 {
        assert(s.drop_first().skip(i - 1) == s.skip(i));
        assert forall|j: int| 0 <= j < i - 1 implies unicode_whitespace(#[trigger] s.drop_first()[j]) by {
            assert(s.drop_first()[j] == s[j + 1]);
        }
        lemma_trim_start_skip(s.drop_first(), i - 1);
    } else {
        assert(s.skip(0) == s);
    }
}

proof fn lemma_trim_end_take(s: Seq<char>, k: int)
    requires
        0 <= k <= s.len(),
        forall|j: int| k <= j < s.len() ==> unicode_whitespace(#[trigger] s[j]),
    ensures
        trim_end_ws(s) == trim_end_ws(s.take(k)),
    decreases s.len() - k,
{
    if k < s.len() {
        assert(s.drop_last() == s.take(s.len() - 1));
        assert forall|j: int| k <= j < s.drop_last().len() implies unicode_whitespace(#[trigger] s.drop_last()[j]) by {
            assert(s.drop_last()[j] == s[j]);
        }
        lemma_trim_end_take(s.drop_last(), k);
        assert(s.drop_last().take(k) == s.take(k));
    } else {
        assert(s.take(k) == s);
    }
}

/// `str::trim`.
pub fn trim(s: &str) -> (r: String)
    ensures
        r@ == trim_ws(s@),
{
    let v = chars_of(s);
    let n = v.len();
    let mut i: usize = 0;
    while i < n && is_whitespace(v[i])
        invariant
            n == v@.len(),
            v@ == s@,
            i <= n,
            forall|j: int| 0 <= j < i ==> unicode_whitespace(#[trigger] s@[j]),
        decreases n - i,
    {
        i = i + 1;
    }
    let mut k: usize = n;
    while k > i && is_whitespace(v[k - 1])
        invariant
            n == v@.len(),
            v@ == s@,
            i <= k <= n,
            forall|j: int| k <= j < n ==> unicode_whitespace(#[trigger] s@[j]),
        decreases k,
    {
        k = k - 1;
    }
    proof {
        lemma_trim_start_skip(s@, i as int);
        let t = s@.skip(i as int);
        if i < n {
            assert(t[0] == s@[i as int]);
        }
        assert(trim_start_ws(t) == t);
        assert forall|j: int| k - i <= j < t.len() implies unicode_whitespace(#[trigger] t[j]) by {
            assert(t[j] == s@[i + j]);
        }
        lemma_trim_end_take(t, k - i);
        let u = t.take(k - i);
        if k > i {
            assert(u.last() == s@[k - 1]);
        }
        assert(trim_end_ws(u) == u);
        assert(u == s@.subrange(i as int, k as int));
    }
    let mut out = String::new();
    let mut j = i;
    while j < k
        invariant
            n == v@.len(),
            v@ == s@,
            i <= j <= k <= n,
            out@ == s@.subrange(i as int, j as int),
        decreases k - j,
    {
        push_char(&mut out, v[j]);
        assert(s@.subrange(i as int, j + 1) == s@.subrange(i as int, j as int).push(s@[j as int]));
        j = j + 1;
    }
    out
}

/// `str::split_whitespace`, collected.
pub fn split_words(s: &str) -> (r: Vec<String>)
    ensures
        views(r@) == words(s@),
{
    let v = chars_of(s);
    let n = v.len();
    let mut done: Vec<String> = Vec::new();
    let mut cur = String::new();
    let mut in_word = false;
    for i in 0..n
        invariant
            n == v@.len(),
            v@ == s@,
            !in_word ==> cur@.len() == 0,
            words_scan(s@.take(i as int)) == (if in_word { views(done@).push(cur@) } else { views(done@) }, in_word),
    {
        let c = v[i];
        let ghost pre = s@.take(i as int);
        assert(s@.take(i + 1).drop_last() == pre);
        assert(s@.take(i + 1).last() == c);
        if is_whitespace(c) {
            if in_word {
                let w = cur;
                cur = String::new();
                done.push(w);
                assert(views(done@) =~= views(done@.drop_last()).push(w@));
                in_word = false;
            }
        } else {
            if in_word {
                let ghost before = views(done@).push(cur@);
                push_char(&mut cur, c);
                assert(before.drop_last().push(before.last().push(c)) =~= views(done@).push(cur@));
            } else {
                push_char(&mut cur, c);
                assert(cur@ =~= seq![c]);
                in_word = true;
            }
        }
    }
    if in_word {
        done.push(cur);
        assert(views(done@) =~= views(done@.drop_last()).push(done@.last()@));
    }
    assert(s@.take(n as int) == s@);
    done
}

/// `str::lines`, collected.
pub fn split_lines(s: &str) -> (r: Vec<String>)
    ensures
        views(r@) == lines(s@),
{
    let v = chars_of(s);
    let n = v.len();
    let mut done: Vec<String> = Vec::new();
    let mut cur = String::new();
    let mut open = false;
    for i in 0..n
        invariant
            n == v@.len(),
            v@ == s@,
            !open ==> cur@.len() == 0,
            lines_scan(s@.take(i as int)) == (if open { views(done@).push(cur@) } else { views(done@) }, open),
    {
        let c = v[i];
        let ghost pre = s@.take(i as int);
        assert(s@.take(i + 1).drop_last() == pre);
        assert(s@.take(i + 1).last() == c);
        if c == '\n' {
            let line = if open { strip_trailing_cr(&cur) } else { String::new() };
            assert(open ==> line@ == strip_cr(cur@));
            assert(!open ==> line@ == Seq::<char>::empty());
            cur = String::new();
            done.push(line);
            assert(views(done@) =~= views(done@.drop_last()).push(line@));
            open = false;
        } else {
            if open {
                let ghost before = views(done@).push(cur@);
                push_char(&mut cur, c);
                assert(before.drop_last().push(before.last().push(c)) =~= views(done@).push(cur@));
            } else {
                push_char(&mut cur, c);
                assert(cur@ =~= seq![c]);
                open = true;
            }
        }
    }
    if open {
        done.push(cur);
        assert(views(done@) =~= views(done@.drop_last()).push(done@.last()@));
    }
    assert(s@.take(n as int) == s@);
    done
}

fn strip_trailing_cr(l: &String) -> (r: String)
    ensures
        r@ == strip_cr(l@),
{
    let v = chars_of(l.as_str());
    let n = v.len();
    let end = if n > 0 && v[n - 1] == '\r' { n - 1 } else { n };
    let mut out = String::new();
    for i in 0..end
        invariant
            end <= n,
            n == v@.len(),
            v@ == l@,
            out@ == l@.take(i as int),
    {
        push_char(&mut out, v[i]);
        assert(l@.take(i + 1) == l@.take(i as int).push(l@[i as int]));
    }
    assert(l@.take(end as int) == strip_cr(l@));
    out
}

} // verus!

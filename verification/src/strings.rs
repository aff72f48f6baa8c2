//! Character-level helpers shared by the parsers of the library.
use vstd::prelude::*;

verus! {

/// The texts of a list of strings.
pub open spec fn views(v: Seq<String>) -> Seq<Seq<char>> {
    v.map_values(|s: String| s@)
}

/// An owned copy of `s`.
pub fn owned(s: &str) -> (r: String)
    ensures
        r@ == s@,
{
    s.to_owned()
}

/// Owned copies of the texts in `parts`, in order.
pub fn args_from(parts: &[&str]) -> (r: Vec<String>)
    ensures
        views(r@) == parts@.map_values(|p: &str| p@),
{
    let mut r: Vec<String> = Vec::new();
    let mut i: usize = 0;
    while i < parts.len()
        invariant
            i <= parts@.len(),
            views(r@) == parts@.take(i as int).map_values(|p: &str| p@),
        decreases parts@.len() - i,
    {
        let ghost prev = r@;
        r.push(owned(parts[i]));
        proof {
            let target = parts@.take(i + 1).map_values(|p: &str| p@);
            assert(views(prev).len() == prev.len());
            assert(prev.len() == i);
            assert(r@ == prev.push(r@[i as int]));
            assert forall|j: int| 0 <= j < i + 1 implies #[trigger] views(r@)[j] == target[j] by {
                if j < i {
                    assert(r@[j] == prev[j]);
                    assert(views(prev)[j] == parts@.take(i as int).map_values(|p: &str| p@)[j]);
                }
            }
            assert(views(r@) =~= target);
        }
        i = i + 1;
    }
    assert(parts@.take(i as int) =~= parts@);
    r
}

/// The characters of `s`, in order.
pub fn chars_of(s: &str) -> (v: Vec<char>)
    ensures
        v@ == s@,
{
    let mut v: Vec<char> = Vec::new();
    for c in it: s.chars()
        invariant
            v@ == it.seq().take(it.index()),
    {
        v.push(c);
    }
    v
}

/// Appends one character to a `String` (`String::push`).
#[verifier::external_body]
pub(crate) fn push_char(s: &mut String, c: char)
    ensures
        final(s)@ == old(s)@.push(c),
{
    s.push(c);
}

/// The `String` made of the characters of `v`, in order.
pub fn string_from_chars(v: &[char]) -> (s: String)
    ensures
        s@ == v@,
{
    let mut s = String::new();
    let mut i: usize = 0;
    while i < v.len()
        invariant
            i <= v@.len(),
            s@ == v@.take(i as int),
        decreases v@.len() - i,
    {
        push_char(&mut s, v[i]);
        assert(v@.take(i as int).push(v@[i as int]) =~= v@.take(i + 1));
        i = i + 1;
    }
    assert(v@.take(v@.len() as int) =~= v@);
    s
}

/// `i` is the position of the first `'\n'` in `s`.
pub open spec fn is_first_newline(s: Seq<char>, i: int) -> bool {
    &&& 0 <= i < s.len()
    &&& s[i] == '\n'
    &&& forall|j: int| 0 <= j < i ==> s[j] != '\n'
}

/// A line without its terminating `'\r'`, if it has one.
pub open spec fn strip_cr(l: Seq<char>) -> Seq<char> {
    if l.len() > 0 && l.last() == '\r' {
        l.drop_last()
    } else {
        l
    }
}

/// The lines of a text, as `str::lines` gives them: the text is cut after each
/// `'\n'`; a piece that ended in `'\n'` loses it and then one `'\r'` before it;
/// a last piece without `'\n'` is kept as it is; an empty text has no lines.
pub open spec fn lines_of(s: Seq<char>) -> Seq<Seq<char>>
    decreases s.len(),
{
    if s.len() == 0 {
        seq![]
    } else if exists|i: int| is_first_newline(s, i) {
        let i = choose|i: int| is_first_newline(s, i);
        seq![strip_cr(s.take(i))] + lines_of(s.skip(i + 1))
    } else {
        seq![s]
    }
}

proof fn lemma_first_newline_unique(s: Seq<char>, i: int, j: int)
    requires
        is_first_newline(s, i),
        is_first_newline(s, j),
    ensures
        i == j,
{
    if i < j {
        assert(s[i] != '\n');
    } else if j < i {
        assert(s[j] != '\n');
    }
}

/// Removes one trailing `'\r'` from `v`, if there is one.
fn strip_cr_vec(v: Vec<char>) -> (r: Vec<char>)
    ensures
        r@ == strip_cr(v@),
{
    let mut v = v;
    if v.len() > 0 && v[v.len() - 1] == '\r' {
        v.pop();
    }
    v
}

/// Splits a text into its lines (see `lines_of`).
pub fn split_lines(s: &[char]) -> (r: Vec<Vec<char>>)
    ensures
        r@.map_values(|l: Vec<char>| l@) == lines_of(s@),
{
    let mut out: Vec<Vec<char>> = Vec::new();
    let mut cur: Vec<char> = Vec::new();
    let mut start: usize = 0;
    let mut k: usize = 0;
    assert(s@.skip(0) =~= s@);
    assert(out@.map_values(|l: Vec<char>| l@) =~= Seq::<Seq<char>>::empty());
    while k < s.len()
        invariant
            start <= k <= s@.len(),
            cur@ == s@.subrange(start as int, k as int),
            forall|j: int| start <= j < k ==> s@[j] != '\n',
            out@.map_values(|l: Vec<char>| l@) + lines_of(s@.skip(start as int)) == lines_of(s@),
        decreases s@.len() - k,
    {
        if s[k] == '\n' {
            let ghost t = s@.skip(start as int);
            proof {
                let ki = (k - start) as int;
                assert(is_first_newline(t, ki));
                let c = choose|i: int| is_first_newline(t, i);
                lemma_first_newline_unique(t, c, ki);
                assert(t.take(ki) =~= cur@);
                assert(t.skip(ki + 1) =~= s@.skip(k + 1));
            }
            let line = strip_cr_vec(cur);
            let ghost lv = line@;
            let ghost prev = out@;
            out.push(line);
            proof {
                assert(out@.map_values(|l: Vec<char>| l@) =~= prev.map_values(|l: Vec<char>| l@).push(lv)) by {
                    broadcast use vstd::seq_lib::group_seq_properties;
                }
            }
            cur = Vec::new();
            k = k + 1;
            start = k;
        } else {
            cur.push(s[k]);
            assert(cur@ =~= s@.subrange(start as int, k + 1));
            k = k + 1;
        }
    }
    if start < s.len() {
        let ghost t = s@.skip(start as int);
        proof {
            assert forall|i: int| !is_first_newline(t, i) by {
                if 0 <= i < t.len() {
                    assert(t[i] == s@[start + i]);
                }
            }
            assert(t =~= cur@);
        }
        let ghost cv = cur@;
        let ghost prev = out@;
        out.push(cur);
        proof {
            assert(out@.map_values(|l: Vec<char>| l@) =~= prev.map_values(|l: Vec<char>| l@).push(cv)) by {
                broadcast use vstd::seq_lib::group_seq_properties;
            }
        }
    }
    out
}


/// The first position at or after `from` that holds `c`, or `t.len()`.
pub open spec fn find_from(t: Seq<char>, c: char, from: int) -> int
    decreases t.len() - from,
{
    if from < 0 || from >= t.len() {
        t.len() as int
    } else if t[from] == c {
        from
    } else {
        find_from(t, c, from + 1)
    }
}

/// The last position in `lo..hi` that holds `c`, or `lo - 1`.
pub open spec fn rfind_in(t: Seq<char>, c: char, lo: int, hi: int) -> int
    decreases hi - lo,
{
    if hi <= lo {
        lo - 1
    } else if 0 <= hi - 1 < t.len() && t[hi - 1] == c {
        hi - 1
    } else {
        rfind_in(t, c, lo, hi - 1)
    }
}

/// Where `find_from` lands: within `from..=t.len()`, on `c` if before the end,
/// and past no earlier `c`.
pub proof fn lemma_find_from(t: Seq<char>, c: char, from: int)
    requires
        0 <= from,
    ensures
        from <= t.len() ==> from <= find_from(t, c, from) <= t.len(),
        from > t.len() ==> find_from(t, c, from) == t.len(),
        find_from(t, c, from) < t.len() ==> t[find_from(t, c, from)] == c,
        forall|j: int| from <= j < find_from(t, c, from) ==> t[j] != c,
    decreases t.len() - from,
{
    if from < t.len() && t[from] != c {
        lemma_find_from(t, c, from + 1);
    }
}

/// Where `rfind_in` lands: within `lo - 1..hi`, on `c` if at or after `lo`,
/// and with no `c` after it before `hi`.
pub proof fn lemma_rfind_in(t: Seq<char>, c: char, lo: int, hi: int)
    requires
        0 <= lo,
        hi <= t.len(),
    ensures
        lo - 1 <= rfind_in(t, c, lo, hi),
        rfind_in(t, c, lo, hi) < hi || (hi <= lo && rfind_in(t, c, lo, hi) == lo - 1),
        rfind_in(t, c, lo, hi) >= lo ==> t[rfind_in(t, c, lo, hi)] == c,
        forall|j: int| rfind_in(t, c, lo, hi) < j < hi && lo <= j ==> t[j] != c,
    decreases hi - lo,
{
    if hi > lo && t[hi - 1] != c {
        lemma_rfind_in(t, c, lo, hi - 1);
    }
}

/// With no `c` from `from` on, `find_from` gives the length.
pub proof fn lemma_find_from_none(t: Seq<char>, c: char, from: int)
    requires
        0 <= from <= t.len(),
        forall|j: int| from <= j < t.len() ==> t[j] != c,
    ensures
        find_from(t, c, from) == t.len(),
    decreases t.len() - from,
{
    if from < t.len() {
        lemma_find_from_none(t, c, from + 1);
    }
}

/// The first `c` from `from` on is the one that `find_from` gives.
pub proof fn lemma_find_from_is(t: Seq<char>, c: char, from: int, k: int)
    requires
        0 <= from <= k < t.len(),
        t[k] == c,
        forall|j: int| from <= j < k ==> t[j] != c,
    ensures
        find_from(t, c, from) == k,
    decreases k - from,
{
    if from < k {
        lemma_find_from_is(t, c, from + 1, k);
    }
}

/// The last `c` before `hi` is the one that `rfind_in` gives.
pub proof fn lemma_rfind_in_is(t: Seq<char>, c: char, lo: int, hi: int, k: int)
    requires
        0 <= lo <= k < hi <= t.len(),
        t[k] == c,
        forall|j: int| k < j < hi ==> t[j] != c,
    ensures
        rfind_in(t, c, lo, hi) == k,
    decreases hi - lo,
{
    if hi - 1 != k {
        lemma_rfind_in_is(t, c, lo, hi - 1, k);
    }
}

/// The word `false`.
pub open spec fn false_word() -> Seq<char> {
    seq!['f', 'a', 'l', 's', 'e']
}

/// How jj prints a boolean.
pub open spec fn bool_word(b: bool) -> Seq<char> {
    if b { true_word() } else { false_word() }
}

/// The pieces of `s` between the occurrences of `sep`, as `str::split` gives
/// them (there is always at least one piece).
pub open spec fn split_on(s: Seq<char>, sep: char) -> Seq<Seq<char>>
    decreases s.len(),
{
    let i = find_from(s, sep, 0);
    if i < 0 || i >= s.len() {
        seq![s]
    } else {
        seq![s.take(i)] + split_on(s.skip(i + 1), sep)
    }
}

/// The first position at or after `from` in `v` that holds `c`, or `v.len()`.
pub fn find_char_from(v: &Vec<char>, c: char, from: usize) -> (r: usize)
    requires
        from <= v@.len(),
    ensures
        r == find_from(v@, c, from as int),
{
    let mut i = from;
    while i < v.len() && v[i] != c
        invariant
            from <= i <= v@.len(),
            find_from(v@, c, i as int) == find_from(v@, c, from as int),
        decreases v@.len() - i,
    {
        i = i + 1;
    }
    i
}

/// The last position in `lo..hi` of `v` that holds `c`, if there is one.
pub fn rfind_char_in(v: &Vec<char>, c: char, lo: usize, hi: usize) -> (r: Option<usize>)
    requires
        hi <= v@.len(),
    ensures
        r matches Some(k) ==> k == rfind_in(v@, c, lo as int, hi as int) && lo <= k < hi,
        r is None ==> rfind_in(v@, c, lo as int, hi as int) < lo,
{
    proof {
        lemma_rfind_in(v@, c, lo as int, hi as int);
    }
    let mut i = hi;
    while i > lo && v[i - 1] != c
        invariant
            i <= hi <= v@.len(),
            rfind_in(v@, c, lo as int, i as int) == rfind_in(v@, c, lo as int, hi as int),
        decreases i,
    {
        i = i - 1;
    }
    if i > lo {
        Some(i - 1)
    } else {
        None
    }
}

/// The characters of `v` in `lo..hi`, as a `String`.
pub fn substring(v: &Vec<char>, lo: usize, hi: usize) -> (s: String)
    requires
        lo <= hi <= v@.len(),
    ensures
        s@ == v@.subrange(lo as int, hi as int),
{
    let mut s = String::new();
    let mut i = lo;
    while i < hi
        invariant
            lo <= i <= hi <= v@.len(),
            s@ == v@.subrange(lo as int, i as int),
        decreases hi - i,
    {
        push_char(&mut s, v[i]);
        assert(v@.subrange(lo as int, i as int).push(v@[i as int]) =~= v@.subrange(lo as int, i + 1));
        i = i + 1;
    }
    s
}

/// The characters of `v` in `lo..hi`.
pub fn sub_chars(v: &Vec<char>, lo: usize, hi: usize) -> (r: Vec<char>)
    requires
        lo <= hi <= v@.len(),
    ensures
        r@ == v@.subrange(lo as int, hi as int),
{
    let mut r: Vec<char> = Vec::new();
    let mut i = lo;
    while i < hi
        invariant
            lo <= i <= hi <= v@.len(),
            r@ == v@.subrange(lo as int, i as int),
        decreases hi - i,
    {
        r.push(v[i]);
        assert(v@.subrange(lo as int, i as int).push(v@[i as int]) =~= v@.subrange(lo as int, i + 1));
        i = i + 1;
    }
    r
}

/// The word `true`.
pub open spec fn true_word() -> Seq<char> {
    seq!['t', 'r', 'u', 'e']
}

/// Whether the characters of `v` in `lo..hi` spell `true`.
pub fn is_true_word(v: &Vec<char>, lo: usize, hi: usize) -> (b: bool)
    requires
        lo <= hi <= v@.len(),
    ensures
        b == (v@.subrange(lo as int, hi as int) == true_word()),
{
    let b = hi - lo == 4 && v[lo] == 't' && v[lo + 1] == 'r' && v[lo + 2] == 'u' && v[lo + 3] == 'e';
    let ghost sub = v@.subrange(lo as int, hi as int);
    assert(true_word().len() == 4);
    if b {
        assert(sub =~= true_word());
    } else if hi - lo == 4 {
        proof {
            if sub == true_word() {
                assert(sub[0] == true_word()[0]);
                assert(sub[1] == true_word()[1]);
                assert(sub[2] == true_word()[2]);
                assert(sub[3] == true_word()[3]);
                assert(false);
            }
        }
    } else {
        assert(sub.len() != true_word().len());
    }
    b
}

/// Whether two character sequences are equal.
pub fn chars_eq(a: &Vec<char>, b: &Vec<char>) -> (r: bool)
    ensures
        r == (a@ == b@),
{
    if a.len() != b.len() {
        return false;
    }
    let mut i: usize = 0;
    while i < a.len()
        invariant
            i <= a@.len() == b@.len(),
            forall|j: int| 0 <= j < i ==> a@[j] == b@[j],
        decreases a@.len() - i,
    {
        if a[i] != b[i] {
            return false;
        }
        i = i + 1;
    }
    assert(a@ =~= b@);
    true
}

/// Splits `v` at each `sep` (see `split_on`).
pub fn split_chars(v: &Vec<char>, sep: char) -> (r: Vec<Vec<char>>)
    ensures
        r@.map_values(|p: Vec<char>| p@) == split_on(v@, sep),
        r@.len() >= 1,
{
    let mut out: Vec<Vec<char>> = Vec::new();
    let mut start: usize = 0;
    assert(v@.skip(0) =~= v@);
    assert(out@.map_values(|p: Vec<char>| p@) =~= Seq::<Seq<char>>::empty());
    loop
        invariant
            start <= v@.len(),
            out@.map_values(|p: Vec<char>| p@) + split_on(v@.skip(start as int), sep) == split_on(v@, sep),
        decreases v@.len() - start,
    {
        let ghost t = v@.skip(start as int);
        let i = find_char_from(v, sep, start);
        proof {
            lemma_find_from(v@, sep, start as int);
            if i < v@.len() {
                assert(find_from(t, sep, 0) == i - start) by {
                    lemma_find_from_is(t, sep, 0, i - start);
                }
            } else {
                assert forall|j: int| 0 <= j < t.len() implies t[j] != sep by {
                    assert(t[j] == v@[start + j]);
                }
                lemma_find_from_none(t, sep, 0);
            }
        }
        let piece = sub_chars(v, start, i);
        let ghost pv = piece@;
        let ghost prev = out@;
        out.push(piece);
        proof {
            assert(out@.map_values(|p: Vec<char>| p@) =~= prev.map_values(|p: Vec<char>| p@).push(pv)) by {
                broadcast use vstd::seq_lib::group_seq_properties;
            }
        }
        if i >= v.len() {
            assert(t =~= pv);
            return out;
        }
        assert(t.take(i - start) =~= pv);
        assert(t.skip(i - start + 1) =~= v@.skip(i + 1));
        start = i + 1;
    }
}

/// Whether `v` spells the text `lit`.
pub fn chars_eq_str(v: &Vec<char>, lit: &str) -> (r: bool)
    ensures
        r == (v@ == lit@),
{
    chars_eq(v, &chars_of(lit))
}

/// Whether two strings hold the same text.
pub fn str_eq(a: &str, b: &str) -> (r: bool)
    ensures
        r == (a@ == b@),
{
    chars_eq(&chars_of(a), &chars_of(b))
}

/// `p` occurs in `t` at position `i`.
pub open spec fn occurs_at(t: Seq<char>, p: Seq<char>, i: int) -> bool {
    0 <= i && i + p.len() <= t.len() && t.subrange(i, i + p.len()) == p
}

/// `p` occurs somewhere in `t`.
pub open spec fn has_infix(t: Seq<char>, p: Seq<char>) -> bool {
    exists|i: int| occurs_at(t, p, i)
}

/// Whether `v` holds `p` at position `i`.
fn matches_at(v: &Vec<char>, p: &Vec<char>, i: usize) -> (r: bool)
    requires
        i + p@.len() <= v@.len(),
    ensures
        r == occurs_at(v@, p@, i as int),
{
    let n = v.len();
    let mut k: usize = 0;
    while k < p.len()
        invariant
            k <= p@.len(),
            n == v@.len(),
            i + p@.len() <= v@.len(),
            forall|j: int| 0 <= j < k ==> v@[i + j] == p@[j],
        decreases p@.len() - k,
    {
        if v[i + k] != p[k] {
            assert(v@.subrange(i as int, i + p@.len())[k as int] != p@[k as int]);
            return false;
        }
        k = k + 1;
    }
    assert(v@.subrange(i as int, i + p@.len()) =~= p@);
    true
}

/// Whether the text `p` occurs in the text `t`.
pub fn contains_text(t: &str, p: &str) -> (r: bool)
    ensures
        r == has_infix(t@, p@),
{
    let v = chars_of(t);
    let w = chars_of(p);
    if w.len() > v.len() {
        return false;
    }
    let last = v.len() - w.len();
    let mut i: usize = 0;
    loop
        invariant
            v@ == t@,
            w@ == p@,
            i <= last,
            last + w@.len() == v@.len(),
            forall|j: int| 0 <= j < i ==> !occurs_at(v@, w@, j),
        decreases last - i,
    {
        if matches_at(&v, &w, i) {
            return true;
        }
        if i == last {
            assert forall|j: int| !occurs_at(v@, w@, j) by {
                if 0 <= j < i {
                }
            }
            return false;
        }
        i = i + 1;
    }
}

/// Texts joined with `sep` between them.
pub open spec fn join_with(parts: Seq<Seq<char>>, sep: Seq<char>) -> Seq<char>
    decreases parts.len(),
{
    if parts.len() == 0 {
        seq![]
    } else if parts.len() == 1 {
        parts[0]
    } else {
        join_with(parts.drop_last(), sep) + sep + parts.last()
    }
}

/// The strings of `parts`, joined with `sep` between them.
pub fn join_strings(parts: &Vec<String>, sep: &str) -> (r: String)
    ensures
        r@ == join_with(views(parts@), sep@),
{
    let ghost texts = views(parts@);
    if parts.len() == 0 {
        return String::new();
    }
    let mut out = parts[0].clone();
    let mut i: usize = 1;
    while i < parts.len()
        invariant
            1 <= i <= parts@.len(),
            texts == views(parts@),
            out@ == join_with(texts.take(i as int), sep@),
        decreases parts@.len() - i,
    {
        let ghost before = out@;
        push_str(&mut out, sep);
        push_str(&mut out, parts[i].as_str());
        proof {
            let t = texts.take(i + 1);
            assert(t.drop_last() =~= texts.take(i as int));
            assert(t.last() == parts@[i as int]@);
        }
        i = i + 1;
    }
    assert(texts.take(i as int) =~= texts);
    out
}

/// Appends the characters of `t` to `s`.
pub fn push_str(s: &mut String, t: &str)
    ensures
        final(s)@ == old(s)@ + t@,
{
    let cs = chars_of(t);
    let mut i: usize = 0;
    while i < cs.len()
        invariant
            i <= cs@.len(),
            cs@ == t@,
            s@ == old(s)@ + cs@.take(i as int),
        decreases cs@.len() - i,
    {
        push_char(s, cs[i]);
        proof {
            assert(cs@.take(i + 1) =~= cs@.take(i as int).push(cs@[i as int]));
        }
        i = i + 1;
    }
    assert(cs@.take(i as int) =~= cs@);
}

} // verus!

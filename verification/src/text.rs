//! Text as sequences of characters: the helpers the rest of the crate is
//! written with. Every contract speaks of the `Seq<char>` view of its strings.

use vstd::prelude::*;

verus! {

/// `String::push` appends one character.
pub assume_specification[ String::push ](s: &mut String, c: char)
    ensures
        final(s)@ == old(s)@.push(c),
;

/// The views of a sequence of strings.
pub open spec fn texts(v: Seq<String>) -> Seq<Seq<char>> {
    Seq::new(v.len(), |i: int| v[i]@)
}

/// The characters of `s`, in order.
pub fn chars_of(s: &str) -> (v: Vec<char>)
    ensures
        v@ == s@,
{
    let mut v: Vec<char> = Vec::new();
    for c in it: s.chars()
        invariant
            it.seq() == s@,
            v@ == it.seq().take(it.index()),
    {
        assert(it.seq().take(it.index() + 1) =~= it.seq().take(it.index()).push(c));
        v.push(c);
    }
    assert(v@ =~= s@);
    v
}

/// Appends `from[lo..hi]` to `out`.
pub(crate) fn push_range(out: &mut String, from: &Vec<char>, lo: usize, hi: usize)
    requires
        lo <= hi <= from.len(),
    ensures
        final(out)@ == old(out)@ + from@.subrange(lo as int, hi as int),
{
    let mut i: usize = lo;
    while i < hi
        invariant
            lo <= i <= hi <= from.len(),
            out@ == old(out)@ + from@.subrange(lo as int, i as int),
        decreases hi - i,
    {
        out.push(from[i]);
        i += 1;
        assert(from@.subrange(lo as int, i as int) =~= from@.subrange(lo as int, i - 1).push(
            from@[i - 1],
        ));
        assert(out@ =~= old(out)@ + from@.subrange(lo as int, i as int));
    }
    assert(out@ =~= old(out)@ + from@.subrange(lo as int, hi as int));
}

/// Whether two strings hold the same characters.
pub fn equal(a: &str, b: &str) -> (r: bool)
    ensures
        r == (a@ == b@),
{
    let x = a.to_owned();
    let y = b.to_owned();
    x == y
}

/// The characters with the Unicode property `White_Space`.
pub open spec fn is_whitespace(c: char) -> bool {
    ||| '\u{9}' <= c <= '\u{d}'
    ||| c == ' '
    ||| c == '\u{85}'
    ||| c == '\u{a0}'
    ||| c == '\u{1680}'
    ||| '\u{2000}' <= c <= '\u{200a}'
    ||| c == '\u{2028}'
    ||| c == '\u{2029}'
    ||| c == '\u{202f}'
    ||| c == '\u{205f}'
    ||| c == '\u{3000}'
}

/// `char::is_whitespace`.
pub fn whitespace(c: char) -> (r: bool)
    ensures
        r == is_whitespace(c),
{
    ('\u{9}' <= c && c <= '\u{d}') || c == ' ' || c == '\u{85}' || c == '\u{a0}' || c == '\u{1680}'
        || ('\u{2000}' <= c && c <= '\u{200a}') || c == '\u{2028}' || c == '\u{2029}' || c
        == '\u{202f}' || c == '\u{205f}' || c == '\u{3000}'
}

/// How many characters of white space `s` starts with.
pub open spec fn leading_whitespace(s: Seq<char>) -> nat
    decreases s.len(),
{
    if s.len() > 0 && is_whitespace(s[0]) {
        1 + leading_whitespace(s.drop_first())
    } else {
        0
    }
}

/// How many characters of white space `s` ends with.
pub open spec fn trailing_whitespace(s: Seq<char>) -> nat
    decreases s.len(),
{
    if s.len() > 0 && is_whitespace(s.last()) {
        1 + trailing_whitespace(s.drop_last())
    } else {
        0
    }
}

/// `s` without the white space at its two ends.
pub open spec fn trimmed(s: Seq<char>) -> Seq<char> {
    let lo = leading_whitespace(s);
    if lo == s.len() {
        Seq::empty()
    } else {
        s.subrange(lo as int, s.len() - trailing_whitespace(s))
    }
}

/// A text starts with as much white space as stands before its first other
/// character.
proof fn lemma_leading_whitespace(s: Seq<char>, lo: int)
    requires
        0 <= lo <= s.len(),
        forall|j: int| 0 <= j < lo ==> is_whitespace(s[j]),
        lo == s.len() || !is_whitespace(s[lo]),
    ensures
        leading_whitespace(s) == lo,
    decreases lo,
{
    if lo > 0 {
        lemma_leading_whitespace(s.drop_first(), lo - 1);
    }
}

/// A text ends with as much white space as stands behind its last other
/// character.
proof fn lemma_trailing_whitespace(s: Seq<char>, n: int)
    requires
        0 <= n <= s.len(),
        forall|j: int| s.len() - n <= j < s.len() ==> is_whitespace(s[j]),
        n == s.len() || !is_whitespace(s[s.len() - n - 1]),
    ensures
        trailing_whitespace(s) == n,
    decreases n,
{
    if n > 0 {
        lemma_trailing_whitespace(s.drop_last(), n - 1);
    }
}

/// `str::trim`: the text between the first and the last character that is
/// not white space.
pub fn trim(s: &str) -> (r: String)
    ensures
        r@ == trimmed(s@),
{
    let v = chars_of(s);
    let mut lo: usize = 0;
    while lo < v.len() && whitespace(v[lo])
        invariant
            lo <= v.len(),
            forall|j: int| 0 <= j < lo ==> is_whitespace(v@[j]),
        decreases v.len() - lo,
    {
        lo += 1;
    }
    proof {
        lemma_leading_whitespace(v@, lo as int);
    }
    let mut out = String::new();
    if lo == v.len() {
        return out;
    }
    let mut hi: usize = v.len();
    while hi > lo && whitespace(v[hi - 1])
        invariant
            lo <= hi <= v.len(),
            lo < v.len(),
            !is_whitespace(v@[lo as int]),
            forall|j: int| hi <= j < v.len() ==> is_whitespace(v@[j]),
        decreases hi,
    {
        hi -= 1;
    }
    proof {
        lemma_trailing_whitespace(v@, v.len() - hi);
    }
    push_range(&mut out, &v, lo, hi);
    assert(out@ =~= v@.subrange(lo as int, hi as int));
    out
}

/// The pieces of `s` between occurrences of `sep`, as `str::split` gives them:
/// one piece more than there are separators, empty pieces included.
pub open spec fn split_on(s: Seq<char>, sep: char) -> Seq<Seq<char>>
    decreases s.len(),
{
    if s.len() == 0 {
        seq![Seq::empty()]
    } else {
        let before = split_on(s.drop_last(), sep);
        if s.last() == sep {
            before.push(Seq::empty())
        } else {
            before.drop_last().push(before.last().push(s.last()))
        }
    }
}

/// Splitting gives at least one piece.
pub proof fn lemma_split_nonempty(s: Seq<char>, sep: char)
    ensures
        split_on(s, sep).len() >= 1,
    decreases s.len(),
{
    if s.len() > 0 {
        lemma_split_nonempty(s.drop_last(), sep);
    }
}

/// `str::split` on one character.
pub fn split(s: &str, sep: char) -> (parts: Vec<String>)
    ensures
        texts(parts@) == split_on(s@, sep),
{
    let v = chars_of(s);
    let mut parts: Vec<String> = Vec::new();
    let mut current = String::new();
    let mut i: usize = 0;
    while i < v.len()
        invariant
            i <= v.len(),
            texts(parts@).push(current@) == split_on(v@.take(i as int), sep),
        decreases v.len() - i,
    {
        let c = v[i];
        let ghost old_parts = texts(parts@);
        let ghost old_current = current@;
        assert(v@.take(i + 1).drop_last() =~= v@.take(i as int));
        if c == sep {
            parts.push(current);
            current = String::new();
            assert(texts(parts@) =~= old_parts.push(old_current));
        } else {
            current.push(c);
            assert(old_parts.push(old_current).drop_last() =~= old_parts);
        }
        i += 1;
    }
    assert(v@.take(i as int) =~= v@);
    let ghost old_parts = texts(parts@);
    parts.push(current);
    assert(texts(parts@) =~= old_parts.push(current@));
    parts
}

/// `line` without one carriage return at its end.
pub open spec fn without_carriage_return(line: Seq<char>) -> Seq<char> {
    if line.len() > 0 && line.last() == '\r' {
        line.drop_last()
    } else {
        line
    }
}

/// The lines of `s`, as `str::lines` gives them. A line ends at a line feed;
/// the line feed, and a carriage return right before it, are not part of the
/// line. What follows the last line feed is a line of its own unless it is empty.
pub open spec fn lines_of(s: Seq<char>) -> Seq<Seq<char>> {
    let parts = split_on(s, '\n');
    let ended = Seq::new((parts.len() - 1) as nat, |i: int| without_carriage_return(parts[i]));
    if parts.last().len() == 0 {
        ended
    } else {
        ended.push(parts.last())
    }
}

/// `str::lines`.
pub fn lines(s: &str) -> (out: Vec<String>)
    ensures
        texts(out@) == lines_of(s@),
{
    let mut parts = split(s, '\n');
    proof {
        lemma_split_nonempty(s@, '\n');
    }
    let ghost all = texts(parts@);
    let rest = parts.pop().unwrap();
    assert(texts(parts@) =~= all.drop_last());
    let mut out: Vec<String> = Vec::new();
    let mut i: usize = 0;
    while i < parts.len()
        invariant
            i <= parts.len(),
            texts(out@) == Seq::new(i as nat, |j: int| without_carriage_return(texts(parts@)[j])),
        decreases parts.len() - i,
    {
        let v = chars_of(parts[i].as_str());
        let mut line = String::new();
        if v.len() > 0 && v[v.len() - 1] == '\r' {
            push_range(&mut line, &v, 0, v.len() - 1);
        } else {
            push_range(&mut line, &v, 0, v.len());
        }
        assert(line@ =~= without_carriage_return(v@));
        let ghost before = texts(out@);
        assert(v@ == texts(parts@)[i as int]);
        out.push(line);
        i += 1;
        assert(texts(out@) =~= before.push(line@));
        assert(texts(out@) =~= Seq::new(
            i as nat,
            |j: int| without_carriage_return(texts(parts@)[j]),
        ));
    }
    assert(texts(out@) =~= Seq::new(
        (all.len() - 1) as nat,
        |j: int| without_carriage_return(all[j]),
    ));
    if !rest.as_str().is_empty() {
        let ghost before = texts(out@);
        out.push(rest);
        assert(texts(out@) =~= before.push(rest@));
    }
    out
}

/// The pieces with `sep` between each two neighbours.
pub open spec fn joined(parts: Seq<Seq<char>>, sep: Seq<char>) -> Seq<char>
    decreases parts.len(),
{
    if parts.len() == 0 {
        Seq::empty()
    } else if parts.len() == 1 {
        parts[0]
    } else {
        joined(parts.drop_last(), sep) + sep + parts.last()
    }
}

/// `[String]::join`.
pub fn join(parts: &Vec<String>, sep: &str) -> (out: String)
    ensures
        out@ == joined(texts(parts@), sep@),
{
    let mut out = String::new();
    let mut i: usize = 0;
    while i < parts.len()
        invariant
            i <= parts.len(),
            out@ == joined(texts(parts@).take(i as int), sep@),
        decreases parts.len() - i,
    {
        if i > 0 {
            out.append(sep);
        }
        out.append(parts[i].as_str());
        i += 1;
        assert(texts(parts@).take(i as int).drop_last() =~= texts(parts@).take(i - 1));
        assert(out@ =~= joined(texts(parts@).take(i as int), sep@));
    }
    assert(texts(parts@).take(i as int) =~= texts(parts@));
    out
}

/// The decimal digit for `d`.
pub open spec fn digit(d: nat) -> char {
    if d == 0 {
        '0'
    } else if d == 1 {
        '1'
    } else if d == 2 {
        '2'
    } else if d == 3 {
        '3'
    } else if d == 4 {
        '4'
    } else if d == 5 {
        '5'
    } else if d == 6 {
        '6'
    } else if d == 7 {
        '7'
    } else if d == 8 {
        '8'
    } else {
        '9'
    }
}

/// `n` in decimal, without sign or leading zeros.
pub open spec fn decimal(n: nat) -> Seq<char>
    decreases n,
{
    if n < 10 {
        seq![digit(n)]
    } else {
        decimal(n / 10).push(digit(n % 10))
    }
}

/// The decimal digit for `d`.
fn digit_char(d: u64) -> (c: char)
    requires
        d < 10,
    ensures
        c == digit(d as nat),
{
    if d == 0 {
        '0'
    } else if d == 1 {
        '1'
    } else if d == 2 {
        '2'
    } else if d == 3 {
        '3'
    } else if d == 4 {
        '4'
    } else if d == 5 {
        '5'
    } else if d == 6 {
        '6'
    } else if d == 7 {
        '7'
    } else if d == 8 {
        '8'
    } else {
        '9'
    }
}

/// Appends `n` in decimal to `out`.
pub fn push_decimal(out: &mut String, n: u64)
    ensures
        final(out)@ == old(out)@ + decimal(n as nat),
    decreases n,
{
    if n >= 10 {
        push_decimal(out, n / 10);
    }
    out.push(digit_char(n % 10));
    assert(out@ =~= old(out)@ + decimal(n as nat));
}

/// What formatting an unsigned integer with `{}` gives.
pub fn decimal_string(n: u64) -> (out: String)
    ensures
        out@ == decimal(n as nat),
{
    let mut out = String::new();
    push_decimal(&mut out, n);
    assert(out@ =~= decimal(n as nat));
    out
}

/// The order of `str`: character by character, a proper prefix first.
pub open spec fn lex_le(a: Seq<char>, b: Seq<char>) -> bool
    decreases a.len(),
{
    if a.len() == 0 {
        true
    } else if b.len() == 0 {
        false
    } else if a[0] != b[0] {
        a[0] < b[0]
    } else {
        lex_le(a.drop_first(), b.drop_first())
    }
}

/// Of two texts one comes no later than the other.
pub proof fn lemma_lex_le_total(a: Seq<char>, b: Seq<char>)
    ensures
        lex_le(a, b) || lex_le(b, a),
    decreases a.len(),
{
    if a.len() > 0 && b.len() > 0 && a[0] == b[0] {
        lemma_lex_le_total(a.drop_first(), b.drop_first());
    }
}

/// The order is transitive.
pub proof fn lemma_lex_le_transitive(a: Seq<char>, b: Seq<char>, c: Seq<char>)
    requires
        lex_le(a, b),
        lex_le(b, c),
    ensures
        lex_le(a, c),
    decreases a.len(),
{
    if a.len() > 0 && b.len() > 0 && c.len() > 0 && a[0] == b[0] && b[0] == c[0] {
        lemma_lex_le_transitive(a.drop_first(), b.drop_first(), c.drop_first());
    }
}

/// Two texts that come no later than each other are the same text.
pub proof fn lemma_lex_le_antisymmetric(a: Seq<char>, b: Seq<char>)
    requires
        lex_le(a, b),
        lex_le(b, a),
    ensures
        a == b,
    decreases a.len(),
{
    if a.len() > 0 && b.len() > 0 {
        lemma_lex_le_antisymmetric(a.drop_first(), b.drop_first());
        assert(a =~= seq![a[0]] + a.drop_first());
        assert(b =~= seq![b[0]] + b.drop_first());
    } else {
        assert(a =~= b);
    }
}

/// `a <= b` on `str`.
pub fn less_or_equal(a: &str, b: &str) -> (r: bool)
    ensures
        r == lex_le(a@, b@),
{
    let x = chars_of(a);
    let y = chars_of(b);
    let mut i: usize = 0;
    assert(x@.skip(0) =~= x@ && y@.skip(0) =~= y@);
    while i < x.len() && i < y.len() && x[i] == y[i]
        invariant
            i <= x.len(),
            i <= y.len(),
            lex_le(x@, y@) == lex_le(x@.skip(i as int), y@.skip(i as int)),
        decreases x.len() - i,
    {
        assert(x@.skip(i as int).drop_first() =~= x@.skip(i + 1));
        assert(y@.skip(i as int).drop_first() =~= y@.skip(i + 1));
        i += 1;
    }
    if i == x.len() {
        true
    } else if i == y.len() {
        false
    } else {
        x[i] < y[i]
    }
}

/// Each text comes no later than those behind it.
pub open spec fn sorted(v: Seq<Seq<char>>) -> bool {
    forall|i: int, j: int| 0 <= i < j < v.len() ==> lex_le(v[i], v[j])
}

/// `out` holds the texts of `v`, each as often as `v` does, in ascending order.
pub open spec fn is_sorting_of(out: Seq<Seq<char>>, v: Seq<Seq<char>>) -> bool {
    sorted(out) && out.to_multiset() == v.to_multiset()
}

/// The texts of `v` in ascending order.
pub open spec fn in_order(v: Seq<Seq<char>>) -> Seq<Seq<char>> {
    choose|out: Seq<Seq<char>>| is_sorting_of(out, v)
}

/// There is one way only to put texts in ascending order.
pub proof fn lemma_sorting_unique(a: Seq<Seq<char>>, b: Seq<Seq<char>>, v: Seq<Seq<char>>)
    requires
        is_sorting_of(a, v),
        is_sorting_of(b, v),
    ensures
        a == b,
{
    let leq = |x: Seq<char>, y: Seq<char>| lex_le(x, y);
    assert(vstd::relations::total_ordering(leq)) by {
        assert forall|x: Seq<char>| #[trigger] leq(x, x) by {
            lemma_lex_le_total(x, x);
        }
        assert forall|x: Seq<char>, y: Seq<char>| #[trigger] leq(x, y) && #[trigger] leq(y, x)
            implies x == y by {
            lemma_lex_le_antisymmetric(x, y);
        }
        assert forall|x: Seq<char>, y: Seq<char>, z: Seq<char>| #[trigger]
            leq(x, y) && #[trigger] leq(y, z) implies leq(x, z) by {
            lemma_lex_le_transitive(x, y, z);
        }
        assert forall|x: Seq<char>, y: Seq<char>| #[trigger] leq(x, y) || #[trigger] leq(y, x) by {
            lemma_lex_le_total(x, y);
        }
    }
    assert(vstd::relations::sorted_by(a, leq));
    assert(vstd::relations::sorted_by(b, leq));
    vstd::seq_lib::lemma_sorted_unique(a, b, leq);
}

/// Where a text goes into an ascending sequence: behind the texts at its
/// front that come no later.
pub open spec fn insert_position(s: Seq<Seq<char>>, x: Seq<char>) -> nat
    decreases s.len(),
{
    if s.len() == 0 || !lex_le(s[0], x) {
        0
    } else {
        1 + insert_position(s.drop_first(), x)
    }
}

/// The texts before the insert position come no later than the text, and the
/// one at the position comes later.
proof fn lemma_insert_position(s: Seq<Seq<char>>, x: Seq<char>)
    ensures
        insert_position(s, x) <= s.len(),
        forall|i: int| 0 <= i < insert_position(s, x) ==> lex_le(#[trigger] s[i], x),
        insert_position(s, x) < s.len() ==> !lex_le(s[insert_position(s, x) as int], x),
    decreases s.len(),
{
    if s.len() > 0 && lex_le(s[0], x) {
        let rest = s.drop_first();
        lemma_insert_position(rest, x);
        assert forall|i: int| 0 <= i < insert_position(s, x) implies lex_le(#[trigger] s[i], x) by {
            if i > 0 {
                assert(s[i] == rest[i - 1]);
            }
        }
    }
}

/// Texts can always be put in ascending order.
pub proof fn lemma_sorting_exists(v: Seq<Seq<char>>) -> (out: Seq<Seq<char>>)
    ensures
        is_sorting_of(out, v),
    decreases v.len(),
{
    if v.len() == 0 {
        v
    } else {
        let rest = lemma_sorting_exists(v.drop_last());
        let x = v.last();
        let p = insert_position(rest, x) as int;
        lemma_insert_position(rest, x);
        let out = rest.insert(p, x);
        assert forall|i: int, j: int| 0 <= i < j < out.len() implies lex_le(out[i], out[j]) by {
            if j < p {
                assert(out[i] == rest[i] && out[j] == rest[j]);
            } else if j == p {
                assert(out[i] == rest[i]);
            } else if i < p {
                assert(out[i] == rest[i] && out[j] == rest[j - 1]);
            } else if i == p {
                lemma_lex_le_total(rest[p], x);
                assert(out[j] == rest[j - 1]);
                if j - 1 > p {
                    lemma_lex_le_transitive(x, rest[p], rest[j - 1]);
                }
            } else {
                assert(out[i] == rest[i - 1] && out[j] == rest[j - 1]);
            }
        }
        vstd::seq_lib::to_multiset_insert(rest, p, x);
        vstd::seq_lib::to_multiset_build(v.drop_last(), x);
        assert(v.drop_last().push(x) =~= v);
        out
    }
}

/// The texts in ascending order are what the name says: ascending, and the
/// same texts, each as often.
pub proof fn lemma_in_order_sorts(v: Seq<Seq<char>>)
    ensures
        is_sorting_of(in_order(v), v),
{
    let witness = lemma_sorting_exists(v);
    assert(is_sorting_of(witness, v));
}

/// `[String]::sort`: the same strings in ascending order.
pub fn sort(v: Vec<String>) -> (out: Vec<String>)
    ensures
        is_sorting_of(texts(out@), texts(v@)),
        texts(out@) == in_order(texts(v@)),
{
    let mut rest = v;
    let mut out: Vec<String> = Vec::new();
    assert(texts(out@).to_multiset().add(texts(rest@).to_multiset()) =~= texts(v@).to_multiset())
        by {
        assert(texts(out@) =~= Seq::<Seq<char>>::empty());
        assert(texts(out@).to_multiset() =~= vstd::multiset::Multiset::<Seq<char>>::empty()) by {
            texts(out@).to_multiset_ensures();
        }
    }
    while rest.len() > 0
        invariant
            sorted(texts(out@)),
            texts(out@).to_multiset().add(texts(rest@).to_multiset()) == texts(v@).to_multiset(),
        decreases rest.len(),
    {
        let ghost old_rest = texts(rest@);
        let ghost old_out = texts(out@);
        let x = rest.pop().unwrap();
        assert(old_rest =~= texts(rest@).push(x@));
        let mut p: usize = 0;
        while p < out.len() && less_or_equal(out[p].as_str(), x.as_str())
            invariant
                p <= out.len(),
                forall|i: int| 0 <= i < p ==> lex_le(texts(out@)[i], x@),
            decreases out.len() - p,
        {
            p += 1;
        }
        out.insert(p, x);
        assert(texts(out@) =~= old_out.insert(p as int, x@));
        assert(sorted(texts(out@))) by {
            let now = texts(out@);
            assert forall|i: int, j: int| 0 <= i < j < now.len() implies lex_le(now[i], now[j]) by {
                if j < p {
                    assert(now[i] == old_out[i] && now[j] == old_out[j]);
                } else if j == p {
                    assert(now[i] == old_out[i]);
                } else if i < p {
                    assert(now[i] == old_out[i] && now[j] == old_out[j - 1]);
                } else if i == p {
                    lemma_lex_le_total(old_out[p as int], x@);
                    assert(now[j] == old_out[j - 1]);
                    if j - 1 > p {
                        lemma_lex_le_transitive(x@, old_out[p as int], old_out[j - 1]);
                    }
                } else {
                    assert(now[i] == old_out[i - 1] && now[j] == old_out[j - 1]);
                }
            }
        }
        proof {
            vstd::seq_lib::to_multiset_build(texts(rest@), x@);
            vstd::seq_lib::to_multiset_insert(old_out, p as int, x@);
            assert(texts(out@).to_multiset().add(texts(rest@).to_multiset()) =~= old_out.to_multiset().add(
                old_rest.to_multiset(),
            ));
        }
    }
    assert(texts(rest@).to_multiset() =~= vstd::multiset::Multiset::<Seq<char>>::empty()) by {
        assert(texts(rest@) =~= Seq::<Seq<char>>::empty());
        texts(rest@).to_multiset_ensures();
    }
    assert(texts(out@).to_multiset() =~= texts(v@).to_multiset());
    proof {
        assert(is_sorting_of(texts(out@), texts(v@)));
        lemma_sorting_unique(texts(out@), in_order(texts(v@)), texts(v@));
    }
    out
}

/// `s` with each `from` replaced by `to`.
pub open spec fn with_char_replaced(s: Seq<char>, from: char, to: char) -> Seq<char> {
    Seq::new(s.len(), |i: int| if s[i] == from { to } else { s[i] })
}

/// `str::replace` of one character by another.
pub fn replace_char(s: &str, from: char, to: char) -> (out: String)
    ensures
        out@ == with_char_replaced(s@, from, to),
{
    let v = chars_of(s);
    let mut out = String::new();
    let mut i: usize = 0;
    while i < v.len()
        invariant
            i <= v.len(),
            out@ == with_char_replaced(v@.take(i as int), from, to),
        decreases v.len() - i,
    {
        let ghost before = out@;
        if v[i] == from {
            out.push(to);
        } else {
            out.push(v[i]);
        }
        i += 1;
        assert(out@ =~= with_char_replaced(v@.take(i as int), from, to));
    }
    assert(v@.take(i as int) =~= v@);
    out
}

/// The lowercase form of a text, as `str::to_lowercase` computes it from the
/// Unicode tables.
pub uninterp spec fn lowercase_of(s: Seq<char>) -> Seq<char>;

/// `str::to_lowercase`. The result is a function of the text alone; the
/// contract gives it its name and claims nothing more.
#[verifier::external_body]
pub(crate) fn lowercase(s: &str) -> (out: String)
    ensures
        out@ == lowercase_of(s@),
{
    s.to_lowercase()
}

/// Whether one of the strings holds the text of `s`.
pub fn contains_text(list: &Vec<String>, s: &str) -> (r: bool)
    ensures
        r == texts(list@).contains(s@),
{
    let mut i: usize = 0;
    while i < list.len()
        invariant
            i <= list.len(),
            forall|j: int| 0 <= j < i ==> texts(list@)[j] != s@,
        decreases list.len() - i,
    {
        if equal(list[i].as_str(), s) {
            assert(texts(list@)[i as int] == s@);
            return true;
        }
        i += 1;
    }
    false
}

/// The names that a list of requests holds: each request without the white
/// space at its ends, requests that are blank left out.
pub open spec fn requested_names(requested: Seq<Seq<char>>) -> Seq<Seq<char>>
    decreases requested.len(),
{
    if requested.len() == 0 {
        Seq::empty()
    } else {
        let before = requested_names(requested.drop_last());
        let name = trimmed(requested.last());
        if name.len() == 0 {
            before
        } else {
            before.push(name)
        }
    }
}

/// The names that a list of requests holds.
pub fn names_of(requested: &Vec<String>) -> (names: Vec<String>)
    ensures
        texts(names@) == requested_names(texts(requested@)),
{
    let mut names: Vec<String> = Vec::new();
    let mut i: usize = 0;
    assert(texts(requested@).take(0) =~= Seq::<Seq<char>>::empty());
    while i < requested.len()
        invariant
            i <= requested.len(),
            texts(names@) == requested_names(texts(requested@).take(i as int)),
        decreases requested.len() - i,
    {
        let name = trim(requested[i].as_str());
        let ghost before = texts(names@);
        assert(texts(requested@).take(i + 1).drop_last() =~= texts(requested@).take(i as int));
        if !name.as_str().is_empty() {
            names.push(name);
            assert(texts(names@) =~= before.push(name@));
        }
        i += 1;
    }
    assert(texts(requested@).take(i as int) =~= texts(requested@));
    names
}

/// A copy of a list of strings.
pub fn copy_all(list: &Vec<String>) -> (out: Vec<String>)
    ensures
        texts(out@) == texts(list@),
{
    let mut out: Vec<String> = Vec::new();
    let mut i: usize = 0;
    while i < list.len()
        invariant
            i <= list.len(),
            texts(out@) == texts(list@).take(i as int),
        decreases list.len() - i,
    {
        let ghost before = texts(out@);
        let item = list[i].clone();
        out.push(item);
        i += 1;
        assert(texts(out@) =~= before.push(item@));
        assert(texts(out@) =~= texts(list@).take(i as int));
    }
    assert(texts(list@).take(i as int) =~= texts(list@));
    out
}

/// `s` with each pair of spaces replaced by one space, pairs taken from the
/// left and never overlapping: what `str::replace` makes of `"  "` and `" "`.
pub open spec fn with_space_pairs_collapsed(s: Seq<char>) -> Seq<char>
    decreases s.len(),
{
    if s.len() == 0 {
        Seq::empty()
    } else if s.len() >= 2 && s[0] == ' ' && s[1] == ' ' {
        seq![' '] + with_space_pairs_collapsed(s.skip(2))
    } else {
        seq![s[0]] + with_space_pairs_collapsed(s.skip(1))
    }
}

/// Replaces each pair of spaces by one space.
pub fn collapse_space_pairs(s: &str) -> (out: String)
    ensures
        out@ == with_space_pairs_collapsed(s@),
{
    let v = chars_of(s);
    let mut out = String::new();
    let mut i: usize = 0;
    assert(v@.skip(0) =~= v@);
    assert(out@ + with_space_pairs_collapsed(v@.skip(0)) =~= with_space_pairs_collapsed(v@));
    while i < v.len()
        invariant
            i <= v.len(),
            out@ + with_space_pairs_collapsed(v@.skip(i as int)) == with_space_pairs_collapsed(v@),
        decreases v.len() - i,
    {
        let ghost before = out@;
        let ghost rest = v@.skip(i as int);
        if v[i] == ' ' && i + 1 < v.len() && v[i + 1] == ' ' {
            out.push(' ');
            assert(rest.skip(2) =~= v@.skip(i + 2));
            i += 2;
            assert(out@ + with_space_pairs_collapsed(v@.skip(i as int)) =~= before + (seq![' ']
                + with_space_pairs_collapsed(rest.skip(2))));
        } else {
            out.push(v[i]);
            assert(rest.skip(1) =~= v@.skip(i + 1));
            i += 1;
            assert(out@ + with_space_pairs_collapsed(v@.skip(i as int)) =~= before + (seq![rest[0]]
                + with_space_pairs_collapsed(rest.skip(1))));
        }
    }
    assert(out@ + with_space_pairs_collapsed(v@.skip(i as int)) =~= out@);
    out
}

/// `s` without the white space at its end.
pub open spec fn end_trimmed(s: Seq<char>) -> Seq<char> {
    s.take(s.len() - trailing_whitespace(s))
}

/// `str::trim_end`.
pub fn trim_end(s: &str) -> (r: String)
    ensures
        r@ == end_trimmed(s@),
{
    let v = chars_of(s);
    let mut hi: usize = v.len();
    while hi > 0 && whitespace(v[hi - 1])
        invariant
            hi <= v.len(),
            forall|j: int| hi <= j < v.len() ==> is_whitespace(v@[j]),
        decreases hi,
    {
        hi -= 1;
    }
    proof {
        lemma_trailing_whitespace(v@, v.len() - hi);
    }
    let mut out = String::new();
    push_range(&mut out, &v, 0, hi);
    assert(out@ =~= v@.take(hi as int));
    out
}

/// Where `c` stands first in `s`.
pub open spec fn first_index_of(s: Seq<char>, c: char) -> Option<int>
    decreases s.len(),
{
    if s.len() == 0 {
        None
    } else if s[0] == c {
        Some(0)
    } else {
        match first_index_of(s.drop_first(), c) {
            Some(i) => Some(i + 1),
            None => None,
        }
    }
}

/// The first occurrence is where the character stands and did not stand
/// before.
proof fn lemma_first_index_of(s: Seq<char>, c: char, d: int)
    requires
        0 <= d <= s.len(),
        forall|k: int| 0 <= k < d ==> s[k] != c,
        d == s.len() || s[d] == c,
    ensures
        first_index_of(s, c) == (if d == s.len() {
            None
        } else {
            Some(d)
        }),
    decreases d,
{
    if d > 0 {
        lemma_first_index_of(s.drop_first(), c, d - 1);
    }
}

/// `str::split_once` on one character: what stands before its first
/// occurrence, and what stands behind.
pub fn split_once(s: &str, c: char) -> (parts: Option<(String, String)>)
    ensures
        match parts {
            Some((before, behind)) => first_index_of(s@, c).is_some() && before@ == s@.take(
                first_index_of(s@, c).unwrap(),
            ) && behind@ == s@.skip(first_index_of(s@, c).unwrap() + 1),
            None => first_index_of(s@, c).is_none(),
        },
{
    let v = chars_of(s);
    let mut d: usize = 0;
    while d < v.len() && v[d] != c
        invariant
            d <= v.len(),
            forall|k: int| 0 <= k < d ==> v@[k] != c,
        decreases v.len() - d,
    {
        d += 1;
    }
    proof {
        lemma_first_index_of(v@, c, d as int);
    }
    if d == v.len() {
        return None;
    }
    let mut before = String::new();
    push_range(&mut before, &v, 0, d);
    let mut behind = String::new();
    push_range(&mut behind, &v, d + 1, v.len());
    assert(before@ =~= v@.take(d as int));
    assert(behind@ =~= v@.skip(d + 1));
    Some((before, behind))
}

/// A separator at the end opens a new, empty piece.
pub proof fn lemma_split_separator(s: Seq<char>, sep: char)
    ensures
        split_on(s.push(sep), sep) == split_on(s, sep).push(Seq::empty()),
{
    assert(s.push(sep).drop_last() =~= s);
}

/// Text without separator at the end lengthens the last piece.
pub proof fn lemma_split_plain_tail(s: Seq<char>, tail: Seq<char>, sep: char)
    requires
        forall|i: int| 0 <= i < tail.len() ==> tail[i] != sep,
    ensures
        split_on(s + tail, sep) == split_on(s, sep).drop_last().push(
            split_on(s, sep).last() + tail,
        ),
    decreases tail.len(),
{
    lemma_split_nonempty(s, sep);
    let pieces = split_on(s, sep);
    if tail.len() == 0 {
        assert(s + tail =~= s);
        assert(pieces.last() + tail =~= pieces.last());
        assert(pieces.drop_last().push(pieces.last()) =~= pieces);
    } else {
        let shorter = tail.drop_last();
        lemma_split_plain_tail(s, shorter, sep);
        assert((s + tail).drop_last() =~= s + shorter);
        let before = split_on(s + shorter, sep);
        assert(before.drop_last() =~= pieces.drop_last());
        assert(before.last().push(tail.last()) =~= pieces.last() + tail);
    }
}

/// Splitting a text of two parts: the pieces of the first part, then those of
/// the second, the last of the first and the first of the second being one
/// piece.
pub proof fn lemma_split_concat(s: Seq<char>, t: Seq<char>, sep: char)
    ensures
        split_on(s + t, sep) == split_on(s, sep).drop_last().push(
            split_on(s, sep).last() + split_on(t, sep)[0],
        ) + split_on(t, sep).drop_first(),
    decreases t.len(),
{
    lemma_split_nonempty(s, sep);
    lemma_split_nonempty(t, sep);
    let first = split_on(s, sep);
    if t.len() == 0 {
        assert(s + t =~= s);
        assert(first.last() + split_on(t, sep)[0] =~= first.last());
        assert(first.drop_last().push(first.last()) + split_on(t, sep).drop_first() =~= first);
    } else {
        let shorter = t.drop_last();
        lemma_split_concat(s, shorter, sep);
        lemma_split_nonempty(shorter, sep);
        assert((s + t).drop_last() =~= s + shorter);
        let second = split_on(shorter, sep);
        let whole = split_on(s + shorter, sep);
        if t.last() == sep {
            assert(split_on(s + t, sep) =~= first.drop_last().push(
                first.last() + split_on(t, sep)[0],
            ) + split_on(t, sep).drop_first());
        } else if second.len() == 1 {
            assert(whole.last() == first.last() + second[0]);
            assert(whole.last().push(t.last()) =~= first.last() + second[0].push(t.last()));
            assert(split_on(s + t, sep) =~= first.drop_last().push(
                first.last() + split_on(t, sep)[0],
            ) + split_on(t, sep).drop_first());
        } else {
            assert(whole.last() == second.last());
            assert(split_on(s + t, sep) =~= first.drop_last().push(
                first.last() + split_on(t, sep)[0],
            ) + split_on(t, sep).drop_first());
        }
    }
}

} // verus!

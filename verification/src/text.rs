//! Character-level helpers shared by the name lookup and the settings parser.

use vstd::prelude::*;

verus! {

/// Whether `c` is white space in Unicode's sense (the `White_Space`
/// property, the set that `char::is_whitespace` tests for).
pub open spec fn is_space(c: char) -> bool {
    let u = c as u32;
    ||| 0x09 <= u <= 0x0D
    ||| u == 0x20
    ||| u == 0x85
    ||| u == 0xA0
    ||| u == 0x1680
    ||| 0x2000 <= u <= 0x200A
    ||| u == 0x2028
    ||| u == 0x2029
    ||| u == 0x202F
    ||| u == 0x205F
    ||| u == 0x3000
}

/// The position of the first `c` in `s`, or the length of `s` if there is none.
pub open spec fn find(s: Seq<char>, c: char) -> nat
    decreases s.len(),
{
    if s.len() == 0 {
        0
    } else if s[0] == c {
        0
    } else {
        1 + find(s.drop_first(), c)
    }
}

/// `s` without its leading white space.
pub open spec fn trim_start(s: Seq<char>) -> Seq<char>
    decreases s.len(),
{
    if s.len() > 0 && is_space(s[0]) {
        trim_start(s.drop_first())
    } else {
        s
    }
}

/// `s` without its trailing white space.
pub open spec fn trim_end(s: Seq<char>) -> Seq<char>
    decreases s.len(),
{
    if s.len() > 0 && is_space(s.last()) {
        trim_end(s.drop_last())
    } else {
        s
    }
}

/// `s` without leading and trailing white space.
pub open spec fn trim(s: Seq<char>) -> Seq<char> {
    trim_end(trim_start(s))
}

/// Trimming the front of `s + t`: if `s` holds something that is not white
/// space, the result is the trimmed `s` followed by `t`; otherwise it is the
/// trimmed `t`.
pub proof fn lemma_trim_start_append(s: Seq<char>, t: Seq<char>)
    ensures
        trim_start(s).len() > 0 ==> trim_start(s + t) == trim_start(s) + t,
        trim_start(s).len() == 0 ==> trim_start(s + t) == trim_start(t),
    decreases s.len(),
{
    if s.len() == 0 {
        assert(s + t =~= t);
    } else if is_space(s[0]) {
        assert((s + t).drop_first() =~= s.drop_first() + t);
        lemma_trim_start_append(s.drop_first(), t);
    } else {
        assert((s + t)[0] == s[0]);
    }
}

/// Every Unicode White_Space character (the characters for which
/// `char::is_whitespace` holds: U+0009..U+000D, U+0020, U+0085, U+00A0,
/// U+1680, U+2000..U+200A, U+2028, U+2029, U+202F, U+205F, U+3000) is removed
/// by trimming, in front of a text and behind it.
pub proof fn lemma_trim_drops_white_space(c: char, s: Seq<char>)
    requires
        ({
            let u = c as u32;
            ||| u == 0x09
            ||| u == 0x0A
            ||| u == 0x0B
            ||| u == 0x0C
            ||| u == 0x0D
            ||| u == 0x20
            ||| u == 0x85
            ||| u == 0xA0
            ||| u == 0x1680
            ||| 0x2000 <= u <= 0x200A
            ||| u == 0x2028
            ||| u == 0x2029
            ||| u == 0x202F
            ||| u == 0x205F
            ||| u == 0x3000
        }),
    ensures
        trim(seq![c] + s) == trim(s),
        trim(s + seq![c]) == trim(s),
{
    assert(is_space(c));
    assert((seq![c] + s).drop_first() =~= s);
    lemma_trim_start_append(s, seq![c]);
    if trim_start(s).len() > 0 {
        assert((trim_start(s) + seq![c]).drop_last() =~= trim_start(s));
    } else {
        let e = Seq::<char>::empty();
        assert(seq![c].drop_first() =~= e);
        assert(trim_start(seq![c]) == trim_start(e));
        assert(trim_start(s) =~= e);
        assert(trim_start(s + seq![c]) =~= e);
    }
}

/// A tab, like a space, never ends up in a trimmed text's ends: trimming a
/// text framed by tabs gives what trimming the bare text gives.
pub proof fn lemma_trim_tabs(s: Seq<char>)
    ensures
        trim(seq!['\t'] + s + seq!['\t']) == trim(s),
        trim(seq![' '] + s + seq![' ']) == trim(s),
{
    lemma_trim_drops_white_space('\t', s + seq!['\t']);
    assert(seq!['\t'] + s + seq!['\t'] =~= seq!['\t'] + (s + seq!['\t']));
    lemma_trim_drops_white_space('\t', s);
    lemma_trim_drops_white_space(' ', s + seq![' ']);
    assert(seq![' '] + s + seq![' '] =~= seq![' '] + (s + seq![' ']));
    lemma_trim_drops_white_space(' ', s);
}

/// White space, for trimming, is exactly the Unicode White_Space set.
pub proof fn lemma_white_space_set(c: char)
    ensures
        is_space(c) <==> ({
            let u = c as u32;
            ||| u == 0x09
            ||| u == 0x0A
            ||| u == 0x0B
            ||| u == 0x0C
            ||| u == 0x0D
            ||| u == 0x20
            ||| u == 0x85
            ||| u == 0xA0
            ||| u == 0x1680
            ||| 0x2000 <= u <= 0x200A
            ||| u == 0x2028
            ||| u == 0x2029
            ||| u == 0x202F
            ||| u == 0x205F
            ||| u == 0x3000
        }),
{
}

/// Trimming the front removes exactly the leading white space: the result is
/// `s` from the first character that is not white space on.
pub proof fn lemma_trim_start_skip(s: Seq<char>) -> (a: int)
    ensures
        0 <= a <= s.len(),
        trim_start(s) == s.skip(a),
        forall|i: int| 0 <= i < a ==> is_space(s[i]),
        a < s.len() ==> !is_space(s[a]),
    decreases s.len(),
{
    if s.len() > 0 && is_space(s[0]) {
        let a1 = lemma_trim_start_skip(s.drop_first());
        assert(s.drop_first().skip(a1) =~= s.skip(a1 + 1));
        assert forall|i: int| 0 <= i < a1 + 1 implies is_space(s[i]) by {
            if i > 0 {
                assert(s[i] == s.drop_first()[i - 1]);
            }
        }
        assert(a1 < s.drop_first().len() ==> s[a1 + 1] == s.drop_first()[a1]);
        a1 + 1
    } else {
        assert(s.skip(0) =~= s);
        0
    }
}

/// Trimming the back removes exactly the trailing white space: the result is
/// `s` up to the last character that is not white space.
pub proof fn lemma_trim_end_take(s: Seq<char>) -> (b: int)
    ensures
        0 <= b <= s.len(),
        trim_end(s) == s.take(b),
        forall|i: int| b <= i < s.len() ==> is_space(s[i]),
        b > 0 ==> !is_space(s[b - 1]),
    decreases s.len(),
{
    if s.len() > 0 && is_space(s.last()) {
        let b1 = lemma_trim_end_take(s.drop_last());
        assert(s.drop_last().take(b1) =~= s.take(b1));
        assert forall|i: int| b1 <= i < s.len() implies is_space(s[i]) by {
            if i < s.len() - 1 {
                assert(s[i] == s.drop_last()[i]);
            }
        }
        assert(b1 > 0 ==> s[b1 - 1] == s.drop_last()[b1 - 1]);
        b1
    } else {
        assert(s.take(s.len() as int) =~= s);
        s.len() as int
    }
}

/// Trimming keeps exactly the middle of `s` between its leading and its
/// trailing white space: everything cut off is white space, and a non-empty
/// result neither starts nor ends with white space.
pub proof fn lemma_trim_is_middle(s: Seq<char>) -> (r: (int, int))
    ensures
        0 <= r.0 <= r.1 <= s.len(),
        trim(s) == s.subrange(r.0, r.1),
        forall|i: int| 0 <= i < r.0 ==> is_space(s[i]),
        forall|i: int| r.1 <= i < s.len() ==> is_space(s[i]),
        r.0 < r.1 ==> !is_space(s[r.0]) && !is_space(s[r.1 - 1]),
{
    let a = lemma_trim_start_skip(s);
    let t = s.skip(a);
    let b = lemma_trim_end_take(t);
    assert(t.take(b) =~= s.subrange(a, a + b));
    assert forall|i: int| a + b <= i < s.len() implies is_space(s[i]) by {
        assert(s[i] == t[i - a]);
    }
    assert(b > 0 ==> s[a] == t[0] && s[a + b - 1] == t[b - 1]);
    if b > 0 && a == s.len() {
        assert(false);
    }
    (a, a + b)
}

/// Trimming the front twice is trimming it once.
pub proof fn lemma_trim_start_idem(s: Seq<char>)
    ensures
        trim_start(trim_start(s)) == trim_start(s),
    decreases s.len(),
{
    if s.len() > 0 && is_space(s[0]) {
        lemma_trim_start_idem(s.drop_first());
    }
}

/// A text of white space only trims to nothing.
pub proof fn lemma_trim_start_all_space(w: Seq<char>)
    requires
        forall|i: int| 0 <= i < w.len() ==> is_space(w[i]),
    ensures
        trim_start(w).len() == 0,
    decreases w.len(),
{
    if w.len() > 0 {
        assert forall|i: int| 0 <= i < w.drop_first().len() implies is_space(
            w.drop_first()[i],
        ) by {
            assert(w.drop_first()[i] == w[i + 1]);
        }
        lemma_trim_start_all_space(w.drop_first());
    }
}

/// White space behind a text does not change what trimming its back gives.
pub proof fn lemma_trim_end_space_tail(y: Seq<char>, w: Seq<char>)
    requires
        forall|i: int| 0 <= i < w.len() ==> is_space(w[i]),
    ensures
        trim_end(y + w) == trim_end(y),
    decreases w.len(),
{
    if w.len() == 0 {
        assert(y + w =~= y);
    } else {
        assert((y + w).drop_last() =~= y + w.drop_last());
        assert((y + w).last() == w.last());
        lemma_trim_end_space_tail(y, w.drop_last());
    }
}

/// Trimming the back of `x + v`, where `x` ends in something that is not
/// white space, only trims `v`.
pub proof fn lemma_trim_end_after(x: Seq<char>, v: Seq<char>)
    requires
        x.len() > 0,
        !is_space(x.last()),
    ensures
        trim_end(x + v) == x + trim_end(v),
    decreases v.len(),
{
    if v.len() == 0 {
        assert(x + v =~= x);
        assert(x + v =~= x + trim_end(v));
    } else if is_space(v.last()) {
        assert((x + v).drop_last() =~= x + v.drop_last());
        lemma_trim_end_after(x, v.drop_last());
    } else {
        assert((x + v).last() == v.last());
    }
}

/// Trimming the back first does not change what trimming gives.
pub proof fn lemma_trim_after_trim_end(v: Seq<char>)
    ensures
        trim(trim_end(v)) == trim(v),
{
    let b = lemma_trim_end_take(v);
    let y = v.take(b);
    let w = v.skip(b);
    assert(v =~= y + w);
    assert forall|i: int| 0 <= i < w.len() implies is_space(w[i]) by {
        assert(w[i] == v[b + i]);
    }
    lemma_trim_start_append(y, w);
    if trim_start(y).len() > 0 {
        lemma_trim_end_space_tail(trim_start(y), w);
    } else {
        lemma_trim_start_all_space(w);
        assert(trim_start(y) =~= trim_start(w));
    }
}

/// `find` is at most the length, points at a `c` when it is less, and no `c`
/// comes before it.
pub proof fn lemma_find_bound(s: Seq<char>, c: char)
    ensures
        find(s, c) <= s.len(),
        find(s, c) < s.len() ==> s[find(s, c) as int] == c,
        forall|j: int| 0 <= j < find(s, c) ==> s[j] != c,
    decreases s.len(),
{
    if s.len() > 0 && s[0] != c {
        lemma_find_bound(s.drop_first(), c);
        assert forall|j: int| 0 <= j < find(s, c) implies s[j] != c by {
            if j > 0 {
                assert(s[j] == s.drop_first()[j - 1]);
            }
        }
    }
}

/// A position with no `c` before it, at the end or at a `c`, is what `find`
/// gives.
pub proof fn lemma_find_at(s: Seq<char>, c: char, i: int)
    requires
        0 <= i <= s.len(),
        forall|j: int| 0 <= j < i ==> s[j] != c,
        i == s.len() || s[i] == c,
    ensures
        find(s, c) == i,
    decreases i,
{
    if i > 0 {
        assert(s[0] != c);
        assert forall|j: int| 0 <= j < i - 1 implies s.drop_first()[j] != c by {
            assert(s.drop_first()[j] == s[j + 1]);
        }
        lemma_find_at(s.drop_first(), c, i - 1);
    }
}

/// Whether `c` is white space.
pub fn is_space_char(c: char) -> (r: bool)
    ensures
        r == is_space(c),
{
    let u = c as u32;
    (0x09 <= u && u <= 0x0D) || u == 0x20 || u == 0x85 || u == 0xA0 || u == 0x1680 || (0x2000
        <= u && u <= 0x200A) || u == 0x2028 || u == 0x2029 || u == 0x202F || u == 0x205F || u
        == 0x3000
}

/// The position of the first `c` in `s`, or the length of `s`.
pub fn find_char(s: &[char], c: char) -> (i: usize)
    ensures
        i == find(s@, c),
        i <= s@.len(),
{
    let mut i: usize = 0;
    while i < s.len() && s[i] != c
        invariant
            0 <= i <= s@.len(),
            forall|j: int| 0 <= j < i ==> s@[j] != c,
        decreases s@.len() - i,
    {
        i = i + 1;
    }
    proof {
        lemma_find_at(s@, c, i as int);
    }
    i
}

/// `s` without leading and trailing white space.
pub fn trim_chars(s: &[char]) -> (r: &[char])
    ensures
        r@ == trim(s@),
{
    let len = s.len();
    let mut a: usize = 0;
    assert(s@.subrange(0, len as int) =~= s@);
    while a < len && is_space_char(s[a])
        invariant
            len == s@.len(),
            0 <= a <= len,
            trim_start(s@) == trim_start(s@.subrange(a as int, len as int)),
        decreases len - a,
    {
        assert(s@.subrange(a as int, len as int).drop_first() =~= s@.subrange(
            a + 1,
            len as int,
        ));
        a = a + 1;
    }
    assert(trim_start(s@) == s@.subrange(a as int, len as int));
    let mut b: usize = len;
    while b > a && is_space_char(s[b - 1])
        invariant
            len == s@.len(),
            0 <= a <= b <= len,
            trim_end(s@.subrange(a as int, len as int)) == trim_end(
                s@.subrange(a as int, b as int),
            ),
        decreases b - a,
    {
        assert(s@.subrange(a as int, b as int).drop_last() =~= s@.subrange(
            a as int,
            b - 1,
        ));
        b = b - 1;
    }
    assert(trim_end(s@.subrange(a as int, b as int)) == s@.subrange(a as int, b as int));
    vstd::slice::slice_subrange(s, a, b)
}

/// The characters of `s`, in order.
pub fn to_chars(s: &str) -> (v: Vec<char>)
    ensures
        v@ == s@,
{
    let mut v: Vec<char> = Vec::new();
    for c in it: s.chars()
        invariant
            v@ == it.seq().take(it.index() as int),
    {
        v.push(c);
    }
    v
}

/// Whether two character sequences are equal.
pub fn chars_eq(a: &[char], b: &[char]) -> (r: bool)
    ensures
        r == (a@ == b@),
{
    if a.len() != b.len() {
        return false;
    }
    let mut i: usize = 0;
    while i < a.len()
        invariant
            a@.len() == b@.len(),
            0 <= i <= a@.len(),
            forall|j: int| 0 <= j < i ==> a@[j] == b@[j],
        decreases a@.len() - i,
    {
        if a[i] != b[i] {
            return false;
        }
        i = i + 1;
    }
    assert(a@ =~= b@);
    true
}

/// Whether the characters `a` spell the text `lit`.
pub fn spells(a: &[char], lit: &str) -> (r: bool)
    ensures
        r == (a@ == lit@),
{
    let b = to_chars(lit);
    chars_eq(a, b.as_slice())
}

} // verus!

//! Character-level text handling shared by the rest of the library:
//! Unicode whitespace, trimming, and comma-separated fields.
use vstd::prelude::*;

verus! {

/// Unicode `White_Space` code points, the set that `char::is_whitespace`
/// and `str::trim` use.
pub open spec fn is_white_space(c: char) -> bool {
    let n = c as u32;
    ||| 0x09 <= n <= 0x0D
    ||| n == 0x20
    ||| n == 0x85
    ||| n == 0xA0
    ||| n == 0x1680
    ||| 0x2000 <= n <= 0x200A
    ||| n == 0x2028
    ||| n == 0x2029
    ||| n == 0x202F
    ||| n == 0x205F
    ||| n == 0x3000
}

/// `s` with leading and trailing whitespace removed.
pub open spec fn trimmed(s: Seq<char>) -> Seq<char>
    decreases s.len(),
{
    if s.len() > 0 && is_white_space(s[0]) {
        trimmed(s.drop_first())
    } else if s.len() > 0 && is_white_space(s.last()) {
        trimmed(s.drop_last())
    } else {
        s
    }
}

/// The text of `s` before the first `sep`, or all of `s` when `sep` does not occur.
pub open spec fn before_first(s: Seq<char>, sep: char) -> Seq<char>
    decreases s.len(),
{
    if s.len() == 0 {
        s
    } else if s[0] == sep {
        Seq::empty()
    } else {
        seq![s[0]] + before_first(s.drop_first(), sep)
    }
}

/// `s[i..j]` is one of the fields of `s` when `s` is split at every `sep`.
pub open spec fn is_field(s: Seq<char>, sep: char, i: int, j: int) -> bool {
    &&& 0 <= i <= j <= s.len()
    &&& (i == 0 || s[i - 1] == sep)
    &&& (j == s.len() || s[j] == sep)
    &&& forall|k: int| i <= k < j ==> s[k] != sep
}

/// `name` is one of the fields of `s` split at `sep`.
pub open spec fn has_field(s: Seq<char>, sep: char, name: Seq<char>) -> bool {
    exists|i: int, j: int| is_field(s, sep, i, j) && #[trigger] s.subrange(i, j) == name
}

/// Whether `c` is Unicode whitespace, as `char::is_whitespace` decides it.
pub fn is_whitespace(c: char) -> (r: bool)
    ensures
        r == is_white_space(c),
{
    let n = c as u32;
    (0x09 <= n && n <= 0x0D) || n == 0x20 || n == 0x85 || n == 0xA0 || n == 0x1680 || (0x2000 <= n
        && n <= 0x200A) || n == 0x2028 || n == 0x2029 || n == 0x202F || n == 0x205F || n == 0x3000
}

/// Appends one character to a string (`String::push`).
#[verifier::external_body]
pub(crate) fn push_char(s: &mut String, c: char)
    ensures
        final(s)@ == old(s)@.push(c),
{
    s.push(c);
}

/// The characters of `s`, in order.
pub fn chars_of(s: &str) -> (v: Vec<char>)
    ensures
        v@ == s@,
{
    let mut v: Vec<char> = Vec::new();
    for c in it: s.chars()
        invariant
            it.seq() == s@,
            v@ == it.seq().take(it.index() as int),
    {
        v.push(c);
    }
    v
}

/// The string made of `v[lo..hi]`.
pub fn string_of(v: &Vec<char>, lo: usize, hi: usize) -> (r: String)
    requires
        lo <= hi <= v@.len(),
    ensures
        r@ == v@.subrange(lo as int, hi as int),
{
    let mut r = String::new();
    let mut i = lo;
    while i < hi
        invariant
            lo <= i <= hi <= v@.len(),
            r@ == v@.subrange(lo as int, i as int),
        decreases hi - i,
    {
        push_char(&mut r, v[i]);
        assert(v@.subrange(lo as int, i + 1) == v@.subrange(lo as int, i as int).push(v@[i as int]));
        i = i + 1;
    }
    r
}

/// Two strings hold the same characters.
pub fn same_text(a: &str, b: &str) -> (r: bool)
    ensures
        r == (a@ == b@),
{
    let va = chars_of(a);
    let vb = chars_of(b);
    if va.len() != vb.len() {
        return false;
    }
    let mut i: usize = 0;
    while i < va.len()
        invariant
            va@ == a@,
            vb@ == b@,
            va@.len() == vb@.len(),
            i <= va@.len(),
            forall|k: int| 0 <= k < i ==> va@[k] == vb@[k],
        decreases va@.len() - i,
    {
        if va[i] != vb[i] {
            return false;
        }
        i = i + 1;
    }
    assert(va@ =~= vb@);
    true
}

/// Trimming `s` leaves `s[lo..hi]` when everything outside it is whitespace
/// and the ends of `s[lo..hi]` are not.
pub proof fn lemma_trimmed_bounds(s: Seq<char>, lo: int, hi: int)
    requires
        0 <= lo <= hi <= s.len(),
        forall|k: int| 0 <= k < lo ==> is_white_space(#[trigger] s[k]),
        forall|k: int| hi <= k < s.len() ==> is_white_space(#[trigger] s[k]),
        lo < hi ==> !is_white_space(s[lo]) && !is_white_space(s[hi - 1]),
    ensures
        trimmed(s) == s.subrange(lo, hi),
    decreases s.len(),
{
    if s.len() == 0 {
        assert(s.subrange(lo, hi) =~= s);
    } else if lo == hi || lo > 0 {
        assert(is_white_space(s[0]));
        let t = s.drop_first();
        let (l2, h2) = if lo == hi { (0int, 0int) } else { (lo - 1, hi - 1) };
        assert forall|k: int| 0 <= k < l2 implies is_white_space(#[trigger] t[k]) by {
            assert(t[k] == s[k + 1]);
        }
        assert forall|k: int| h2 <= k < t.len() implies is_white_space(#[trigger] t[k]) by {
            assert(t[k] == s[k + 1]);
        }
        lemma_trimmed_bounds(t, l2, h2);
        assert(t.subrange(l2, h2) =~= s.subrange(lo, hi));
    } else if hi < s.len() {
        assert(!is_white_space(s[0]));
        assert(is_white_space(s.last()));
        let t = s.drop_last();
        assert forall|k: int| hi <= k < t.len() implies is_white_space(#[trigger] t[k]) by {
            assert(t[k] == s[k]);
        }
        lemma_trimmed_bounds(t, lo, hi);
        assert(t.subrange(lo, hi) =~= s.subrange(lo, hi));
    } else {
        assert(s.subrange(lo, hi) =~= s);
        assert(s.last() == s[hi - 1]);
    }
}

/// `s` with leading and trailing whitespace removed (`str::trim`).
pub fn trim(s: &str) -> (r: String)
    ensures
        r@ == trimmed(s@),
{
    let v = chars_of(s);
    let n = v.len();
    let mut lo: usize = 0;
    while lo < n && is_whitespace(v[lo])
        invariant
            v@ == s@,
            n == v@.len(),
            lo <= n,
            forall|k: int| 0 <= k < lo ==> is_white_space(#[trigger] v@[k]),
        decreases n - lo,
    {
        lo = lo + 1;
    }
    let mut hi: usize = n;
    while hi > lo && is_whitespace(v[hi - 1])
        invariant
            v@ == s@,
            n == v@.len(),
            lo <= hi <= n,
            forall|k: int| hi <= k < n ==> is_white_space(#[trigger] v@[k]),
        decreases hi - lo,
    {
        hi = hi - 1;
    }
    proof {
        lemma_trimmed_bounds(s@, lo as int, hi as int);
    }
    string_of(&v, lo, hi)
}

/// The text of `s` before the first `sep` (`s.split(sep).next()`).
pub fn text_before(s: &str, sep: char) -> (r: String)
    ensures
        r@ == before_first(s@, sep),
{
    let v = chars_of(s);
    let mut i: usize = 0;
    while i < v.len() && v[i] != sep
        invariant
            v@ == s@,
            i <= v@.len(),
            forall|k: int| 0 <= k < i ==> v@[k] != sep,
        decreases v@.len() - i,
    {
        i = i + 1;
    }
    proof {
        lemma_before_first(s@, sep, i as int);
    }
    string_of(&v, 0, i)
}

proof fn lemma_before_first(s: Seq<char>, sep: char, i: int)
    requires
        0 <= i <= s.len(),
        forall|k: int| 0 <= k < i ==> s[k] != sep,
        i == s.len() || s[i] == sep,
    ensures
        before_first(s, sep) == s.subrange(0, i),
    decreases s.len(),
{
    if s.len() == 0 {
        assert(s.subrange(0, i) =~= s);
    } else if i == 0 {
        assert(s.subrange(0, i) =~= Seq::<char>::empty());
    } else {
        let t = s.drop_first();
        assert forall|k: int| 0 <= k < i - 1 implies t[k] != sep by {
            assert(t[k] == s[k + 1]);
        }
        lemma_before_first(t, sep, i - 1);
        assert(seq![s[0]] + t.subrange(0, i - 1) =~= s.subrange(0, i));
    }
}

/// The text before the first `sep` holds no `sep`.
pub proof fn lemma_before_first_has_no_sep(s: Seq<char>, sep: char)
    ensures
        !before_first(s, sep).contains(sep),
        before_first(s, sep).len() <= s.len(),
    decreases s.len(),
{
    if s.len() > 0 && s[0] != sep {
        lemma_before_first_has_no_sep(s.drop_first(), sep);
        let t = before_first(s.drop_first(), sep);
        assert forall|k: int| 0 <= k < t.len() + 1 implies (seq![s[0]] + t)[k] != sep by {
            if k > 0 {
                assert((seq![s[0]] + t)[k] == t[k - 1]);
            }
        }
    }
}

/// Trimming keeps only characters of `s`, and leaves no whitespace at
/// either end.
pub proof fn lemma_trimmed_shape(s: Seq<char>)
    ensures
        forall|c: char| trimmed(s).contains(c) ==> s.contains(c),
        trimmed(s).len() > 0 ==> !is_white_space(trimmed(s)[0]) && !is_white_space(trimmed(s).last()),
    decreases s.len(),
{
    if s.len() > 0 && is_white_space(s[0]) {
        let t = s.drop_first();
        lemma_trimmed_shape(t);
        assert forall|c: char| trimmed(s).contains(c) implies s.contains(c) by {
            assert(t.contains(c));
            let k = choose|k: int| 0 <= k < t.len() && t[k] == c;
            assert(s[k + 1] == c);
        }
    } else if s.len() > 0 && is_white_space(s.last()) {
        let t = s.drop_last();
        lemma_trimmed_shape(t);
        assert forall|c: char| trimmed(s).contains(c) implies s.contains(c) by {
            assert(t.contains(c));
            let k = choose|k: int| 0 <= k < t.len() && t[k] == c;
            assert(s[k] == c);
        }
    }
}

/// Trimming twice is trimming once.
pub proof fn lemma_trimmed_idempotent(s: Seq<char>)
    ensures
        trimmed(trimmed(s)) == trimmed(s),
{
    lemma_trimmed_shape(s);
}

/// Whether `v[a..b]` holds the same characters as `w`.
pub fn range_equals(v: &Vec<char>, a: usize, b: usize, w: &Vec<char>) -> (r: bool)
    requires
        a <= b <= v@.len(),
    ensures
        r == (v@.subrange(a as int, b as int) == w@),
{
    if b - a != w.len() {
        return false;
    }
    let mut k: usize = 0;
    while k < w.len()
        invariant
            a <= b <= v@.len(),
            b - a == w@.len(),
            k <= w@.len(),
            forall|j: int| 0 <= j < k ==> v@[a + j] == w@[j],
        decreases w@.len() - k,
    {
        if v[a + k] != w[k] {
            assert(v@.subrange(a as int, b as int)[k as int] != w@[k as int]);
            return false;
        }
        k = k + 1;
    }
    assert(v@.subrange(a as int, b as int) =~= w@);
    true
}

/// The field of `s` that ends at `b` starts right after the previous separator.
proof fn lemma_field_start(s: Seq<char>, sep: char, start: int, a: int, b: int)
    requires
        0 <= start <= b <= s.len(),
        start == 0 || s[start - 1] == sep,
        forall|k: int| start <= k < b ==> s[k] != sep,
        is_field(s, sep, a, b),
    ensures
        a == start,
{
    if a < start {
        assert(s[start - 1] != sep);
    } else if a > start {
        assert(s[a - 1] == sep);
    }
}

/// Whether `name` is one of the fields of `s` split at `sep`.
pub fn contains_field(s: &str, sep: char, name: &str) -> (r: bool)
    ensures
        r == has_field(s@, sep, name@),
{
    let v = chars_of(s);
    let w = chars_of(name);
    let n = v.len();
    let mut start: usize = 0;
    let mut i: usize = 0;
    while i < n
        invariant
            v@ == s@,
            w@ == name@,
            n == v@.len(),
            start <= i <= n,
            start == 0 || v@[start - 1] == sep,
            forall|k: int| start <= k < i ==> v@[k] != sep,
            forall|a: int, b: int|
                is_field(s@, sep, a, b) && b < start ==> #[trigger] s@.subrange(a, b) != name@,
        decreases n - i,
    {
        if v[i] == sep {
            if range_equals(&v, start, i, &w) {
                assert(is_field(s@, sep, start as int, i as int));
                return true;
            }
            assert forall|a: int, b: int|
                is_field(s@, sep, a, b) && b < i + 1 implies #[trigger] s@.subrange(a, b) != name@ by {
                if b == i {
                    lemma_field_start(s@, sep, start as int, a, b);
                } else if b >= start {
                    assert(s@[b] == sep);
                }
            }
            start = i + 1;
        }
        i = i + 1;
    }
    let last = range_equals(&v, start, n, &w);
    if last {
        assert(is_field(s@, sep, start as int, n as int));
    } else {
        assert forall|a: int, b: int| is_field(s@, sep, a, b) implies #[trigger] s@.subrange(a, b) != name@ by {
            if b == n {
                lemma_field_start(s@, sep, start as int, a, b);
            } else if b >= start {
                assert(s@[b] == sep);
            }
        }
    }
    last
}

} // verus!

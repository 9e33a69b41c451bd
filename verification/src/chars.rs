//! Character-level helpers on string views: Unicode white space, trimming,
//! prefixes and repeated-prefix stripping.
use vstd::prelude::*;
use vstd::string::StrSliceExecFns;

verus! {

/// The characters with the Unicode `White_Space` property, the set that
/// `char::is_whitespace` and `str::trim` go by.
pub open spec fn is_white_space(c: char) -> bool {
    let n = c as u32;
    ||| 0x9 <= n <= 0xd
    ||| n == 0x20
    ||| n == 0x85
    ||| n == 0xa0
    ||| n == 0x1680
    ||| 0x2000 <= n <= 0x200a
    ||| n == 0x2028
    ||| n == 0x2029
    ||| n == 0x202f
    ||| n == 0x205f
    ||| n == 0x3000
}

/// `s` with its leading white space removed.
pub open spec fn trim_start_spec(s: Seq<char>) -> Seq<char>
    decreases s.len(),
{
    if s.len() > 0 && is_white_space(s[0]) {
        trim_start_spec(s.drop_first())
    } else {
        s
    }
}

/// `s` with its trailing white space removed.
pub open spec fn trim_end_spec(s: Seq<char>) -> Seq<char>
    decreases s.len(),
{
    if s.len() > 0 && is_white_space(s.last()) {
        trim_end_spec(s.drop_last())
    } else {
        s
    }
}

/// `s` with leading and trailing white space removed (what `str::trim` gives).
pub open spec fn trim_spec(s: Seq<char>) -> Seq<char> {
    trim_end_spec(trim_start_spec(s))
}

/// Every character of `s` is white space.
pub open spec fn all_white_space(s: Seq<char>) -> bool {
    forall|k: int| 0 <= k < s.len() ==> is_white_space(#[trigger] s[k])
}

/// `s` begins with `p`.
pub open spec fn has_prefix(s: Seq<char>, p: Seq<char>) -> bool {
    p.len() <= s.len() && s.take(p.len() as int) == p
}

/// `s` with every leading repetition of `p` removed
/// (what `str::trim_start_matches` gives for a non-empty pattern).
pub open spec fn strip_prefixes(s: Seq<char>, p: Seq<char>) -> Seq<char>
    decreases s.len(),
{
    if p.len() > 0 && has_prefix(s, p) {
        strip_prefixes(s.skip(p.len() as int), p)
    } else {
        s
    }
}

/// The bounds `[i, j)` that trimming `s` keeps.
pub open spec fn trim_bounds(s: Seq<char>, i: int, j: int) -> bool {
    &&& 0 <= i <= j <= s.len()
    &&& forall|k: int| 0 <= k < i ==> is_white_space(#[trigger] s[k])
    &&& forall|k: int| j <= k < s.len() ==> is_white_space(#[trigger] s[k])
    &&& i < j ==> !is_white_space(s[i]) && !is_white_space(s[j - 1])
}

proof fn lemma_trim_start_skip(s: Seq<char>, i: int)
    requires
        0 <= i <= s.len(),
        forall|k: int| 0 <= k < i ==> is_white_space(#[trigger] s[k]),
        i == s.len() || !is_white_space(s[i]),
    ensures
        trim_start_spec(s) == s.skip(i),
    decreases i,
{
    if i == 0 {
        assert(s.skip(0) == s);
    } else {
        let t = s.drop_first();
        assert forall|k: int| 0 <= k < i - 1 implies is_white_space(#[trigger] t[k]) by {
            assert(t[k] == s[k + 1]);
        }
        lemma_trim_start_skip(t, i - 1);
        assert(t.skip(i - 1) == s.skip(i));
    }
}

proof fn lemma_trim_end_take(s: Seq<char>, j: int)
    requires
        0 <= j <= s.len(),
        forall|k: int| j <= k < s.len() ==> is_white_space(#[trigger] s[k]),
        j == 0 || !is_white_space(s[j - 1]),
    ensures
        trim_end_spec(s) == s.take(j),
    decreases s.len() - j,
{
    if j == s.len() {
        assert(s.take(j) == s);
    } else {
        let t = s.drop_last();
        assert(is_white_space(s[s.len() - 1]));
        assert forall|k: int| j <= k < t.len() implies is_white_space(#[trigger] t[k]) by {
            assert(t[k] == s[k]);
        }
        lemma_trim_end_take(t, j);
        assert(t.take(j) == s.take(j));
    }
}

/// Whatever bounds satisfy `trim_bounds` are exactly what `trim_spec` keeps.
pub proof fn lemma_trim_by_bounds(s: Seq<char>, i: int, j: int)
    requires
        trim_bounds(s, i, j),
        i == j ==> all_white_space(s),
    ensures
        trim_spec(s) == s.subrange(i, j),
{
    if i < j {
        lemma_trim_start_skip(s, i);
        let t = s.skip(i);
        assert forall|k: int| j - i <= k < t.len() implies is_white_space(#[trigger] t[k]) by {
            assert(t[k] == s[k + i]);
        }
        assert(t[j - i - 1] == s[j - 1]);
        lemma_trim_end_take(t, j - i);
        assert(t.take(j - i) == s.subrange(i, j));
    } else {
        assert forall|k: int| 0 <= k < s.len() implies is_white_space(#[trigger] s[k]) by {}
        lemma_trim_start_skip(s, s.len() as int);
        assert(s.skip(s.len() as int) =~= Seq::<char>::empty());
        assert(s.subrange(i, j) =~= Seq::<char>::empty());
    }
}

proof fn first_non_white(s: Seq<char>, i: int) -> (r: int)
    requires
        0 <= i <= s.len(),
        forall|k: int| 0 <= k < i ==> is_white_space(#[trigger] s[k]),
    ensures
        i <= r <= s.len(),
        forall|k: int| 0 <= k < r ==> is_white_space(#[trigger] s[k]),
        r == s.len() || !is_white_space(s[r]),
    decreases s.len() - i,
{
    if i == s.len() || !is_white_space(s[i]) {
        i
    } else {
        first_non_white(s, i + 1)
    }
}

proof fn last_non_white(s: Seq<char>, lo: int, j: int) -> (r: int)
    requires
        0 <= lo <= j <= s.len(),
        forall|k: int| j <= k < s.len() ==> is_white_space(#[trigger] s[k]),
    ensures
        lo <= r <= j,
        forall|k: int| r <= k < s.len() ==> is_white_space(#[trigger] s[k]),
        r == lo || !is_white_space(s[r - 1]),
    decreases j - lo,
{
    if j == lo || !is_white_space(s[j - 1]) {
        j
    } else {
        last_non_white(s, lo, j - 1)
    }
}

/// Every sequence has trim bounds.
pub proof fn lemma_trim_bounds_exist(s: Seq<char>) -> (r: (int, int))
    ensures
        trim_bounds(s, r.0, r.1),
        r.0 == r.1 ==> all_white_space(s),
        trim_spec(s) == s.subrange(r.0, r.1),
{
    let i = first_non_white(s, 0);
    let j = last_non_white(s, i, s.len() as int);
    if i < s.len() {
        assert(!is_white_space(s[i]));
        if j == i {
            assert(is_white_space(s[i]));
        }
    }
    lemma_trim_by_bounds(s, i, j);
    (i, j)
}

/// Trimming twice is trimming once.
pub proof fn lemma_trim_idempotent(s: Seq<char>)
    ensures
        trim_spec(trim_spec(s)) == trim_spec(s),
{
    let (i, j) = lemma_trim_bounds_exist(s);
    let t = s.subrange(i, j);
    if i < j {
        assert(t[0] == s[i]);
        assert(t[j - i - 1] == s[j - 1]);
    }
    lemma_trim_by_bounds(t, 0, j - i);
    assert(t.subrange(0, j - i) == t);
}

/// Surrounding a string with white space does not change what trimming keeps.
pub proof fn lemma_trim_ignores_padding(w1: Seq<char>, s: Seq<char>, w2: Seq<char>)
    requires
        all_white_space(w1),
        all_white_space(w2),
    ensures
        trim_spec(w1 + s + w2) == trim_spec(s),
{
    let (i, j) = lemma_trim_bounds_exist(s);
    let u = w1 + s + w2;
    let n = w1.len() as int;
    assert forall|k: int| 0 <= k < s.len() implies u[n + k] == s[k] by {}
    assert forall|k: int| 0 <= k < n implies u[k] == w1[k] by {}
    assert forall|k: int| n + s.len() <= k < u.len() implies u[k] == w2[k - n - s.len()] by {}
    if i < j {
        assert forall|k: int| 0 <= k < n + i implies is_white_space(#[trigger] u[k]) by {
            if k < n {
                assert(is_white_space(w1[k]));
            } else {
                assert(is_white_space(s[k - n]));
            }
        }
        assert forall|k: int| n + j <= k < u.len() implies is_white_space(#[trigger] u[k]) by {
            if k < n + s.len() {
                assert(is_white_space(s[k - n]));
            } else {
                assert(is_white_space(w2[k - n - s.len()]));
            }
        }
        assert(u[n + i] == s[i]);
        assert(u[n + j - 1] == s[j - 1]);
        lemma_trim_by_bounds(u, n + i, n + j);
        assert(u.subrange(n + i, n + j) =~= s.subrange(i, j));
    } else {
        assert forall|k: int| 0 <= k < u.len() implies is_white_space(#[trigger] u[k]) by {
            if k < n {
                assert(is_white_space(w1[k]));
            } else if k < n + s.len() {
                assert(is_white_space(s[k - n]));
            } else {
                assert(is_white_space(w2[k - n - s.len()]));
            }
        }
        assert forall|k: int| 0 <= k < 0 implies is_white_space(#[trigger] u[k]) by {}
        lemma_trim_by_bounds(u, 0, 0);
        assert(u.subrange(0, 0) =~= s.subrange(i, j));
    }
}

/// Copies the characters of `s` into a vector.
pub fn str_chars(s: &str) -> (v: Vec<char>)
    ensures
        v@ == s@,
{
    let mut v: Vec<char> = Vec::new();
    for c in it: s.chars()
        invariant
            v@ == it.seq().take(it.index()),
            it.seq() == s@,
    {
        v.push(c);
    }
    v
}

/// Whether `c` has the Unicode `White_Space` property.
pub fn char_is_white_space(c: char) -> (b: bool)
    ensures
        b == is_white_space(c),
{
    let n = c as u32;
    (0x9 <= n && n <= 0xd) || n == 0x20 || n == 0x85 || n == 0xa0 || n == 0x1680 || (0x2000
        <= n && n <= 0x200a) || n == 0x2028 || n == 0x2029 || n == 0x202f || n == 0x205f || n
        == 0x3000
}

/// `s` with leading and trailing Unicode white space removed.
pub fn trim(s: &str) -> (r: &str)
    ensures
        r@ == trim_spec(s@),
{
    let cs = str_chars(s);
    let n = cs.len();
    let mut i: usize = 0;
    while i < n && char_is_white_space(cs[i])
        invariant
            cs@ == s@,
            n == cs@.len(),
            i <= n,
            forall|k: int| 0 <= k < i ==> is_white_space(#[trigger] cs@[k]),
        decreases n - i,
    {
        i = i + 1;
    }
    let mut j: usize = n;
    while j > i && char_is_white_space(cs[j - 1])
        invariant
            cs@ == s@,
            n == cs@.len(),
            i <= j <= n,
            forall|k: int| j <= k < n ==> is_white_space(#[trigger] cs@[k]),
        decreases j - i,
    {
        j = j - 1;
    }
    proof {
        if i == j {
            assert forall|k: int| 0 <= k < n implies is_white_space(#[trigger] cs@[k]) by {}
        }
        lemma_trim_by_bounds(s@, i as int, j as int);
    }
    s.substring_char(i, j)
}

/// Whether `s` begins with `p`.
pub fn starts_with(s: &Vec<char>, p: &Vec<char>) -> (b: bool)
    ensures
        b == has_prefix(s@, p@),
{
    if p.len() > s.len() {
        return false;
    }
    let mut k: usize = 0;
    while k < p.len()
        invariant
            p.len() <= s.len(),
            k <= p.len(),
            forall|m: int| 0 <= m < k ==> s@[m] == p@[m],
        decreases p.len() - k,
    {
        if s[k] != p[k] {
            assert(s@.take(p.len() as int)[k as int] != p@[k as int]);
            return false;
        }
        k = k + 1;
    }
    assert(s@.take(p.len() as int) =~= p@);
    true
}

/// Whether `s`, from position `pos` on, begins with `p`.
pub fn starts_with_at(s: &Vec<char>, pos: usize, p: &Vec<char>) -> (b: bool)
    requires
        pos <= s.len(),
    ensures
        b == has_prefix(s@.skip(pos as int), p@),
{
    if p.len() > s.len() - pos {
        return false;
    }
    let mut k: usize = 0;
    while k < p.len()
        invariant
            pos <= s.len(),
            p.len() <= s.len() - pos,
            k <= p.len(),
            forall|m: int| 0 <= m < k ==> s@[pos + m] == p@[m],
        decreases p.len() - k,
    {
        if s[pos + k] != p[k] {
            assert(s@.skip(pos as int).take(p.len() as int)[k as int] != p@[k as int]);
            return false;
        }
        k = k + 1;
    }
    assert(s@.skip(pos as int).take(p.len() as int) =~= p@);
    true
}

/// `s` with every leading repetition of `p` removed.
pub fn strip_prefix_repeats<'a>(s: &'a str, p: &str) -> (r: &'a str)
    ensures
        r@ == strip_prefixes(s@, p@),
{
    let cs = str_chars(s);
    let ps = str_chars(p);
    let n = cs.len();
    let plen = ps.len();
    if plen == 0 {
        return s;
    }
    let mut pos: usize = 0;
    assert(s@.skip(0) == s@);
    while starts_with_at(&cs, pos, &ps)
        invariant
            cs@ == s@,
            ps@ == p@,
            n == cs@.len(),
            plen == ps@.len(),
            plen > 0,
            pos <= n,
            strip_prefixes(s@, p@) == strip_prefixes(s@.skip(pos as int), p@),
        decreases n - pos,
    {
        assert(s@.skip(pos as int).skip(plen as int) == s@.skip(pos + plen));
        pos = pos + plen;
    }
    assert(s@.skip(pos as int) == s@.subrange(pos as int, n as int));
    s.substring_char(pos, n)
}

} // verus!

//! Character-level text handling shared by the command-line logic:
//! Unicode whitespace trimming, substring search, ASCII case folding and
//! string equality, all stated over the character sequence of a string.
use vstd::prelude::*;

verus! {

/// The Unicode `White_Space` property, as `char::is_whitespace` documents it.
pub open spec fn is_space(c: char) -> bool {
    let u: u32 = c as u32;
    ||| 0x09 <= u <= 0x0d
    ||| u == 0x20
    ||| u == 0x85
    ||| u == 0xa0
    ||| u == 0x1680
    ||| 0x2000 <= u <= 0x200a
    ||| u == 0x2028
    ||| u == 0x2029
    ||| u == 0x202f
    ||| u == 0x205f
    ||| u == 0x3000
}

/// `s` without its leading whitespace.
pub open spec fn trim_start_seq(s: Seq<char>) -> Seq<char>
    decreases s.len(),
{
    if s.len() > 0 && is_space(s[0]) {
        trim_start_seq(s.drop_first())
    } else {
        s
    }
}

/// `s` without its trailing whitespace.
pub open spec fn trim_end_seq(s: Seq<char>) -> Seq<char>
    decreases s.len(),
{
    if s.len() > 0 && is_space(s.last()) {
        trim_end_seq(s.drop_last())
    } else {
        s
    }
}

/// `s` without leading and trailing whitespace (what `str::trim` gives).
pub open spec fn trim_seq(s: Seq<char>) -> Seq<char> {
    trim_end_seq(trim_start_seq(s))
}

/// `needle` occurs in `hay` starting at position `i`.
pub open spec fn occurs_at(hay: Seq<char>, needle: Seq<char>, i: int) -> bool {
    &&& 0 <= i
    &&& i + needle.len() <= hay.len()
    &&& hay.subrange(i, i + needle.len()) == needle
}

/// `needle` occurs somewhere in `hay` (what `str::contains` answers).
pub open spec fn contains_seq(hay: Seq<char>, needle: Seq<char>) -> bool {
    exists|i: int| occurs_at(hay, needle, i)
}

/// The code of `c` with the ASCII letters `A`..`Z` folded to `a`..`z`.
pub open spec fn ascii_fold(c: char) -> u32 {
    let u: u32 = c as u32;
    if 0x41 <= u <= 0x5a {
        (u + 0x20) as u32
    } else {
        u
    }
}

/// `a` and `b` are equal up to ASCII case (what `str::eq_ignore_ascii_case` answers).
pub open spec fn eq_ignore_ascii_case_seq(a: Seq<char>, b: Seq<char>) -> bool {
    &&& a.len() == b.len()
    &&& forall|i: int| 0 <= i < a.len() ==> #[trigger] ascii_fold(a[i]) == ascii_fold(b[i])
}

/// The characters of `s`, in order.
pub fn chars_of(s: &str) -> (v: Vec<char>)
    ensures
        v@ == s@,
{
    let mut v: Vec<char> = Vec::new();
    for c in it: s.chars()
        invariant
            v@ == it.seq().take(it.index() as int),
    {
        v.push(c);
    }
    v
}

/// Whether `c` is Unicode whitespace.
pub fn is_space_char(c: char) -> (b: bool)
    ensures
        b == is_space(c),
{
    let u: u32 = c as u32;
    (0x09 <= u && u <= 0x0d) || u == 0x20 || u == 0x85 || u == 0xa0 || u == 0x1680 || (0x2000
        <= u && u <= 0x200a) || u == 0x2028 || u == 0x2029 || u == 0x202f || u == 0x205f || u
        == 0x3000
}

proof fn lemma_trim_start_skip(s: Seq<char>, i: int)
    requires
        0 <= i <= s.len(),
        forall|k: int| 0 <= k < i ==> is_space(#[trigger] s[k]),
        i == s.len() || !is_space(s[i]),
    ensures
        trim_start_seq(s) == s.skip(i),
    decreases i,
{
    if i == 0 {
        assert(s.skip(0) =~= s);
    } else {
        assert(is_space(s[0]));
        let t = s.drop_first();
        assert forall|k: int| 0 <= k < i - 1 implies is_space(#[trigger] t[k]) by {
            assert(t[k] == s[k + 1]);
        }
        if i - 1 < t.len() {
            assert(t[i - 1] == s[i]);
        }
        lemma_trim_start_skip(t, i - 1);
        assert(t.skip(i - 1) =~= s.skip(i));
    }
}

proof fn lemma_trim_end_take(s: Seq<char>, j: int)
    requires
        0 <= j <= s.len(),
        forall|k: int| j <= k < s.len() ==> is_space(#[trigger] s[k]),
        j == 0 || !is_space(s[j - 1]),
    ensures
        trim_end_seq(s) == s.take(j),
    decreases s.len() - j,
{
    if j == s.len() {
        assert(s.take(j) =~= s);
        if s.len() > 0 {
            assert(s.last() == s[j - 1]);
        }
    } else {
        assert(is_space(s.last()));
        let t = s.drop_last();
        assert forall|k: int| j <= k < t.len() implies is_space(#[trigger] t[k]) by {
            assert(t[k] == s[k]);
        }
        if j > 0 {
            assert(t[j - 1] == s[j - 1]);
        }
        lemma_trim_end_take(t, j);
        assert(t.take(j) =~= s.take(j));
    }
}

proof fn lemma_trim_start_front(s: Seq<char>)
    ensures
        trim_start_seq(s).len() == 0 || !is_space(trim_start_seq(s)[0]),
    decreases s.len(),
{
    if s.len() > 0 && is_space(s[0]) {
        lemma_trim_start_front(s.drop_first());
    }
}

proof fn lemma_trim_end_prefix(s: Seq<char>)
    ensures
        trim_end_seq(s).len() <= s.len(),
        trim_end_seq(s) == s.take(trim_end_seq(s).len() as int),
        trim_end_seq(s).len() == 0 || !is_space(trim_end_seq(s).last()),
    decreases s.len(),
{
    if s.len() > 0 && is_space(s.last()) {
        lemma_trim_end_prefix(s.drop_last());
        let t = trim_end_seq(s.drop_last());
        assert(s.drop_last().take(t.len() as int) =~= s.take(t.len() as int));
    } else {
        assert(s.take(s.len() as int) =~= s);
    }
}

/// A trimmed text is empty, or starts and ends with a character that is not whitespace.
pub proof fn lemma_trim_has_no_outer_space(s: Seq<char>)
    ensures
        trim_seq(s).len() == 0 || (!is_space(trim_seq(s)[0]) && !is_space(trim_seq(s).last())),
{
    let u = trim_start_seq(s);
    lemma_trim_start_front(s);
    lemma_trim_end_prefix(u);
    let t = trim_end_seq(u);
    if t.len() > 0 {
        assert(t[0] == u.take(t.len() as int)[0]);
    }
}

/// Trimming a text that is empty or has no whitespace at either end leaves it unchanged.
pub proof fn lemma_trim_unchanged(t: Seq<char>)
    requires
        t.len() == 0 || (!is_space(t[0]) && !is_space(t.last())),
    ensures
        trim_seq(t) == t,
{
}

/// Trimming twice is trimming once.
pub proof fn lemma_trim_idempotent(s: Seq<char>)
    ensures
        trim_seq(trim_seq(s)) == trim_seq(s),
{
    lemma_trim_has_no_outer_space(s);
    lemma_trim_unchanged(trim_seq(s));
}

/// `s` without leading and trailing Unicode whitespace.
pub fn trim(s: &str) -> (r: String)
    ensures
        r@ == trim_seq(s@),
{
    let cs = chars_of(s);
    let n: usize = cs.len();
    let mut i: usize = 0;
    while i < n && is_space_char(cs[i])
        invariant
            cs@ == s@,
            n == cs.len(),
            i <= n,
            forall|k: int| 0 <= k < i ==> is_space(#[trigger] cs@[k]),
        decreases n - i,
    {
        i = i + 1;
    }
    let mut j: usize = n;
    while j > i && is_space_char(cs[j - 1])
        invariant
            cs@ == s@,
            n == cs.len(),
            i <= j <= n,
            forall|k: int| j <= k < n ==> is_space(#[trigger] cs@[k]),
        decreases j - i,
    {
        j = j - 1;
    }
    proof {
        lemma_trim_start_skip(s@, i as int);
        let t = s@.skip(i as int);
        assert forall|k: int| (j - i) <= k < t.len() implies is_space(#[trigger] t[k]) by {
            assert(t[k] == s@[k + i]);
        }
        if j > i {
            assert(t[j - i - 1] == s@[j - 1]);
        }
        lemma_trim_end_take(t, (j - i) as int);
        assert(t.take((j - i) as int) =~= s@.subrange(i as int, j as int));
    }
    let sub = s.substring_char(i, j);
    sub.to_owned()
}

/// Whether the characters of `needle` occur in `hay` from position `i` on.
fn occurs_at_exec(hay: &Vec<char>, needle: &Vec<char>, i: usize) -> (b: bool)
    requires
        i + needle.len() <= hay.len(),
    ensures
        b == occurs_at(hay@, needle@, i as int),
{
    let m: usize = needle.len();
    let mut k: usize = 0;
    while k < m
        invariant
            m == needle.len(),
            i + m <= hay.len(),
            k <= m,
            forall|q: int| 0 <= q < k ==> hay@[i + q] == needle@[q],
        decreases m - k,
    {
        if hay[i + k] != needle[k] {
            proof {
                let sub = hay@.subrange(i as int, i + m);
                assert(sub[k as int] != needle@[k as int]);
            }
            return false;
        }
        k = k + 1;
    }
    assert(hay@.subrange(i as int, i + m) =~= needle@);
    true
}

/// Whether `needle` occurs in `hay`, as `str::contains` with a string pattern.
pub fn str_contains(hay: &str, needle: &str) -> (b: bool)
    ensures
        b == contains_seq(hay@, needle@),
{
    let h = chars_of(hay);
    let nd = chars_of(needle);
    if nd.len() > h.len() {
        return false;
    }
    if nd.len() == 0 {
        assert(occurs_at(hay@, needle@, 0)) by {
            assert(hay@.subrange(0, 0) =~= needle@);
        }
        return true;
    }
    let last: usize = h.len() - nd.len();
    let mut i: usize = 0;
    while i <= last
        invariant
            h@ == hay@,
            nd@ == needle@,
            last + nd.len() == h.len(),
            nd.len() > 0,
            i <= last + 1,
            forall|p: int| 0 <= p < i ==> !occurs_at(hay@, needle@, p),
        decreases last + 1 - i,
    {
        if occurs_at_exec(&h, &nd, i) {
            return true;
        }
        i = i + 1;
    }
    false
}

/// Whether `a` and `b` hold the same characters.
pub fn str_equal(a: &str, b: &str) -> (r: bool)
    ensures
        r == (a@ == b@),
{
    let x = chars_of(a);
    let y = chars_of(b);
    if x.len() != y.len() {
        return false;
    }
    let n: usize = x.len();
    let mut i: usize = 0;
    while i < n
        invariant
            x@ == a@,
            y@ == b@,
            n == x.len(),
            n == y.len(),
            i <= n,
            forall|k: int| 0 <= k < i ==> x@[k] == y@[k],
        decreases n - i,
    {
        if x[i] != y[i] {
            return false;
        }
        i = i + 1;
    }
    assert(x@ =~= y@);
    true
}

fn fold_char(c: char) -> (u: u32)
    ensures
        u == ascii_fold(c),
{
    let u: u32 = c as u32;
    if 0x41 <= u && u <= 0x5a {
        u + 0x20
    } else {
        u
    }
}

/// Whether `a` and `b` are equal up to ASCII case, as `str::eq_ignore_ascii_case`.
pub fn eq_ignore_ascii_case(a: &str, b: &str) -> (r: bool)
    ensures
        r == eq_ignore_ascii_case_seq(a@, b@),
{
    let x = chars_of(a);
    let y = chars_of(b);
    if x.len() != y.len() {
        return false;
    }
    let n: usize = x.len();
    let mut i: usize = 0;
    while i < n
        invariant
            x@ == a@,
            y@ == b@,
            n == x.len(),
            n == y.len(),
            i <= n,
            forall|k: int| 0 <= k < i ==> #[trigger] ascii_fold(x@[k]) == ascii_fold(y@[k]),
        decreases n - i,
    {
        if fold_char(x[i]) != fold_char(y[i]) {
            return false;
        }
        i = i + 1;
    }
    true
}

/// `needle` matches `hay` from position `i` on, for its characters from `k` on.
pub open spec fn matches_from(hay: Seq<char>, needle: Seq<char>, i: int, k: nat) -> bool
    decreases needle.len() - k,
{
    if k >= needle.len() {
        true
    } else {
        hay[i + k] == needle[k as int] && matches_from(hay, needle, i, k + 1)
    }
}

/// `needle` occurs in `hay` at some position from `i` on, checked position
/// by position.
pub open spec fn occurs_from(hay: Seq<char>, needle: Seq<char>, i: nat) -> bool
    decreases hay.len() + 1 - i,
{
    if i + needle.len() > hay.len() {
        false
    } else {
        matches_from(hay, needle, i as int, 0) || occurs_from(hay, needle, i + 1)
    }
}

proof fn lemma_matches_from(hay: Seq<char>, needle: Seq<char>, i: int, k: nat)
    requires
        0 <= i,
        i + needle.len() <= hay.len(),
        k <= needle.len(),
    ensures
        matches_from(hay, needle, i, k) <==> forall|j: int|
            k <= j < needle.len() ==> hay[i + j] == #[trigger] needle[j],
    decreases needle.len() - k,
{
    if k < needle.len() {
        lemma_matches_from(hay, needle, i, k + 1);
    }
}

proof fn lemma_occurs_from(hay: Seq<char>, needle: Seq<char>, i: nat)
    ensures
        occurs_from(hay, needle, i) <==> exists|j: int| i <= j && occurs_at(hay, needle, j),
    decreases hay.len() + 1 - i,
{
    if i + needle.len() <= hay.len() {
        lemma_occurs_from(hay, needle, i + 1);
        lemma_matches_from(hay, needle, i as int, 0);
        let sub = hay.subrange(i as int, i + needle.len() as int);
        if matches_from(hay, needle, i as int, 0) {
            assert(sub =~= needle);
            assert(occurs_at(hay, needle, i as int));
        }
        if occurs_at(hay, needle, i as int) {
            assert forall|j: int| 0 <= j < needle.len() implies hay[i + j] == #[trigger] needle[j] by {
                assert(sub[j] == hay[i + j]);
            }
        }
        if exists|j: int| i <= j && occurs_at(hay, needle, j) {
            let j = choose|j: int| i <= j && occurs_at(hay, needle, j);
            if j != i {
                assert(i + 1 <= j);
            }
        }
    } else {
        if exists|j: int| i <= j && occurs_at(hay, needle, j) {
            let j = choose|j: int| i <= j && occurs_at(hay, needle, j);
            assert(false);
        }
    }
}

/// Whether `needle` occurs in `hay` is decided position by position.
pub proof fn lemma_contains_decided(hay: Seq<char>, needle: Seq<char>)
    ensures
        contains_seq(hay, needle) == occurs_from(hay, needle, 0),
{
    lemma_occurs_from(hay, needle, 0);
}

/// Trimming keeps a contiguous stretch of the text and drops only
/// whitespace before and after it.
pub proof fn lemma_trim_drops_only_space(s: Seq<char>)
    ensures
        exists|a: int, b: int|
            {
                &&& 0 <= a <= b <= s.len()
                &&& trim_seq(s) == s.subrange(a, b)
                &&& forall|k: int| 0 <= k < a ==> is_space(#[trigger] s[k])
                &&& forall|k: int| b <= k < s.len() ==> is_space(#[trigger] s[k])
            },
{
    lemma_choose_start(s, 0);
    let a = choose_start(s, 0);
    lemma_trim_start_skip(s, a);
    let t = s.skip(a);
    lemma_choose_end(t, t.len() as int);
    let b = choose_end(t, t.len() as int);
    lemma_trim_end_take(t, b);
    assert(t.take(b) =~= s.subrange(a, a + b));
    assert forall|k: int| a + b <= k < s.len() implies is_space(#[trigger] s[k]) by {
        assert(s[k] == t[k - a]);
    }
    assert(exists|x: int, y: int|
        {
            &&& 0 <= x <= y <= s.len()
            &&& trim_seq(s) == s.subrange(x, y)
            &&& forall|k: int| 0 <= k < x ==> is_space(#[trigger] s[k])
            &&& forall|k: int| y <= k < s.len() ==> is_space(#[trigger] s[k])
        }) by {
        assert(trim_seq(s) == s.subrange(a, a + b));
    }
}

/// The position of the first character of `s` at or after `i` that is not whitespace.
spec fn choose_start(s: Seq<char>, i: int) -> int
    decreases s.len() - i,
{
    if i >= s.len() || i < 0 || !is_space(s[i]) {
        i
    } else {
        choose_start(s, i + 1)
    }
}

/// The position after the last character of `s` before `j` that is not whitespace.
spec fn choose_end(s: Seq<char>, j: int) -> int
    decreases j,
{
    if j <= 0 || j > s.len() || !is_space(s[j - 1]) {
        j
    } else {
        choose_end(s, j - 1)
    }
}

proof fn lemma_choose_start(s: Seq<char>, i: int)
    requires
        0 <= i <= s.len(),
        forall|k: int| 0 <= k < i ==> is_space(#[trigger] s[k]),
    ensures
        i <= choose_start(s, i) <= s.len(),
        forall|k: int| 0 <= k < choose_start(s, i) ==> is_space(#[trigger] s[k]),
        choose_start(s, i) == s.len() || !is_space(s[choose_start(s, i)]),
    decreases s.len() - i,
{
    if i < s.len() && is_space(s[i]) {
        lemma_choose_start(s, i + 1);
    }
}

proof fn lemma_choose_end(s: Seq<char>, j: int)
    requires
        0 <= j <= s.len(),
        forall|k: int| j <= k < s.len() ==> is_space(#[trigger] s[k]),
    ensures
        0 <= choose_end(s, j) <= j,
        forall|k: int| choose_end(s, j) <= k < s.len() ==> is_space(#[trigger] s[k]),
        choose_end(s, j) == 0 || !is_space(s[choose_end(s, j) - 1]),
    decreases j,
{
    if j > 0 && is_space(s[j - 1]) {
        lemma_choose_end(s, j - 1);
    }
}

} // verus!

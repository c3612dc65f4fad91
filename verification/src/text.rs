//! Text helpers: Unicode whitespace trimming and ASCII case-insensitive comparison.

use vstd::prelude::*;
use vstd::string::*;

verus! {

/// The characters with the Unicode `White_Space` property, which is what
/// `char::is_whitespace` and `str::trim` go by.
pub open spec fn is_whitespace_char(c: char) -> bool {
    let u = c as u32;
    ||| 0x09 <= u <= 0x0D
    ||| u == 0x20
    ||| u == 0x85
    ||| u == 0xA0
    ||| u == 0x1680
    ||| 0x2000 <= u <= 0x200A
    ||| u == 0x2028
    ||| u == 0x2029
    ||| u == 0x202F
    ||| u == 0x205F
    ||| u == 0x3000
}

/// `s` with its leading whitespace removed.
pub open spec fn trim_start_spec(s: Seq<char>) -> Seq<char>
    decreases s.len(),
{
    if s.len() > 0 && is_whitespace_char(s[0]) {
        trim_start_spec(s.drop_first())
    } else {
        s
    }
}

/// `s` with its trailing whitespace removed.
pub open spec fn trim_end_spec(s: Seq<char>) -> Seq<char>
    decreases s.len(),
{
    if s.len() > 0 && is_whitespace_char(s.last()) {
        trim_end_spec(s.drop_last())
    } else {
        s
    }
}

/// `s` with leading and trailing whitespace removed.
pub open spec fn trim_spec(s: Seq<char>) -> Seq<char> {
    trim_end_spec(trim_start_spec(s))
}

/// Every character of `s` is whitespace (the empty text included).
pub open spec fn is_blank_spec(s: Seq<char>) -> bool {
    forall|i: int| 0 <= i < s.len() ==> is_whitespace_char(#[trigger] s[i])
}

pub fn is_whitespace(c: char) -> (res: bool)
    ensures
        res == is_whitespace_char(c),
{
    let u = c as u32;
    (0x09 <= u && u <= 0x0D) || u == 0x20 || u == 0x85 || u == 0xA0 || u == 0x1680 || (0x2000
        <= u && u <= 0x200A) || u == 0x2028 || u == 0x2029 || u == 0x202F || u == 0x205F || u
        == 0x3000
}

proof fn lemma_trim_start_skip(s: Seq<char>, i: int)
    requires
        0 <= i <= s.len(),
        forall|k: int| 0 <= k < i ==> is_whitespace_char(#[trigger] s[k]),
    ensures
        trim_start_spec(s) == trim_start_spec(s.subrange(i, s.len() as int)),
    decreases i,
{
    if i > 0 {
        assert(s.drop_first() == s.subrange(1, s.len() as int));
        let t = s.drop_first();
        assert forall|k: int| 0 <= k < i - 1 implies is_whitespace_char(#[trigger] t[k]) by {
            assert(t[k] == s[k + 1]);
        }
        lemma_trim_start_skip(t, i - 1);
        assert(t.subrange(i - 1, t.len() as int) == s.subrange(i, s.len() as int));
    } else {
        assert(s.subrange(0, s.len() as int) == s);
    }
}

proof fn lemma_trim_end_skip(s: Seq<char>, j: int)
    requires
        0 <= j <= s.len(),
        forall|k: int| j <= k < s.len() ==> is_whitespace_char(#[trigger] s[k]),
    ensures
        trim_end_spec(s) == trim_end_spec(s.subrange(0, j)),
    decreases s.len() - j,
{
    if j < s.len() {
        let t = s.drop_last();
        assert forall|k: int| j <= k < t.len() implies is_whitespace_char(#[trigger] t[k]) by {
            assert(t[k] == s[k]);
        }
        lemma_trim_end_skip(t, j);
        assert(t.subrange(0, j) == s.subrange(0, j));
    } else {
        assert(s.subrange(0, j) == s);
    }
}

/// The trimmed text is the part of `s` between its leading and trailing whitespace.
proof fn lemma_trim_range(s: Seq<char>, i: int, j: int)
    requires
        0 <= i <= j <= s.len(),
        forall|k: int| 0 <= k < i ==> is_whitespace_char(#[trigger] s[k]),
        forall|k: int| j <= k < s.len() ==> is_whitespace_char(#[trigger] s[k]),
        i < j ==> !is_whitespace_char(s[i]) && !is_whitespace_char(s[j - 1]),
        i == j ==> j == s.len(),
    ensures
        trim_spec(s) == s.subrange(i, j),
{
    lemma_trim_start_skip(s, i);
    let rest = s.subrange(i, s.len() as int);
    if i < j {
        assert(rest[0] == s[i]);
        assert(trim_start_spec(rest) == rest);
        assert forall|k: int| j - i <= k < rest.len() implies is_whitespace_char(#[trigger] rest[k]) by {
            assert(rest[k] == s[k + i]);
        }
        lemma_trim_end_skip(rest, j - i);
        let mid = rest.subrange(0, j - i);
        assert(mid == s.subrange(i, j));
        assert(mid.last() == s[j - 1]);
        assert(trim_end_spec(mid) == mid);
    } else {
        assert(rest.len() == 0);
        assert(trim_start_spec(rest) == rest);
        assert(trim_end_spec(rest) == rest);
        assert(rest == s.subrange(i, j));
    }
}

proof fn lemma_trim_start_first(s: Seq<char>)
    ensures
        trim_start_spec(s).len() > 0 ==> !is_whitespace_char(trim_start_spec(s)[0]),
    decreases s.len(),
{
    if s.len() > 0 && is_whitespace_char(s[0]) {
        lemma_trim_start_first(s.drop_first());
    }
}

proof fn lemma_trim_end_prefix(s: Seq<char>)
    ensures
        trim_end_spec(s).len() <= s.len(),
        trim_end_spec(s) == s.subrange(0, trim_end_spec(s).len() as int),
        trim_end_spec(s).len() > 0 ==> !is_whitespace_char(trim_end_spec(s).last()),
        forall|k: int|
            trim_end_spec(s).len() <= k < s.len() ==> is_whitespace_char(#[trigger] s[k]),
    decreases s.len(),
{
    if s.len() > 0 && is_whitespace_char(s.last()) {
        lemma_trim_end_prefix(s.drop_last());
        let t = trim_end_spec(s.drop_last());
        assert(s.drop_last().subrange(0, t.len() as int) == s.subrange(0, t.len() as int));
        assert forall|k: int| t.len() <= k < s.len() implies is_whitespace_char(#[trigger] s[k]) by {
            if k < s.len() - 1 {
                assert(s[k] == s.drop_last()[k]);
            }
        }
    } else {
        assert(s.subrange(0, s.len() as int) == s);
    }
}

/// Trimmed text neither begins nor ends with whitespace.
pub proof fn lemma_trim_bounds(s: Seq<char>)
    ensures
        trim_spec(s).len() > 0 ==> !is_whitespace_char(trim_spec(s)[0]) && !is_whitespace_char(
            trim_spec(s).last(),
        ),
{
    lemma_trim_start_first(s);
    lemma_trim_end_prefix(trim_start_spec(s));
    let t = trim_spec(s);
    if t.len() > 0 {
        assert(t[0] == trim_start_spec(s)[0]);
    }
}

/// Trimming twice is trimming once.
pub proof fn lemma_trim_idempotent(s: Seq<char>)
    ensures
        trim_spec(trim_spec(s)) == trim_spec(s),
{
    let t = trim_spec(s);
    lemma_trim_bounds(s);
    lemma_trim_range(t, 0, t.len() as int);
    assert(t.subrange(0, t.len() as int) == t);
}

proof fn lemma_trim_start_suffix(s: Seq<char>)
    ensures
        trim_start_spec(s).len() <= s.len(),
        trim_start_spec(s) == s.subrange(
            s.len() - trim_start_spec(s).len(),
            s.len() as int,
        ),
        forall|k: int|
            0 <= k < s.len() - trim_start_spec(s).len() ==> is_whitespace_char(#[trigger] s[k]),
    decreases s.len(),
{
    if s.len() > 0 && is_whitespace_char(s[0]) {
        let d = s.drop_first();
        lemma_trim_start_suffix(d);
        let t = trim_start_spec(d);
        let k0 = d.len() - t.len();
        assert(d.subrange(k0, d.len() as int) == s.subrange(k0 + 1, s.len() as int));
        assert forall|k: int| 0 <= k < s.len() - t.len() implies is_whitespace_char(
            #[trigger] s[k],
        ) by {
            if k > 0 {
                assert(s[k] == d[k - 1]);
            }
        }
    } else {
        assert(s.subrange(0, s.len() as int) == s);
    }
}

/// What trimming keeps is the middle of the text: everything before it and after it
/// is whitespace, and it neither begins nor ends with whitespace. Where nothing is
/// kept, the whole text is whitespace. The result gives where the middle begins and ends.
pub proof fn lemma_trim_is_middle(s: Seq<char>) -> (r: (int, int))
    ensures
        0 <= r.0 <= r.1 <= s.len(),
        trim_spec(s) == s.subrange(r.0, r.1),
        forall|k: int| 0 <= k < r.0 ==> is_whitespace_char(#[trigger] s[k]),
        forall|k: int| r.1 <= k < s.len() ==> is_whitespace_char(#[trigger] s[k]),
        r.0 < r.1 ==> !is_whitespace_char(s[r.0]) && !is_whitespace_char(s[r.1 - 1]),
        r.0 == r.1 ==> is_blank_spec(s),
{
    let ts = trim_start_spec(s);
    lemma_trim_start_suffix(s);
    lemma_trim_end_prefix(ts);
    lemma_trim_bounds(s);
    lemma_trim_empty_iff_blank(s);
    let i = s.len() - ts.len();
    let m = trim_end_spec(ts).len() as int;
    let j = i + m;
    assert(ts.subrange(0, m) == s.subrange(i, j));
    assert forall|k: int| j <= k < s.len() implies is_whitespace_char(#[trigger] s[k]) by {
        assert(s[k] == ts[k - i]);
    }
    if i < j {
        assert(s[i] == trim_spec(s)[0]);
        assert(s[j - 1] == trim_spec(s).last());
    }
    (i, j)
}

/// Whitespace-only text trims to the empty text, and nothing else does.
pub proof fn lemma_trim_empty_iff_blank(s: Seq<char>)
    ensures
        (trim_spec(s).len() == 0) == is_blank_spec(s),
    decreases s.len(),
{
    if s.len() > 0 && is_whitespace_char(s[0]) {
        lemma_trim_empty_iff_blank(s.drop_first());
        assert(trim_spec(s) == trim_spec(s.drop_first()));
        if is_blank_spec(s.drop_first()) {
            assert forall|i: int| 0 <= i < s.len() implies is_whitespace_char(#[trigger] s[i]) by {
                if i > 0 {
                    assert(s[i] == s.drop_first()[i - 1]);
                }
            }
        } else {
            let k = choose|k: int| 0 <= k < s.drop_first().len() && !is_whitespace_char(#[trigger] s.drop_first()[k]);
            assert(s[k + 1] == s.drop_first()[k]);
        }
    } else if s.len() > 0 {
        assert(trim_start_spec(s) == s);
        lemma_trim_end_keeps_first(s);
        assert(!is_whitespace_char(s[0]));
    } else {
        assert(trim_spec(s) == s);
    }
}

proof fn lemma_trim_end_keeps_first(s: Seq<char>)
    requires
        s.len() > 0,
        !is_whitespace_char(s[0]),
    ensures
        trim_end_spec(s).len() > 0,
    decreases s.len(),
{
    if is_whitespace_char(s.last()) {
        assert(s.len() > 1);
        assert(s.drop_last()[0] == s[0]);
        lemma_trim_end_keeps_first(s.drop_last());
    }
}

/// The text with leading and trailing Unicode whitespace removed, as `str::trim` gives it.
pub fn trim(s: &str) -> (res: &str)
    ensures
        res@ == trim_spec(s@),
{
    let n = s.unicode_len();
    let mut i: usize = 0;
    while i < n && is_whitespace(s.get_char(i))
        invariant
            n == s@.len(),
            i <= n,
            forall|k: int| 0 <= k < i ==> is_whitespace_char(#[trigger] s@[k]),
        decreases n - i,
    {
        i = i + 1;
    }
    let mut j: usize = n;
    while j > i && is_whitespace(s.get_char(j - 1))
        invariant
            n == s@.len(),
            i <= j <= n,
            forall|k: int| j <= k < n ==> is_whitespace_char(#[trigger] s@[k]),
        decreases j - i,
    {
        j = j - 1;
    }
    proof {
        if i == j && j < n {
            // the first loop stopped at a character that is not whitespace,
            // so the second cannot have passed it
            assert(!is_whitespace_char(s@[i as int]));
            assert(false);
        }
        lemma_trim_range(s@, i as int, j as int);
    }
    s.substring_char(i, j)
}

/// Whether `s` holds nothing but whitespace, that is whether `trim(s)` is empty.
pub fn is_blank(s: &str) -> (res: bool)
    ensures
        res == is_blank_spec(s@),
        res == (trim_spec(s@).len() == 0),
{
    proof {
        lemma_trim_empty_iff_blank(s@);
    }
    let n = s.unicode_len();
    let mut i: usize = 0;
    while i < n
        invariant
            n == s@.len(),
            i <= n,
            forall|k: int| 0 <= k < i ==> is_whitespace_char(#[trigger] s@[k]),
        decreases n - i,
    {
        if !is_whitespace(s.get_char(i)) {
            assert(!is_whitespace_char(s@[i as int]));
            proof {
                lemma_trim_empty_iff_blank(s@);
            }
            return false;
        }
        i = i + 1;
    }
    true
}

/// The code point of `c` after ASCII lower-casing; other characters keep theirs.
pub open spec fn ascii_lower(c: char) -> u32 {
    let u = c as u32;
    if 0x41 <= u <= 0x5A {
        (u + 32) as u32
    } else {
        u
    }
}

/// The two texts are equal once ASCII letters are compared without regard to case,
/// as `str::eq_ignore_ascii_case` decides.
pub open spec fn eq_ignore_ascii_case_spec(a: Seq<char>, b: Seq<char>) -> bool {
    &&& a.len() == b.len()
    &&& forall|i: int| 0 <= i < a.len() ==> ascii_lower(#[trigger] a[i]) == ascii_lower(b[i])
}

fn lower_ascii_code(c: char) -> (res: u32)
    ensures
        res == ascii_lower(c),
{
    let u = c as u32;
    if 0x41 <= u && u <= 0x5A {
        u + 32
    } else {
        u
    }
}

pub fn eq_ignore_ascii_case(a: &str, b: &str) -> (res: bool)
    ensures
        res == eq_ignore_ascii_case_spec(a@, b@),
{
    let n = a.unicode_len();
    if n != b.unicode_len() {
        return false;
    }
    let mut i: usize = 0;
    while i < n
        invariant
            n == a@.len(),
            n == b@.len(),
            i <= n,
            forall|k: int| 0 <= k < i ==> ascii_lower(#[trigger] a@[k]) == ascii_lower(b@[k]),
        decreases n - i,
    {
        if lower_ascii_code(a.get_char(i)) != lower_ascii_code(b.get_char(i)) {
            return false;
        }
        i = i + 1;
    }
    true
}

} // verus!

//! Character-level text operations.
//!
//! A string slice is viewed as its sequence of characters. The operations
//! here work on that sequence: they find positions and trim runs, and their
//! contracts are stated over `Seq<char>`.

use vstd::prelude::*;
use vstd::string::*;
use vstd::utf8::encode_utf8;

verus! {

/// The characters that close a leading mention of a nickname: `:` and `,`.
pub open spec fn is_mention_sep(c: char) -> bool {
    c == ':' || c == ','
}

/// The characters with the Unicode property `White_Space`.
pub open spec fn is_whitespace(c: char) -> bool {
    let n = c as u32;
    ||| 0x09 <= n <= 0x0D
    ||| n == 0x20
    ||| n == 0x85
    ||| n == 0xA0
    ||| n == 0x1680
    ||| 0x2000 <= n <= 0x200A
    ||| n == 0x2028
    ||| n == 0x2029
    ||| n == 0x202F
    ||| n == 0x205F
    ||| n == 0x3000
}

/// The number of bytes that `s` takes in UTF-8.
pub open spec fn utf8_len(s: Seq<char>) -> nat {
    encode_utf8(s).len()
}

/// `s` without its leading copies of `pat`: while `s` begins with `pat`, one
/// copy is taken off. An empty `pat` takes nothing off.
pub open spec fn strip_prefix_run(s: Seq<char>, pat: Seq<char>) -> Seq<char>
    decreases s.len(),
{
    if pat.len() > 0 && pat.is_prefix_of(s) {
        strip_prefix_run(s.skip(pat.len() as int), pat)
    } else {
        s
    }
}

/// `s` without its leading run of mention separators.
pub open spec fn skip_mention_seps(s: Seq<char>) -> Seq<char>
    decreases s.len(),
{
    if s.len() > 0 && is_mention_sep(s[0]) {
        skip_mention_seps(s.skip(1))
    } else {
        s
    }
}

/// `s` without its leading run of whitespace.
pub open spec fn trim_start(s: Seq<char>) -> Seq<char>
    decreases s.len(),
{
    if s.len() > 0 && is_whitespace(s[0]) {
        trim_start(s.skip(1))
    } else {
        s
    }
}

/// `s` without its trailing run of whitespace.
pub open spec fn trim_end(s: Seq<char>) -> Seq<char>
    decreases s.len(),
{
    if s.len() > 0 && is_whitespace(s.last()) {
        trim_end(s.drop_last())
    } else {
        s
    }
}

/// `s` without the whitespace at either end.
pub open spec fn trim(s: Seq<char>) -> Seq<char> {
    trim_end(trim_start(s))
}

/// A `c` at position `i` with none before it is the first `c` of `s`.
pub proof fn lemma_first_at(s: Seq<char>, c: char, i: int)
    requires
        0 <= i < s.len(),
        s[i] == c,
        forall|j: int| 0 <= j < i ==> s[j] != c,
    ensures
        s.index_of_first(c) == Some(i),
{
    s.index_of_first_ensures(c);
}

/// A `c` at position `i` with none behind it is the last `c` of `s`.
pub proof fn lemma_last_at(s: Seq<char>, c: char, i: int)
    requires
        0 <= i < s.len(),
        s[i] == c,
        forall|j: int| i < j < s.len() ==> s[j] != c,
    ensures
        s.index_of_last(c) == Some(i),
{
    s.index_of_last_ensures(c);
}

/// A sequence without `c` has neither a first nor a last `c`.
pub proof fn lemma_absent(s: Seq<char>, c: char)
    requires
        !s.contains(c),
    ensures
        s.index_of_first(c) is None,
        s.index_of_last(c) is None,
{
    s.index_of_first_ensures(c);
    s.index_of_last_ensures(c);
}

/// Whether `c` is `:` or `,`.
pub fn mention_sep(c: char) -> (r: bool)
    ensures
        r == is_mention_sep(c),
{
    c == ':' || c == ','
}

/// Whether `c` has the Unicode property `White_Space`.
pub fn whitespace(c: char) -> (r: bool)
    ensures
        r == is_whitespace(c),
{
    let n: u32 = c as u32;
    (0x09 <= n && n <= 0x0D) || n == 0x20 || n == 0x85 || n == 0xA0 || n == 0x1680 || (0x2000 <= n
        && n <= 0x200A) || n == 0x2028 || n == 0x2029 || n == 0x202F || n == 0x205F || n == 0x3000
}

/// The characters of `s`, in order.
pub fn chars_of(s: &str) -> (v: Vec<char>)
    ensures
        v@ == s@,
{
    let mut v: Vec<char> = Vec::new();
    for c in it: s.chars()
        invariant
            it.seq() == s@,
            v@ == s@.take(it.index() as int),
    {
        v.push(c);
    }
    v
}

/// The number of bytes in `s`.
pub fn byte_len(s: &str) -> (n: usize)
    ensures
        n == utf8_len(s@),
{
    s.as_bytes().len()
}

/// Whether `a` and `b` hold the same characters.
pub fn same_chars(a: &[char], b: &[char]) -> (r: bool)
    ensures
        r == (a@ == b@),
{
    if a.len() != b.len() {
        return false;
    }
    let mut i: usize = 0;
    while i < a.len()
        invariant
            a.len() == b.len(),
            i <= a.len(),
            a@.take(i as int) == b@.take(i as int),
        decreases a.len() - i,
    {
        if a[i] != b[i] {
            return false;
        }
        i += 1;
    }
    assert(a@.take(a@.len() as int) =~= a@);
    assert(b@.take(b@.len() as int) =~= b@);
    true
}

/// Whether the characters of `t` from position `from` on begin with `pat`.
pub fn starts_with_at(t: &[char], from: usize, pat: &[char]) -> (r: bool)
    requires
        from <= t.len(),
    ensures
        r == pat@.is_prefix_of(t@.skip(from as int)),
{
    if pat.len() > t.len() - from {
        return false;
    }
    let ghost rest = t@.skip(from as int);
    let mut i: usize = 0;
    while i < pat.len()
        invariant
            from <= t.len(),
            pat.len() <= t.len() - from,
            i <= pat.len(),
            rest == t@.skip(from as int),
            pat@.take(i as int) == rest.take(i as int),
        decreases pat.len() - i,
    {
        if t[from + i] != pat[i] {
            return false;
        }
        i += 1;
    }
    true
}

/// The position of the first `c` among the first `end` characters of `t`.
pub fn find_char(t: &[char], end: usize, c: char) -> (r: Option<usize>)
    requires
        end <= t.len(),
    ensures
        match r {
            Some(i) => i < end && t@.take(end as int).index_of_first(c) == Some(i as int),
            None => t@.take(end as int).index_of_first(c) is None,
        },
{
    let ghost s = t@.take(end as int);
    let mut i: usize = 0;
    while i < end
        invariant
            end <= t.len(),
            i <= end,
            s == t@.take(end as int),
            forall|j: int| 0 <= j < i ==> s[j] != c,
        decreases end - i,
    {
        if t[i] == c {
            proof {
                lemma_first_at(s, c, i as int);
            }
            return Some(i);
        }
        i += 1;
    }
    proof {
        lemma_absent(s, c);
    }
    None
}

/// The position of the last `c` in `t`.
pub fn rfind_char(t: &[char], c: char) -> (r: Option<usize>)
    ensures
        match r {
            Some(i) => i < t.len() && t@.index_of_last(c) == Some(i as int),
            None => t@.index_of_last(c) is None,
        },
{
    let mut i: usize = t.len();
    while i > 0
        invariant
            i <= t.len(),
            forall|j: int| i <= j < t.len() ==> t@[j] != c,
        decreases i,
    {
        i -= 1;
        if t[i] == c {
            proof {
                lemma_last_at(t@, c, i as int);
            }
            return Some(i);
        }
    }
    proof {
        lemma_absent(t@, c);
    }
    None
}

/// The position of the first mention separator in `t`.
pub fn find_mention_sep(t: &[char]) -> (r: Option<usize>)
    ensures
        match r {
            Some(i) => {
                &&& i < t.len()
                &&& is_mention_sep(t@[i as int])
                &&& forall|j: int| 0 <= j < i ==> !is_mention_sep(t@[j])
            },
            None => forall|j: int| 0 <= j < t.len() ==> !is_mention_sep(t@[j]),
        },
{
    let mut i: usize = 0;
    while i < t.len()
        invariant
            i <= t.len(),
            forall|j: int| 0 <= j < i ==> !is_mention_sep(t@[j]),
        decreases t.len() - i,
    {
        if mention_sep(t[i]) {
            return Some(i);
        }
        i += 1;
    }
    None
}

/// The position in `t` at which its leading copies of `pat` end.
pub fn prefix_run_end(t: &[char], pat: &[char]) -> (end: usize)
    ensures
        end <= t.len(),
        t@.skip(end as int) == strip_prefix_run(t@, pat@),
{
    let mut end: usize = 0;
    assert(t@.skip(0) =~= t@);
    if pat.len() == 0 {
        return end;
    }
    while starts_with_at(t, end, pat)
        invariant
            pat.len() > 0,
            end <= t.len(),
            strip_prefix_run(t@.skip(end as int), pat@) == strip_prefix_run(t@, pat@),
        decreases t.len() - end,
    {
        assert(t@.skip(end as int).skip(pat@.len() as int) =~= t@.skip(end + pat@.len()));
        end += pat.len();
    }
    end
}

/// The position at or after `from` at which the run of mention separators
/// that begins at `from` ends.
pub fn mention_seps_end(t: &[char], from: usize) -> (end: usize)
    requires
        from <= t.len(),
    ensures
        from <= end <= t.len(),
        t@.skip(end as int) == skip_mention_seps(t@.skip(from as int)),
{
    let mut end: usize = from;
    while end < t.len() && mention_sep(t[end])
        invariant
            from <= end <= t.len(),
            skip_mention_seps(t@.skip(end as int)) == skip_mention_seps(t@.skip(from as int)),
        decreases t.len() - end,
    {
        assert(t@.skip(end as int).skip(1) =~= t@.skip(end + 1));
        end += 1;
    }
    end
}

/// The position at or after `from` at which the run of whitespace that
/// begins at `from` ends.
pub fn whitespace_end(t: &[char], from: usize) -> (end: usize)
    requires
        from <= t.len(),
    ensures
        from <= end <= t.len(),
        t@.skip(end as int) == trim_start(t@.skip(from as int)),
{
    let mut end: usize = from;
    while end < t.len() && whitespace(t[end])
        invariant
            from <= end <= t.len(),
            trim_start(t@.skip(end as int)) == trim_start(t@.skip(from as int)),
        decreases t.len() - end,
    {
        assert(t@.skip(end as int).skip(1) =~= t@.skip(end + 1));
        end += 1;
    }
    end
}

/// The position at or after `from` at which the trailing run of whitespace
/// of `t` begins, looking no further back than `from`.
pub fn trailing_whitespace_start(t: &[char], from: usize) -> (start: usize)
    requires
        from <= t.len(),
    ensures
        from <= start <= t.len(),
        t@.subrange(from as int, start as int) == trim_end(t@.skip(from as int)),
{
    let mut start: usize = t.len();
    while from < start && whitespace(t[start - 1])
        invariant
            from <= start <= t.len(),
            trim_end(t@.subrange(from as int, start as int)) == trim_end(t@.skip(from as int)),
        decreases start - from,
    {
        assert(t@.subrange(from as int, start as int).drop_last() =~= t@.subrange(
            from as int,
            start - 1,
        ));
        start -= 1;
    }
    start
}

} // verus!

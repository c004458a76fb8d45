use vstd::prelude::*;
use vstd::string::*;

verus! {

/// `n` occurs in `h` at position `i`.
pub open spec fn occurs_at(h: Seq<char>, n: Seq<char>, i: int) -> bool {
    0 <= i && i + n.len() <= h.len() && h.subrange(i, i + n.len()) == n
}

/// `n` occurs somewhere in `h`.
pub open spec fn contains_seq(h: Seq<char>, n: Seq<char>) -> bool {
    exists|i: int| occurs_at(h, n, i)
}

/// Whether `n` occurs in `h` at character position `i`.
pub fn matches_at(h: &str, n: &str, i: usize) -> (r: bool)
    requires
        i + n@.len() <= h@.len(),
    ensures
        r == occurs_at(h@, n@, i as int),
{
    let nl = n.unicode_len();
    let hl = h.unicode_len();
    let mut j: usize = 0;
    while j < nl
        invariant
            nl == n@.len(),
            hl == h@.len(),
            i + nl <= h@.len(),
            j <= nl,
            forall|k: int| 0 <= k < j ==> h@[i + k] == n@[k],
        decreases nl - j,
    {
        if h.get_char(i + j) != n.get_char(j) {
            proof {
                assert(h@.subrange(i as int, i + nl)[j as int] != n@[j as int]);
            }
            return false;
        }
        j = j + 1;
    }
    proof {
        assert(h@.subrange(i as int, i + nl) =~= n@);
    }
    true
}

/// Whether `n` occurs in `h`.
pub fn str_contains(h: &str, n: &str) -> (r: bool)
    ensures
        r == contains_seq(h@, n@),
{
    let hl = h.unicode_len();
    let nl = n.unicode_len();
    if nl > hl {
        proof {
            assert forall|i: int| !occurs_at(h@, n@, i) by {}
        }
        return false;
    }
    if nl == 0 {
        proof {
            assert(h@.subrange(0, 0) =~= n@);
            assert(occurs_at(h@, n@, 0));
        }
        return true;
    }
    let mut i: usize = 0;
    while i <= hl - nl
        invariant
            nl > 0,
            hl == h@.len(),
            nl == n@.len(),
            nl <= hl,
            i <= hl - nl + 1,
            forall|k: int| 0 <= k < i ==> !occurs_at(h@, n@, k),
        decreases hl - nl + 1 - i,
    {
        if matches_at(h, n, i) {
            return true;
        }
        i = i + 1;
    }
    proof {
        assert forall|k: int| !occurs_at(h@, n@, k) by {
            if 0 <= k && k + nl <= hl {
                assert(k < i);
            }
        }
    }
    false
}

/// Whether two strings hold the same characters.
pub fn str_eq(a: &str, b: &str) -> (r: bool)
    ensures
        r == (a@ == b@),
{
    if a.unicode_len() != b.unicode_len() {
        return false;
    }
    let r = matches_at(a, b, 0);
    proof {
        assert(a@.subrange(0, b@.len() as int) =~= a@);
    }
    r
}

/// Position of the first `c` in `s` at or after `from`, or the length of `s` when there is none.
pub open spec fn next_index_of(s: Seq<char>, c: char, from: int) -> int
    decreases s.len() - from,
{
    if from >= s.len() {
        s.len() as int
    } else if s[from] == c {
        from
    } else {
        next_index_of(s, c, from + 1)
    }
}

pub proof fn lemma_next_index_bounds(s: Seq<char>, c: char, from: int)
    requires
        0 <= from <= s.len(),
    ensures
        from <= next_index_of(s, c, from) <= s.len(),
        next_index_of(s, c, from) < s.len() ==> s[next_index_of(s, c, from)] == c,
        forall|k: int| from <= k < next_index_of(s, c, from) ==> s[k] != c,
    decreases s.len() - from,
{
    if from < s.len() && s[from] != c {
        lemma_next_index_bounds(s, c, from + 1);
    }
}

/// Position of the first `c` in `s` at or after `from`, or the length of `s`.
pub fn find_char_from(s: &str, c: char, from: usize) -> (r: usize)
    requires
        from <= s@.len(),
    ensures
        r == next_index_of(s@, c, from as int),
{
    let len = s.unicode_len();
    let mut i = from;
    while i < len
        invariant
            len == s@.len(),
            from <= i <= len,
            next_index_of(s@, c, from as int) == next_index_of(s@, c, i as int),
        decreases len - i,
    {
        if s.get_char(i) == c {
            return i;
        }
        i = i + 1;
    }
    i
}

/// The characters of `s` from `from` up to `to`, as a new string.
pub fn substring(s: &str, from: usize, to: usize) -> (r: String)
    requires
        from <= to <= s@.len(),
    ensures
        r@ == s@.subrange(from as int, to as int),
{
    let sub = s.substring_char(from, to);
    String::from_str(sub)
}

/// Unicode's White_Space characters, the set that `char::is_whitespace` tests.
pub open spec fn is_white_space(c: char) -> bool {
    let u = c as u32;
    (0x09 <= u && u <= 0x0d) || u == 0x20 || u == 0x85 || u == 0xa0 || u == 0x1680 || (0x2000 <= u
        && u <= 0x200a) || u == 0x2028 || u == 0x2029 || u == 0x202f || u == 0x205f || u == 0x3000
}

/// Position of the first character at or after `i` that is not white space, or the length.
pub open spec fn skip_white_from(s: Seq<char>, i: int) -> int
    decreases s.len() - i,
{
    if i >= s.len() {
        s.len() as int
    } else if is_white_space(s[i]) {
        skip_white_from(s, i + 1)
    } else {
        i
    }
}

/// End of the text before position `j` once its trailing white space is dropped.
pub open spec fn drop_white_before(s: Seq<char>, j: int) -> int
    decreases j,
{
    if j <= 0 {
        0
    } else if is_white_space(s[j - 1]) {
        drop_white_before(s, j - 1)
    } else {
        j
    }
}

/// The text without its leading and trailing white space.
pub open spec fn trimmed_of(s: Seq<char>) -> Seq<char> {
    let a = skip_white_from(s, 0);
    if a >= s.len() {
        Seq::empty()
    } else {
        s.subrange(a, drop_white_before(s, s.len() as int))
    }
}

proof fn lemma_skip_white_bounds(s: Seq<char>, i: int)
    requires
        0 <= i <= s.len(),
    ensures
        i <= skip_white_from(s, i) <= s.len(),
        skip_white_from(s, i) < s.len() ==> !is_white_space(s[skip_white_from(s, i)]),
    decreases s.len() - i,
{
    if i < s.len() && is_white_space(s[i]) {
        lemma_skip_white_bounds(s, i + 1);
    }
}

proof fn lemma_drop_white_stops(s: Seq<char>, j: int, a: int)
    requires
        0 <= a < j <= s.len(),
        !is_white_space(s[a]),
    ensures
        a < drop_white_before(s, j) <= j,
    decreases j,
{
    if is_white_space(s[j - 1]) {
        lemma_drop_white_stops(s, j - 1, a);
    }
}

pub fn is_white_space_char(c: char) -> (r: bool)
    ensures
        r == is_white_space(c),
{
    let u = c as u32;
    (0x09 <= u && u <= 0x0d) || u == 0x20 || u == 0x85 || u == 0xa0 || u == 0x1680 || (0x2000 <= u
        && u <= 0x200a) || u == 0x2028 || u == 0x2029 || u == 0x202f || u == 0x205f || u == 0x3000
}

/// The text without its leading and trailing white space.
pub fn trim_text(s: &str) -> (r: String)
    ensures
        r@ == trimmed_of(s@),
{
    let len = s.unicode_len();
    let mut i: usize = 0;
    while i < len && is_white_space_char(s.get_char(i))
        invariant
            len == s@.len(),
            i <= len,
            skip_white_from(s@, 0) == skip_white_from(s@, i as int),
        decreases len - i,
    {
        i = i + 1;
    }
    if i >= len {
        return String::new();
    }
    proof {
        lemma_drop_white_stops(s@, len as int, i as int);
    }
    let mut j: usize = len;
    while j > i && is_white_space_char(s.get_char(j - 1))
        invariant
            len == s@.len(),
            i < len,
            !is_white_space(s@[i as int]),
            i < j <= len,
            drop_white_before(s@, len as int) == drop_white_before(s@, j as int),
        decreases j,
    {
        proof {
            lemma_drop_white_stops(s@, j as int, i as int);
        }
        j = j - 1;
    }
    substring(s, i, j)
}

} // verus!

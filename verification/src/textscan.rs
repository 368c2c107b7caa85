//! Verified scanning of ASCII text: colon-delimited key:value lines,
//! blank trimming, decimal fields and substring search.  These are the
//! primitives the CPU identity parser and the kernel configuration
//! check are built on; they work on plain byte slices.

use vstd::prelude::*;

verus! {

/// The newline byte ending each line.
pub const NEWLINE: u8 = 10;

/// The colon byte separating a key from its value.
pub const COLON: u8 = 58;

/// Bytes treated as padding around keys and values.
pub open spec fn is_blank(b: u8) -> bool {
    b == 32 || b == 9 || b == 13
}

/// The sequence with its leading blanks removed.
pub open spec fn trim_front(s: Seq<u8>) -> Seq<u8>
    decreases s.len(),
{
    if s.len() > 0 && is_blank(s[0]) {
        trim_front(s.drop_first())
    } else {
        s
    }
}

/// The sequence with its trailing blanks removed.
pub open spec fn trim_back(s: Seq<u8>) -> Seq<u8>
    decreases s.len(),
{
    if s.len() > 0 && is_blank(s[s.len() - 1]) {
        trim_back(s.drop_last())
    } else {
        s
    }
}

/// The sequence with blanks removed on both sides.
pub open spec fn trim(s: Seq<u8>) -> Seq<u8> {
    trim_back(trim_front(s))
}

/// The index of the first occurrence of a byte, if any.
pub open spec fn find_from(s: Seq<u8>, b: u8) -> Option<int>
    decreases s.len(),
{
    if s.len() == 0 {
        None
    } else if s[0] == b {
        Some(0int)
    } else {
        match find_from(s.drop_first(), b) {
            Some(i) => Some(i + 1),
            None => None,
        }
    }
}

/// What [`find_from`] finds is the byte, and nothing before it is.
pub proof fn lemma_find_from_props(s: Seq<u8>, b: u8)
    ensures
        match find_from(s, b) {
            Some(i) => 0 <= i < s.len() && s[i] == b && forall|j: int| 0 <= j < i ==> s[j] != b,
            None => forall|j: int| 0 <= j < s.len() ==> s[j] != b,
        },
    decreases s.len(),
{
    if s.len() == 0 {
    } else if s[0] == b {
    } else {
        lemma_find_from_props(s.drop_first(), b);
        match find_from(s.drop_first(), b) {
            Some(i) => {
                assert(s.drop_first()[i] == s[i + 1]);
                assert forall|j: int| 0 <= j < i + 1 implies s[j] != b by {
                    if j > 0 {
                        assert(s.drop_first()[j - 1] == s[j]);
                    }
                }
            },
            None => {
                assert forall|j: int| 0 <= j < s.len() implies s[j] != b by {
                    if j > 0 {
                        assert(s.drop_first()[j - 1] == s[j]);
                    }
                }
            },
        }
    }
}

/// A position that holds the byte, with none before it, is the one
/// [`find_from`] finds.
pub proof fn lemma_find_from_unique(s: Seq<u8>, b: u8, i: int)
    requires
        0 <= i < s.len(),
        s[i] == b,
        forall|j: int| 0 <= j < i ==> s[j] != b,
    ensures
        find_from(s, b) == Some(i),
    decreases s.len(),
{
    if s[0] == b {
        assert(i == 0);
    } else {
        assert(i > 0);
        assert(forall|j: int| 0 <= j < s.drop_first().len() ==> s.drop_first()[j] == s[j + 1]);
        lemma_find_from_unique(s.drop_first(), b, i - 1);
    }
}

/// Dropping exactly the leading blanks is what [`trim_front`] does.
pub proof fn lemma_trim_front_skip(s: Seq<u8>, k: int)
    requires
        0 <= k <= s.len(),
        forall|j: int| 0 <= j < k ==> is_blank(s[j]),
        k == s.len() || !is_blank(s[k]),
    ensures
        trim_front(s) =~= s.subrange(k, s.len() as int),
    decreases k,
{
    if k == 0 {
        assert(trim_front(s) == s);
    } else {
        assert(is_blank(s[0]));
        let t = s.drop_first();
        assert(forall|j: int| 0 <= j < t.len() ==> t[j] == s[j + 1]);
        lemma_trim_front_skip(t, k - 1);
    }
}

/// Dropping exactly the trailing blanks is what [`trim_back`] does.
pub proof fn lemma_trim_back_take(s: Seq<u8>, m: int)
    requires
        0 <= m <= s.len(),
        forall|j: int| m <= j < s.len() ==> is_blank(s[j]),
        m == 0 || !is_blank(s[m - 1]),
    ensures
        trim_back(s) =~= s.subrange(0, m),
    decreases s.len() - m,
{
    if m == s.len() {
        if s.len() > 0 && is_blank(s[s.len() - 1]) {
            assert(!is_blank(s[m - 1]));
        }
        assert(trim_back(s) == s);
    } else {
        assert(is_blank(s[s.len() - 1]));
        let t = s.drop_last();
        lemma_trim_back_take(t, m);
    }
}

/// Finds the first occurrence of a byte within `[lo, hi)` of a slice.
pub fn find_in(s: &[u8], lo: usize, hi: usize, b: u8) -> (r: Option<usize>)
    requires
        lo <= hi <= s@.len(),
    ensures
        match r {
            Some(i) => lo <= i < hi && find_from(s@.subrange(lo as int, hi as int), b) == Some(
                i - lo,
            ),
            None => find_from(s@.subrange(lo as int, hi as int), b) is None,
        },
{
    let ghost sub = s@.subrange(lo as int, hi as int);
    let mut i: usize = lo;
    while i < hi
        invariant
            lo <= i <= hi <= s@.len(),
            sub == s@.subrange(lo as int, hi as int),
            forall|j: int| lo <= j < i ==> s@[j] != b,
        decreases hi - i,
    {
        if s[i] == b {
            proof {
                assert(forall|j: int| 0 <= j < sub.len() ==> sub[j] == s@[j + lo]);
                lemma_find_from_unique(sub, b, i - lo);
            }
            return Some(i);
        }
        i = i + 1;
    }
    proof {
        assert(forall|j: int| 0 <= j < sub.len() ==> sub[j] == s@[j + lo]);
        lemma_find_from_props(sub, b);
    }
    None
}

/// Trims blanks off both ends of `[lo, hi)`, returning the kept bounds.
pub fn trim_range(s: &[u8], lo: usize, hi: usize) -> (r: (usize, usize))
    requires
        lo <= hi <= s@.len(),
    ensures
        lo <= r.0 <= r.1 <= hi,
        s@.subrange(r.0 as int, r.1 as int) == trim(s@.subrange(lo as int, hi as int)),
{
    let ghost sub = s@.subrange(lo as int, hi as int);
    let mut a: usize = lo;
    while a < hi && (s[a] == 32 || s[a] == 9 || s[a] == 13)
        invariant
            lo <= a <= hi <= s@.len(),
            forall|j: int| lo <= j < a ==> is_blank(s@[j]),
        decreases hi - a,
    {
        a = a + 1;
    }
    let mut b: usize = hi;
    while b > a && (s[b - 1] == 32 || s[b - 1] == 9 || s[b - 1] == 13)
        invariant
            a <= b <= hi <= s@.len(),
            forall|j: int| b <= j < hi ==> is_blank(s@[j]),
        decreases b,
    {
        b = b - 1;
    }
    proof {
        assert(forall|j: int| 0 <= j < sub.len() ==> sub[j] == s@[j + lo]);
        lemma_trim_front_skip(sub, a - lo);
        let front = sub.subrange(a - lo, sub.len() as int);
        assert(forall|j: int| 0 <= j < front.len() ==> front[j] == s@[j + a]);
        lemma_trim_back_take(front, b - a);
        assert(trim(sub) =~= s@.subrange(a as int, b as int));
    }
    (a, b)
}

/// Whether `[lo, hi)` of a slice holds exactly the other slice's bytes.
pub fn range_eq(s: &[u8], lo: usize, hi: usize, t: &[u8]) -> (r: bool)
    requires
        lo <= hi <= s@.len(),
    ensures
        r <==> s@.subrange(lo as int, hi as int) == t@,
{
    if hi - lo != t.len() {
        return false;
    }
    let mut i: usize = 0;
    while i < t.len()
        invariant
            lo <= hi <= s@.len(),
            hi - lo == t@.len(),
            i <= t@.len(),
            forall|j: int| 0 <= j < i ==> s@[lo + j] == t@[j],
        decreases t@.len() - i,
    {
        if s[lo + i] != t[i] {
            proof {
                assert(s@.subrange(lo as int, hi as int)[i as int] != t@[i as int]);
            }
            return false;
        }
        i = i + 1;
    }
    proof {
        assert(s@.subrange(lo as int, hi as int) =~= t@);
    }
    true
}

/// Whether the needle occurs contiguously anywhere in the haystack.
pub open spec fn contains_seq(hay: Seq<u8>, needle: Seq<u8>) -> bool {
    exists|i: int|
        0 <= i && i + needle.len() <= hay.len() && #[trigger] hay.subrange(i, i + needle.len())
            == needle
}

/// Substring search: whether the needle's bytes occur in the haystack.
pub fn contains_bytes(hay: &[u8], needle: &[u8]) -> (r: bool)
    ensures
        r == contains_seq(hay@, needle@),
{
    let n = needle.len();
    if n > hay.len() {
        return false;
    }
    let last = hay.len() - n;
    let mut i: usize = 0;
    loop
        invariant
            n == needle@.len(),
            last + n == hay@.len(),
            last + n <= usize::MAX,
            0 <= i <= last,
            forall|j: int|
                0 <= j < i ==> #[trigger] hay@.subrange(j, j + needle@.len()) != needle@,
        decreases last - i,
    {
        if range_eq(hay, i, i + n, needle) {
            return true;
        }
        if i == last {
            return false;
        }
        i = i + 1;
    }
}

/// The trimmed value a single line yields for a key: the text after
/// the first colon, if the trimmed text before the colon equals the key.
pub open spec fn spec_line_value(line: Seq<u8>, key: Seq<u8>) -> Option<Seq<u8>> {
    match find_from(line, COLON) {
        Some(c) => if trim(line.subrange(0, c)) == key {
            Some(trim(line.subrange(c + 1, line.len() as int)))
        } else {
            None
        },
        None => None,
    }
}

/// Extracts the key's trimmed value out of the line `[ls, le)` of a
/// slice, returning the value's bounds.
pub fn line_value(s: &[u8], ls: usize, le: usize, key: &[u8]) -> (r: Option<(usize, usize)>)
    requires
        ls <= le <= s@.len(),
    ensures
        match r {
            Some(b) => b.0 <= b.1 <= s@.len() && spec_line_value(
                s@.subrange(ls as int, le as int),
                key@,
            ) == Some(s@.subrange(b.0 as int, b.1 as int)),
            None => spec_line_value(s@.subrange(ls as int, le as int), key@) is None,
        },
{
    let ghost line = s@.subrange(ls as int, le as int);
    match find_in(s, ls, le, COLON) {
        Some(c) => {
            proof {
                assert(line.subrange(0, c - ls) =~= s@.subrange(ls as int, c as int));
                assert(line.subrange(c - ls + 1, line.len() as int) =~= s@.subrange(
                    c + 1,
                    le as int,
                ));
            }
            let kb = trim_range(s, ls, c);
            if range_eq(s, kb.0, kb.1, key) {
                let vb = trim_range(s, c + 1, le);
                Some(vb)
            } else {
                None
            }
        },
        None => None,
    }
}

/// Digits zero through nine.
pub open spec fn is_digit(b: u8) -> bool {
    48 <= b <= 57
}

/// Whether every byte is a digit.
pub open spec fn all_digits(s: Seq<u8>) -> bool {
    forall|i: int| 0 <= i < s.len() ==> is_digit(#[trigger] s[i])
}

/// The non-negative integer a digit string denotes.
pub open spec fn dec_val(s: Seq<u8>) -> int
    decreases s.len(),
{
    if s.len() == 0 {
        0
    } else {
        dec_val(s.drop_last()) * 10 + (s[s.len() - 1] - 48)
    }
}

/// A digit string denotes a non-negative value.
pub proof fn lemma_dec_val_nonneg(s: Seq<u8>)
    requires
        all_digits(s),
    ensures
        dec_val(s) >= 0,
    decreases s.len(),
{
    if s.len() > 0 {
        assert(all_digits(s.drop_last()));
        lemma_dec_val_nonneg(s.drop_last());
    }
}

/// Every prefix of a digit string denotes no more than the whole.
pub proof fn lemma_dec_val_prefix_le(s: Seq<u8>, k: int)
    requires
        all_digits(s),
        0 <= k <= s.len(),
    ensures
        dec_val(s.subrange(0, k)) <= dec_val(s),
    decreases s.len() - k,
{
    if k == s.len() {
        assert(s.subrange(0, k) =~= s);
    } else {
        lemma_dec_val_prefix_le(s, k + 1);
        let p = s.subrange(0, k + 1);
        assert(all_digits(p));
        assert(p.drop_last() =~= s.subrange(0, k));
        lemma_dec_val_nonneg(p.drop_last());
        assert(dec_val(p) == dec_val(s.subrange(0, k)) * 10 + (s[k] - 48));
    }
}

/// Parses `[lo, hi)` as an unsigned decimal byte value: all digits, at
/// least one, value at most 255.
pub fn parse_u8_dec(s: &[u8], lo: usize, hi: usize) -> (r: Option<u8>)
    requires
        lo <= hi <= s@.len(),
    ensures
        ({
            let d = s@.subrange(lo as int, hi as int);
            match r {
                Some(v) => d.len() > 0 && all_digits(d) && dec_val(d) == v,
                None => d.len() == 0 || !all_digits(d) || dec_val(d) > 255,
            }
        }),
{
    let ghost d = s@.subrange(lo as int, hi as int);
    proof {
        assert(forall|j: int| 0 <= j < d.len() ==> d[j] == s@[j + lo]);
    }
    if lo == hi {
        return None;
    }
    let mut acc: u32 = 0;
    let mut i: usize = lo;
    while i < hi
        invariant
            lo <= i <= hi <= s@.len(),
            d == s@.subrange(lo as int, hi as int),
            acc <= 255,
            all_digits(d.subrange(0, i - lo)),
            acc == dec_val(d.subrange(0, i - lo)),
        decreases hi - i,
    {
        let b = s[i];
        if b < 48 || b > 57 {
            proof {
                assert(d[i - lo] == b);
                assert(!all_digits(d));
            }
            return None;
        }
        let next: u32 = acc * 10 + (b - 48) as u32;
        proof {
            let p = d.subrange(0, i - lo + 1);
            assert(p.drop_last() =~= d.subrange(0, i - lo));
            assert(p[p.len() - 1] == b);
            assert(all_digits(p));
            assert(dec_val(p) == next);
        }
        if next > 255 {
            proof {
                if all_digits(d) {
                    lemma_dec_val_prefix_le(d, i - lo + 1);
                }
            }
            return None;
        }
        acc = next;
        i = i + 1;
    }
    proof {
        assert(d.subrange(0, (hi - lo) as int) =~= d);
    }
    Some(acc as u8)
}

} // verus!

use vstd::prelude::*;
use vstd::slice::slice_subrange;

verus! {

/// Whether `c` is white space: a character with the Unicode property
/// `White_Space`.
pub open spec fn is_space(c: char) -> bool {
    let n = c as u32;
    ||| 0x09 <= n <= 0x0D
    ||| n == 0x20
    ||| n == 0x85
    ||| n == 0xA0
    ||| n == 0x1680
    ||| 0x2000 <= n <= 0x200A
    ||| n == 0x2028
    ||| n == 0x2029
    ||| n == 0x202F
    ||| n == 0x205F
    ||| n == 0x3000
}

/// `s` without its leading white space.
pub open spec fn trimmed_start(s: Seq<char>) -> Seq<char>
    decreases s.len(),
{
    if s.len() > 0 && is_space(s[0]) {
        trimmed_start(s.subrange(1, s.len() as int))
    } else {
        s
    }
}

/// `s` without its trailing white space.
pub open spec fn trimmed_end(s: Seq<char>) -> Seq<char>
    decreases s.len(),
{
    if s.len() > 0 && is_space(s[s.len() - 1]) {
        trimmed_end(s.subrange(0, s.len() - 1))
    } else {
        s
    }
}

/// `s` without its leading and trailing white space.
pub open spec fn trimmed(s: Seq<char>) -> Seq<char> {
    trimmed_end(trimmed_start(s))
}

/// Decides `is_space`.
pub fn is_whitespace(c: char) -> (b: bool)
    ensures
        b == is_space(c),
{
    let n: u32 = c as u32;
    (0x09 <= n && n <= 0x0D) || n == 0x20 || n == 0x85 || n == 0xA0 || n == 0x1680 || (0x2000 <= n
        && n <= 0x200A) || n == 0x2028 || n == 0x2029 || n == 0x202F || n == 0x205F || n
        == 0x3000
}

/// Removes leading and trailing white space.
pub fn trim<'a>(s: &'a [char]) -> (r: &'a [char])
    ensures
        r@ == trimmed(s@),
{
    let n = s.len();
    let mut lo: usize = 0;
    assert(s@.subrange(0, n as int) =~= s@);
    while lo < n && is_whitespace(s[lo])
        invariant
            lo <= n == s@.len(),
            trimmed_start(s@) == trimmed_start(s@.subrange(lo as int, n as int)),
        decreases n - lo,
    {
        assert(s@.subrange(lo as int, n as int).subrange(1, n - lo) =~= s@.subrange(
            lo + 1,
            n as int,
        ));
        lo += 1;
    }
    let mut hi: usize = n;
    while hi > lo && is_whitespace(s[hi - 1])
        invariant
            lo <= hi <= n == s@.len(),
            trimmed_start(s@) == s@.subrange(lo as int, n as int),
            trimmed(s@) == trimmed_end(s@.subrange(lo as int, hi as int)),
        decreases hi - lo,
    {
        assert(s@.subrange(lo as int, hi as int).subrange(0, hi - lo - 1) =~= s@.subrange(
            lo as int,
            hi - 1,
        ));
        hi -= 1;
    }
    slice_subrange(s, lo, hi)
}

/// The index of the first `d` in `s`, or the length of `s` where `s` holds
/// no `d`.
pub open spec fn first_index(s: Seq<char>, d: char) -> int
    decreases s.len(),
{
    if s.len() == 0 || s[0] == d {
        0
    } else {
        1 + first_index(s.subrange(1, s.len() as int), d)
    }
}

/// `first_index(s, d)` is the least index at which `s` holds `d`.
pub proof fn lemma_first_index(s: Seq<char>, d: char)
    ensures
        0 <= first_index(s, d) <= s.len(),
        first_index(s, d) < s.len() ==> s[first_index(s, d)] == d,
        forall|k: int| 0 <= k < first_index(s, d) ==> s[k] != d,
    decreases s.len(),
{
    if s.len() > 0 && s[0] != d {
        let rest = s.subrange(1, s.len() as int);
        lemma_first_index(rest, d);
        assert forall|k: int| 0 <= k < first_index(s, d) implies s[k] != d by {
            if k > 0 {
                assert(s[k] == rest[k - 1]);
            }
        }
    }
}

/// What stands before the first `d` in `s` and what stands after it, where
/// `s` holds a `d`.
pub open spec fn halves(s: Seq<char>, d: char) -> Option<(Seq<char>, Seq<char>)> {
    let i = first_index(s, d);
    if 0 <= i < s.len() {
        Some((s.subrange(0, i), s.subrange(i + 1, s.len() as int)))
    } else {
        None
    }
}

/// The pieces of `s` between its occurrences of `d`: one more piece than `s`
/// holds occurrences, empty pieces included.
pub open spec fn pieces(s: Seq<char>, d: char) -> Seq<Seq<char>>
    decreases s.len(),
{
    let i = first_index(s, d);
    if 0 <= i < s.len() {
        seq![s.subrange(0, i)] + pieces(s.subrange(i + 1, s.len() as int), d)
    } else {
        seq![s]
    }
}

/// The parts of `parts` in a row, with a `d` between each two.
pub open spec fn joined(parts: Seq<Seq<char>>, d: char) -> Seq<char>
    decreases parts.len(),
{
    if parts.len() == 0 {
        Seq::empty()
    } else if parts.len() == 1 {
        parts[0]
    } else {
        parts[0] + seq![d] + joined(parts.subrange(1, parts.len() as int), d)
    }
}

/// There is at least one piece, no piece holds a `d`, and the pieces with a
/// `d` between each two are `s` again.
pub proof fn lemma_pieces(s: Seq<char>, d: char)
    ensures
        pieces(s, d).len() >= 1,
        forall|i: int, k: int|
            0 <= i < pieces(s, d).len() && 0 <= k < pieces(s, d)[i].len() ==> #[trigger] pieces(
                s,
                d,
            )[i][k] != d,
        joined(pieces(s, d), d) == s,
    decreases s.len(),
{
    let i = first_index(s, d);
    lemma_first_index(s, d);
    if 0 <= i < s.len() {
        let head = s.subrange(0, i);
        let rest = s.subrange(i + 1, s.len() as int);
        lemma_pieces(rest, d);
        let all = pieces(s, d);
        assert forall|j: int, k: int| 0 <= j < all.len() && 0 <= k < all[j].len() implies all[j][k]
            != d by {}
        assert(all.subrange(1, all.len() as int) =~= pieces(rest, d));
    }
}

/// The bounds of `trimmed(s)` in `s`: all that `s` holds before the first
/// bound and from the second bound on is white space, and what lies between
/// them neither begins nor ends with white space.
pub proof fn lemma_trimmed(s: Seq<char>) -> (bounds: (int, int))
    ensures
        0 <= bounds.0 <= bounds.1 <= s.len(),
        trimmed(s) == s.subrange(bounds.0, bounds.1),
        forall|k: int| 0 <= k < bounds.0 ==> is_space(s[k]),
        forall|k: int| bounds.1 <= k < s.len() ==> is_space(s[k]),
        bounds.0 < bounds.1 ==> !is_space(s[bounds.0]) && !is_space(s[bounds.1 - 1]),
{
    let a = lemma_trimmed_start(s);
    let inner = s.subrange(a, s.len() as int);
    let len = lemma_trimmed_end(inner);
    assert forall|k: int| a + len <= k < s.len() implies is_space(s[k]) by {
        assert(s[k] == inner[k - a]);
    }
    (a, a + len)
}

/// The number of characters of white space that `s` begins with.
proof fn lemma_trimmed_start(s: Seq<char>) -> (a: int)
    ensures
        0 <= a <= s.len(),
        trimmed_start(s) == s.subrange(a, s.len() as int),
        forall|k: int| 0 <= k < a ==> is_space(s[k]),
        a < s.len() ==> !is_space(s[a]),
    decreases s.len(),
{
    if s.len() > 0 && is_space(s[0]) {
        let rest = s.subrange(1, s.len() as int);
        let a = lemma_trimmed_start(rest);
        assert forall|k: int| 0 <= k < a + 1 implies is_space(s[k]) by {
            if k > 0 {
                assert(s[k] == rest[k - 1]);
            }
        }
        a + 1
    } else {
        0
    }
}

/// The length of `s` without the white space that it ends with.
proof fn lemma_trimmed_end(s: Seq<char>) -> (b: int)
    ensures
        0 <= b <= s.len(),
        trimmed_end(s) == s.subrange(0, b),
        forall|k: int| b <= k < s.len() ==> is_space(s[k]),
        b > 0 ==> !is_space(s[b - 1]),
    decreases s.len(),
{
    if s.len() > 0 && is_space(s[s.len() - 1]) {
        let rest = s.subrange(0, s.len() - 1);
        let b = lemma_trimmed_end(rest);
        assert forall|k: int| b <= k < s.len() implies is_space(s[k]) by {
            if k < s.len() - 1 {
                assert(s[k] == rest[k]);
            }
        }
        b
    } else {
        s.len() as int
    }
}

/// The views of the slices of `v`.
pub open spec fn views(v: Seq<&[char]>) -> Seq<Seq<char>> {
    Seq::new(v.len(), |i: int| v[i]@)
}

/// Finds the first `d` in `s`.
pub fn find(s: &[char], d: char) -> (i: usize)
    ensures
        i == first_index(s@, d),
        i <= s@.len(),
{
    let n = s.len();
    let mut i: usize = 0;
    assert(s@.subrange(0, n as int) =~= s@);
    while i < n && s[i] != d
        invariant
            i <= n == s@.len(),
            first_index(s@, d) == i + first_index(s@.subrange(i as int, n as int), d),
        decreases n - i,
    {
        assert(s@.subrange(i as int, n as int).subrange(1, n - i) =~= s@.subrange(
            i + 1,
            n as int,
        ));
        i += 1;
    }
    i
}

/// Splits `s` at its first `d`.
pub fn split_once<'a>(s: &'a [char], d: char) -> (r: Option<(&'a [char], &'a [char])>)
    ensures
        match r {
            Some((a, b)) => halves(s@, d) == Some((a@, b@)),
            None => halves(s@, d) is None,
        },
{
    let i = find(s, d);
    if i < s.len() {
        Some((slice_subrange(s, 0, i), slice_subrange(s, i + 1, s.len())))
    } else {
        None
    }
}

/// Splits `s` at every `d`.
pub fn split<'a>(s: &'a [char], d: char) -> (v: Vec<&'a [char]>)
    ensures
        views(v@) == pieces(s@, d),
{
    let mut v: Vec<&'a [char]> = Vec::new();
    let mut rest: &'a [char] = s;
    loop
        invariant_except_break
            pieces(s@, d) == views(v@) + pieces(rest@, d),
        ensures
            views(v@) == pieces(s@, d),
        decreases rest@.len(),
    {
        match split_once(rest, d) {
            Some((a, b)) => {
                v.push(a);
                rest = b;
            },
            None => {
                v.push(rest);
                break ;
            },
        }
    }
    v
}

/// An owned string of the characters of `chars`, made by `String::from_iter`:
/// it holds those characters and no others, in their order.
#[verifier::external_body]
pub(crate) fn string_of(chars: &[char]) -> (s: String)
    ensures
        s@ == chars@,
{
    String::from_iter(chars)
}

/// Whether `s` begins with `prefix`.
pub open spec fn has_prefix(s: Seq<char>, prefix: Seq<char>) -> bool {
    prefix.len() <= s.len() && s.subrange(0, prefix.len() as int) == prefix
}

/// Whether `s` reads `word`.
pub fn is_word(s: &[char], word: &str) -> (b: bool)
    ensures
        b == (s@ == word@),
{
    let mut i: usize = 0;
    let mut same = true;
    for c in it: word.chars()
        invariant
            it.seq() == word@,
            same ==> i == it.index() && i <= s@.len() && s@.subrange(0, i as int)
                == word@.subrange(0, i as int),
            !same ==> s@ != word@,
    {
        if same {
            if i < s.len() && s[i] == c {
                i += 1;
            } else {
                same = false;
            }
        }
    }
    proof {
        if same {
            assert(word@.subrange(0, i as int) =~= word@);
            if i == s@.len() {
                assert(s@.subrange(0, i as int) =~= s@);
            }
        }
    }
    same && i == s.len()
}

/// Whether `s` begins with `prefix`.
pub fn starts_with(s: &[char], prefix: &str) -> (b: bool)
    ensures
        b == has_prefix(s@, prefix@),
{
    let mut i: usize = 0;
    let mut same = true;
    for c in it: prefix.chars()
        invariant
            it.seq() == prefix@,
            same ==> i == it.index() && i <= s@.len() && s@.subrange(0, i as int)
                == prefix@.subrange(0, i as int),
            !same ==> !has_prefix(s@, prefix@),
    {
        if same {
            if i < s.len() && s[i] == c {
                i += 1;
            } else {
                same = false;
            }
        }
    }
    proof {
        if same {
            assert(prefix@.subrange(0, i as int) =~= prefix@);
        }
    }
    same
}

/// `s` without the characters `c` that it begins with.
pub open spec fn stripped_start(s: Seq<char>, c: char) -> Seq<char>
    decreases s.len(),
{
    if s.len() > 0 && s[0] == c {
        stripped_start(s.subrange(1, s.len() as int), c)
    } else {
        s
    }
}

/// `s` without the characters `c` that it ends with.
pub open spec fn stripped_end(s: Seq<char>, c: char) -> Seq<char>
    decreases s.len(),
{
    if s.len() > 0 && s[s.len() - 1] == c {
        stripped_end(s.subrange(0, s.len() - 1), c)
    } else {
        s
    }
}

/// Removes every leading `c`.
pub fn strip_start<'a>(s: &'a [char], c: char) -> (r: &'a [char])
    ensures
        r@ == stripped_start(s@, c),
{
    let n = s.len();
    let mut lo: usize = 0;
    assert(s@.subrange(0, n as int) =~= s@);
    while lo < n && s[lo] == c
        invariant
            lo <= n == s@.len(),
            stripped_start(s@, c) == stripped_start(s@.subrange(lo as int, n as int), c),
        decreases n - lo,
    {
        assert(s@.subrange(lo as int, n as int).subrange(1, n - lo) =~= s@.subrange(
            lo + 1,
            n as int,
        ));
        lo += 1;
    }
    slice_subrange(s, lo, n)
}

/// Removes every trailing `c`.
pub fn strip_end<'a>(s: &'a [char], c: char) -> (r: &'a [char])
    ensures
        r@ == stripped_end(s@, c),
{
    let mut hi: usize = s.len();
    assert(s@.subrange(0, hi as int) =~= s@);
    while hi > 0 && s[hi - 1] == c
        invariant
            hi <= s@.len(),
            stripped_end(s@, c) == stripped_end(s@.subrange(0, hi as int), c),
        decreases hi,
    {
        assert(s@.subrange(0, hi as int).subrange(0, hi - 1) =~= s@.subrange(0, hi - 1));
        hi -= 1;
    }
    slice_subrange(s, 0, hi)
}

/// The texts of `strings`.
pub open spec fn texts(strings: Seq<String>) -> Seq<Seq<char>> {
    Seq::new(strings.len(), |i: int| strings[i]@)
}

/// An owned string of each of `parts`.
pub fn strings_of(parts: &Vec<&[char]>) -> (strings: Vec<String>)
    ensures
        texts(strings@) == views(parts@),
{
    let mut strings: Vec<String> = Vec::new();
    let mut i: usize = 0;
    while i < parts.len()
        invariant
            i <= parts@.len(),
            strings@.len() == i,
            forall|k: int| 0 <= k < i ==> (#[trigger] strings@[k])@ == parts@[k]@,
        decreases parts@.len() - i,
    {
        strings.push(string_of(parts[i]));
        i += 1;
    }
    strings
}

/// `s` without the copies of `prefix` that it begins with, one after
/// another.
pub open spec fn stripped_prefix(s: Seq<char>, prefix: Seq<char>) -> Seq<char>
    decreases s.len(),
{
    if prefix.len() > 0 && has_prefix(s, prefix) {
        stripped_prefix(s.subrange(prefix.len() as int, s.len() as int), prefix)
    } else {
        s
    }
}

/// Removes every leading copy of `prefix`.
pub fn strip_prefix<'a>(s: &'a [char], prefix: &str) -> (r: &'a [char])
    ensures
        r@ == stripped_prefix(s@, prefix@),
{
    let n = prefix.unicode_len();
    if n == 0 {
        return s;
    }
    let mut rest: &'a [char] = s;
    while starts_with(rest, prefix)
        invariant
            n == prefix@.len(),
            n > 0,
            stripped_prefix(s@, prefix@) == stripped_prefix(rest@, prefix@),
        decreases rest@.len(),
    {
        rest = slice_subrange(rest, n, rest.len());
    }
    rest
}

/// The characters of `s`, in order.
pub fn chars_of(s: &str) -> (v: Vec<char>)
    ensures
        v@ == s@,
{
    let mut v: Vec<char> = Vec::new();
    for c in it: s.chars()
        invariant
            v@ == it.seq().take(it.index()),
            it.seq() == s@,
    {
        v.push(c);
    }
    v
}

} // verus!

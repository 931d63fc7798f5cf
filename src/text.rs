//! Character-level helpers shared by the parsers and formatters.

use vstd::prelude::*;

verus! {

/// The Unicode `White_Space` property, the set that `char::is_whitespace`
/// and `str::trim` use.
pub open spec fn is_white_space(c: char) -> bool {
    let u = c as u32;
    ||| 0x9 <= u <= 0xd
    ||| u == 0x20
    ||| u == 0x85
    ||| u == 0xa0
    ||| u == 0x1680
    ||| 0x2000 <= u <= 0x200a
    ||| u == 0x2028
    ||| u == 0x2029
    ||| u == 0x202f
    ||| u == 0x205f
    ||| u == 0x3000
}

/// What a trimming step removes: white space, or double quotes.
pub open spec fn strips(quotes: bool, c: char) -> bool {
    if quotes {
        c == '"'
    } else {
        is_white_space(c)
    }
}

/// `s` without its leading characters that `strips(quotes, _)` removes.
pub open spec fn trim_start(s: Seq<char>, quotes: bool) -> Seq<char>
    decreases s.len(),
{
    if s.len() > 0 && strips(quotes, s[0]) {
        trim_start(s.drop_first(), quotes)
    } else {
        s
    }
}

/// `s` without its trailing characters that `strips(quotes, _)` removes.
pub open spec fn trim_end(s: Seq<char>, quotes: bool) -> Seq<char>
    decreases s.len(),
{
    if s.len() > 0 && strips(quotes, s.last()) {
        trim_end(s.drop_last(), quotes)
    } else {
        s
    }
}

/// `s` trimmed at both ends: `str::trim` for white space,
/// `str::trim_matches('"')` for quotes.
pub open spec fn trim(s: Seq<char>, quotes: bool) -> Seq<char> {
    trim_end(trim_start(s, quotes), quotes)
}

pub fn is_white_space_char(c: char) -> (r: bool)
    ensures
        r == is_white_space(c),
{
    let u = c as u32;
    (0x9 <= u && u <= 0xd) || u == 0x20 || u == 0x85 || u == 0xa0 || u == 0x1680 || (0x2000 <= u
        && u <= 0x200a) || u == 0x2028 || u == 0x2029 || u == 0x202f || u == 0x205f || u == 0x3000
}

fn strips_char(quotes: bool, c: char) -> (r: bool)
    ensures
        r == strips(quotes, c),
{
    if quotes {
        c == '"'
    } else {
        is_white_space_char(c)
    }
}

/// Bounds of `chars[lo..hi]` once trimmed: the trimmed text is
/// `chars[r.0..r.1]`.
pub fn trim_bounds(chars: &Vec<char>, lo: usize, hi: usize, quotes: bool) -> (r: (usize, usize))
    requires
        lo <= hi <= chars@.len(),
    ensures
        lo <= r.0 <= r.1 <= hi,
        chars@.subrange(r.0 as int, r.1 as int) == trim(chars@.subrange(lo as int, hi as int), quotes),
{
    let ghost s = chars@;
    let mut i = lo;
    while i < hi && strips_char(quotes, chars[i])
        invariant
            lo <= i <= hi <= s.len(),
            s == chars@,
            trim_start(s.subrange(lo as int, hi as int), quotes) == trim_start(
                s.subrange(i as int, hi as int),
                quotes,
            ),
        decreases hi - i,
    {
        assert(s.subrange(i as int, hi as int).drop_first() =~= s.subrange(i + 1, hi as int));
        i = i + 1;
    }
    let ghost start = s.subrange(i as int, hi as int);
    assert(trim_start(start, quotes) == start);
    let mut j = hi;
    while j > i && strips_char(quotes, chars[j - 1])
        invariant
            lo <= i <= j <= hi <= s.len(),
            s == chars@,
            trim_end(start, quotes) == trim_end(s.subrange(i as int, j as int), quotes),
        decreases j - i,
    {
        assert(s.subrange(i as int, j as int).drop_last() =~= s.subrange(i as int, j - 1));
        j = j - 1;
    }
    (i, j)
}


/// `s` cut at every `sep`, as `str::split` cuts it: `n` separators give
/// `n + 1` pieces, empty ones included.
pub open spec fn split_on(s: Seq<char>, sep: char) -> Seq<Seq<char>>
    decreases s.len(),
{
    if s.len() == 0 {
        seq![Seq::empty()]
    } else {
        let r = split_on(s.drop_last(), sep);
        if s.last() == sep {
            r.push(Seq::empty())
        } else {
            r.update(r.len() - 1, r.last().push(s.last()))
        }
    }
}

/// The position of the first `c` in `s`, or `s.len()` if there is none.
pub open spec fn first_index(s: Seq<char>, c: char) -> nat
    decreases s.len(),
{
    if s.len() == 0 {
        0
    } else if s[0] == c {
        0
    } else {
        1 + first_index(s.drop_first(), c)
    }
}

/// The first `c` in `s` is at `k`, or there is none and `k` is the length.
pub open spec fn is_first_index(s: Seq<char>, c: char, k: int) -> bool {
    &&& 0 <= k <= s.len()
    &&& forall|j: int| 0 <= j < k ==> s[j] != c
    &&& k < s.len() ==> s[k] == c
}

pub proof fn lemma_first_index(s: Seq<char>, c: char, k: int)
    requires
        is_first_index(s, c, k),
    ensures
        first_index(s, c) == k,
    decreases s.len(),
{
    if s.len() > 0 && s[0] != c {
        let t = s.drop_first();
        assert forall|j: int| 0 <= j < k - 1 implies t[j] != c by {
            assert(s[j + 1] != c);
        }
        lemma_first_index(t, c, k - 1);
    }
}

/// Whether `chars[lo..hi]` spells `lit`.
pub fn equals_literal(chars: &Vec<char>, lo: usize, hi: usize, lit: &str) -> (r: bool)
    requires
        lo <= hi <= chars@.len(),
    ensures
        r == (chars@.subrange(lo as int, hi as int) == lit@),
{
    let n = lit.unicode_len();
    if hi - lo != n {
        return false;
    }
    let mut i: usize = 0;
    while i < n
        invariant
            n == lit@.len() == hi - lo,
            lo <= hi <= chars@.len(),
            i <= n,
            forall|j: int| 0 <= j < i ==> chars@[lo + j] == lit@[j],
        decreases n - i,
    {
        if chars[lo + i] != lit.get_char(i) {
            assert(chars@.subrange(lo as int, hi as int)[i as int] != lit@[i as int]);
            return false;
        }
        i = i + 1;
    }
    assert(chars@.subrange(lo as int, hi as int) =~= lit@);
    true
}

/// The position of the first `c` in `chars[lo..hi]`, or `hi`.
pub fn find_char(chars: &Vec<char>, lo: usize, hi: usize, c: char) -> (k: usize)
    requires
        lo <= hi <= chars@.len(),
    ensures
        lo <= k <= hi,
        k - lo == first_index(chars@.subrange(lo as int, hi as int), c),
{
    let mut k = lo;
    while k < hi && chars[k] != c
        invariant
            lo <= k <= hi <= chars@.len(),
            forall|j: int| lo <= j < k ==> chars@[j] != c,
        decreases hi - k,
    {
        k = k + 1;
    }
    proof {
        let s = chars@.subrange(lo as int, hi as int);
        assert forall|j: int| 0 <= j < k - lo implies s[j] != c by {
            assert(chars@[lo + j] != c);
        }
        lemma_first_index(s, c, k - lo);
    }
    k
}

/// The characters of `s`, in order.
pub fn chars_of(s: &str) -> (r: Vec<char>)
    ensures
        r@ == s@,
{
    let mut out: Vec<char> = Vec::new();
    for c in it: s.chars()
        invariant
            out@ == it.seq().take(it.index() as int),
    {
        out.push(c);
    }
    out
}

/// Relies on `String::push`: appends one character.
#[verifier::external_body]
pub(crate) fn string_push(s: &mut String, c: char)
    ensures
        final(s)@ == old(s)@.push(c),
{
    s.push(c)
}

/// The decimal digit for `d < 10`.
pub open spec fn digit_char(d: nat) -> char {
    if d == 0 {
        '0'
    } else if d == 1 {
        '1'
    } else if d == 2 {
        '2'
    } else if d == 3 {
        '3'
    } else if d == 4 {
        '4'
    } else if d == 5 {
        '5'
    } else if d == 6 {
        '6'
    } else if d == 7 {
        '7'
    } else if d == 8 {
        '8'
    } else {
        '9'
    }
}

/// The decimal notation of `n`, without leading zeros.
pub open spec fn decimal_digits(n: nat) -> Seq<char>
    decreases n,
{
    if n < 10 {
        seq![digit_char(n)]
    } else {
        decimal_digits(n / 10).push(digit_char(n % 10))
    }
}

/// The decimal notation of `n` left-padded with zeros to at least `width`
/// characters, as `{:0width$}` writes an unsigned integer.
pub open spec fn zero_padded(n: nat, width: nat) -> Seq<char> {
    let d = decimal_digits(n);
    if d.len() < width {
        Seq::new((width - d.len()) as nat, |_i: int| '0') + d
    } else {
        d
    }
}

/// `{:0width$}` for a signed integer: the sign counts towards the width.
pub open spec fn signed_zero_padded(n: int, width: nat) -> Seq<char> {
    if n < 0 {
        seq!['-'] + zero_padded((-n) as nat, if width > 0 { (width - 1) as nat } else { 0 })
    } else {
        zero_padded(n as nat, width)
    }
}

/// How `i32::to_string` writes `n`.
pub open spec fn decimal(n: int) -> Seq<char> {
    signed_zero_padded(n, 0)
}

fn digit(d: u64) -> (c: char)
    requires
        d < 10,
    ensures
        c == digit_char(d as nat),
{
    match d {
        0 => '0',
        1 => '1',
        2 => '2',
        3 => '3',
        4 => '4',
        5 => '5',
        6 => '6',
        7 => '7',
        8 => '8',
        _ => '9',
    }
}

/// Appends `zero_padded(n, width)` to `out`.
pub fn push_zero_padded(out: &mut String, n: u64, width: usize)
    ensures
        final(out)@ == old(out)@ + zero_padded(n as nat, width as nat),
{
    // Digits from the least significant one up.
    let mut rev: Vec<char> = Vec::new();
    let mut m = n;
    let ghost mut tail: Seq<char> = Seq::empty();
    while m >= 10
        invariant
            decimal_digits(n as nat) == decimal_digits(m as nat) + tail,
            tail.len() == rev@.len(),
            forall|i: int| 0 <= i < rev@.len() ==> #[trigger] rev@[i] == tail[rev@.len() - 1 - i],
        decreases m,
    {
        let d = digit(m % 10);
        rev.push(d);
        proof {
            tail = seq![d] + tail;
        }
        m = m / 10;
    }
    let d = digit(m);
    rev.push(d);
    proof {
        tail = seq![d] + tail;
        assert(decimal_digits(n as nat) == tail);
    }
    let len = rev.len();
    let mut k: usize = len;
    while k < width
        invariant
            len <= k,
            k == len || k <= width,
            out@ == old(out)@ + Seq::new((k - len) as nat, |_i: int| '0'),
        decreases width - k,
    {
        string_push(out, '0');
        k = k + 1;
        assert(out@ =~= old(out)@ + Seq::new((k - len) as nat, |_i: int| '0'));
    }
    let ghost padded = *out;
    let mut j: usize = 0;
    while j < len
        invariant
            len == rev@.len() == tail.len(),
            forall|i: int| 0 <= i < rev@.len() ==> #[trigger] rev@[i] == tail[rev@.len() - 1 - i],
            j <= len,
            out@ == padded@ + tail.take(j as int),
        decreases len - j,
    {
        string_push(out, rev[len - 1 - j]);
        j = j + 1;
        assert(out@ =~= padded@ + tail.take(j as int));
    }
    assert(tail.take(len as int) =~= tail);
    assert(padded@ =~= old(out)@ + Seq::new((k - len) as nat, |_i: int| '0'));
    assert(out@ =~= old(out)@ + zero_padded(n as nat, width as nat));
}


/// Appends `signed_zero_padded(n, width)` to `out`.
pub fn push_signed_zero_padded(out: &mut String, n: i64, width: usize)
    ensures
        final(out)@ == old(out)@ + signed_zero_padded(n as int, width as nat),
{
    if n < 0 {
        string_push(out, '-');
        let w: usize = if width > 0 { width - 1 } else { 0 };
        // `-n` as `-(n + 1) + 1`, which also holds for `i64::MIN`.
        let magnitude: u64 = (-(n + 1)) as u64 + 1;
        push_zero_padded(out, magnitude, w);
        assert(out@ =~= old(out)@ + signed_zero_padded(n as int, width as nat));
    } else {
        push_zero_padded(out, n as u64, width);
    }
}

/// `n` in decimal, as `i32::to_string` writes it.
pub fn decimal_string(n: i32) -> (r: String)
    ensures
        r@ == decimal(n as int),
{
    let mut r = String::new();
    push_signed_zero_padded(&mut r, n as i64, 0);
    assert(r@ =~= decimal(n as int));
    r
}

} // verus!

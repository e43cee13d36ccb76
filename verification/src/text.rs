//! Character-level text utilities with a mathematical model over `Seq<char>`:
//! Unicode whitespace, trimming, line splitting, whitespace tokens, substring
//! search and decimal numbers.
use vstd::prelude::*;

verus! {

// ---------------------------------------------------------------------------
// Specifications
// ---------------------------------------------------------------------------

/// The Unicode `White_Space` property, as `char::is_whitespace` documents it.
pub open spec fn is_ws(c: char) -> bool {
    let u = c as u32;
    ||| u == 0x20
    ||| (0x09 <= u && u <= 0x0d)
    ||| u == 0x85
    ||| u == 0xa0
    ||| u == 0x1680
    ||| (0x2000 <= u && u <= 0x200a)
    ||| u == 0x2028
    ||| u == 0x2029
    ||| u == 0x202f
    ||| u == 0x205f
    ||| u == 0x3000
}

/// An ASCII decimal digit.
pub open spec fn is_digit(c: char) -> bool {
    '0' <= c && c <= '9'
}

/// The value of an ASCII digit.
pub open spec fn digit_value(c: char) -> nat {
    ((c as u32) - ('0' as u32)) as nat
}

/// `s` without its leading whitespace.
pub open spec fn trim_start(s: Seq<char>) -> Seq<char>
    decreases s.len(),
{
    if s.len() > 0 && is_ws(s[0]) {
        trim_start(s.drop_first())
    } else {
        s
    }
}

/// `s` without its trailing whitespace.
pub open spec fn trim_end(s: Seq<char>) -> Seq<char>
    decreases s.len(),
{
    if s.len() > 0 && is_ws(s.last()) {
        trim_end(s.drop_last())
    } else {
        s
    }
}

/// `s` without leading and trailing whitespace.
pub open spec fn trim(s: Seq<char>) -> Seq<char> {
    trim_end(trim_start(s))
}

/// `s` without a final carriage return.
pub open spec fn strip_cr(s: Seq<char>) -> Seq<char> {
    if s.len() > 0 && s.last() == '\r' {
        s.drop_last()
    } else {
        s
    }
}

/// The lines of `rest`, where `cur` holds the characters already read of the
/// current line: a line ends at `\n`, a `\r` just before it is dropped, and a
/// text that ends with `\n` has no empty last line.
pub open spec fn lines_from(rest: Seq<char>, cur: Seq<char>) -> Seq<Seq<char>>
    decreases rest.len(),
{
    if rest.len() == 0 {
        if cur.len() == 0 {
            Seq::empty()
        } else {
            seq![cur]
        }
    } else if rest[0] == '\n' {
        seq![strip_cr(cur)] + lines_from(rest.drop_first(), Seq::empty())
    } else {
        lines_from(rest.drop_first(), cur.push(rest[0]))
    }
}

/// The lines of a text.
pub open spec fn lines(s: Seq<char>) -> Seq<Seq<char>> {
    lines_from(s, Seq::empty())
}

/// The whitespace-separated tokens of `rest`, where `cur` holds the
/// characters already read of the current token; no token is empty.
pub open spec fn tokens_from(rest: Seq<char>, cur: Seq<char>) -> Seq<Seq<char>>
    decreases rest.len(),
{
    if rest.len() == 0 {
        if cur.len() == 0 {
            Seq::empty()
        } else {
            seq![cur]
        }
    } else if is_ws(rest[0]) {
        if cur.len() == 0 {
            tokens_from(rest.drop_first(), Seq::empty())
        } else {
            seq![cur] + tokens_from(rest.drop_first(), Seq::empty())
        }
    } else {
        tokens_from(rest.drop_first(), cur.push(rest[0]))
    }
}

/// The whitespace-separated tokens of a text.
pub open spec fn tokens(s: Seq<char>) -> Seq<Seq<char>> {
    tokens_from(s, Seq::empty())
}

/// `p` is a prefix of `s`.
pub open spec fn starts_with(s: Seq<char>, p: Seq<char>) -> bool {
    p.len() <= s.len() && s.subrange(0, p.len() as int) == p
}

/// `p` occurs in `s` at index `i`.
pub open spec fn occurs_at(s: Seq<char>, p: Seq<char>, i: int) -> bool {
    0 <= i && i + p.len() <= s.len() && s.subrange(i, i + p.len()) == p
}

/// `p` occurs somewhere in `s`.
pub open spec fn contains(s: Seq<char>, p: Seq<char>) -> bool {
    exists|i: int| occurs_at(s, p, i)
}

/// The value of a sequence of decimal digits.
pub open spec fn digits_value(s: Seq<char>) -> nat
    decreases s.len(),
{
    if s.len() == 0 {
        0
    } else {
        digits_value(s.drop_last()) * 10 + digit_value(s.last())
    }
}

/// Every character of `s` is a decimal digit.
pub open spec fn all_digits(s: Seq<char>) -> bool {
    forall|i: int| 0 <= i < s.len() ==> is_digit(#[trigger] s[i])
}

/// The digits of an unsigned decimal number: an optional `+` and at least
/// one digit.
pub open spec fn unsigned_digits(s: Seq<char>) -> Option<Seq<char>> {
    let d = if s.len() > 0 && s[0] == '+' { s.drop_first() } else { s };
    if d.len() > 0 && all_digits(d) {
        Some(d)
    } else {
        None
    }
}

/// The value of an unsigned decimal number, if `s` spells one.
pub open spec fn unsigned_value(s: Seq<char>) -> Option<nat> {
    match unsigned_digits(s) {
        Some(d) => Some(digits_value(d)),
        None => None,
    }
}

/// The value of a signed decimal number: an optional `+` or `-` and at
/// least one digit.
pub open spec fn signed_value(s: Seq<char>) -> Option<int> {
    if s.len() > 0 && s[0] == '-' {
        let d = s.drop_first();
        if d.len() > 0 && all_digits(d) {
            Some(-(digits_value(d) as int))
        } else {
            None
        }
    } else {
        match unsigned_value(s) {
            Some(v) => Some(v as int),
            None => None,
        }
    }
}

/// `s` without its trailing characters that are not decimal digits.
pub open spec fn trim_end_non_digits(s: Seq<char>) -> Seq<char>
    decreases s.len(),
{
    if s.len() > 0 && !is_digit(s.last()) {
        trim_end_non_digits(s.drop_last())
    } else {
        s
    }
}

/// The decimal digits of a number, most significant first, no leading zero.
pub open spec fn decimal(n: nat) -> Seq<char>
    decreases n,
{
    if n < 10 {
        seq![(('0' as u32) + n) as char]
    } else {
        decimal(n / 10).push((('0' as u32) + (n % 10)) as char)
    }
}

/// `decimal(n)` with leading zeros up to `width` characters.
pub open spec fn zero_padded(n: nat, width: nat) -> Seq<char> {
    let d = decimal(n);
    if d.len() >= width {
        d
    } else {
        Seq::new((width - d.len()) as nat, |i: int| '0') + d
    }
}

// ---------------------------------------------------------------------------
// Lemmas
// ---------------------------------------------------------------------------

proof fn lemma_subrange_drop_first(s: Seq<char>, i: int, j: int)
    requires
        0 <= i < j <= s.len(),
    ensures
        s.subrange(i, j).drop_first() == s.subrange(i + 1, j),
        s.subrange(i, j)[0] == s[i],
{
    assert(s.subrange(i, j).drop_first() =~= s.subrange(i + 1, j));
}

proof fn lemma_subrange_drop_last(s: Seq<char>, i: int, j: int)
    requires
        0 <= i < j <= s.len(),
    ensures
        s.subrange(i, j).drop_last() == s.subrange(i, j - 1),
        s.subrange(i, j).last() == s[j - 1],
{
    assert(s.subrange(i, j).drop_last() =~= s.subrange(i, j - 1));
}

/// Dropping the first element of a subrange shifts its start.
pub proof fn lemma_subrange_step<A>(s: Seq<A>, i: int)
    requires
        0 <= i < s.len(),
    ensures
        s.subrange(i, s.len() as int).drop_first() == s.subrange(i + 1, s.len() as int),
        s.subrange(i, s.len() as int)[0] == s[i],
        s.subrange(i, s.len() as int).len() > 0,
{
    assert(s.subrange(i, s.len() as int).drop_first() =~= s.subrange(i + 1, s.len() as int));
}

/// `trim_start(s)` is a suffix of `s`.
pub proof fn lemma_trim_start_suffix(s: Seq<char>)
    ensures
        trim_start(s).len() <= s.len(),
        trim_start(s) == s.subrange(s.len() - trim_start(s).len(), s.len() as int),
        trim_start(s).len() > 0 ==> !is_ws(trim_start(s)[0]),
        forall|k: int| 0 <= k < s.len() - trim_start(s).len() ==> is_ws(#[trigger] s[k]),
    decreases s.len(),
{
    if s.len() > 0 && is_ws(s[0]) {
        lemma_trim_start_suffix(s.drop_first());
        assert(trim_start(s) == s.subrange(s.len() - trim_start(s).len(), s.len() as int));
        assert forall|k: int| 0 <= k < s.len() - trim_start(s).len() implies is_ws(#[trigger] s[k]) by {
            if k > 0 {
                assert(s[k] == s.drop_first()[k - 1]);
            }
        }
    } else {
        assert(s.subrange(0, s.len() as int) =~= s);
    }
}

/// `trim_end(s)` is a prefix of `s`.
pub proof fn lemma_trim_end_prefix(s: Seq<char>)
    ensures
        trim_end(s).len() <= s.len(),
        trim_end(s) == s.subrange(0, trim_end(s).len() as int),
        trim_end(s).len() > 0 ==> !is_ws(trim_end(s).last()),
        forall|k: int| trim_end(s).len() <= k < s.len() ==> is_ws(#[trigger] s[k]),
    decreases s.len(),
{
    if s.len() > 0 && is_ws(s.last()) {
        lemma_trim_end_prefix(s.drop_last());
        assert forall|k: int| trim_end(s).len() <= k < s.len() implies is_ws(#[trigger] s[k]) by {
            if k < s.len() - 1 {
                assert(s[k] == s.drop_last()[k]);
            }
        }
    } else {
        assert(s.subrange(0, s.len() as int) =~= s);
    }
}

proof fn lemma_digits_value_push(s: Seq<char>, c: char)
    ensures
        digits_value(s.push(c)) == digits_value(s) * 10 + digit_value(c),
{
    assert(s.push(c).drop_last() =~= s);
}

proof fn lemma_trim_end_non_digits_prefix(s: Seq<char>)
    ensures
        trim_end_non_digits(s).len() <= s.len(),
        trim_end_non_digits(s) == s.subrange(0, trim_end_non_digits(s).len() as int),
    decreases s.len(),
{
    if s.len() > 0 && !is_digit(s.last()) {
        lemma_trim_end_non_digits_prefix(s.drop_last());
    } else {
        assert(s.subrange(0, s.len() as int) =~= s);
    }
}

// ---------------------------------------------------------------------------
// Executable functions
// ---------------------------------------------------------------------------

/// Copies the characters of a string slice into a vector.
pub fn chars_of(s: &str) -> (v: Vec<char>)
    ensures
        v@ == s@,
{
    let mut v: Vec<char> = Vec::new();
    for c in it: s.chars()
        invariant
            v@ == it.seq().take(it.index() as int),
            it.seq() == s@,
    {
        v.push(c);
    }
    v
}

/// Builds a `String` from characters (`String::from_iter`).
#[verifier::external_body]
pub(crate) fn string_of(v: &Vec<char>) -> (s: String)
    ensures
        s@ == v@,
{
    String::from_iter(v)
}

/// Copies the characters `s[lo..hi]` into a new vector.
pub fn slice_chars(s: &Vec<char>, lo: usize, hi: usize) -> (v: Vec<char>)
    requires
        lo <= hi <= s.len(),
    ensures
        v@ == s@.subrange(lo as int, hi as int),
{
    let mut v: Vec<char> = Vec::new();
    let mut i = lo;
    while i < hi
        invariant
            lo <= i <= hi <= s.len(),
            v@ == s@.subrange(lo as int, i as int),
        decreases hi - i,
    {
        v.push(s[i]);
        assert(s@.subrange(lo as int, i + 1) =~= s@.subrange(lo as int, i as int).push(s@[i as int]));
        i = i + 1;
    }
    v
}

/// `char::is_whitespace`.
pub fn is_whitespace(c: char) -> (b: bool)
    ensures
        b == is_ws(c),
{
    let u = c as u32;
    u == 0x20 || (0x09 <= u && u <= 0x0d) || u == 0x85 || u == 0xa0 || u == 0x1680 || (0x2000 <= u
        && u <= 0x200a) || u == 0x2028 || u == 0x2029 || u == 0x202f || u == 0x205f || u == 0x3000
}

/// `char::is_ascii_digit`.
pub fn is_ascii_digit(c: char) -> (b: bool)
    ensures
        b == is_digit(c),
{
    '0' <= c && c <= '9'
}

/// The bounds of `trim(s[lo..hi])` inside `s`.
pub fn trim_bounds(s: &Vec<char>, lo: usize, hi: usize) -> (r: (usize, usize))
    requires
        lo <= hi <= s.len(),
    ensures
        lo <= r.0 <= r.1 <= hi,
        s@.subrange(r.0 as int, r.1 as int) == trim(s@.subrange(lo as int, hi as int)),
{
    let ghost whole = s@.subrange(lo as int, hi as int);
    let mut a = lo;
    while a < hi && is_whitespace(s[a])
        invariant
            lo <= a <= hi <= s.len(),
            trim_start(whole) == trim_start(s@.subrange(a as int, hi as int)),
        decreases hi - a,
    {
        proof {
            lemma_subrange_drop_first(s@, a as int, hi as int);
        }
        a = a + 1;
    }
    proof {
        if a < hi {
            lemma_subrange_drop_first(s@, a as int, hi as int);
        }
        assert(trim_start(whole) == s@.subrange(a as int, hi as int));
    }
    let mut b = hi;
    while b > a && is_whitespace(s[b - 1])
        invariant
            lo <= a <= b <= hi <= s.len(),
            trim(whole) == trim_end(s@.subrange(a as int, b as int)),
        decreases b - a,
    {
        proof {
            lemma_subrange_drop_last(s@, a as int, b as int);
        }
        b = b - 1;
    }
    proof {
        if b > a {
            lemma_subrange_drop_last(s@, a as int, b as int);
        }
    }
    (a, b)
}

/// `str::trim_start`, on a character vector.
pub fn trim_start_chars(s: &Vec<char>) -> (t: Vec<char>)
    ensures
        t@ == trim_start(s@),
{
    let mut a: usize = 0;
    proof {
        assert(s@.subrange(0, s.len() as int) =~= s@);
    }
    while a < s.len() && is_whitespace(s[a])
        invariant
            a <= s.len(),
            trim_start(s@) == trim_start(s@.subrange(a as int, s.len() as int)),
        decreases s.len() - a,
    {
        proof {
            lemma_subrange_drop_first(s@, a as int, s.len() as int);
        }
        a = a + 1;
    }
    proof {
        if a < s.len() {
            lemma_subrange_drop_first(s@, a as int, s.len() as int);
        }
    }
    slice_chars(s, a, s.len())
}

/// `str::trim`, on a character vector.
pub fn trim_chars(s: &Vec<char>) -> (t: Vec<char>)
    ensures
        t@ == trim(s@),
{
    let (a, b) = trim_bounds(s, 0, s.len());
    proof {
        assert(s@.subrange(0, s@.len() as int) =~= s@);
    }
    slice_chars(s, a, b)
}

/// Whether `p` occurs in `s` at index `i`.
pub fn occurs_at_exec(s: &Vec<char>, p: &Vec<char>, i: usize) -> (b: bool)
    ensures
        b == occurs_at(s@, p@, i as int),
{
    if i > s.len() || p.len() > s.len() - i {
        return false;
    }
    let mut k: usize = 0;
    while k < p.len()
        invariant
            i + p.len() <= s.len(),
            k <= p.len(),
            forall|j: int| 0 <= j < k ==> s@[i + j] == p@[j],
        decreases p.len() - k,
    {
        if s[i + k] != p[k] {
            proof {
                assert(s@.subrange(i as int, i + p.len())[k as int] != p@[k as int]);
            }
            return false;
        }
        k = k + 1;
    }
    proof {
        assert(s@.subrange(i as int, i + p.len()) =~= p@);
    }
    true
}

/// `str::starts_with`.
pub fn starts_with_exec(s: &Vec<char>, p: &Vec<char>) -> (b: bool)
    ensures
        b == starts_with(s@, p@),
{
    occurs_at_exec(s, p, 0)
}

/// The first index at which `p` occurs in `s` (`str::find`).
pub fn find_exec(s: &Vec<char>, p: &Vec<char>) -> (r: Option<usize>)
    ensures
        match r {
            Some(i) => occurs_at(s@, p@, i as int) && forall|j: int|
                0 <= j < i ==> !occurs_at(s@, p@, j),
            None => !contains(s@, p@),
        },
{
    if p.len() > s.len() {
        return None;
    }
    let last = s.len() - p.len();
    let mut i: usize = 0;
    while i < last
        invariant
            last + p.len() == s.len(),
            i <= last,
            forall|j: int| 0 <= j < i ==> !occurs_at(s@, p@, j),
        decreases last - i,
    {
        if occurs_at_exec(s, p, i) {
            return Some(i);
        }
        i = i + 1;
    }
    if occurs_at_exec(s, p, last) {
        Some(last)
    } else {
        None
    }
}

/// `str::contains`.
pub fn contains_exec(s: &Vec<char>, p: &Vec<char>) -> (b: bool)
    ensures
        b == contains(s@, p@),
{
    match find_exec(s, p) {
        Some(_) => true,
        None => false,
    }
}

/// Whether the character `c` occurs in `s`.
pub fn contains_char(s: &Vec<char>, c: char) -> (b: bool)
    ensures
        b == s@.contains(c),
{
    let mut i: usize = 0;
    while i < s.len()
        invariant
            i <= s.len(),
            forall|j: int| 0 <= j < i ==> s@[j] != c,
        decreases s.len() - i,
    {
        if s[i] == c {
            return true;
        }
        i = i + 1;
    }
    false
}

/// The lines of a text (`str::lines`).
pub fn split_lines(s: &Vec<char>) -> (out: Vec<Vec<char>>)
    ensures
        out@.map_values(|l: Vec<char>| l@) == lines(s@),
{
    let mut out: Vec<Vec<char>> = Vec::new();
    let mut cur: Vec<char> = Vec::new();
    let mut i: usize = 0;
    proof {
        assert(s@.subrange(0, s.len() as int) =~= s@);
        assert(out@.map_values(|l: Vec<char>| l@) =~= Seq::<Seq<char>>::empty());
        assert(Seq::<Seq<char>>::empty() + lines(s@) =~= lines(s@));
    }
    while i < s.len()
        invariant
            i <= s.len(),
            out@.map_values(|l: Vec<char>| l@) + lines_from(s@.subrange(i as int, s.len() as int), cur@)
                == lines(s@),
        decreases s.len() - i,
    {
        let ghost rest = s@.subrange(i as int, s.len() as int);
        proof {
            lemma_subrange_drop_first(s@, i as int, s.len() as int);
        }
        if s[i] == '\n' {
            let mut line = cur;
            if line.len() > 0 && line[line.len() - 1] == '\r' {
                line.pop();
            }
            assert(line@ == strip_cr(cur@));
            let ghost before = out@.map_values(|l: Vec<char>| l@);
            out.push(line);
            assert(out@.map_values(|l: Vec<char>| l@) =~= before.push(line@));
            assert(before + lines_from(rest, cur@) == before.push(line@) + lines_from(
                rest.drop_first(),
                Seq::empty(),
            )) by {
                assert(before + (seq![line@] + lines_from(rest.drop_first(), Seq::empty()))
                    =~= before.push(line@) + lines_from(rest.drop_first(), Seq::empty()));
            }
            cur = Vec::new();
        } else {
            cur.push(s[i]);
        }
        i = i + 1;
    }
    proof {
        let m = out@.map_values(|l: Vec<char>| l@);
        assert(s@.subrange(s.len() as int, s.len() as int) =~= Seq::<char>::empty());
        if cur@.len() > 0 {
            assert(m + seq![cur@] =~= m.push(cur@));
        } else {
            assert(m + Seq::<Seq<char>>::empty() =~= m);
        }
    }
    if cur.len() > 0 {
        let ghost before = out@.map_values(|l: Vec<char>| l@);
        let ghost last = cur@;
        out.push(cur);
        assert(out@.map_values(|l: Vec<char>| l@) =~= before.push(last));
    }
    out
}

/// The whitespace-separated tokens of a text (`str::split_whitespace`).
pub fn split_tokens(s: &Vec<char>) -> (out: Vec<Vec<char>>)
    ensures
        out@.map_values(|l: Vec<char>| l@) == tokens(s@),
{
    let mut out: Vec<Vec<char>> = Vec::new();
    let mut cur: Vec<char> = Vec::new();
    let mut i: usize = 0;
    proof {
        assert(s@.subrange(0, s.len() as int) =~= s@);
        assert(out@.map_values(|l: Vec<char>| l@) =~= Seq::<Seq<char>>::empty());
        assert(Seq::<Seq<char>>::empty() + tokens(s@) =~= tokens(s@));
    }
    while i < s.len()
        invariant
            i <= s.len(),
            out@.map_values(|l: Vec<char>| l@) + tokens_from(s@.subrange(i as int, s.len() as int), cur@)
                == tokens(s@),
        decreases s.len() - i,
    {
        let ghost rest = s@.subrange(i as int, s.len() as int);
        proof {
            lemma_subrange_drop_first(s@, i as int, s.len() as int);
        }
        if is_whitespace(s[i]) {
            if cur.len() > 0 {
                let ghost before = out@.map_values(|l: Vec<char>| l@);
                let ghost tok = cur@;
                assert(tokens_from(rest, tok) == seq![tok] + tokens_from(rest.drop_first(), Seq::empty()));
                out.push(cur);
                assert(out@.map_values(|l: Vec<char>| l@) =~= before.push(tok));
                assert(before + (seq![tok] + tokens_from(rest.drop_first(), Seq::empty()))
                    =~= before.push(tok) + tokens_from(rest.drop_first(), Seq::empty()));
                cur = Vec::new();
            } else {
                assert(cur@ =~= Seq::<char>::empty());
                assert(tokens_from(rest, cur@) == tokens_from(rest.drop_first(), Seq::empty()));
            }
        } else {
            assert(tokens_from(rest, cur@) == tokens_from(rest.drop_first(), cur@.push(s@[i as int])));
            cur.push(s[i]);
        }
        i = i + 1;
    }
    proof {
        let m = out@.map_values(|l: Vec<char>| l@);
        assert(s@.subrange(s.len() as int, s.len() as int) =~= Seq::<char>::empty());
        if cur@.len() > 0 {
            assert(m + seq![cur@] =~= m.push(cur@));
        } else {
            assert(m + Seq::<Seq<char>>::empty() =~= m);
        }
    }
    if cur.len() > 0 {
        let ghost before = out@.map_values(|l: Vec<char>| l@);
        let ghost last = cur@;
        out.push(cur);
        assert(out@.map_values(|l: Vec<char>| l@) =~= before.push(last));
    }
    out
}

/// The value of the digits `s[lo..hi]`, if it fits below `limit`.
fn digits_value_bounded(s: &Vec<char>, lo: usize, hi: usize, limit: u64) -> (r: Option<u64>)
    requires
        lo <= hi <= s.len(),
        all_digits(s@.subrange(lo as int, hi as int)),
        limit <= u32::MAX,
    ensures
        match r {
            Some(v) => v == digits_value(s@.subrange(lo as int, hi as int)) && v <= limit,
            None => digits_value(s@.subrange(lo as int, hi as int)) > limit,
        },
{
    let mut acc: u64 = 0;
    let mut i = lo;
    while i < hi
        invariant
            lo <= i <= hi <= s.len(),
            all_digits(s@.subrange(lo as int, hi as int)),
            limit <= u32::MAX,
            acc == digits_value(s@.subrange(lo as int, i as int)),
            acc <= limit,
        decreases hi - i,
    {
        assert(s@.subrange(lo as int, hi as int)[i - lo] == s@[i as int]);
        let d = (s[i] as u32 - '0' as u32) as u64;
        proof {
            assert(s@.subrange(lo as int, i + 1) =~= s@.subrange(lo as int, i as int).push(s@[i as int]));
            lemma_digits_value_push(s@.subrange(lo as int, i as int), s@[i as int]);
        }
        let next = acc * 10 + d;
        if next > limit {
            proof {
                lemma_digits_value_monotone(s@, lo as int, i + 1, hi as int);
            }
            return None;
        }
        acc = next;
        i = i + 1;
    }
    Some(acc)
}

/// Appending digits never decreases the value.
proof fn lemma_digits_value_monotone(s: Seq<char>, lo: int, i: int, hi: int)
    requires
        0 <= lo <= i <= hi <= s.len(),
        all_digits(s.subrange(lo, hi)),
    ensures
        digits_value(s.subrange(lo, i)) <= digits_value(s.subrange(lo, hi)),
    decreases hi - i,
{
    if i < hi {
        lemma_digits_value_monotone(s, lo, i + 1, hi);
        assert(s.subrange(lo, i + 1) =~= s.subrange(lo, i).push(s[i]));
        lemma_digits_value_push(s.subrange(lo, i), s[i]);
    }
}

/// Whether all of `s[lo..hi]` are digits.
fn all_digits_range(s: &Vec<char>, lo: usize, hi: usize) -> (b: bool)
    requires
        lo <= hi <= s.len(),
    ensures
        b == all_digits(s@.subrange(lo as int, hi as int)),
{
    let mut i = lo;
    while i < hi
        invariant
            lo <= i <= hi <= s.len(),
            forall|j: int| lo <= j < i ==> is_digit(s@[j]),
        decreases hi - i,
    {
        if !is_ascii_digit(s[i]) {
            assert(!is_digit(s@.subrange(lo as int, hi as int)[i - lo]));
            return false;
        }
        i = i + 1;
    }
    assert forall|j: int| 0 <= j < hi - lo implies is_digit(#[trigger] s@.subrange(lo as int, hi as int)[j]) by {
        assert(s@.subrange(lo as int, hi as int)[j] == s@[lo + j]);
    }
    true
}

/// An unsigned decimal number that is at most `limit`.
fn parse_unsigned_bounded(s: &Vec<char>, limit: u64) -> (r: Option<u64>)
    requires
        limit <= u32::MAX,
    ensures
        match r {
            Some(v) => unsigned_value(s@) == Some(v as nat) && v <= limit,
            None => unsigned_value(s@) is None || unsigned_value(s@)->0 > limit,
        },
{
    let lo: usize = if s.len() > 0 && s[0] == '+' { 1 } else { 0 };
    proof {
        let d = if s@.len() > 0 && s@[0] == '+' { s@.drop_first() } else { s@ };
        assert(d =~= s@.subrange(lo as int, s.len() as int));
    }
    if lo == s.len() || !all_digits_range(s, lo, s.len()) {
        return None;
    }
    digits_value_bounded(s, lo, s.len(), limit)
}

/// `u32::from_str` on a character vector: an optional `+` and decimal digits.
pub fn parse_u32(s: &Vec<char>) -> (r: Option<u32>)
    ensures
        match r {
            Some(v) => unsigned_value(s@) == Some(v as nat),
            None => unsigned_value(s@) is None || unsigned_value(s@)->0 > u32::MAX,
        },
{
    match parse_unsigned_bounded(s, u32::MAX as u64) {
        Some(v) => Some(v as u32),
        None => None,
    }
}

/// `u8::from_str` on a character vector.
pub fn parse_u8(s: &Vec<char>) -> (r: Option<u8>)
    ensures
        match r {
            Some(v) => unsigned_value(s@) == Some(v as nat),
            None => unsigned_value(s@) is None || unsigned_value(s@)->0 > u8::MAX,
        },
{
    match parse_unsigned_bounded(s, u8::MAX as u64) {
        Some(v) => Some(v as u8),
        None => None,
    }
}

/// `i32::from_str` on a character vector: an optional sign and decimal digits.
pub fn parse_i32(s: &Vec<char>) -> (r: Option<i32>)
    ensures
        match r {
            Some(v) => signed_value(s@) == Some(v as int),
            None => signed_value(s@) is None || signed_value(s@)->0 < i32::MIN
                || signed_value(s@)->0 > i32::MAX,
        },
{
    if s.len() > 0 && s[0] == '-' {
        proof {
            assert(s@.drop_first() =~= s@.subrange(1, s.len() as int));
        }
        if s.len() == 1 || !all_digits_range(s, 1, s.len()) {
            return None;
        }
        match digits_value_bounded(s, 1, s.len(), 0x8000_0000u64) {
            Some(v) => {
                let r: i64 = 0i64 - (v as i64);
                Some(r as i32)
            },
            None => None,
        }
    } else {
        match parse_unsigned_bounded(s, i32::MAX as u64) {
            Some(v) => Some(v as i32),
            None => None,
        }
    }
}

/// `s` without its trailing non-digit characters
/// (`str::trim_end_matches(|c| !c.is_ascii_digit())`).
pub fn trim_end_non_digit_chars(s: &Vec<char>) -> (t: Vec<char>)
    ensures
        t@ == trim_end_non_digits(s@),
{
    let mut b = s.len();
    proof {
        assert(s@.subrange(0, s.len() as int) =~= s@);
    }
    while b > 0 && !is_ascii_digit(s[b - 1])
        invariant
            b <= s.len(),
            trim_end_non_digits(s@) == trim_end_non_digits(s@.subrange(0, b as int)),
        decreases b,
    {
        proof {
            lemma_subrange_drop_last(s@, 0, b as int);
        }
        b = b - 1;
    }
    proof {
        assert(s@.subrange(0, s.len() as int) =~= s@);
        if b > 0 {
            lemma_subrange_drop_last(s@, 0, b as int);
        }
    }
    slice_chars(s, 0, b)
}

/// Appends the decimal digits of `n`.
pub fn push_decimal(out: &mut Vec<char>, n: u64)
    ensures
        final(out)@ == old(out)@ + decimal(n as nat),
    decreases n,
{
    if n >= 10 {
        push_decimal(out, n / 10);
    }
    let d = (n % 10) as u8;
    let c = ('0' as u8 + d) as char;
    proof {
        assert(c == ((('0' as u32) + (n % 10) as nat) as char));
    }
    let ghost before = out@;
    out.push(c);
    proof {
        if n >= 10 {
            assert(decimal(n as nat) == decimal((n / 10) as nat).push(c));
        } else {
            assert(decimal(n as nat) == seq![c]);
        }
    }
}

/// Appends the characters of `p`.
pub fn push_str(out: &mut Vec<char>, p: &str)
    ensures
        final(out)@ == old(out)@ + p@,
{
    let v = chars_of(p);
    let mut i: usize = 0;
    while i < v.len()
        invariant
            i <= v.len(),
            v@ == p@,
            out@ == old(out)@ + v@.subrange(0, i as int),
        decreases v.len() - i,
    {
        out.push(v[i]);
        assert(v@.subrange(0, i + 1) =~= v@.subrange(0, i as int).push(v@[i as int]));
        i = i + 1;
    }
    assert(v@.subrange(0, v.len() as int) =~= v@);
}

/// Appends the characters of `p`.
pub fn push_chars(out: &mut Vec<char>, p: &Vec<char>)
    ensures
        final(out)@ == old(out)@ + p@,
{
    let mut i: usize = 0;
    while i < p.len()
        invariant
            i <= p.len(),
            out@ == old(out)@ + p@.subrange(0, i as int),
        decreases p.len() - i,
    {
        out.push(p[i]);
        assert(p@.subrange(0, i + 1) =~= p@.subrange(0, i as int).push(p@[i as int]));
        i = i + 1;
    }
    assert(p@.subrange(0, p.len() as int) =~= p@);
}

/// The decimal digits of `n` as a string.
pub fn decimal_string(n: u32) -> (s: String)
    ensures
        s@ == decimal(n as nat),
{
    let mut v: Vec<char> = Vec::new();
    push_decimal(&mut v, n as u64);
    assert(v@ =~= decimal(n as nat));
    string_of(&v)
}

/// Whether two character vectors are equal.
pub fn same_chars(a: &Vec<char>, b: &Vec<char>) -> (r: bool)
    ensures
        r == (a@ == b@),
{
    if a.len() != b.len() {
        return false;
    }
    let mut i: usize = 0;
    while i < a.len()
        invariant
            a.len() == b.len(),
            i <= a.len(),
            forall|j: int| 0 <= j < i ==> a@[j] == b@[j],
        decreases a.len() - i,
    {
        if a[i] != b[i] {
            return false;
        }
        i = i + 1;
    }
    assert(a@ =~= b@);
    true
}

/// Whether a string equals a literal.
pub fn str_is(s: &str, lit: &str) -> (r: bool)
    ensures
        r == (s@ == lit@),
{
    same_chars(&chars_of(s), &chars_of(lit))
}

/// `a` followed by `b`, as a new string.
pub fn concat(a: &str, b: &str) -> (s: String)
    ensures
        s@ == a@ + b@,
{
    let mut v = chars_of(a);
    push_str(&mut v, b);
    string_of(&v)
}

} // verus!

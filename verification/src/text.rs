//! Character-level text handling: the pieces of `str` behaviour that the
//! parsers of this crate rely on, each stated as a spec function and
//! implemented over `Vec<char>`.
use vstd::prelude::*;

verus! {

// ---------------------------------------------------------------------------
// Character classes
// ---------------------------------------------------------------------------

/// Unicode `White_Space`: the characters that `char::is_whitespace`,
/// `str::trim` and `str::split_whitespace` treat as white space.
pub open spec fn is_white(c: char) -> bool {
    let n = c as int;
    ||| 9 <= n <= 13
    ||| n == 32
    ||| n == 0x85
    ||| n == 0xA0
    ||| n == 0x1680
    ||| 0x2000 <= n <= 0x200A
    ||| n == 0x2028
    ||| n == 0x2029
    ||| n == 0x202F
    ||| n == 0x205F
    ||| n == 0x3000
}

/// The code point of `c`.
pub fn code(c: char) -> (n: u32)
    ensures
        n == c as int,
{
    c as u32
}

/// Whether `c` is white space.
pub fn white(c: char) -> (r: bool)
    ensures
        r == is_white(c),
{
    let n = c as u32;
    (9 <= n && n <= 13) || n == 32 || n == 0x85 || n == 0xA0 || n == 0x1680 || (0x2000 <= n && n
        <= 0x200A) || n == 0x2028 || n == 0x2029 || n == 0x202F || n == 0x205F || n == 0x3000
}

/// An ASCII decimal digit.
pub open spec fn is_digit(c: char) -> bool {
    48 <= c as int <= 57
}

/// The value of an ASCII decimal digit.
pub open spec fn digit_value(c: char) -> int {
    c as int - 48
}

/// The ASCII digit for a value below ten.
pub open spec fn digit_char(d: int) -> char {
    if d == 0 {
        '0'
    } else if d == 1 {
        '1'
    } else if d == 2 {
        '2'
    } else if d == 3 {
        '3'
    } else if d == 4 {
        '4'
    } else if d == 5 {
        '5'
    } else if d == 6 {
        '6'
    } else if d == 7 {
        '7'
    } else if d == 8 {
        '8'
    } else {
        '9'
    }
}

/// `char::to_ascii_lowercase`: `A`..`Z` become `a`..`z`, every other
/// character is kept.
pub open spec fn lower(c: char) -> char {
    if 65 <= c as int <= 90 {
        ((c as int + 32) as u8) as char
    } else {
        c
    }
}

/// `str::to_ascii_lowercase`.
pub open spec fn ascii_lower(s: Seq<char>) -> Seq<char> {
    s.map_values(|c: char| lower(c))
}

/// `str::eq_ignore_ascii_case`.
pub open spec fn same_ignoring_ascii_case(a: Seq<char>, b: Seq<char>) -> bool {
    ascii_lower(a) == ascii_lower(b)
}

/// The ASCII lower-case form of one character.
pub fn lower_char(c: char) -> (r: char)
    ensures
        r == lower(c),
{
    let n = c as u32;
    if 65 <= n && n <= 90 {
        let b: u8 = (n + 32) as u8;
        b as char
    } else {
        c
    }
}

// ---------------------------------------------------------------------------
// Conversions between `str`, `String` and `Vec<char>`
// ---------------------------------------------------------------------------

/// The characters of `s`, in order.
pub fn chars_of(s: &str) -> (res: Vec<char>)
    ensures
        res@ == s@,
{
    let mut out: Vec<char> = Vec::new();
    for c in it: s.chars()
        invariant
            out@ == it.seq().take(it.index() as int),
    {
        out.push(c);
    }
    out
}

/// `String::push`: appends one character.
#[verifier::external_body]
fn push_char(s: &mut String, c: char)
    ensures
        final(s)@ == old(s)@.push(c),
{
    s.push(c);
}

/// The string made of the characters of `v`.
pub fn string_of(v: &Vec<char>) -> (s: String)
    ensures
        s@ == v@,
{
    let mut s = String::new();
    let mut i: usize = 0;
    while i < v.len()
        invariant
            i <= v.len(),
            s@ == v@.take(i as int),
        decreases v.len() - i,
    {
        push_char(&mut s, v[i]);
        assert(v@.take(i as int).push(v@[i as int]) =~= v@.take(i + 1));
        i = i + 1;
    }
    assert(v@.take(v.len() as int) =~= v@);
    s
}

/// The characters `v[from..to]`.
pub fn sub_chars(v: &Vec<char>, from: usize, to: usize) -> (r: Vec<char>)
    requires
        from <= to <= v.len(),
    ensures
        r@ == v@.subrange(from as int, to as int),
{
    let mut r: Vec<char> = Vec::new();
    let mut i: usize = from;
    while i < to
        invariant
            from <= i <= to <= v.len(),
            r@ == v@.subrange(from as int, i as int),
        decreases to - i,
    {
        r.push(v[i]);
        assert(v@.subrange(from as int, i as int).push(v@[i as int]) =~= v@.subrange(
            from as int,
            i + 1,
        ));
        i = i + 1;
    }
    r
}

/// Whether two character sequences are equal.
pub fn same_chars(a: &Vec<char>, b: &Vec<char>) -> (r: bool)
    ensures
        r == (a@ == b@),
{
    if a.len() != b.len() {
        return false;
    }
    let mut i: usize = 0;
    while i < a.len()
        invariant
            i <= a.len() == b.len(),
            forall|j: int| 0 <= j < i ==> a@[j] == b@[j],
        decreases a.len() - i,
    {
        if a[i] != b[i] {
            return false;
        }
        i = i + 1;
    }
    assert(a@ =~= b@);
    true
}

/// Whether the characters of `v` spell `lit`.
pub fn spells(v: &Vec<char>, lit: &str) -> (r: bool)
    ensures
        r == (v@ == lit@),
{
    let l = chars_of(lit);
    same_chars(v, &l)
}

/// `str::eq_ignore_ascii_case` on character sequences.
pub fn same_ignoring_case(a: &Vec<char>, b: &Vec<char>) -> (r: bool)
    ensures
        r == same_ignoring_ascii_case(a@, b@),
{
    if a.len() != b.len() {
        assert(ascii_lower(a@).len() != ascii_lower(b@).len());
        return false;
    }
    let mut i: usize = 0;
    while i < a.len()
        invariant
            i <= a.len() == b.len(),
            forall|j: int| 0 <= j < i ==> lower(a@[j]) == lower(b@[j]),
        decreases a.len() - i,
    {
        if lower_char(a[i]) != lower_char(b[i]) {
            assert(ascii_lower(a@)[i as int] != ascii_lower(b@)[i as int]);
            return false;
        }
        i = i + 1;
    }
    assert(ascii_lower(a@) =~= ascii_lower(b@));
    true
}

/// `str::to_ascii_lowercase` on character sequences.
pub fn to_lower(v: &Vec<char>) -> (r: Vec<char>)
    ensures
        r@ == ascii_lower(v@),
{
    let mut r: Vec<char> = Vec::new();
    let mut i: usize = 0;
    while i < v.len()
        invariant
            i <= v.len(),
            r@ == ascii_lower(v@.take(i as int)),
        decreases v.len() - i,
    {
        r.push(lower_char(v[i]));
        assert(ascii_lower(v@.take(i as int)).push(lower(v@[i as int])) =~= ascii_lower(
            v@.take(i + 1),
        ));
        i = i + 1;
    }
    assert(v@.take(v.len() as int) =~= v@);
    r
}

// ---------------------------------------------------------------------------
// Trimming
// ---------------------------------------------------------------------------

/// The characters that a trim removes: white space (`quote == false`, as
/// `str::trim`), or the double quote (`quote == true`, as
/// `str::trim_matches('"')`).
pub open spec fn strippable(c: char, quote: bool) -> bool {
    if quote {
        c == '"'
    } else {
        is_white(c)
    }
}

/// The first index at or after `i` whose character is not strippable, or
/// the length of `s`.
pub open spec fn skip_fwd(s: Seq<char>, i: int, quote: bool) -> int
    decreases s.len() - i,
{
    if 0 <= i < s.len() && strippable(s[i], quote) {
        skip_fwd(s, i + 1, quote)
    } else {
        i
    }
}

/// Moving down from `j`, the first end index above `lo` whose preceding
/// character is not strippable, or `lo`.
pub open spec fn skip_back(s: Seq<char>, lo: int, j: int, quote: bool) -> int
    decreases j - lo,
{
    if lo < j <= s.len() && strippable(s[j - 1], quote) {
        skip_back(s, lo, j - 1, quote)
    } else {
        j
    }
}

/// `s` without its strippable characters at both ends.
pub open spec fn trimmed(s: Seq<char>, quote: bool) -> Seq<char> {
    let a = skip_fwd(s, 0, quote);
    s.subrange(a, skip_back(s, a, s.len() as int, quote))
}

fn strippable_char(c: char, quote: bool) -> (r: bool)
    ensures
        r == strippable(c, quote),
{
    if quote {
        c == '"'
    } else {
        white(c)
    }
}

/// The first index at or after `from` whose character is not strippable.
pub fn skip_forward(s: &Vec<char>, from: usize, quote: bool) -> (r: usize)
    requires
        from <= s.len(),
    ensures
        r == skip_fwd(s@, from as int, quote),
        from <= r <= s.len(),
{
    let mut i = from;
    while i < s.len() && strippable_char(s[i], quote)
        invariant
            from <= i <= s.len(),
            skip_fwd(s@, from as int, quote) == skip_fwd(s@, i as int, quote),
        decreases s.len() - i,
    {
        i = i + 1;
    }
    i
}

/// Moving down from `to`, the end index of the non-strippable part above `lo`.
pub fn skip_backward(s: &Vec<char>, lo: usize, to: usize, quote: bool) -> (r: usize)
    requires
        lo <= to <= s.len(),
    ensures
        r == skip_back(s@, lo as int, to as int, quote),
        lo <= r <= to,
{
    let mut j = to;
    while j > lo && strippable_char(s[j - 1], quote)
        invariant
            lo <= j <= to <= s.len(),
            skip_back(s@, lo as int, to as int, quote) == skip_back(s@, lo as int, j as int, quote),
        decreases j - lo,
    {
        j = j - 1;
    }
    j
}

/// `s` without its strippable characters at both ends.
pub fn trim_chars(s: &Vec<char>, quote: bool) -> (r: Vec<char>)
    ensures
        r@ == trimmed(s@, quote),
{
    let a = skip_forward(s, 0, quote);
    let b = skip_backward(s, a, s.len(), quote);
    sub_chars(s, a, b)
}

// ---------------------------------------------------------------------------
// Splitting
// ---------------------------------------------------------------------------

/// `str::split(sep)`: the pieces of `s` between the occurrences of `sep`
/// (an empty `s` is one empty piece).
pub open spec fn split_on(s: Seq<char>, sep: char) -> Seq<Seq<char>>
    decreases s.len(),
{
    if s.len() == 0 {
        seq![Seq::<char>::empty()]
    } else {
        let init = split_on(s.drop_last(), sep);
        if s.last() == sep {
            init.push(Seq::<char>::empty())
        } else {
            init.update(init.len() - 1, init.last().push(s.last()))
        }
    }
}

/// `split_on` always yields at least one piece.
pub proof fn lemma_split_nonempty(s: Seq<char>, sep: char)
    ensures
        split_on(s, sep).len() >= 1,
    decreases s.len(),
{
    if s.len() > 0 {
        lemma_split_nonempty(s.drop_last(), sep);
    }
}

/// The views of a vector of character vectors.
pub open spec fn piece_views(v: Seq<Vec<char>>) -> Seq<Seq<char>> {
    v.map_values(|p: Vec<char>| p@)
}

/// `str::split(sep)` on character sequences.
pub fn split_chars(s: &Vec<char>, sep: char) -> (r: Vec<Vec<char>>)
    ensures
        piece_views(r@) == split_on(s@, sep),
{
    let mut done: Vec<Vec<char>> = Vec::new();
    let mut cur: Vec<char> = Vec::new();
    let mut i: usize = 0;
    while i < s.len()
        invariant
            i <= s.len(),
            piece_views(done@).push(cur@) == split_on(s@.take(i as int), sep),
        decreases s.len() - i,
    {
        let c = s[i];
        proof {
            assert(s@.take(i + 1).drop_last() =~= s@.take(i as int));
            assert(s@.take(i + 1).last() == c);
            lemma_split_nonempty(s@.take(i as int), sep);
        }
        if c == sep {
            let ghost before_done = done@;
            let ghost before_cur = cur@;
            done.push(cur);
            cur = Vec::new();
            assert(piece_views(done@) =~= piece_views(before_done).push(before_cur));
            assert(piece_views(done@).push(cur@) =~= split_on(s@.take(i + 1), sep));
        } else {
            let ghost before = cur@;
            cur.push(c);
            assert(piece_views(done@).push(cur@) =~= piece_views(done@).push(before).update(
                done@.len() as int,
                before.push(c),
            ));
        }
        i = i + 1;
    }
    let ghost before_done = done@;
    let ghost before_cur = cur@;
    done.push(cur);
    assert(s@.take(s.len() as int) =~= s@);
    assert(piece_views(done@) =~= piece_views(before_done).push(before_cur));
    done
}

// ---------------------------------------------------------------------------
// Numbers
// ---------------------------------------------------------------------------

/// Every character is an ASCII digit.
pub open spec fn all_digits(d: Seq<char>) -> bool {
    forall|i: int| 0 <= i < d.len() ==> is_digit(#[trigger] d[i])
}

/// The value of a string of decimal digits.
pub open spec fn digits_value(d: Seq<char>) -> int
    decreases d.len(),
{
    if d.len() == 0 {
        0
    } else {
        digits_value(d.drop_last()) * 10 + digit_value(d.last())
    }
}

/// `str::parse` for an unsigned integer type whose largest value is `max`:
/// an optional `+`, then at least one ASCII digit and nothing else, with a
/// value of at most `max`.
pub open spec fn parse_unsigned(s: Seq<char>, max: int) -> Option<int> {
    let d = if s.len() > 0 && s[0] == '+' {
        s.drop_first()
    } else {
        s
    };
    if d.len() == 0 || !all_digits(d) || digits_value(d) > max {
        None
    } else {
        Some(digits_value(d))
    }
}

/// The decimal representation of `n`, without leading zeros.
pub open spec fn decimal(n: nat) -> Seq<char>
    decreases n,
{
    if n < 10 {
        seq![digit_char(n as int)]
    } else {
        decimal(n / 10).push(digit_char((n % 10) as int))
    }
}

/// A digit string has a non-negative value, and a prefix of it never has a
/// larger value.
pub proof fn lemma_digits_prefix(d: Seq<char>, k: int)
    requires
        all_digits(d),
        0 <= k <= d.len(),
    ensures
        0 <= digits_value(d.take(k)) <= digits_value(d),
    decreases d.len(),
{
    if d.len() > 0 {
        let init = d.drop_last();
        assert(all_digits(init)) by {
            assert forall|i: int| 0 <= i < init.len() implies is_digit(#[trigger] init[i]) by {
                assert(init[i] == d[i]);
            }
        }
        assert(is_digit(d[d.len() - 1]));
        if k == d.len() {
            assert(d.take(k) =~= d);
            lemma_digits_prefix(init, init.len() as int);
            assert(init.take(init.len() as int) =~= init);
        } else {
            lemma_digits_prefix(init, k);
            assert(init.take(k) =~= d.take(k));
            lemma_digits_prefix(init, init.len() as int);
            assert(init.take(init.len() as int) =~= init);
        }
    }
}

/// Parses `d[from..]` as an unsigned number of at most `max`, with no sign.
fn parse_digits(d: &Vec<char>, from: usize, max: u64) -> (r: Option<u64>)
    requires
        from <= d.len(),
    ensures
        ({
            let t = d@.subrange(from as int, d.len() as int);
            match r {
                Some(v) => t.len() > 0 && all_digits(t) && digits_value(t) <= max && v
                    == digits_value(t),
                None => !(t.len() > 0 && all_digits(t) && digits_value(t) <= max),
            }
        }),
{
    let ghost t = d@.subrange(from as int, d.len() as int);
    if from == d.len() {
        return None;
    }
    let mut acc: u64 = 0;
    let mut i: usize = from;
    while i < d.len()
        invariant
            from <= i <= d.len(),
            t == d@.subrange(from as int, d.len() as int),
            all_digits(t.take(i - from)),
            acc == digits_value(t.take(i - from)),
            acc <= max,
        decreases d.len() - i,
    {
        let c = d[i];
        let n = code(c);
        let ghost k: int = i - from;
        assert(t[k] == c);
        assert(t.take(k + 1).drop_last() =~= t.take(k));
        if n < 48 || n > 57 {
            assert(!is_digit(t[k]));
            return None;
        }
        let dv: u64 = (n - 48) as u64;
        assert(is_digit(t[k]));
        if dv > max || acc > (max - dv) / 10 {
            proof {
                if dv <= max {
                    assert(acc * 10 + dv > max) by (nonlinear_arith)
                        requires
                            acc > (max - dv) / 10,
                            dv <= max,
                    ;
                }
                if all_digits(t) {
                    lemma_digits_prefix(t, k + 1);
                }
            }
            return None;
        }
        assert(acc * 10 + dv <= max) by (nonlinear_arith)
            requires
                acc <= (max - dv) / 10,
                dv <= 9,
                dv <= max,
        ;
        acc = acc * 10 + dv;
        assert(all_digits(t.take(k + 1))) by {
            assert forall|j: int| 0 <= j < k + 1 implies is_digit(#[trigger] t.take(k + 1)[j]) by {
                if j < k {
                    assert(t.take(k + 1)[j] == t.take(k)[j]);
                }
            }
        }
        i = i + 1;
    }
    assert(t.take(d.len() - from) =~= t);
    Some(acc)
}

/// `str::parse::<uN>()` on a character sequence, for a type whose largest
/// value is `max`.
pub fn parse_number(s: &Vec<char>, max: u64) -> (r: Option<u64>)
    ensures
        match r {
            Some(v) => parse_unsigned(s@, max as int) == Some(v as int),
            None => parse_unsigned(s@, max as int) is None,
        },
{
    if s.len() > 0 && s[0] == '+' {
        assert(s@.subrange(1, s.len() as int) =~= s@.drop_first());
        parse_digits(s, 1, max)
    } else {
        assert(s@.subrange(0, s.len() as int) =~= s@);
        parse_digits(s, 0, max)
    }
}

fn digit_of(d: u64) -> (c: char)
    requires
        d < 10,
    ensures
        c == digit_char(d as int),
{
    if d == 0 {
        '0'
    } else if d == 1 {
        '1'
    } else if d == 2 {
        '2'
    } else if d == 3 {
        '3'
    } else if d == 4 {
        '4'
    } else if d == 5 {
        '5'
    } else if d == 6 {
        '6'
    } else if d == 7 {
        '7'
    } else if d == 8 {
        '8'
    } else {
        '9'
    }
}

/// Appends the decimal representation of `n`.
pub fn push_decimal(out: &mut Vec<char>, n: u64)
    ensures
        final(out)@ == old(out)@ + decimal(n as nat),
    decreases n,
{
    if n >= 10 {
        push_decimal(out, n / 10);
    }
    out.push(digit_of(n % 10));
    assert(decimal(n as nat) == if n < 10 {
        seq![digit_char(n as int)]
    } else {
        decimal((n / 10) as nat).push(digit_char((n % 10) as int))
    });
}

/// `u64::to_string`.
pub fn decimal_string(n: u64) -> (s: String)
    ensures
        s@ == decimal(n as nat),
{
    let mut v: Vec<char> = Vec::new();
    push_decimal(&mut v, n);
    assert(v@ =~= decimal(n as nat));
    string_of(&v)
}

// ---------------------------------------------------------------------------
// Searching
// ---------------------------------------------------------------------------

/// `m` occurs in `s` at index `i`.
pub open spec fn occurs_at(s: Seq<char>, m: Seq<char>, i: int) -> bool {
    0 <= i && i + m.len() <= s.len() && s.subrange(i, i + m.len()) == m
}

/// Scanning down from `j`, the highest index at most `j` where `m` occurs.
pub open spec fn last_occurrence(s: Seq<char>, m: Seq<char>, j: int) -> Option<int>
    decreases j + 1,
{
    if j < 0 {
        None
    } else if occurs_at(s, m, j) {
        Some(j)
    } else {
        last_occurrence(s, m, j - 1)
    }
}

/// `s.rsplit(m).next()`: what follows the last occurrence of `m` in `s`, or
/// all of `s` where `m` does not occur.
pub open spec fn after_last(s: Seq<char>, m: Seq<char>) -> Seq<char> {
    match last_occurrence(s, m, s.len() - m.len()) {
        Some(i) => s.subrange(i + m.len(), s.len() as int),
        None => s,
    }
}

/// Whether `m` occurs in `s` at index `i`.
fn occurs(s: &Vec<char>, m: &Vec<char>, i: usize) -> (r: bool)
    requires
        i + m.len() <= s.len(),
    ensures
        r == occurs_at(s@, m@, i as int),
{
    let mut k: usize = 0;
    while k < m.len()
        invariant
            k <= m.len(),
            i + m.len() <= s.len(),
            forall|j: int| 0 <= j < k ==> s@[i + j] == m@[j],
        decreases m.len() - k,
    {
        if s[i + k] != m[k] {
            assert(s@.subrange(i as int, i + m.len())[k as int] != m@[k as int]);
            return false;
        }
        k = k + 1;
    }
    assert(s@.subrange(i as int, i + m.len()) =~= m@);
    true
}

/// What follows the last occurrence of `m` in `s`, or all of `s`.
pub fn after_last_chars(s: &Vec<char>, m: &Vec<char>) -> (r: Vec<char>)
    ensures
        r@ == after_last(s@, m@),
{
    if m.len() > s.len() {
        assert(last_occurrence(s@, m@, s.len() - m.len()) is None);
        return sub_chars(s, 0, s.len());
    }
    let mut j: usize = s.len() - m.len();
    loop
        invariant
            j + m.len() <= s.len(),
            last_occurrence(s@, m@, s.len() - m.len()) == last_occurrence(s@, m@, j as int),
        decreases j,
    {
        if occurs(s, m, j) {
            return sub_chars(s, j + m.len(), s.len());
        }
        if j == 0 {
            assert(last_occurrence(s@, m@, -1) is None);
            assert(s@.subrange(0, s.len() as int) =~= s@);
            return sub_chars(s, 0, s.len());
        }
        j = j - 1;
    }
}

/// Moving up from `i`, the end of the run of non-white characters.
pub open spec fn word_end(s: Seq<char>, i: int) -> int
    decreases s.len() - i,
{
    if 0 <= i < s.len() && !is_white(s[i]) {
        word_end(s, i + 1)
    } else {
        i
    }
}

/// `s.split_whitespace().next()`: the first run of non-white characters.
pub open spec fn first_word(s: Seq<char>) -> Option<Seq<char>> {
    let a = skip_fwd(s, 0, false);
    if a >= s.len() {
        None
    } else {
        Some(s.subrange(a, word_end(s, a)))
    }
}

/// The first run of non-white characters of `s`.
pub fn first_word_chars(s: &Vec<char>) -> (r: Option<Vec<char>>)
    ensures
        match first_word(s@) {
            Some(w) => r is Some && r->0@ == w,
            None => r is None,
        },
{
    let a = skip_forward(s, 0, false);
    if a >= s.len() {
        return None;
    }
    let mut e = a;
    while e < s.len() && !white(s[e])
        invariant
            a <= e <= s.len(),
            word_end(s@, a as int) == word_end(s@, e as int),
        decreases s.len() - e,
    {
        e = e + 1;
    }
    Some(sub_chars(s, a, e))
}

/// A decimal representation consists of digits, starts with one, and has
/// the value it represents.
pub proof fn lemma_decimal_digits(n: nat)
    ensures
        decimal(n).len() >= 1,
        all_digits(decimal(n)),
        is_digit(decimal(n)[0]),
        digits_value(decimal(n)) == n,
    decreases n,
{
    let d = digit_char((n % 10) as int);
    assert(is_digit(d) && digit_value(d) == n % 10);
    if n >= 10 {
        lemma_decimal_digits(n / 10);
        let s = decimal(n);
        assert(s == decimal(n / 10).push(d));
        assert(s.drop_last() =~= decimal(n / 10));
        assert(s.last() == d);
        assert(digits_value(s) == digits_value(s.drop_last()) * 10 + digit_value(s.last()));
        assert(n == (n / 10) * 10 + n % 10);
        assert forall|i: int| 0 <= i < s.len() implies is_digit(#[trigger] s[i]) by {
            if i < s.len() - 1 {
                assert(s[i] == decimal(n / 10)[i]);
            }
        }
    } else {
        assert(decimal(n) == seq![d]);
        assert(decimal(n).drop_last() =~= Seq::<char>::empty());
        assert(decimal(n).last() == d);
        assert(digits_value(decimal(n)) == digits_value(decimal(n).drop_last()) * 10 + digit_value(
            decimal(n).last(),
        ));
    }
}

/// What `decimal` writes, `parse_unsigned` reads back.
pub proof fn lemma_decimal_reads_back(n: nat, max: int)
    requires
        n <= max,
    ensures
        parse_unsigned(decimal(n), max) == Some(n as int),
{
    lemma_decimal_digits(n);
}

/// Scanning down from `j`, the occurrence found is the one at `i` where no
/// later one exists up to `j`.
pub proof fn lemma_last_occurrence_at(s: Seq<char>, m: Seq<char>, j: int, i: int)
    requires
        0 <= i <= j,
        occurs_at(s, m, i),
        forall|k: int| i < k <= j ==> !occurs_at(s, m, k),
    ensures
        last_occurrence(s, m, j) == Some(i),
    decreases j - i,
{
    if j > i {
        lemma_last_occurrence_at(s, m, j - 1, i);
    }
}

/// The first word of a text that starts with a decimal number, followed by
/// white space or nothing, is that number.
pub proof fn lemma_first_word_is_number(t: Seq<char>, n: nat)
    requires
        ({
            let d = decimal(n);
            &&& t.len() >= d.len()
            &&& t.subrange(0, d.len() as int) == d
            &&& (t.len() == d.len() || is_white(t[d.len() as int]))
        }),
    ensures
        first_word(t) == Some(decimal(n)),
{
    let d = decimal(n);
    lemma_decimal_digits(n);
    assert(t[0] == d[0]);
    assert(skip_fwd(t, 0, false) == 0);
    lemma_word_end_of_digits(t, d, 0);
}

proof fn lemma_word_end_of_digits(t: Seq<char>, d: Seq<char>, k: int)
    requires
        all_digits(d),
        0 <= k <= d.len() <= t.len(),
        t.subrange(0, d.len() as int) == d,
        t.len() == d.len() || is_white(t[d.len() as int]),
    ensures
        word_end(t, k) == d.len(),
    decreases d.len() - k,
{
    if k < d.len() {
        assert(t[k] == d[k]);
        assert(is_digit(d[k]));
        lemma_word_end_of_digits(t, d, k + 1);
    }
}

/// A text without the separator is a single piece.
pub proof fn lemma_split_single(x: Seq<char>, sep: char)
    requires
        forall|i: int| 0 <= i < x.len() ==> x[i] != sep,
    ensures
        split_on(x, sep) == seq![x],
    decreases x.len(),
{
    if x.len() > 0 {
        let init = x.drop_last();
        assert forall|i: int| 0 <= i < init.len() implies init[i] != sep by {
            assert(init[i] == x[i]);
        }
        lemma_split_single(init, sep);
        assert(x.last() != sep);
        assert(init.push(x.last()) =~= x);
        assert(seq![init].update(0, init.push(x.last())) =~= seq![x]);
    } else {
        assert(x =~= Seq::<char>::empty());
    }
}

/// Splitting `x`, a separator, and `y`, where `x` holds no separator, gives
/// `x` followed by the pieces of `y`.
pub proof fn lemma_split_after_piece(x: Seq<char>, sep: char, y: Seq<char>)
    requires
        forall|i: int| 0 <= i < x.len() ==> x[i] != sep,
    ensures
        split_on(x + seq![sep] + y, sep) == seq![x] + split_on(y, sep),
    decreases y.len(),
{
    let s = x + seq![sep] + y;
    if y.len() == 0 {
        assert(s.drop_last() =~= x);
        lemma_split_single(x, sep);
        assert(split_on(s, sep) =~= seq![x] + split_on(y, sep));
    } else {
        let yi = y.drop_last();
        lemma_split_after_piece(x, sep, yi);
        assert(s.drop_last() =~= x + seq![sep] + yi);
        assert(s.last() == y.last());
        lemma_split_nonempty(yi, sep);
        let z = split_on(yi, sep);
        if y.last() == sep {
            assert(split_on(s, sep) =~= seq![x] + split_on(y, sep));
        } else {
            assert((seq![x] + z).update((seq![x] + z).len() - 1, (seq![x] + z).last().push(y.last()))
                =~= seq![x] + z.update(z.len() - 1, z.last().push(y.last())));
            assert(split_on(s, sep) =~= seq![x] + split_on(y, sep));
        }
    }
}

/// A text that starts and ends with characters other than white space is
/// its own trim.
pub proof fn lemma_trim_untouched(s: Seq<char>)
    requires
        s.len() > 0,
        !is_white(s[0]),
        !is_white(s[s.len() - 1]),
    ensures
        trimmed(s, false) == s,
{
    assert(skip_fwd(s, 0, false) == 0);
    assert(skip_back(s, 0, s.len() as int, false) == s.len());
    assert(s.subrange(0, s.len() as int) =~= s);
}

} // verus!

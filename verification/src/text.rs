//! Character-level text utilities with exact specifications.
//!
//! Text is handled as sequences of `char`; the specifications below state what
//! each operation does on those sequences, in the terms of std's `str` methods
//! that the rest of the library mirrors (`trim`, `find`, `split_once`, ...).
use vstd::prelude::*;

verus! {

// ───────────────────────────── specifications ─────────────────────────────

/// Unicode `White_Space` (what `char::is_whitespace` accepts).
pub open spec fn is_ws(c: char) -> bool {
    let u = c as u32;
    ||| 0x09 <= u <= 0x0D
    ||| u == 0x20
    ||| u == 0x85
    ||| u == 0xA0
    ||| u == 0x1680
    ||| 0x2000 <= u <= 0x200A
    ||| u == 0x2028
    ||| u == 0x2029
    ||| u == 0x202F
    ||| u == 0x205F
    ||| u == 0x3000
}

/// `s` without its leading white space.
pub open spec fn trim_start(s: Seq<char>) -> Seq<char>
    decreases s.len(),
{
    if s.len() > 0 && is_ws(s[0]) {
        trim_start(s.drop_first())
    } else {
        s
    }
}

/// `s` without its trailing white space.
pub open spec fn trim_end(s: Seq<char>) -> Seq<char>
    decreases s.len(),
{
    if s.len() > 0 && is_ws(s.last()) {
        trim_end(s.drop_last())
    } else {
        s
    }
}

/// `s` without leading and trailing white space (`str::trim`).
pub open spec fn trim(s: Seq<char>) -> Seq<char> {
    trim_end(trim_start(s))
}

/// `s` without leading copies of `c`.
pub open spec fn trim_start_char(s: Seq<char>, c: char) -> Seq<char>
    decreases s.len(),
{
    if s.len() > 0 && s[0] == c {
        trim_start_char(s.drop_first(), c)
    } else {
        s
    }
}

/// `s` without trailing copies of `c`.
pub open spec fn trim_end_char(s: Seq<char>, c: char) -> Seq<char>
    decreases s.len(),
{
    if s.len() > 0 && s.last() == c {
        trim_end_char(s.drop_last(), c)
    } else {
        s
    }
}

/// `s` without leading and trailing copies of `c` (`str::trim_matches(c)`).
pub open spec fn trim_char(s: Seq<char>, c: char) -> Seq<char> {
    trim_end_char(trim_start_char(s, c), c)
}

/// `p` is a prefix of `s`.
pub open spec fn has_prefix(s: Seq<char>, p: Seq<char>) -> bool {
    p.len() <= s.len() && s.subrange(0, p.len() as int) == p
}

/// `p` is a suffix of `s`.
pub open spec fn has_suffix(s: Seq<char>, p: Seq<char>) -> bool {
    p.len() <= s.len() && s.subrange(s.len() - p.len(), s.len() as int) == p
}

/// `s` without the prefix `p`, if it has it (`str::strip_prefix`).
pub open spec fn strip_prefix(s: Seq<char>, p: Seq<char>) -> Option<Seq<char>> {
    if has_prefix(s, p) {
        Some(s.subrange(p.len() as int, s.len() as int))
    } else {
        None
    }
}

/// `s` without the suffix `p`, if it has it (`str::strip_suffix`).
pub open spec fn strip_suffix(s: Seq<char>, p: Seq<char>) -> Option<Seq<char>> {
    if has_suffix(s, p) {
        Some(s.subrange(0, s.len() - p.len()))
    } else {
        None
    }
}

/// `p` occurs in `s` at position `i`.
pub open spec fn occurs_at(s: Seq<char>, p: Seq<char>, i: int) -> bool {
    0 <= i && i + p.len() <= s.len() && s.subrange(i, i + p.len()) == p
}

/// The first position at or after `start` where `p` occurs in `s`.
pub open spec fn find_from(s: Seq<char>, p: Seq<char>, start: int) -> Option<int>
    decreases s.len() + 1 - start,
{
    if start < 0 || start + p.len() > s.len() {
        None
    } else if occurs_at(s, p, start) {
        Some(start)
    } else {
        find_from(s, p, start + 1)
    }
}

/// The first position where `p` occurs in `s` (`str::find`).
pub open spec fn find(s: Seq<char>, p: Seq<char>) -> Option<int> {
    find_from(s, p, 0)
}

/// `p` occurs somewhere in `s` (`str::contains`).
pub open spec fn contains(s: Seq<char>, p: Seq<char>) -> bool {
    find(s, p) is Some
}

/// The last position of `c` among the first `n` characters of `s`.
pub open spec fn rfind_char_upto(s: Seq<char>, c: char, n: int) -> Option<int>
    decreases n,
{
    if n <= 0 {
        None
    } else if s[n - 1] == c {
        Some(n - 1)
    } else {
        rfind_char_upto(s, c, n - 1)
    }
}

/// The last position of `c` in `s` (`str::rfind(c)`).
pub open spec fn rfind_char(s: Seq<char>, c: char) -> Option<int> {
    rfind_char_upto(s, c, s.len() as int)
}

/// The parts of `s` before and after the first `c` (`str::split_once(c)`).
pub open spec fn split_once(s: Seq<char>, c: char) -> Option<(Seq<char>, Seq<char>)> {
    match find(s, seq![c]) {
        Some(i) => Some((s.subrange(0, i), s.subrange(i + 1, s.len() as int))),
        None => None,
    }
}

/// The pieces of `s` between the occurrences of `c` (`str::split(c)`).
pub open spec fn split_char(s: Seq<char>, c: char) -> Seq<Seq<char>>
    decreases s.len(),
{
    match find(s, seq![c]) {
        Some(i) => {
            if 0 <= i < s.len() {
                seq![s.subrange(0, i)] + split_char(s.subrange(i + 1, s.len() as int), c)
            } else {
                seq![s]
            }
        },
        None => seq![s],
    }
}

/// `s` with a single trailing `'\r'` removed.
pub open spec fn strip_cr(s: Seq<char>) -> Seq<char> {
    if s.len() > 0 && s.last() == '\r' {
        s.drop_last()
    } else {
        s
    }
}

/// The lines of `s` (`str::lines`): pieces ended by `'\n'`, a `'\r'` right
/// before that `'\n'` removed; no piece after a final `'\n'`.
pub open spec fn lines(s: Seq<char>) -> Seq<Seq<char>>
    decreases s.len(),
{
    if s.len() == 0 {
        Seq::empty()
    } else {
        match find(s, seq!['\n']) {
            Some(i) => {
                if 0 <= i < s.len() {
                    seq![strip_cr(s.subrange(0, i))] + lines(s.subrange(i + 1, s.len() as int))
                } else {
                    seq![s]
                }
            },
            None => seq![s],
        }
    }
}

/// `s` followed by enough copies of `fill` to be `w` characters long
/// (what `{:<w}` formatting does).
pub open spec fn pad_right(s: Seq<char>, w: nat, fill: char) -> Seq<char> {
    if s.len() >= w {
        s
    } else {
        s + Seq::new((w - s.len()) as nat, |i: int| fill)
    }
}

/// `c` is an ASCII decimal digit.
pub open spec fn is_digit(c: char) -> bool {
    '0' <= c <= '9'
}

/// The value of the ASCII digit `c`.
pub open spec fn digit_value(c: char) -> nat {
    ((c as u32) - ('0' as u32)) as nat
}

/// The digit character for `d < 10`.
pub open spec fn digit_char(d: nat) -> char {
    ((d + ('0' as u32)) as u32) as char
}

/// The number written by the decimal digits `s`.
pub open spec fn digits_value(s: Seq<char>) -> nat
    decreases s.len(),
{
    if s.len() == 0 {
        0
    } else {
        digits_value(s.drop_last()) * 10 + digit_value(s.last())
    }
}

/// Every character of `s` is a decimal digit.
pub open spec fn all_digits(s: Seq<char>) -> bool {
    forall|i: int| 0 <= i < s.len() ==> is_digit(#[trigger] s[i])
}

/// `s` without one leading `'+'`.
pub open spec fn unsigned_body(s: Seq<char>) -> Seq<char> {
    if s.len() > 0 && s[0] == '+' {
        s.drop_first()
    } else {
        s
    }
}

/// What `str::parse` gives for an unsigned integer type whose largest value
/// is `max`: an optional `'+'`, then at least one decimal digit, and a value
/// of at most `max`.
pub open spec fn parse_unsigned(s: Seq<char>, max: nat) -> Option<nat> {
    let body = unsigned_body(s);
    if body.len() > 0 && all_digits(body) && digits_value(body) <= max {
        Some(digits_value(body))
    } else {
        None
    }
}

/// The decimal digits of `n`, without leading zeros (`n.to_string()`).
pub open spec fn decimal(n: nat) -> Seq<char>
    decreases n,
{
    if n < 10 {
        seq![digit_char(n)]
    } else {
        decimal(n / 10).push(digit_char(n % 10))
    }
}


/// `a` comes strictly before `b` in lexicographic order of code points
/// (the order of `str`'s `Ord`, which compares UTF-8 bytes).
pub open spec fn str_lt(a: Seq<char>, b: Seq<char>) -> bool
    decreases a.len(),
{
    if a.len() == 0 {
        b.len() > 0
    } else if b.len() == 0 {
        false
    } else if a[0] != b[0] {
        (a[0] as u32) < (b[0] as u32)
    } else {
        str_lt(a.drop_first(), b.drop_first())
    }
}

/// Distinct characters have distinct code points.
pub proof fn lemma_char_u32_injective(x: char, y: char)
    ensures
        (x as u32) == (y as u32) ==> x == y,
{
    vstd::utf8::char_u32_cast(x, x as u32);
    vstd::utf8::char_u32_cast(y, y as u32);
}

/// Lexicographic order is a strict total order.
pub proof fn lemma_str_lt_order(a: Seq<char>, b: Seq<char>, c: Seq<char>)
    ensures
        !str_lt(a, a),
        str_lt(a, b) ==> !str_lt(b, a),
        a != b ==> str_lt(a, b) || str_lt(b, a),
        str_lt(a, b) && str_lt(b, c) ==> str_lt(a, c),
    decreases a.len() + b.len() + c.len(),
{
    if a.len() > 0 && b.len() > 0 && c.len() > 0 {
        lemma_str_lt_order(a.drop_first(), b.drop_first(), c.drop_first());
        if a[0] == b[0] && a.drop_first() == b.drop_first() {
            assert(a =~= seq![a[0]] + a.drop_first());
            assert(b =~= seq![b[0]] + b.drop_first());
        }
        lemma_char_u32_injective(a[0], b[0]);
        lemma_char_u32_injective(b[0], c[0]);
    } else if a.len() > 0 && b.len() > 0 {
        lemma_str_lt_order(a.drop_first(), b.drop_first(), c);
        if a[0] == b[0] && a.drop_first() == b.drop_first() {
            assert(a =~= seq![a[0]] + a.drop_first());
            assert(b =~= seq![b[0]] + b.drop_first());
        }
        lemma_char_u32_injective(a[0], b[0]);
    } else if a.len() > 0 {
        lemma_str_lt_order(a.drop_first(), b, c);
    } else if b.len() == 0 {
        assert(a =~= b);
    }
}

// ───────────────────────────── lemmas ─────────────────────────────

/// The digit character of `d` is a digit with value `d`.
pub proof fn lemma_digit_char(d: nat)
    requires
        d < 10,
    ensures
        is_digit(digit_char(d)),
        digit_value(digit_char(d)) == d,
        digit_char(d) != '+',
{
    assert(((d + ('0' as u32)) as u32) == d + 48);
}

/// Digits read back give the number they were written from.
pub proof fn lemma_decimal_digits(n: nat)
    ensures
        all_digits(decimal(n)),
        digits_value(decimal(n)) == n,
        decimal(n).len() > 0,
        decimal(n)[0] != '+',
    decreases n,
{
    lemma_digit_char(n % 10);
    if n < 10 {
        lemma_digit_char(n);
        let d1 = seq![digit_char(n)];
        assert(d1.drop_last() =~= Seq::<char>::empty());
        assert(digits_value(Seq::<char>::empty()) == 0);
        assert(digits_value(d1) == digits_value(d1.drop_last()) * 10 + digit_value(d1.last()));
    } else {
        lemma_digit_char(n % 10);
        lemma_decimal_digits(n / 10);
        let d = decimal(n / 10);
        assert(decimal(n).drop_last() =~= d);
        assert(decimal(n).last() == digit_char(n % 10));
        assert(n == (n / 10) * 10 + n % 10);
        assert(digits_value(decimal(n)) == digits_value(d) * 10 + digit_value(digit_char(n % 10)));
        assert forall|i: int| 0 <= i < decimal(n).len() implies is_digit(#[trigger] decimal(n)[i]) by {
            if i < d.len() {
                assert(decimal(n)[i] == d[i]);
            }
        }
    }
}

/// A number written in decimal parses back to itself (`n.to_string()`
/// then `str::parse`) when it fits the target type.
pub proof fn lemma_parse_decimal(n: nat, max: nat)
    requires
        n <= max,
    ensures
        parse_unsigned(decimal(n), max) == Some(n),
{
    lemma_decimal_digits(n);
    assert(unsigned_body(decimal(n)) == decimal(n));
}

/// The first `c` of `a + [c] + rest` ends `a`, when `a` has none.
proof fn lemma_find_char_from(a: Seq<char>, c: char, rest: Seq<char>, k: int)
    requires
        !a.contains(c),
        0 <= k <= a.len(),
    ensures
        find_from(a + seq![c] + rest, seq![c], k) == Some(a.len() as int),
    decreases a.len() - k,
{
    let s = a + seq![c] + rest;
    let p = seq![c];
    if k < a.len() {
        if occurs_at(s, p, k) {
            assert(s.subrange(k, k + 1)[0] == s[k]);
            assert(s[k] == a[k]);
            assert(a.contains(a[k]));
        }
        lemma_find_char_from(a, c, rest, k + 1);
    } else {
        assert(s.subrange(k, k + 1) =~= p);
    }
}

/// The first `c` of `a + [c] + rest` ends `a`, when `a` has none.
pub proof fn lemma_find_char(a: Seq<char>, c: char, rest: Seq<char>)
    requires
        !a.contains(c),
    ensures
        find(a + seq![c] + rest, seq![c]) == Some(a.len() as int),
{
    lemma_find_char_from(a, c, rest, 0);
}

/// The lines of `a + "\n" + rest`, when `a` has no newline: `a` (without a
/// final carriage return), then the lines of `rest`.
pub proof fn lemma_lines_cons(a: Seq<char>, rest: Seq<char>)
    requires
        !a.contains('\n'),
    ensures
        lines(a + seq!['\n'] + rest) == seq![strip_cr(a)] + lines(rest),
{
    let s = a + seq!['\n'] + rest;
    lemma_find_char(a, '\n', rest);
    assert(s.subrange(0, a.len() as int) =~= a);
    assert(s.subrange((a.len() + 1) as int, s.len() as int) =~= rest);
}

/// A text with a newline is split at its first one.
proof fn lemma_split_first_newline(a: Seq<char>) -> (r: (Seq<char>, Seq<char>))
    requires
        a.contains('\n'),
    ensures
        a == r.0 + seq!['\n'] + r.1,
        !r.0.contains('\n'),
    decreases a.len(),
{
    if a[0] == '\n' {
        assert(a =~= Seq::<char>::empty() + seq!['\n'] + a.drop_first());
        (Seq::empty(), a.drop_first())
    } else {
        let i = choose|i: int| 0 <= i < a.len() && a[i] == '\n';
        assert(a.drop_first()[i - 1] == '\n');
        let (x, y) = lemma_split_first_newline(a.drop_first());
        let x2 = seq![a[0]] + x;
        assert(a =~= seq![a[0]] + a.drop_first());
        assert(seq![a[0]] + (x + seq!['\n'] + y) =~= x2 + seq!['\n'] + y);
        if x2.contains('\n') {
            let k = choose|k: int| 0 <= k < x2.len() && x2[k] == '\n';
            assert(k > 0);
            assert(x[k - 1] == '\n');
        }
        (x2, y)
    }
}

/// The lines of `a + b`, when `a` is empty or ends with a newline, are
/// those of `a` followed by those of `b`.
pub proof fn lemma_lines_append(a: Seq<char>, b: Seq<char>)
    requires
        a.len() == 0 || a.last() == '\n',
    ensures
        lines(a + b) == lines(a) + lines(b),
    decreases a.len(),
{
    if a.len() == 0 {
        assert(a + b =~= b);
        assert(lines(a) =~= Seq::<Seq<char>>::empty());
        assert(lines(a) + lines(b) =~= lines(b));
    } else {
        assert(a[a.len() - 1] == '\n');
        let (x, y) = lemma_split_first_newline(a);
        assert(a + b =~= x + seq!['\n'] + (y + b));
        lemma_lines_cons(x, y + b);
        lemma_lines_cons(x, y);
        if y.len() > 0 {
            assert(y.last() == a.last());
        }
        lemma_lines_append(y, b);
        assert(lines(a + b) =~= lines(a) + lines(b));
    }
}

/// `find_from` reports the first occurrence at or after `start`.
proof fn lemma_find_from_first(s: Seq<char>, p: Seq<char>, start: int)
    requires
        start >= 0,
    ensures
        find_from(s, p, start) matches Some(i) ==> forall|k: int| start <= k < i ==> !occurs_at(s, p, k),
        find_from(s, p, start) is None ==> forall|k: int| start <= k ==> !occurs_at(s, p, k),
    decreases s.len() + 1 - start,
{
    if start + p.len() <= s.len() && !occurs_at(s, p, start) {
        lemma_find_from_first(s, p, start + 1);
        assert forall|k: int| start <= k && k < start + 1 implies !occurs_at(s, p, k) by {
            assert(k == start);
        }
    }
}

/// No `c` stands in `s` from position `i` up to `k`.
pub open spec fn lacks(s: Seq<char>, c: char, i: int, k: int) -> bool
    decreases k - i,
{
    i >= k || (s[i] != c && lacks(s, c, i + 1, k))
}

/// What `lacks` says, position by position.
pub proof fn lemma_lacks(s: Seq<char>, c: char, i: int, k: int)
    requires
        lacks(s, c, i, k),
    ensures
        forall|j: int| i <= j < k ==> s[j] != c,
    decreases k - i,
{
    if i < k {
        lemma_lacks(s, c, i + 1, k);
    }
}

/// No `c` from `i` up to `k` when none stands in either part.
pub proof fn lemma_lacks_join(s: Seq<char>, c: char, i: int, m: int, k: int)
    requires
        i <= m <= k,
        lacks(s, c, i, m),
        lacks(s, c, m, k),
    ensures
        lacks(s, c, i, k),
    decreases m - i,
{
    if i < m {
        lemma_lacks_join(s, c, i + 1, m, k);
    }
}

/// Trimming the end keeps a prefix that does not end with white space.
pub proof fn lemma_trim_end_keeps_prefix(s: Seq<char>, p: Seq<char>)
    requires
        p.len() > 0,
        !is_ws(p.last()),
        has_prefix(s, p),
    ensures
        has_prefix(trim_end(s), p),
    decreases s.len(),
{
    if s.len() > 0 && is_ws(s.last()) {
        assert(s.len() > p.len()) by {
            if s.len() == p.len() {
                assert(s.last() == s.subrange(0, p.len() as int)[p.len() - 1]);
            }
        }
        assert(s.drop_last().subrange(0, p.len() as int) =~= s.subrange(0, p.len() as int));
        lemma_trim_end_keeps_prefix(s.drop_last(), p);
    }
}

/// What `rfind_char_upto` reports is a `c` before `n`.
pub proof fn lemma_rfind_char_upto(s: Seq<char>, c: char, n: int)
    ensures
        rfind_char_upto(s, c, n) matches Some(i) ==> 0 <= i < n && s[i] == c,
    decreases n,
{
    if n > 0 && s[n - 1] != c {
        lemma_rfind_char_upto(s, c, n - 1);
    }
}

/// A text holds every piece that occurs in it at some position.
pub proof fn lemma_occurs_contains(s: Seq<char>, p: Seq<char>, i: int)
    requires
        occurs_at(s, p, i),
    ensures
        contains(s, p),
{
    lemma_find_from_first(s, p, 0);
}

/// No line of a text holds a newline.
pub proof fn lemma_lines_have_no_newline(s: Seq<char>)
    ensures
        forall|j: int| 0 <= j < lines(s).len() ==> !(#[trigger] lines(s)[j]).contains('\n'),
    decreases s.len(),
{
    if s.len() > 0 {
        let p = seq!['\n'];
        lemma_find_from_first(s, p, 0);
        lemma_find_from_occurs(s, p, 0);
        match find(s, p) {
            Some(i) => {
                let head = s.subrange(0, i);
                let rest = s.subrange(i + 1, s.len() as int);
                assert(!head.contains('\n')) by {
                    if head.contains('\n') {
                        let k = choose|k: int| 0 <= k < head.len() && head[k] == '\n';
                        assert(s.subrange(k, k + 1) =~= p);
                        assert(occurs_at(s, p, k));
                    }
                }
                let c = strip_cr(head);
                assert(!c.contains('\n')) by {
                    if c.contains('\n') {
                        let k = choose|k: int| 0 <= k < c.len() && c[k] == '\n';
                        assert(c[k] == head[k]);
                    }
                }
                lemma_lines_have_no_newline(rest);
                assert forall|j: int| 0 <= j < lines(s).len() implies !(#[trigger] lines(s)[j]).contains('\n') by {
                    if j > 0 {
                        assert(lines(s)[j] == lines(rest)[j - 1]);
                    }
                }
            },
            None => {
                assert(!s.contains('\n')) by {
                    if s.contains('\n') {
                        let k = choose|k: int| 0 <= k < s.len() && s[k] == '\n';
                        assert(s.subrange(k, k + 1) =~= p);
                        assert(occurs_at(s, p, k));
                    }
                }
            },
        }
    }
}

/// Lines without newlines, each ended by one, read back as themselves
/// (without a final carriage return).
pub proof fn lemma_lines_of_joined(ls: Seq<Seq<char>>)
    requires
        ls.len() > 0,
        forall|j: int| 0 <= j < ls.len() ==> !(#[trigger] ls[j]).contains('\n'),
    ensures
        lines(join_with(ls, "\n"@) + "\n"@) == ls.map_values(|l: Seq<char>| strip_cr(l)),
    decreases ls.len(),
{
    reveal_strlit("\n");
    let nl = "\n"@;
    assert(nl =~= seq!['\n']);
    let last = ls.last();
    assert(!last.contains('\n'));
    lemma_lines_cons(last, Seq::empty());
    assert(last + seq!['\n'] + Seq::<char>::empty() =~= last + nl);
    assert(lines(Seq::<char>::empty()) =~= Seq::<Seq<char>>::empty());
    if ls.len() == 1 {
        assert(join_with(ls, nl) == ls[0]);
        assert(ls.map_values(|l: Seq<char>| strip_cr(l)) =~= seq![strip_cr(last)]);
    } else {
        let init = ls.drop_last();
        assert forall|j: int| 0 <= j < init.len() implies !(#[trigger] init[j]).contains('\n') by {
            assert(init[j] == ls[j]);
        }
        lemma_lines_of_joined(init);
        let a = join_with(init, nl) + nl;
        assert(join_with(ls, nl) + nl =~= a + (last + nl));
        assert(a.last() == '\n');
        lemma_lines_append(a, last + nl);
        assert(ls.map_values(|l: Seq<char>| strip_cr(l)) =~= init.map_values(|l: Seq<char>| strip_cr(l)).push(
            strip_cr(last),
        ));
    }
}

/// Trimming the start of a text with one more character at its end.
proof fn lemma_trim_start_push(t: Seq<char>, c: char)
    ensures
        trim_start(t.push(c)) == if trim_start(t).len() > 0 {
            trim_start(t).push(c)
        } else {
            trim_start(seq![c])
        },
    decreases t.len(),
{
    if t.len() == 0 {
        assert(t.push(c) =~= seq![c]);
    } else if is_ws(t[0]) {
        assert(t.push(c).drop_first() =~= t.drop_first().push(c));
        lemma_trim_start_push(t.drop_first(), c);
    } else {
        assert(t.push(c)[0] == t[0]);
    }
}

/// Trimming ignores a final carriage return.
pub proof fn lemma_trim_strip_cr(s: Seq<char>)
    ensures
        trim(strip_cr(s)) == trim(s),
{
    if s.len() > 0 && s.last() == '\r' {
        let t = s.drop_last();
        assert(s =~= t.push('\r'));
        assert(is_ws('\r'));
        lemma_trim_start_push(t, '\r');
        if trim_start(t).len() > 0 {
            let x = trim_start(t).push('\r');
            assert(x.drop_last() =~= trim_start(t));
        } else {
            assert(seq!['\r'].drop_first() =~= Seq::<char>::empty());
            assert(trim_start(seq!['\r']) == trim_start(Seq::<char>::empty()));
        }
    }
}

/// Trimming the end of `s` keeps a prefix of it.
proof fn lemma_trim_end_prefix(s: Seq<char>)
    ensures
        trim_end(s).len() <= s.len(),
        trim_end(s) == s.take(trim_end(s).len() as int),
    decreases s.len(),
{
    if s.len() > 0 && is_ws(s.last()) {
        lemma_trim_end_prefix(s.drop_last());
        assert(s.drop_last().take(trim_end(s).len() as int) =~= s.take(trim_end(s).len() as int));
    } else {
        assert(s.take(s.len() as int) =~= s);
    }
}

/// A line that does not start with white space, trimmed and stripped of a
/// final carriage return, starts with `p` only when the line itself does.
pub proof fn lemma_trimmed_prefix(s: Seq<char>, p: Seq<char>)
    requires
        s.len() > 0,
        !is_ws(s[0]),
        has_prefix(trim(strip_cr(s)), p),
    ensures
        has_prefix(s, p),
{
    let c = strip_cr(s);
    assert(c == s.take(c.len() as int));
    if c.len() > 0 {
        assert(c[0] == s[0]);
        assert(trim_start(c) == c);
    } else {
        assert(trim_start(c) == c);
    }
    lemma_trim_end_prefix(c);
    let t = trim(c);
    assert(t == c.take(t.len() as int));
    assert(p.len() <= t.len());
    assert forall|i: int| 0 <= i < p.len() implies s[i] == p[i] by {
        assert(t.subrange(0, p.len() as int)[i] == p[i]);
        assert(t[i] == c[i]);
        assert(c[i] == s[i]);
    }
    assert(s.subrange(0, p.len() as int) =~= p);
}

/// A nonempty text that is its own trim neither starts nor ends with white
/// space.
pub proof fn lemma_trim_fixed(s: Seq<char>)
    requires
        s.len() > 0,
        trim(s) == s,
    ensures
        !is_ws(s[0]),
        !is_ws(s.last()),
{
    lemma_trim_start_len(s);
    lemma_trim_end_prefix(trim_start(s));
    if is_ws(s[0]) {
        lemma_trim_start_len(s.drop_first());
        assert(trim(s).len() < s.len());
    }
    assert(trim_start(s) == s);
    if is_ws(s.last()) {
        lemma_trim_end_prefix(s.drop_last());
        assert(trim_end(s).len() < s.len());
    }
}

/// Trimming the start never makes a text longer.
proof fn lemma_trim_start_len(s: Seq<char>)
    ensures
        trim_start(s).len() <= s.len(),
    decreases s.len(),
{
    if s.len() > 0 && is_ws(s[0]) {
        lemma_trim_start_len(s.drop_first());
    }
}

/// A text that neither starts nor ends with white space is its own trim.
pub proof fn lemma_trim_clean(s: Seq<char>)
    requires
        s.len() > 0,
        !is_ws(s[0]),
        !is_ws(s.last()),
    ensures
        trim(s) == s,
{
    assert(trim_start(s) == s);
}

/// A longer run of digits never has a smaller value than its prefix.
proof fn lemma_digits_value_prefix(s: Seq<char>, i: int)
    requires
        0 <= i <= s.len(),
    ensures
        digits_value(s.take(i)) <= digits_value(s),
    decreases s.len(),
{
    if i < s.len() {
        lemma_digits_value_prefix(s.drop_last(), i);
        assert(s.drop_last().take(i) =~= s.take(i));
    } else {
        assert(s.take(i) =~= s);
    }
}

/// The subsequence from `i` drops its first element to become the one from `i + 1`.
pub proof fn lemma_suffix_step<A>(s: Seq<A>, i: int)
    requires
        0 <= i < s.len(),
    ensures
        s.subrange(i, s.len() as int).drop_first() == s.subrange(i + 1, s.len() as int),
        s.subrange(i, s.len() as int)[0] == s[i],
        s.subrange(i, s.len() as int).len() > 0,
{
    assert(s.subrange(i, s.len() as int).drop_first() =~= s.subrange(i + 1, s.len() as int));
}

// ───────────────────────────── executable code ─────────────────────────────

/// Appends one character to a `String` (std `String::push`).
#[verifier::external_body]
pub fn push_char(s: &mut String, c: char)
    ensures
        final(s)@ == old(s)@.push(c),
{
    s.push(c);
}

/// The characters of `s`, in order.
pub fn chars_of(s: &str) -> (v: Vec<char>)
    ensures
        v@ == s@,
{
    let mut v: Vec<char> = Vec::new();
    for c in it: s.chars()
        invariant
            v@ == it.seq().take(it.index() as int),
            it.seq() == s@,
    {
        v.push(c);
    }
    v
}

/// A `String` holding the characters `v`.
pub fn string_of(v: &[char]) -> (s: String)
    ensures
        s@ == v@,
{
    let mut s = String::new();
    let mut i: usize = 0;
    while i < v.len()
        invariant
            i <= v.len(),
            s@ == v@.take(i as int),
        decreases v.len() - i,
    {
        push_char(&mut s, v[i]);
        i = i + 1;
        assert(s@ =~= v@.take(i as int));
    }
    assert(v@.take(v.len() as int) =~= v@);
    s
}

/// Appends the characters `v` to `s`.
pub fn push_chars(s: &mut String, v: &[char])
    ensures
        final(s)@ == old(s)@ + v@,
{
    let ghost s0 = s@;
    let mut i: usize = 0;
    while i < v.len()
        invariant
            i <= v.len(),
            s@ == s0 + v@.take(i as int),
        decreases v.len() - i,
    {
        push_char(s, v[i]);
        i = i + 1;
        assert(s@ =~= s0 + v@.take(i as int));
    }
    assert(v@.take(v.len() as int) =~= v@);
}

/// A `String` with the characters of `s` (`str::to_string`).
pub fn owned(s: &str) -> (r: String)
    ensures
        r@ == s@,
{
    s.to_owned()
}

/// The characters `v[i..j]`.
pub fn slice_of(v: &[char], i: usize, j: usize) -> (r: Vec<char>)
    requires
        i <= j <= v.len(),
    ensures
        r@ == v@.subrange(i as int, j as int),
{
    let mut r: Vec<char> = Vec::new();
    let mut k: usize = i;
    while k < j
        invariant
            i <= k <= j <= v.len(),
            r@ == v@.subrange(i as int, k as int),
        decreases j - k,
    {
        r.push(v[k]);
        k = k + 1;
        assert(r@ =~= v@.subrange(i as int, k as int));
    }
    r
}

/// Whether `c` is white space (`char::is_whitespace`).
pub fn is_ws_exec(c: char) -> (b: bool)
    ensures
        b == is_ws(c),
{
    let u = c as u32;
    (0x09 <= u && u <= 0x0D) || u == 0x20 || u == 0x85 || u == 0xA0 || u == 0x1680
        || (0x2000 <= u && u <= 0x200A) || u == 0x2028 || u == 0x2029 || u == 0x202F
        || u == 0x205F || u == 0x3000
}

proof fn lemma_trim_start_step(s: Seq<char>, i: int)
    requires
        0 <= i < s.len(),
        is_ws(s[i]),
    ensures
        trim_start(s.subrange(i, s.len() as int)) == trim_start(s.subrange(i + 1, s.len() as int)),
{
    assert(s.subrange(i, s.len() as int).drop_first() =~= s.subrange(i + 1, s.len() as int));
}

proof fn lemma_trim_end_step(s: Seq<char>, i: int, j: int)
    requires
        0 <= i < j <= s.len(),
        is_ws(s[j - 1]),
    ensures
        trim_end(s.subrange(i, j)) == trim_end(s.subrange(i, j - 1)),
{
    assert(s.subrange(i, j).drop_last() =~= s.subrange(i, j - 1));
}

/// `v` without leading and trailing white space (`str::trim`).
pub fn trim_exec(v: &[char]) -> (r: Vec<char>)
    ensures
        r@ == trim(v@),
{
    let n = v.len();
    let mut i: usize = 0;
    assert(v@.subrange(0, n as int) =~= v@);
    while i < n && is_ws_exec(v[i])
        invariant
            i <= n == v.len(),
            trim_start(v@) == trim_start(v@.subrange(i as int, n as int)),
        decreases n - i,
    {
        proof {
            lemma_trim_start_step(v@, i as int);
        }
        i = i + 1;
    }
    assert(trim_start(v@) == v@.subrange(i as int, n as int));
    let mut j: usize = n;
    while j > i && is_ws_exec(v[j - 1])
        invariant
            i <= j <= n == v.len(),
            trim_end(v@.subrange(i as int, n as int)) == trim_end(v@.subrange(i as int, j as int)),
        decreases j - i,
    {
        proof {
            lemma_trim_end_step(v@, i as int, j as int);
        }
        j = j - 1;
    }
    slice_of(v, i, j)
}

proof fn lemma_trim_char_start_step(s: Seq<char>, c: char, i: int)
    requires
        0 <= i < s.len(),
        s[i] == c,
    ensures
        trim_start_char(s.subrange(i, s.len() as int), c) == trim_start_char(
            s.subrange(i + 1, s.len() as int),
            c,
        ),
{
    assert(s.subrange(i, s.len() as int).drop_first() =~= s.subrange(i + 1, s.len() as int));
}

proof fn lemma_trim_char_end_step(s: Seq<char>, c: char, i: int, j: int)
    requires
        0 <= i < j <= s.len(),
        s[j - 1] == c,
    ensures
        trim_end_char(s.subrange(i, j), c) == trim_end_char(s.subrange(i, j - 1), c),
{
    assert(s.subrange(i, j).drop_last() =~= s.subrange(i, j - 1));
}

/// `v` without leading and trailing copies of `c` (`str::trim_matches(c)`).
pub fn trim_char_exec(v: &[char], c: char) -> (r: Vec<char>)
    ensures
        r@ == trim_char(v@, c),
{
    let n = v.len();
    let mut i: usize = 0;
    assert(v@.subrange(0, n as int) =~= v@);
    while i < n && v[i] == c
        invariant
            i <= n == v.len(),
            trim_start_char(v@, c) == trim_start_char(v@.subrange(i as int, n as int), c),
        decreases n - i,
    {
        proof {
            lemma_trim_char_start_step(v@, c, i as int);
        }
        i = i + 1;
    }
    let mut j: usize = n;
    while j > i && v[j - 1] == c
        invariant
            i <= j <= n == v.len(),
            trim_end_char(v@.subrange(i as int, n as int), c) == trim_end_char(
                v@.subrange(i as int, j as int),
                c,
            ),
        decreases j - i,
    {
        proof {
            lemma_trim_char_end_step(v@, c, i as int, j as int);
        }
        j = j - 1;
    }
    slice_of(v, i, j)
}

/// Whether `p` occurs in `v` at position `i`.
pub fn occurs_at_exec(v: &[char], p: &[char], i: usize) -> (b: bool)
    ensures
        b == occurs_at(v@, p@, i as int),
{
    if i > v.len() || p.len() > v.len() - i {
        return false;
    }
    let mut k: usize = 0;
    while k < p.len()
        invariant
            k <= p.len(),
            i + p.len() <= v.len(),
            forall|m: int| 0 <= m < k ==> v@[i + m] == p@[m],
        decreases p.len() - k,
    {
        if v[i + k] != p[k] {
            assert(v@.subrange(i as int, i + p.len())[k as int] != p@[k as int]);
            return false;
        }
        k = k + 1;
    }
    assert(v@.subrange(i as int, i + p.len()) =~= p@);
    true
}

/// Whether `v` starts with `p` (`str::starts_with`).
pub fn has_prefix_exec(v: &[char], p: &[char]) -> (b: bool)
    ensures
        b == has_prefix(v@, p@),
{
    occurs_at_exec(v, p, 0)
}

/// Whether `v` ends with `p` (`str::ends_with`).
pub fn has_suffix_exec(v: &[char], p: &[char]) -> (b: bool)
    ensures
        b == has_suffix(v@, p@),
{
    if p.len() > v.len() {
        false
    } else {
        occurs_at_exec(v, p, v.len() - p.len())
    }
}

/// The first position of `p` in `v` (`str::find`).
pub fn find_exec(v: &[char], p: &[char]) -> (r: Option<usize>)
    ensures
        r matches Some(i) ==> find(v@, p@) == Some(i as int),
        r is None ==> find(v@, p@) is None,
{
    if p.len() > v.len() {
        return None;
    }
    let last = v.len() - p.len();
    let mut i: usize = 0;
    loop
        invariant
            p.len() <= v.len(),
            last == v.len() - p.len(),
            i <= last,
            find(v@, p@) == find_from(v@, p@, i as int),
        decreases last - i,
    {
        if occurs_at_exec(v, p, i) {
            return Some(i);
        }
        if i == last {
            assert(find_from(v@, p@, i as int + 1) is None);
            return None;
        }
        i = i + 1;
    }
}

/// Whether `p` occurs in `v` (`str::contains`).
pub fn contains_exec(v: &[char], p: &[char]) -> (b: bool)
    ensures
        b == contains(v@, p@),
{
    find_exec(v, p).is_some()
}

/// The first position of `c` in `v` (`str::find(c)`).
pub fn find_char_exec(v: &[char], c: char) -> (r: Option<usize>)
    ensures
        r matches Some(i) ==> find(v@, seq![c]) == Some(i as int) && i < v.len() && v@[i as int] == c,
        r is None ==> find(v@, seq![c]) is None,
{
    let pat = vec![c];
    assert(pat@ =~= seq![c]);
    let r = find_exec(&pat, &pat);
    let r = find_exec(v, &pat);
    proof {
        if r is Some {
            let i = r->0 as int;
            lemma_find_from_occurs(v@, seq![c], 0);
            assert(v@.subrange(i, i + 1)[0] == c);
        }
    }
    r
}

/// What `find_from` reports is an occurrence at or after `start`.
pub proof fn lemma_find_from_occurs(s: Seq<char>, p: Seq<char>, start: int)
    ensures
        find_from(s, p, start) matches Some(i) ==> start <= i && occurs_at(s, p, i),
    decreases s.len() + 1 - start,
{
    if start >= 0 && start + p.len() <= s.len() && !occurs_at(s, p, start) {
        lemma_find_from_occurs(s, p, start + 1);
    }
}

/// The last position of `c` in `v` (`str::rfind(c)`).
pub fn rfind_char_exec(v: &[char], c: char) -> (r: Option<usize>)
    ensures
        r matches Some(i) ==> rfind_char(v@, c) == Some(i as int) && i < v.len(),
        r is None ==> rfind_char(v@, c) is None,
{
    let mut n: usize = v.len();
    while n > 0
        invariant
            n <= v.len(),
            rfind_char(v@, c) == rfind_char_upto(v@, c, n as int),
        decreases n,
    {
        if v[n - 1] == c {
            return Some(n - 1);
        }
        n = n - 1;
    }
    None
}

/// The parts of `v` before and after the first `c` (`str::split_once(c)`).
pub fn split_once_exec(v: &[char], c: char) -> (r: Option<(Vec<char>, Vec<char>)>)
    ensures
        r matches Some(pair) ==> split_once(v@, c) == Some((pair.0@, pair.1@)),
        r is None ==> split_once(v@, c) is None,
{
    match find_char_exec(v, c) {
        Some(i) => Some((slice_of(v, 0, i), slice_of(v, i + 1, v.len()))),
        None => None,
    }
}

/// `v` without the prefix `p`, if it has it (`str::strip_prefix`).
pub fn strip_prefix_exec(v: &[char], p: &[char]) -> (r: Option<Vec<char>>)
    ensures
        r matches Some(x) ==> strip_prefix(v@, p@) == Some(x@),
        r is None ==> strip_prefix(v@, p@) is None,
{
    if has_prefix_exec(v, p) {
        Some(slice_of(v, p.len(), v.len()))
    } else {
        None
    }
}

/// `v` without the suffix `p`, if it has it (`str::strip_suffix`).
pub fn strip_suffix_exec(v: &[char], p: &[char]) -> (r: Option<Vec<char>>)
    ensures
        r matches Some(x) ==> strip_suffix(v@, p@) == Some(x@),
        r is None ==> strip_suffix(v@, p@) is None,
{
    if has_suffix_exec(v, p) {
        Some(slice_of(v, 0, v.len() - p.len()))
    } else {
        None
    }
}

/// Whether two character sequences are equal.
pub fn chars_eq(a: &[char], b: &[char]) -> (r: bool)
    ensures
        r == (a@ == b@),
{
    if a.len() != b.len() {
        return false;
    }
    let r = has_prefix_exec(a, b);
    assert(a@.subrange(0, b@.len() as int) =~= a@);
    r
}

/// Whether `s` has the characters of `lit`.
pub fn str_eq(s: &str, lit: &str) -> (r: bool)
    ensures
        r == (s@ == lit@),
{
    let a = chars_of(s);
    let b = chars_of(lit);
    chars_eq(&a, &b)
}

/// The character views of a sequence of character vectors.
pub open spec fn char_views(s: Seq<Vec<char>>) -> Seq<Seq<char>> {
    s.map_values(|x: Vec<char>| x@)
}

/// The character views of a sequence of strings.
pub open spec fn string_views(s: Seq<String>) -> Seq<Seq<char>> {
    s.map_values(|x: String| x@)
}

/// The digit character for `d < 10`.
pub fn digit_char_exec(d: u64) -> (c: char)
    requires
        d < 10,
    ensures
        c == digit_char(d as nat),
{
    let b: u8 = d as u8 + 48u8;
    let c = b as char;
    assert(c as u32 == b as u32);
    c
}

/// The decimal digits of `n` (`n.to_string()`).
pub fn decimal_chars(n: u64) -> (v: Vec<char>)
    ensures
        v@ == decimal(n as nat),
    decreases n,
{
    if n < 10 {
        let c = digit_char_exec(n);
        let v = vec![c];
        assert(v@ =~= seq![c]);
        v
    } else {
        let mut v = decimal_chars(n / 10);
        v.push(digit_char_exec(n % 10));
        v
    }
}

/// The decimal string of `n` (`n.to_string()`).
pub fn decimal_string(n: u64) -> (s: String)
    ensures
        s@ == decimal(n as nat),
{
    let v = decimal_chars(n);
    string_of(&v)
}

/// `v` parsed as an unsigned integer of at most `max` (`str::parse` for
/// `u16` when `max` is `u16::MAX`, for `u32` when it is `u32::MAX`).
pub fn parse_unsigned_exec(v: &[char], max: u64) -> (r: Option<u64>)
    ensures
        r matches Some(x) ==> parse_unsigned(v@, max as nat) == Some(x as nat),
        r is None ==> parse_unsigned(v@, max as nat) is None,
{
    let start: usize = if v.len() > 0 && v[0] == '+' {
        1
    } else {
        0
    };
    let body = slice_of(v, start, v.len());
    assert(start == 1 ==> body@ =~= v@.drop_first());
    assert(start == 0 ==> body@ =~= v@);
    if body.len() == 0 {
        return None;
    }
    let mut acc: u64 = 0;
    let mut i: usize = 0;
    assert(body@.take(0) =~= Seq::<char>::empty());
    while i < body.len()
        invariant
            i <= body.len(),
            body@ == unsigned_body(v@),
            all_digits(body@.take(i as int)),
            acc == digits_value(body@.take(i as int)),
            acc <= max,
        decreases body.len() - i,
    {
        let c = body[i];
        if !('0' <= c && c <= '9') {
            assert(!is_digit(body@[i as int]));
            return None;
        }
        let d: u64 = (c as u32 - '0' as u32) as u64;
        let next: u128 = acc as u128 * 10 + d as u128;
        assert(body@.take(i + 1).drop_last() =~= body@.take(i as int));
        assert(digits_value(body@.take(i + 1)) == next);
        if next > max as u128 {
            proof {
                lemma_digits_value_prefix(body@, i + 1);
            }
            return None;
        }
        acc = next as u64;
        i = i + 1;
        assert forall|k: int| 0 <= k < i implies is_digit(#[trigger] body@.take(i as int)[k]) by {
            if k < i - 1 {
                assert(body@.take(i as int)[k] == body@.take(i - 1)[k]);
            }
        }
    }
    assert(body@.take(body.len() as int) =~= body@);
    Some(acc)
}

/// The pieces of `v` between the occurrences of `c` (`str::split(c)`).
pub fn split_char_exec(v: &[char], c: char) -> (r: Vec<Vec<char>>)
    ensures
        char_views(r@) == split_char(v@, c),
{
    let mut parts: Vec<Vec<char>> = Vec::new();
    let mut rest: Vec<char> = slice_of(v, 0, v.len());
    assert(rest@ =~= v@);
    loop
        invariant
            split_char(v@, c) == char_views(parts@) + split_char(rest@, c),
        decreases rest.len(),
    {
        match find_char_exec(&rest, c) {
            Some(i) => {
                let head = slice_of(&rest, 0, i);
                let tail = slice_of(&rest, i + 1, rest.len());
                let ghost old_parts = parts@;
                let ghost old_rest = rest@;
                assert(split_char(old_rest, c) == seq![head@] + split_char(tail@, c));
                parts.push(head);
                rest = tail;
                assert(char_views(parts@) =~= char_views(old_parts) + seq![head@]);
                assert(char_views(parts@) + split_char(rest@, c) =~= char_views(old_parts) + (seq![head@] + split_char(tail@, c)));
            },
            None => {
                let ghost old_parts = parts@;
                let ghost last = rest@;
                parts.push(rest);
                assert(char_views(parts@) =~= char_views(old_parts) + seq![last]);
                return parts;
            },
        }
    }
}

/// The lines of `v` (`str::lines`).
pub fn lines_exec(v: &[char]) -> (r: Vec<Vec<char>>)
    ensures
        char_views(r@) == lines(v@),
{
    let mut out: Vec<Vec<char>> = Vec::new();
    let mut rest: Vec<char> = slice_of(v, 0, v.len());
    assert(rest@ =~= v@);
    loop
        invariant
            lines(v@) == char_views(out@) + lines(rest@),
        decreases rest.len(),
    {
        if rest.len() == 0 {
            assert(char_views(out@) + lines(rest@) =~= char_views(out@));
            return out;
        }
        let ghost old_out = out@;
        let ghost old_rest = rest@;
        match find_char_exec(&rest, '\n') {
            Some(i) => {
                let mut head = slice_of(&rest, 0, i);
                if head.len() > 0 && head[head.len() - 1] == '\r' {
                    head.pop();
                }
                let tail = slice_of(&rest, i + 1, rest.len());
                assert(head@ == strip_cr(old_rest.subrange(0, i as int)));
                out.push(head);
                rest = tail;
                assert(char_views(out@) =~= char_views(old_out) + seq![head@]);
                assert(char_views(out@) + lines(rest@) =~= char_views(old_out) + (seq![head@]
                    + lines(rest@)));
            },
            None => {
                out.push(rest);
                assert(char_views(out@) =~= char_views(old_out) + seq![old_rest]);
                return out;
            },
        }
    }
}

/// `v` padded with `fill` to at least `w` characters (`{:<w}` formatting).
pub fn pad_right_exec(v: &[char], w: usize, fill: char) -> (r: Vec<char>)
    ensures
        r@ == pad_right(v@, w as nat, fill),
{
    let mut r = slice_of(v, 0, v.len());
    assert(r@ =~= v@);
    if v.len() >= w {
        return r;
    }
    let ghost base = v@;
    while r.len() < w
        invariant
            v.len() <= r.len() <= w,
            r@ == base + Seq::new((r.len() - v.len()) as nat, |i: int| fill),
        decreases w - r.len(),
    {
        let ghost before = r@;
        r.push(fill);
        assert(r@ =~= base + Seq::new((r.len() - v.len()) as nat, |i: int| fill));
    }
    r
}

/// Appends the strings of `b` to `a`.
pub fn append_strings(a: &mut Vec<String>, b: Vec<String>)
    ensures
        string_views(final(a)@) == string_views(old(a)@) + string_views(b@),
{
    let ghost a0 = a@;
    let ghost b0 = b@;
    let mut b = b;
    a.append(&mut b);
    assert(a@ =~= a0 + b0);
    assert(string_views(a@) =~= string_views(a0) + string_views(b0));
}

/// What `str::to_lowercase` gives for `s` (Unicode lower case mapping).
pub uninterp spec fn lowercase(s: Seq<char>) -> Seq<char>;

/// What `str::to_uppercase` gives for `s` (Unicode upper case mapping).
pub uninterp spec fn uppercase(s: Seq<char>) -> Seq<char>;

/// `s` in lower case (std `str::to_lowercase`); the result is only named.
#[verifier::external_body]
pub(crate) fn to_lower(s: &str) -> (r: String)
    ensures
        r@ == lowercase(s@),
{
    s.to_lowercase()
}

/// `s` in upper case (std `str::to_uppercase`); the result is only named.
#[verifier::external_body]
pub(crate) fn to_upper(s: &str) -> (r: String)
    ensures
        r@ == uppercase(s@),
{
    s.to_uppercase()
}

/// The pieces of `parts` with `sep` between each two (`[..].join(sep)`).
pub open spec fn join_with(parts: Seq<Seq<char>>, sep: Seq<char>) -> Seq<char>
    decreases parts.len(),
{
    if parts.len() == 0 {
        Seq::empty()
    } else if parts.len() == 1 {
        parts[0]
    } else {
        join_with(parts.drop_last(), sep) + sep + parts.last()
    }
}

/// The pieces of `parts` with `sep` between each two.
pub fn join_strings(parts: &[String], sep: &str) -> (r: String)
    ensures
        r@ == join_with(string_views(parts@), sep@),
{
    let ghost pv = string_views(parts@);
    let mut r = String::new();
    let mut i: usize = 0;
    while i < parts.len()
        invariant
            i <= parts.len(),
            pv == string_views(parts@),
            r@ == join_with(pv.take(i as int), sep@),
        decreases parts.len() - i,
    {
        assert(pv.take(i + 1).drop_last() =~= pv.take(i as int));
        if i > 0 {
            r.append(sep);
        }
        r.append(parts[i].as_str());
        i = i + 1;
        proof {
            if i == 1 {
                assert(pv.take(1).len() == 1);
            }
        }
    }
    assert(pv.take(parts.len() as int) =~= pv);
    r
}

/// The decimal forms of `ports` with `sep` between each two.
pub fn join_ports(ports: &[u16], sep: &str) -> (r: String)
    ensures
        r@ == join_with(ports@.map_values(|p: u16| decimal(p as nat)), sep@),
{
    let mut parts: Vec<String> = Vec::new();
    let mut i: usize = 0;
    while i < ports.len()
        invariant
            i <= ports.len(),
            string_views(parts@) == ports@.take(i as int).map_values(|p: u16| decimal(p as nat)),
        decreases ports.len() - i,
    {
        let ghost before = parts@;
        parts.push(decimal_string(ports[i] as u64));
        assert(string_views(parts@) =~= string_views(before).push(decimal(ports@[i as int] as nat)));
        assert(ports@.take(i + 1).map_values(|p: u16| decimal(p as nat)) =~= ports@.take(i as int).map_values(
            |p: u16| decimal(p as nat),
        ).push(decimal(ports@[i as int] as nat)));
        i = i + 1;
    }
    assert(ports@.take(ports.len() as int) =~= ports@);
    join_strings(parts.as_slice(), sep)
}

/// Appends `s`, padded with spaces to at least `w` characters (`{:<w}`).
pub fn append_padded(b: &mut String, s: &str, w: usize)
    ensures
        final(b)@ == old(b)@ + pad_right(s@, w as nat, ' '),
{
    let v = pad_right_exec(&chars_of(s), w, ' ');
    push_chars(b, &v);
}

/// Appends `w` copies of `'-'` (`{:-<w}` of an empty string).
pub fn append_dashes(b: &mut String, w: usize)
    ensures
        final(b)@ == old(b)@ + pad_right(Seq::empty(), w as nat, '-'),
{
    let e: Vec<char> = Vec::new();
    let v = pad_right_exec(&e, w, '-');
    push_chars(b, &v);
}


/// Whether `a` comes strictly before `b` (`a < b` on `str`).
pub fn str_less(a: &[char], b: &[char]) -> (r: bool)
    ensures
        r == str_lt(a@, b@),
{
    let mut i: usize = 0;
    assert(a@.subrange(0, a.len() as int) =~= a@);
    assert(b@.subrange(0, b.len() as int) =~= b@);
    while i < a.len() && i < b.len()
        invariant
            i <= a.len(),
            i <= b.len(),
            str_lt(a@, b@) == str_lt(a@.subrange(i as int, a.len() as int), b@.subrange(i as int, b.len() as int)),
        decreases a.len() - i,
    {
        let ghost sa = a@.subrange(i as int, a.len() as int);
        let ghost sb = b@.subrange(i as int, b.len() as int);
        assert(sa[0] == a@[i as int]);
        assert(sb[0] == b@[i as int]);
        if a[i] != b[i] {
            return (a[i] as u32) < (b[i] as u32);
        }
        assert(sa.drop_first() =~= a@.subrange(i + 1, a.len() as int));
        assert(sb.drop_first() =~= b@.subrange(i + 1, b.len() as int));
        i = i + 1;
    }
    i >= a.len() && i < b.len()
}

} // verus!
